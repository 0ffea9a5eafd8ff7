use vstd::prelude::*;
use std::collections::HashSet;
use crate::app::story_list::{select_next, select_prev, toggled};
use crate::block::Selectable;
use crate::keys::{app_key_of, AppKey, KeyEvent};

verus! {

broadcast use vstd::std_specs::hash::group_hash_axioms;

/// A navigable list of entries, each known by the file it is edited in.
#[derive(Debug)]
pub struct ListPane {
    pub file_names: Vec<String>,
    pub selected_index: Option<usize>,
    pub expanded_item_indexes: HashSet<usize>,
    pub is_selected: bool,
}

/// What a key did to a list pane.
#[derive(Debug, PartialEq, Eq)]
pub struct ListKeyOutcome {
    /// The key was used and the pane is to be drawn again.
    pub handled: bool,
    /// The file to open in the editor, if the key asked for one.
    pub open_in_editor: Option<String>,
}

/// What a list pane does with a key: `p` before, `q` after, whether the
/// key was used, and the file to open, if any.
pub open spec fn list_key_post(
    p: ListPane,
    q: ListPane,
    key: KeyEvent,
    handled: bool,
    open: Option<String>,
) -> bool {
    &&& q.file_names == p.file_names
    &&& q.is_selected == p.is_selected
    &&& match app_key_of(key.code) {
        Some(AppKey::Up) => {
            &&& q.selected_index == select_prev(
                p.selected_index,
                p.file_names@.len(),
            )
            &&& q.expanded_item_indexes == p.expanded_item_indexes
            &&& handled && open.is_none()
        },
        Some(AppKey::Down) => {
            &&& q.selected_index == select_next(
                p.selected_index,
                p.file_names@.len(),
            )
            &&& q.expanded_item_indexes == p.expanded_item_indexes
            &&& handled && open.is_none()
        },
        Some(AppKey::Edit) => {
            &&& q.selected_index == p.selected_index
            &&& q.expanded_item_indexes == p.expanded_item_indexes
            &&& handled
            &&& match p.selected_index {
                Some(i) => if i < p.file_names@.len() {
                    open == Some(p.file_names@[i as int])
                } else {
                    open.is_none()
                },
                None => open.is_none(),
            }
        },
        Some(AppKey::Select) => {
            &&& q.selected_index == p.selected_index
            &&& open.is_none()
            &&& handled == p.selected_index.is_some()
            &&& match p.selected_index {
                Some(i) => q.expanded_item_indexes@ == toggled(p.expanded_item_indexes@, i),
                None => q.expanded_item_indexes == p.expanded_item_indexes,
            }
        },
        _ => {
            &&& q.selected_index == p.selected_index
            &&& q.expanded_item_indexes == p.expanded_item_indexes
            &&& !handled && open.is_none()
        },
    }
}

impl ListPane {
    /// The selection and the expanded rows refer to existing rows.
    pub open spec fn wf(&self) -> bool {
        &&& self.selected_index matches Some(i) ==> i < self.file_names@.len()
        &&& forall|k: usize| #[trigger]
            self.expanded_item_indexes@.contains(k) ==> k < self.file_names@.len()
    }

    /// A list of the given entries, nothing selected or expanded.
    pub fn new(file_names: Vec<String>) -> (r: ListPane)
        ensures
            r.wf(),
            r.file_names == file_names,
            r.selected_index.is_none(),
            r.expanded_item_indexes@ == Set::<usize>::empty(),
            !r.is_selected,
    {
        ListPane { file_names, selected_index: None, expanded_item_indexes: HashSet::new(), is_selected: false }
    }

    /// The same list starting with the given selection, if it is a row.
    pub fn with_state(self, selected_index: Option<usize>) -> (r: ListPane)
        requires
            self.wf(),
        ensures
            r.wf(),
            r.file_names == self.file_names,
            r.selected_index == match selected_index {
                Some(i) => if i < self.file_names@.len() {
                    Some(i)
                } else {
                    None
                },
                None => None,
            },
            r.expanded_item_indexes == self.expanded_item_indexes,
            r.is_selected == self.is_selected,
    {
        let n = self.file_names.len();
        let sel = match selected_index {
            Some(i) => if i < n {
                Some(i)
            } else {
                None
            },
            None => None,
        };
        ListPane { selected_index: sel, ..self }
    }

    /// Up and down move the selection, wrapping at both ends; the edit key
    /// asks to open the selected entry; the select key expands or
    /// collapses the selected row. Other keys are not used.
    pub fn handle_key_event(&mut self, key: KeyEvent) -> (r: ListKeyOutcome)
        ensures
            list_key_post(*old(self), *final(self), key, r.handled, r.open_in_editor),
    {
        let n = self.file_names.len();
        match AppKey::from_keycode(key.code) {
            Some(AppKey::Up) => {
                self.selected_index = if n == 0 {
                    None
                } else {
                    match self.selected_index {
                        None => Some(0),
                        Some(i) => if i == 0 || i >= n {
                            Some(n - 1)
                        } else {
                            Some(i - 1)
                        },
                    }
                };
                ListKeyOutcome { handled: true, open_in_editor: None }
            },
            Some(AppKey::Down) => {
                let next = if n == 0 {
                    None
                } else {
                    match self.selected_index {
                        None => Some(0),
                        Some(i) => if i < n - 1 {
                            Some(i + 1)
                        } else {
                            Some(0)
                        },
                    }
                };
                self.selected_index = next;
                ListKeyOutcome { handled: true, open_in_editor: None }
            },
            Some(AppKey::Edit) => {
                let open = match self.selected_index {
                    Some(i) => if i < n {
                        Some(self.file_names[i].clone())
                    } else {
                        None
                    },
                    None => None,
                };
                ListKeyOutcome { handled: true, open_in_editor: open }
            },
            Some(AppKey::Select) => {
                match self.selected_index {
                    Some(i) => {
                        if self.expanded_item_indexes.contains(&i) {
                            self.expanded_item_indexes.remove(&i);
                            assert(self.expanded_item_indexes@ =~= toggled(
                                old(self).expanded_item_indexes@,
                                i,
                            ));
                        } else {
                            self.expanded_item_indexes.insert(i);
                        }
                        ListKeyOutcome { handled: true, open_in_editor: None }
                    },
                    None => ListKeyOutcome { handled: false, open_in_editor: None },
                }
            },
            _ => ListKeyOutcome { handled: false, open_in_editor: None },
        }
    }
}

impl Selectable for ListPane {
    open spec fn selected_view(&self) -> bool {
        self.is_selected
    }

    fn is_selected(&self) -> (r: bool) {
        self.is_selected
    }

    /// Focusing a list with rows and no selection selects its first row.
    fn select(&mut self)
        ensures
            final(self).file_names == old(self).file_names,
            final(self).expanded_item_indexes == old(self).expanded_item_indexes,
            final(self).selected_index == if old(self).selected_index.is_none()
                && old(self).file_names@.len() > 0 {
                Some(0usize)
            } else {
                old(self).selected_index
            },
    {
        self.is_selected = true;
        if self.selected_index.is_none() && self.file_names.len() > 0 {
            self.selected_index = Some(0);
        }
    }

    /// Leaving a list drops its selection.
    fn unselect(&mut self)
        ensures
            final(self).file_names == old(self).file_names,
            final(self).expanded_item_indexes == old(self).expanded_item_indexes,
            final(self).selected_index.is_none(),
    {
        self.is_selected = false;
        self.selected_index = None;
    }
}

} // verus!
