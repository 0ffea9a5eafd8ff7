use vstd::prelude::*;
use crate::block::{counter_key_post, CounterBlock, ParagraphBlock, Selectable};
use crate::keys::{app_key_of, AppKey, KeyEvent};
use crate::pane::{list_key_post, ListPane};

verus! {

/// The axis along which a view lays out its sections.
#[derive(Debug, Clone, Copy, PartialEq, Eq, Structural)]
pub enum Direction {
    Horizontal,
    Vertical,
}

/// How much room a section takes along its view's axis.
#[derive(Debug, Clone, Copy, PartialEq, Eq, Structural)]
pub enum Constraint {
    Ratio(u32, u32),
    Percentage(u16),
    Length(u16),
    Min(u16),
    Max(u16),
    Fill(u16),
}

/// What a section holds: a leaf pane or a nested view.
#[derive(Debug)]
pub enum ViewSection {
    List(ListPane),
    Counter(CounterBlock),
    Paragraph(ParagraphBlock),
    Nested(Box<ViewTree>),
}

/// A part of a view: its content, its room and whether it can take the
/// focus.
#[derive(Debug)]
pub struct Section {
    pub view_section: ViewSection,
    pub constraint: Constraint,
    pub is_selectable: bool,
}

/// A node of the view tree: sections laid out along one axis, one of them
/// the selected one.
#[derive(Debug)]
pub struct ViewTree {
    pub sections: Vec<Section>,
    pub selected_section: usize,
    pub last_selected_section: usize,
    pub is_selected: bool,
    pub direction: Direction,
}

/// The keys that move the selection between a view's sections: left and
/// right across a horizontal view, up and down a vertical one.
pub open spec fn nav_step(direction: Direction, key: KeyEvent) -> Option<bool> {
    match (direction, app_key_of(key.code)) {
        (Direction::Horizontal, Some(AppKey::Right)) => Some(true),
        (Direction::Horizontal, Some(AppKey::Left)) => Some(false),
        (Direction::Vertical, Some(AppKey::Down)) => Some(true),
        (Direction::Vertical, Some(AppKey::Up)) => Some(false),
        _ => None,
    }
}

/// How many steps it takes to go from section `from` to section `j` in a
/// view of `n` sections, forward or backward, wrapping around.
pub open spec fn steps(from: int, j: int, forward: bool, n: int) -> int {
    if forward {
        if j >= from {
            j - from
        } else {
            j - from + n
        }
    } else {
        if from >= j {
            from - j
        } else {
            from - j + n
        }
    }
}

/// `r` is the first selectable section met when stepping from `from`, or
/// `from` itself when no other section is selectable.
pub open spec fn is_next_selectable(s: Seq<Section>, from: int, forward: bool, r: int) -> bool {
    let n = s.len() as int;
    &&& 0 <= r < n
    &&& r == from ==> forall|j: int| 0 <= j < n && j != from ==> !(#[trigger] s[j]).is_selectable
    &&& r != from ==> {
        &&& s[r].is_selectable
        &&& forall|j: int|
            0 <= j < n && 0 < steps(from, j, forward, n) < steps(from, r, forward, n)
                ==> !(#[trigger] s[j]).is_selectable
    }
}

/// Whether a leaf leaves a key to its view: a list uses up, down and edit,
/// and select while a row is selected; a counter uses up and down; static
/// text uses none. A nested view decides for itself.
pub open spec fn leaf_passes(s: ViewSection, key: KeyEvent) -> bool {
    match s {
        ViewSection::List(p) => match app_key_of(key.code) {
            Some(AppKey::Up) => false,
            Some(AppKey::Down) => false,
            Some(AppKey::Edit) => false,
            Some(AppKey::Select) => p.selected_index.is_none(),
            _ => true,
        },
        ViewSection::Counter(_) => match app_key_of(key.code) {
            Some(AppKey::Up) => false,
            Some(AppKey::Down) => false,
            _ => true,
        },
        ViewSection::Paragraph(_) => true,
        ViewSection::Nested(_) => false,
    }
}

/// There is one first selectable section in each direction.
proof fn lemma_next_selectable_unique(s: Seq<Section>, from: int, forward: bool, r1: int, r2: int)
    requires
        0 <= from < s.len(),
        is_next_selectable(s, from, forward, r1),
        is_next_selectable(s, from, forward, r2),
    ensures
        r1 == r2,
{
    let n = s.len() as int;
    if r1 != r2 {
        if r1 != from && r2 != from {
            let d1 = steps(from, r1, forward, n);
            let d2 = steps(from, r2, forward, n);
            assert(d1 != d2);
            if d1 < d2 {
                assert(!s[r1].is_selectable);
            } else {
                assert(!s[r2].is_selectable);
            }
        } else if r1 == from {
            assert(!s[r2].is_selectable);
        } else {
            assert(!s[r1].is_selectable);
        }
    }
}

/// What a key did to a node of the view tree.
#[derive(Debug, PartialEq, Eq)]
pub struct KeyOutcome {
    /// The key was used and the tree is to be drawn again.
    pub handled: bool,
    /// The file to open in the editor, if the key asked for one.
    pub open_in_editor: Option<String>,
}

impl ViewSection {
    /// Whether the section's content holds the focus.
    pub open spec fn selected_view(&self) -> bool {
        match self {
            ViewSection::List(p) => p.is_selected,
            ViewSection::Counter(c) => c.selected,
            ViewSection::Paragraph(p) => p.is_selected,
            ViewSection::Nested(v) => v.is_selected,
        }
    }

    /// Gives the content the focus.
    pub fn select(&mut self)
        ensures
            final(self).selected_view(),
        decreases *old(self),
    {
        match self {
            ViewSection::List(p) => p.select(),
            ViewSection::Counter(c) => c.select(),
            ViewSection::Paragraph(p) => p.select(),
            ViewSection::Nested(v) => v.select(),
        }
    }

    /// Takes the focus from the content.
    pub fn unselect(&mut self)
        ensures
            !final(self).selected_view(),
        decreases *old(self),
    {
        match self {
            ViewSection::List(p) => p.unselect(),
            ViewSection::Counter(c) => c.unselect(),
            ViewSection::Paragraph(p) => p.unselect(),
            ViewSection::Nested(v) => v.unselect(),
        }
    }
}

/// Whether a section's content uses a key: a leaf unless `leaf_passes`
/// says otherwise, a nested view when its selected section uses the key or
/// the key moves its selection.
pub open spec fn section_uses(s: ViewSection, key: KeyEvent) -> bool
    decreases s,
{
    match s {
        ViewSection::Nested(v) => tree_uses(*v, key),
        _ => !leaf_passes(s, key),
    }
}

/// Some section other than `i` can take the focus.
pub open spec fn has_other_selectable(s: Seq<Section>, i: int) -> bool {
    exists|j: int| 0 <= j < s.len() && j != i && (#[trigger] s[j]).is_selectable
}

/// Whether a view uses a key: its selected section does, or the key is the
/// view's navigation key and another section can take the focus.
pub open spec fn tree_uses(v: ViewTree, key: KeyEvent) -> bool
    decreases v,
{
    let i = v.selected_section as int;
    if 0 <= i < v.sections@.len() {
        section_uses(v.sections@[i].view_section, key) || (nav_step(v.direction, key) is Some
            && has_other_selectable(v.sections@, i))
    } else {
        false
    }
}

/// What a section's content does with a key: `s` before, `t` after, `r`
/// the outcome. A key the content does not use changes nothing; a list or a
/// counter acts as its own handler says; a nested view routes the key on.
pub open spec fn section_key_post(s: ViewSection, t: ViewSection, key: KeyEvent, r: KeyOutcome) -> bool
    decreases s,
{
    &&& r.handled == section_uses(s, key)
    &&& !r.handled ==> t == s && r.open_in_editor.is_none()
    &&& match s {
        ViewSection::List(p) => t matches ViewSection::List(q) && list_key_post(
            p,
            q,
            key,
            r.handled,
            r.open_in_editor,
        ),
        ViewSection::Counter(c) => t matches ViewSection::Counter(d) && counter_key_post(c, d, key)
            && r.open_in_editor.is_none(),
        ViewSection::Paragraph(_) => true,
        ViewSection::Nested(v) => t matches ViewSection::Nested(w) && tree_key_post(*v, *w, key, r),
    }
}

/// What a view does with a key: `o` before, `n` after, `r` the outcome. A
/// key the view does not use changes nothing. A key its selected section
/// uses goes to that section alone. Otherwise the key moves the selection
/// to the next selectable section that way: the section left loses the
/// focus, the one reached gets it, and no other section changes.
pub open spec fn tree_key_post(o: ViewTree, n: ViewTree, key: KeyEvent, r: KeyOutcome) -> bool
    decreases o,
{
    let len = o.sections@.len();
    let i = o.selected_section as int;
    &&& r.handled == tree_uses(o, key)
    &&& !r.handled ==> n == o && r.open_in_editor.is_none()
    &&& r.handled ==> {
        &&& n.sections@.len() == len
        &&& n.is_selected == o.is_selected
        &&& n.direction == o.direction
        &&& if section_uses(o.sections@[i].view_section, key) {
            &&& n.selected_section == o.selected_section
            &&& n.last_selected_section == o.last_selected_section
            &&& n.sections@ == o.sections@.update(
                i,
                Section { view_section: n.sections@[i].view_section, ..o.sections@[i] },
            )
            &&& section_key_post(o.sections@[i].view_section, n.sections@[i].view_section, key, r)
        } else {
            let j = n.selected_section as int;
            &&& nav_step(o.direction, key) matches Some(forward)
            &&& is_next_selectable(o.sections@, i, forward, j)
            &&& j != i
            &&& n.last_selected_section == o.selected_section
            &&& r.open_in_editor.is_none()
            &&& forall|k: int|
                0 <= k < len && k != i && k != j ==> #[trigger] n.sections@[k] == o.sections@[k]
            &&& n.sections@[i].constraint == o.sections@[i].constraint
            &&& n.sections@[i].is_selectable == o.sections@[i].is_selectable
            &&& !n.sections@[i].view_section.selected_view()
            &&& n.sections@[j].constraint == o.sections@[j].constraint
            &&& n.sections@[j].is_selectable == o.sections@[j].is_selectable
            &&& n.sections@[j].view_section.selected_view()
        }
    }
}

impl ViewSection {
    /// Whether the content uses a key; see `section_uses`.
    pub fn uses_key(&self, key: KeyEvent) -> (r: bool)
        ensures
            r == section_uses(*self, key),
        decreases *self,
    {
        match self {
            ViewSection::List(p) => match AppKey::from_keycode(key.code) {
                Some(AppKey::Up) => true,
                Some(AppKey::Down) => true,
                Some(AppKey::Edit) => true,
                Some(AppKey::Select) => p.selected_index.is_some(),
                _ => false,
            },
            ViewSection::Counter(_) => match AppKey::from_keycode(key.code) {
                Some(AppKey::Up) => true,
                Some(AppKey::Down) => true,
                _ => false,
            },
            ViewSection::Paragraph(_) => false,
            ViewSection::Nested(v) => v.uses_key(key),
        }
    }

    /// Hands a key to the content: a list or a counter uses its own keys,
    /// static text none, a nested view routes it on.
    pub fn handle_key_event(&mut self, key: KeyEvent) -> (r: KeyOutcome)
        ensures
            section_key_post(*old(self), *final(self), key, r),
            final(self).selected_view() == old(self).selected_view(),
        decreases *old(self),
    {
        match self {
            ViewSection::List(p) => {
                let o = p.handle_key_event(key);
                KeyOutcome { handled: o.handled, open_in_editor: o.open_in_editor }
            },
            ViewSection::Counter(c) => {
                c.handle_key_event(&key);
                let handled = match AppKey::from_keycode(key.code) {
                    Some(AppKey::Up) => true,
                    Some(AppKey::Down) => true,
                    _ => false,
                };
                KeyOutcome { handled, open_in_editor: None }
            },
            ViewSection::Paragraph(_) => KeyOutcome { handled: false, open_in_editor: None },
            ViewSection::Nested(v) => v.handle_key_event(key),
        }
    }
}

impl ViewTree {
    /// The selected section is a selectable one, when there are sections.
    pub open spec fn wf(&self) -> bool {
        self.sections@.len() > 0 ==> {
            &&& self.selected_section < self.sections@.len()
            &&& (self.sections@[self.selected_section as int].is_selectable || forall|j: int|
                0 <= j < self.sections@.len() ==> !(#[trigger] self.sections@[j]).is_selectable)
        }
    }

    /// The first selectable section after (or before) section `from`, with
    /// wrap-around; `from` itself when there is no other.
    pub fn next_selectable(&self, from: usize, forward: bool) -> (r: usize)
        requires
            from < self.sections@.len(),
        ensures
            is_next_selectable(self.sections@, from as int, forward, r as int),
    {
        let n = self.sections.len();
        let mut k: usize = 1;
        while k < n
            invariant
                n == self.sections@.len(),
                from < n,
                1 <= k <= n,
                forall|j: int|
                    0 <= j < n && 0 < steps(from as int, j, forward, n as int) < k
                        ==> !(#[trigger] self.sections@[j]).is_selectable,
            decreases n - k,
        {
            let j = if forward {
                if k <= n - 1 - from {
                    from + k
                } else {
                    k - (n - from)
                }
            } else {
                if k <= from {
                    from - k
                } else {
                    n - (k - from)
                }
            };
            assert(steps(from as int, j as int, forward, n as int) == k);
            if self.sections[j].is_selectable {
                return j;
            }
            k = k + 1;
        }
        assert forall|j: int| 0 <= j < n && j != from implies !(#[trigger] self.sections@[j]).is_selectable by {
            assert(0 < steps(from as int, j, forward, n as int) < n);
        }
        from
    }

    /// Which way this view's navigation key moves the selection, if the
    /// key is one.
    pub fn nav_forward(&self, key: KeyEvent) -> (r: Option<bool>)
        ensures
            r == nav_step(self.direction, key),
    {
        match AppKey::from_keycode(key.code) {
            Some(AppKey::Right) => match self.direction {
                Direction::Horizontal => Some(true),
                Direction::Vertical => None,
            },
            Some(AppKey::Left) => match self.direction {
                Direction::Horizontal => Some(false),
                Direction::Vertical => None,
            },
            Some(AppKey::Down) => match self.direction {
                Direction::Vertical => Some(true),
                Direction::Horizontal => None,
            },
            Some(AppKey::Up) => match self.direction {
                Direction::Vertical => Some(false),
                Direction::Horizontal => None,
            },
            _ => None,
        }
    }

    /// Whether the view uses a key; see `tree_uses`.
    pub fn uses_key(&self, key: KeyEvent) -> (r: bool)
        ensures
            r == tree_uses(*self, key),
        decreases *self,
    {
        let i = self.selected_section;
        if i >= self.sections.len() {
            return false;
        }
        assert(decreases_to!(*self => self.sections));
        if self.sections[i].view_section.uses_key(key) {
            return true;
        }
        match self.nav_forward(key) {
            None => false,
            Some(forward) => {
                let j = self.next_selectable(i, forward);
                if j != i {
                    assert(self.sections@[j as int].is_selectable);
                }
                j != i
            },
        }
    }

    /// Routes a key: the selected section gets it if it uses it; otherwise,
    /// if it is this view's navigation key, the selection moves to the next
    /// selectable section that way, which takes the focus from the one
    /// before. See `tree_key_post`.
    pub fn handle_key_event(&mut self, key: KeyEvent) -> (r: KeyOutcome)
        ensures
            tree_key_post(*old(self), *final(self), key, r),
            forall|j: int|
                0 <= j < old(self).sections@.len() ==> (#[trigger] final(self).sections@[j]).is_selectable
                    == old(self).sections@[j].is_selectable,
            old(self).wf() ==> final(self).wf(),
        decreases *old(self),
    {
        let i = self.selected_section;
        let n = self.sections.len();
        if i >= n {
            return KeyOutcome { handled: false, open_in_editor: None };
        }
        if self.sections[i].view_section.uses_key(key) {
            let mut s = self.sections.remove(i);
            assert(decreases_to!(*old(self) => old(self).sections));
            let outcome = s.view_section.handle_key_event(key);
            self.sections.insert(i, s);
            assert(self.sections@ =~= old(self).sections@.update(
                i as int,
                Section { view_section: self.sections@[i as int].view_section, ..old(self).sections@[i as int] },
            ));
            return outcome;
        }
        match self.nav_forward(key) {
            None => KeyOutcome { handled: false, open_in_editor: None },
            Some(forward) => {
                let j = self.next_selectable(i, forward);
                if j == i {
                    return KeyOutcome { handled: false, open_in_editor: None };
                }
                assert(self.sections@[j as int].is_selectable);
                let mut old_section = self.sections.remove(i);
                old_section.view_section.unselect();
                self.sections.insert(i, old_section);
                let mut new_section = self.sections.remove(j);
                new_section.view_section.select();
                self.sections.insert(j, new_section);
                self.last_selected_section = i;
                self.selected_section = j;
                assert forall|k: int|
                    0 <= k < n && k != i && k != j implies #[trigger] self.sections@[k]
                    == old(self).sections@[k] by {}
                KeyOutcome { handled: true, open_in_editor: None }
            },
        }
    }

    /// Gives the view and its selected section the focus.
    pub fn select(&mut self)
        ensures
            final(self).is_selected,
            final(self).selected_section == old(self).selected_section,
            final(self).last_selected_section == old(self).last_selected_section,
            final(self).direction == old(self).direction,
            old(self).selected_section >= old(self).sections@.len() ==> final(self).sections@ == old(
                self,
            ).sections@,
            old(self).selected_section < old(self).sections@.len() ==> {
                let i = old(self).selected_section as int;
                &&& final(self).sections@[i].view_section.selected_view()
                &&& final(self).sections@ == old(self).sections@.update(
                    i,
                    Section { view_section: final(self).sections@[i].view_section, ..old(self).sections@[i] },
                )
            },
        decreases *old(self),
    {
        self.is_selected = true;
        let i = self.selected_section;
        if i < self.sections.len() {
            let mut s = self.sections.remove(i);
            assert(decreases_to!(*old(self) => old(self).sections));
            s.view_section.select();
            self.sections.insert(i, s);
            assert(self.sections@ =~= old(self).sections@.update(
                i as int,
                Section { view_section: self.sections@[i as int].view_section, ..old(self).sections@[i as int] },
            ));
        }
    }

    /// Takes the focus from the view and its selected section.
    pub fn unselect(&mut self)
        ensures
            !final(self).is_selected,
            final(self).selected_section == old(self).selected_section,
            final(self).last_selected_section == old(self).last_selected_section,
            final(self).direction == old(self).direction,
            old(self).selected_section >= old(self).sections@.len() ==> final(self).sections@ == old(
                self,
            ).sections@,
            old(self).selected_section < old(self).sections@.len() ==> {
                let i = old(self).selected_section as int;
                &&& !final(self).sections@[i].view_section.selected_view()
                &&& final(self).sections@ == old(self).sections@.update(
                    i,
                    Section { view_section: final(self).sections@[i].view_section, ..old(self).sections@[i] },
                )
            },
        decreases *old(self),
    {
        self.is_selected = false;
        let i = self.selected_section;
        if i < self.sections.len() {
            let mut s = self.sections.remove(i);
            assert(decreases_to!(*old(self) => old(self).sections));
            s.view_section.unselect();
            self.sections.insert(i, s);
            assert(self.sections@ =~= old(self).sections@.update(
                i as int,
                Section { view_section: self.sections@[i as int].view_section, ..old(self).sections@[i as int] },
            ));
        }
    }
}

/// Builds a view tree section by section.
#[derive(Debug)]
pub struct ViewBuilder {
    pub sections: Vec<Section>,
    pub is_selected: bool,
    pub direction: Direction,
}

/// A section that takes an equal share of the room.
pub open spec fn section_of(view_section: ViewSection, is_selectable: bool) -> Section {
    Section { view_section, constraint: Constraint::Ratio(1, 1), is_selectable }
}

impl ViewBuilder {
    /// No sections, not selected, laid out vertically.
    pub fn new() -> (r: ViewBuilder)
        ensures
            r.sections@.len() == 0,
            !r.is_selected,
            r.direction == Direction::Vertical,
    {
        ViewBuilder { sections: Vec::new(), is_selected: false, direction: Direction::Vertical }
    }

    /// A builder holding the given contents as selectable sections with
    /// equal shares.
    pub fn from_sections(sections: Vec<ViewSection>) -> (r: ViewBuilder)
        ensures
            r.sections@.len() == sections@.len(),
            forall|i: int| 0 <= i < sections@.len() ==> #[trigger] r.sections@[i] == section_of(sections@[i], true),
            !r.is_selected,
            r.direction == Direction::Vertical,
    {
        let b = ViewBuilder::new();
        let r = b.add_sections(sections);
        assert forall|i: int| 0 <= i < sections@.len() implies #[trigger] r.sections@[i] == section_of(sections@[i], true) by {
            assert(r.sections@[0 + i] == section_of(sections@[i], true));
        }
        r
    }

    /// The same builder laid out along `direction`.
    pub fn direction(self, direction: Direction) -> (r: ViewBuilder)
        ensures
            r == (ViewBuilder { direction, ..self }),
    {
        ViewBuilder { direction, ..self }
    }

    /// The same builder, its view selected.
    pub fn select(self) -> (r: ViewBuilder)
        ensures
            r == (ViewBuilder { is_selected: true, ..self }),
    {
        ViewBuilder { is_selected: true, ..self }
    }

    /// Adds a selectable section with an equal share.
    pub fn add_selectable(self, section: ViewSection) -> (r: ViewBuilder)
        ensures
            r.sections@ == self.sections@.push(section_of(section, true)),
            r.is_selected == self.is_selected,
            r.direction == self.direction,
    {
        self.add_selectable_with_constraint(section, Constraint::Ratio(1, 1))
    }

    /// Adds a selectable section with the given room.
    pub fn add_selectable_with_constraint(self, section: ViewSection, constraint: Constraint) -> (r: ViewBuilder)
        ensures
            r.sections@ == self.sections@.push(
                Section { view_section: section, constraint, is_selectable: true },
            ),
            r.is_selected == self.is_selected,
            r.direction == self.direction,
    {
        let mut b = self;
        b.sections.push(Section { view_section: section, constraint, is_selectable: true });
        b
    }

    /// Adds a section that never takes the focus, with an equal share.
    pub fn add_non_selectable(self, section: ViewSection) -> (r: ViewBuilder)
        ensures
            r.sections@ == self.sections@.push(section_of(section, false)),
            r.is_selected == self.is_selected,
            r.direction == self.direction,
    {
        self.add_non_selectable_with_constraint(section, Constraint::Ratio(1, 1))
    }

    /// Adds a section that never takes the focus, with the given room.
    pub fn add_non_selectable_with_constraint(self, section: ViewSection, constraint: Constraint) -> (r: ViewBuilder)
        ensures
            r.sections@ == self.sections@.push(
                Section { view_section: section, constraint, is_selectable: false },
            ),
            r.is_selected == self.is_selected,
            r.direction == self.direction,
    {
        let mut b = self;
        b.sections.push(Section { view_section: section, constraint, is_selectable: false });
        b
    }

    /// Adds each content as a selectable section with an equal share, in
    /// order.
    pub fn add_sections(self, sections: Vec<ViewSection>) -> (r: ViewBuilder)
        ensures
            r.sections@.len() == self.sections@.len() + sections@.len(),
            forall|i: int| 0 <= i < self.sections@.len() ==> #[trigger] r.sections@[i] == self.sections@[i],
            forall|i: int| 0 <= i < sections@.len() ==> #[trigger] r.sections@[self.sections@.len() + i] == section_of(sections@[i], true),
            r.is_selected == self.is_selected,
            r.direction == self.direction,
    {
        let ghost start = self.sections@;
        let ghost all = sections@;
        let mut b = self;
        let total = sections.len();
        let mut rest = sections;
        let mut k: usize = 0;
        while rest.len() > 0
            invariant
                all.len() == total,
                rest@ == all.subrange(k as int, all.len() as int),
                k <= all.len(),
                b.sections@.len() == start.len() + k,
                b.is_selected == self.is_selected,
                b.direction == self.direction,
                forall|i: int| 0 <= i < start.len() ==> #[trigger] b.sections@[i] == start[i],
                forall|i: int| 0 <= i < k ==> #[trigger] b.sections@[start.len() + i] == section_of(all[i], true),
            decreases rest@.len(),
        {
            let section = rest.remove(0);
            assert(section == all[k as int]);
            assert(rest@ =~= all.subrange(k + 1, all.len() as int));
            b = b.add_selectable(section);
            k = k + 1;
        }
        b
    }

    /// The view: the first selectable section, if any, is the selected one
    /// and takes the focus.
    pub fn build(self) -> (r: ViewTree)
        ensures
            r.wf(),
            r.sections@.len() == self.sections@.len(),
            forall|j: int| 0 <= j < self.sections@.len() ==> (#[trigger] r.sections@[j]).is_selectable
                == self.sections@[j].is_selectable,
            r.is_selected == self.is_selected,
            r.direction == self.direction,
            r.last_selected_section == 0,
            forall|j: int| 0 <= j < r.selected_section ==> !(#[trigger] self.sections@[j]).is_selectable,
            r.selected_section < self.sections@.len() && self.sections@[r.selected_section as int].is_selectable
                ==> {
                let i = r.selected_section as int;
                &&& r.sections@[i].view_section.selected_view()
                &&& r.sections@ == self.sections@.update(
                    i,
                    Section { view_section: r.sections@[i].view_section, ..self.sections@[i] },
                )
            },
            (forall|j: int| 0 <= j < self.sections@.len() ==> !(#[trigger] self.sections@[j]).is_selectable)
                ==> r.selected_section == 0 && r.sections@ == self.sections@,
    {
        let mut b = self;
        let n = b.sections.len();
        let mut f: usize = 0;
        while f < n && !b.sections[f].is_selectable
            invariant
                f <= n,
                n == b.sections@.len(),
                b == self,
                forall|j: int| 0 <= j < f ==> !(#[trigger] b.sections@[j]).is_selectable,
            decreases n - f,
        {
            f = f + 1;
        }
        let selected_section = if f < n {
            let mut s = b.sections.remove(f);
            s.view_section.select();
            b.sections.insert(f, s);
            assert(b.sections@ =~= self.sections@.update(
                f as int,
                Section { view_section: b.sections@[f as int].view_section, ..self.sections@[f as int] },
            ));
            f
        } else {
            0
        };
        ViewTree {
            sections: b.sections,
            selected_section,
            last_selected_section: 0,
            is_selected: b.is_selected,
            direction: b.direction,
        }
    }
}

} // verus!
