use vstd::prelude::*;
use crate::keys::{app_key_of, AppKey, KeyEvent};

verus! {

/// The focus capability every pane-like node has.
pub trait Selectable {
    /// Whether the node holds the focus.
    spec fn selected_view(&self) -> bool;

    fn is_selected(&self) -> (r: bool)
        ensures
            r == self.selected_view(),
    ;

    /// Gives the node the focus; doing it twice is the same as once.
    fn select(&mut self)
        ensures
            final(self).selected_view(),
    ;

    /// Takes the focus from the node; doing it twice is the same as once.
    fn unselect(&mut self)
        ensures
            !final(self).selected_view(),
    ;
}

/// A counter from 0 to 9 moved with the up and down keys.
#[derive(Debug)]
pub struct CounterBlock {
    pub selected: bool,
    pub counter: u8,
    pub err_msg: Option<String>,
}

/// What a counter does with a key: `c` before, `d` after. Up counts up and
/// down counts down, within 0 to 9; a step past either end keeps the count
/// and sets an error message, a step within clears it; other keys change
/// nothing.
pub open spec fn counter_key_post(c: CounterBlock, d: CounterBlock, key: KeyEvent) -> bool {
    &&& d.selected == c.selected
    &&& match app_key_of(key.code) {
        Some(AppKey::Up) => if c.counter >= 9 {
            &&& d.counter == c.counter
            &&& d.err_msg matches Some(m)
            &&& m@ == "Can't go to double digits"@
        } else {
            d.counter == c.counter + 1 && d.err_msg.is_none()
        },
        Some(AppKey::Down) => if c.counter == 0 {
            &&& d.counter == 0
            &&& d.err_msg matches Some(m)
            &&& m@ == "Can't go below zero"@
        } else {
            d.counter == c.counter - 1 && d.err_msg.is_none()
        },
        _ => d == c,
    }
}

impl CounterBlock {
    /// A counter at 0, not focused, with no error.
    pub fn new() -> (r: CounterBlock)
        ensures
            !r.selected,
            r.counter == 0,
            r.err_msg.is_none(),
    {
        CounterBlock { selected: false, counter: 0, err_msg: None }
    }

    /// Up counts up and down counts down, within 0 to 9; a step past
    /// either end leaves the counter and sets an error message, a step
    /// within clears it. Other keys change nothing.
    pub fn handle_key_event(&mut self, event: &KeyEvent)
        ensures
            counter_key_post(*old(self), *final(self), *event),
    {
        match AppKey::from_keycode(event.code) {
            Some(AppKey::Up) => {
                if self.counter >= 9 {
                    self.err_msg = Some(String::from_str("Can't go to double digits"));
                } else {
                    self.counter = self.counter + 1;
                    self.err_msg = None;
                }
            },
            Some(AppKey::Down) => {
                if self.counter == 0 {
                    self.err_msg = Some(String::from_str("Can't go below zero"));
                } else {
                    self.counter = self.counter - 1;
                    self.err_msg = None;
                }
            },
            _ => {},
        }
    }
}

impl Selectable for CounterBlock {
    open spec fn selected_view(&self) -> bool {
        self.selected
    }

    fn is_selected(&self) -> (r: bool) {
        self.selected
    }

    fn select(&mut self) {
        self.selected = true;
    }

    fn unselect(&mut self) {
        self.selected = false;
    }
}

/// A block of static text lines.
#[derive(Debug)]
pub struct ParagraphBlock {
    pub lines: Vec<String>,
    pub is_selected: bool,
}

impl ParagraphBlock {
    /// Text telling that the GitHub CLI cannot be found.
    pub fn cli_not_installed() -> (r: ParagraphBlock)
        ensures
            r.lines@.len() == 1,
            !r.is_selected,
    {
        let mut lines: Vec<String> = Vec::new();
        lines.push(
            String::from_str(
                " GitHub CLI ('gh') is not installed or not found in PATH. Please install it and ensure it is accessible from your command line. ",
            ),
        );
        ParagraphBlock { lines, is_selected: false }
    }

    /// Text telling that no API token is set.
    pub fn not_authenticated() -> (r: ParagraphBlock)
        ensures
            r.lines@.len() == 1,
            !r.is_selected,
    {
        let mut lines: Vec<String> = Vec::new();
        lines.push(
            String::from_str(
                " The SHORTCUT_API_TOKEN environment variable is not set. Please set it to your Shortcut API token to authenticate. ",
            ),
        );
        ParagraphBlock { lines, is_selected: false }
    }

    /// The key bindings: counting, moving between panes and quitting.
    pub fn instructions() -> (r: ParagraphBlock)
        ensures
            r.lines@.len() == 3,
            !r.is_selected,
    {
        let mut lines: Vec<String> = Vec::new();
        lines.push(String::from_str(" Decrement: k Increment: j"));
        lines.push(String::from_str(" Left: h Right: l"));
        lines.push(String::from_str(" Quit: <Q> "));
        ParagraphBlock { lines, is_selected: false }
    }
}

impl Selectable for ParagraphBlock {
    open spec fn selected_view(&self) -> bool {
        self.is_selected
    }

    fn is_selected(&self) -> (r: bool) {
        self.is_selected
    }

    fn select(&mut self) {
        self.is_selected = true;
    }

    fn unselect(&mut self) {
        self.is_selected = false;
    }
}

} // verus!
