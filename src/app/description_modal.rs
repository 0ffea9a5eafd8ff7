use vstd::prelude::*;
use crate::app::cmd::{just, Cmd};
use crate::app::model::DescriptionModalState;
use crate::app::msg::DescriptionModalMsg;
use crate::domain::Story;
use crate::keys::{KeyCode, KeyEvent};
use tui_scrollview::ScrollViewState;

verus! {

/// The scroll position of the modal, kept by `tui_scrollview`; its fields
/// are private to that crate.
#[verifier::external_type_specification]
#[verifier::external_body]
pub struct ExScrollViewState(ScrollViewState);

/// Relies on `ScrollViewState::new`: a state at offset (0, 0).
pub assume_specification[ ScrollViewState::new ]() -> ScrollViewState;

/// Relies on `ScrollViewState::scroll_up`: one row up, saturating at 0.
pub assume_specification[ ScrollViewState::scroll_up ](s: &mut ScrollViewState);

/// Relies on `ScrollViewState::scroll_down`: one row down, saturating.
pub assume_specification[ ScrollViewState::scroll_down ](s: &mut ScrollViewState);

/// Relies on `ScrollViewState::scroll_page_up`: one page up, saturating.
pub assume_specification[ ScrollViewState::scroll_page_up ](s: &mut ScrollViewState);

/// Relies on `ScrollViewState::scroll_page_down`: one page down, saturating.
pub assume_specification[ ScrollViewState::scroll_page_down ](s: &mut ScrollViewState);

/// Relies on `ScrollViewState::scroll_to_top`: back to offset (0, 0).
pub assume_specification[ ScrollViewState::scroll_to_top ](s: &mut ScrollViewState);

/// Relies on `ScrollViewState::scroll_to_bottom`: to the last row.
pub assume_specification[ ScrollViewState::scroll_to_bottom ](s: &mut ScrollViewState);

/// The modal message a key stands for: Esc or `q` close, `j`/`k` and the
/// arrows scroll by a row, Ctrl-d/Ctrl-u and the page keys by a page, `g`
/// and `G` jump to the top and the bottom.
pub open spec fn modal_msg_of(key: KeyEvent) -> Option<DescriptionModalMsg> {
    match key.code {
        KeyCode::Esc => Some(DescriptionModalMsg::Close),
        KeyCode::Down => Some(DescriptionModalMsg::ScrollDown),
        KeyCode::Up => Some(DescriptionModalMsg::ScrollUp),
        KeyCode::PageDown => Some(DescriptionModalMsg::ScrollPageDown),
        KeyCode::PageUp => Some(DescriptionModalMsg::ScrollPageUp),
        KeyCode::Char(c) => if c == 'q' {
            Some(DescriptionModalMsg::Close)
        } else if c == 'j' {
            Some(DescriptionModalMsg::ScrollDown)
        } else if c == 'k' {
            Some(DescriptionModalMsg::ScrollUp)
        } else if c == 'd' && key.ctrl {
            Some(DescriptionModalMsg::ScrollPageDown)
        } else if c == 'u' && key.ctrl {
            Some(DescriptionModalMsg::ScrollPageUp)
        } else if c == 'g' {
            Some(DescriptionModalMsg::ScrollToTop)
        } else if c == 'G' {
            Some(DescriptionModalMsg::ScrollToBottom)
        } else {
            None
        },
        _ => None,
    }
}

/// Updates the modal. Closing hides it, forgets its story and resets the
/// scroll position; the scroll messages move the position only; opening
/// is done by `open`, which needs the story.
pub fn update(state: &mut DescriptionModalState, msg: DescriptionModalMsg) -> (r: Vec<Cmd>)
    ensures
        r@ == seq![Cmd::Noop],
        msg is Close ==> !final(state).is_showing && final(state).story.is_none(),
        msg is Open ==> *final(state) == *old(state),
        !(msg is Close) ==> final(state).is_showing == old(state).is_showing,
        !(msg is Close) ==> final(state).story == old(state).story,
{
    match msg {
        DescriptionModalMsg::Open => {},
        DescriptionModalMsg::Close => {
            state.is_showing = false;
            state.scroll_view_state = ScrollViewState::new();
            state.story = None;
        },
        DescriptionModalMsg::ScrollUp => {
            state.scroll_view_state.scroll_up();
        },
        DescriptionModalMsg::ScrollDown => {
            state.scroll_view_state.scroll_down();
        },
        DescriptionModalMsg::ScrollPageUp => {
            state.scroll_view_state.scroll_page_up();
        },
        DescriptionModalMsg::ScrollPageDown => {
            state.scroll_view_state.scroll_page_down();
        },
        DescriptionModalMsg::ScrollToTop => {
            state.scroll_view_state.scroll_to_top();
        },
        DescriptionModalMsg::ScrollToBottom => {
            state.scroll_view_state.scroll_to_bottom();
        },
    }
    just(Cmd::Noop)
}

/// Shows the modal with a story, scrolled to the top.
pub fn open(state: &mut DescriptionModalState, story: Story)
    ensures
        final(state).is_showing,
        final(state).story == Some(story),
{
    state.is_showing = true;
    state.scroll_view_state = ScrollViewState::new();
    state.story = Some(story);
}

/// The modal message for a key, if it stands for one.
pub fn key_to_msg(key: KeyEvent) -> (r: Option<DescriptionModalMsg>)
    ensures
        r == modal_msg_of(key),
{
    match key.code {
        KeyCode::Esc => Some(DescriptionModalMsg::Close),
        KeyCode::Down => Some(DescriptionModalMsg::ScrollDown),
        KeyCode::Up => Some(DescriptionModalMsg::ScrollUp),
        KeyCode::PageDown => Some(DescriptionModalMsg::ScrollPageDown),
        KeyCode::PageUp => Some(DescriptionModalMsg::ScrollPageUp),
        KeyCode::Char(c) => {
            if c == 'q' {
                Some(DescriptionModalMsg::Close)
            } else if c == 'j' {
                Some(DescriptionModalMsg::ScrollDown)
            } else if c == 'k' {
                Some(DescriptionModalMsg::ScrollUp)
            } else if c == 'd' && key.ctrl {
                Some(DescriptionModalMsg::ScrollPageDown)
            } else if c == 'u' && key.ctrl {
                Some(DescriptionModalMsg::ScrollPageUp)
            } else if c == 'g' {
                Some(DescriptionModalMsg::ScrollToTop)
            } else if c == 'G' {
                Some(DescriptionModalMsg::ScrollToBottom)
            } else {
                None
            }
        },
        _ => None,
    }
}

} // verus!
