use vstd::prelude::*;
use crate::app::cmd::{just, Cmd};
use crate::app::model::EpicPaneState;
use crate::app::msg::EpicMsg;
use crate::keys::KeyEvent;

verus! {

/// Updates the epic pane. The pane has no behaviour yet: its state is
/// left as it is and nothing is asked for.
pub fn update(state: &mut EpicPaneState, msg: EpicMsg) -> (r: Vec<Cmd>)
    ensures
        *final(state) == *old(state),
        r@ == seq![Cmd::Noop],
{
    just(Cmd::Noop)
}

/// The epic pane message for a key: no key has one yet.
pub fn key_to_msg(key: KeyEvent) -> (r: Option<EpicMsg>)
    ensures
        r.is_none(),
{
    None
}

} // verus!
