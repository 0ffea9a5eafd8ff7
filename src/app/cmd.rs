use vstd::prelude::*;

verus! {

/// A request for a side effect, carried out by the executor after an update.
#[derive(Debug, PartialEq, Eq)]
pub enum Cmd {
    /// Nothing to do.
    Noop,
    /// Persist the cache.
    WriteCache,
    /// Fetch the stories of an iteration.
    FetchStories { iteration_id: i64 },
    /// Open the note of a story in the editor.
    OpenNote { story_id: i64, story_name: String, story_iteration_id: Option<i64> },
}

/// A list of one command.
pub fn just(c: Cmd) -> (r: Vec<Cmd>)
    ensures
        r@ == seq![c],
{
    let mut v: Vec<Cmd> = Vec::new();
    v.push(c);
    assert(v@ =~= seq![c]);
    v
}

/// A list of two commands, in order.
pub fn both(a: Cmd, b: Cmd) -> (r: Vec<Cmd>)
    ensures
        r@ == seq![a, b],
{
    let mut v: Vec<Cmd> = Vec::new();
    v.push(a);
    v.push(b);
    assert(v@ =~= seq![a, b]);
    v
}

} // verus!
