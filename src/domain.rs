use vstd::prelude::*;

verus! {

/// A git branch attached to a story.
#[derive(Debug, PartialEq, Eq)]
pub struct Branch {
    pub id: i32,
    pub name: String,
}

/// A comment left on a story.
#[derive(Debug, PartialEq, Eq)]
pub struct Comment {
    pub id: i64,
    pub text: String,
}

/// A work item of the remote tracker.
#[derive(Debug, PartialEq, Eq)]
pub struct Story {
    pub id: i64,
    pub name: String,
    pub description: String,
    pub completed: bool,
    pub branches: Vec<Branch>,
    pub comments: Vec<Comment>,
    pub epic_id: Option<i64>,
    pub iteration_id: Option<i64>,
    pub app_url: String,
}

/// An iteration (sprint) that groups stories.
#[derive(Debug, PartialEq, Eq)]
pub struct Iteration {
    pub id: i64,
    pub name: String,
}

/// An epic, with its owners' identifiers as 128-bit values.
#[derive(Debug, PartialEq, Eq)]
pub struct Epic {
    pub id: i32,
    pub completed: bool,
    pub description: String,
    pub name: String,
    pub owner_ids: Vec<u128>,
    pub started: bool,
}

/// The short form of an epic kept in the cache.
#[derive(Debug, PartialEq, Eq)]
pub struct EpicSlim {
    pub id: i32,
    pub owner_ids: Vec<u128>,
}

/// Two stories hold the same data, field by field.
pub open spec fn same_story(a: Story, b: Story) -> bool {
    &&& a.id == b.id
    &&& a.name == b.name
    &&& a.description == b.description
    &&& a.completed == b.completed
    &&& a.branches@ == b.branches@
    &&& a.comments@ == b.comments@
    &&& a.epic_id == b.epic_id
    &&& a.iteration_id == b.iteration_id
    &&& a.app_url == b.app_url
}

/// Two story lists hold the same stories in the same order.
pub open spec fn same_stories(a: Seq<Story>, b: Seq<Story>) -> bool {
    &&& a.len() == b.len()
    &&& forall|i: int| 0 <= i < a.len() ==> same_story(#[trigger] a[i], b[i])
}

/// Two epics hold the same data, field by field.
pub open spec fn same_epic(a: Epic, b: Epic) -> bool {
    &&& a.id == b.id
    &&& a.completed == b.completed
    &&& a.description == b.description
    &&& a.name == b.name
    &&& a.owner_ids@ == b.owner_ids@
    &&& a.started == b.started
}

/// The ids of a sequence of stories, in order.
pub open spec fn story_ids(s: Seq<Story>) -> Seq<i64> {
    s.map_values(|x: Story| x.id)
}

/// Copies a vector element by element with a cloning function that returns
/// an equal value.
fn clone_vec_branches(v: &Vec<Branch>) -> (r: Vec<Branch>)
    ensures
        r@ == v@,
{
    let mut r: Vec<Branch> = Vec::new();
    let mut i: usize = 0;
    while i < v.len()
        invariant
            i <= v@.len(),
            r@ == v@.subrange(0, i as int),
        decreases v@.len() - i,
    {
        r.push(v[i].clone());
        i = i + 1;
    }
    assert(r@ =~= v@);
    r
}

fn clone_vec_comments(v: &Vec<Comment>) -> (r: Vec<Comment>)
    ensures
        r@ == v@,
{
    let mut r: Vec<Comment> = Vec::new();
    let mut i: usize = 0;
    while i < v.len()
        invariant
            i <= v@.len(),
            r@ == v@.subrange(0, i as int),
        decreases v@.len() - i,
    {
        r.push(v[i].clone());
        i = i + 1;
    }
    assert(r@ =~= v@);
    r
}

fn clone_vec_u128(v: &Vec<u128>) -> (r: Vec<u128>)
    ensures
        r@ == v@,
{
    let mut r: Vec<u128> = Vec::new();
    let mut i: usize = 0;
    while i < v.len()
        invariant
            i <= v@.len(),
            r@ == v@.subrange(0, i as int),
        decreases v@.len() - i,
    {
        r.push(v[i]);
        i = i + 1;
    }
    assert(r@ =~= v@);
    r
}

impl Clone for Branch {
    fn clone(&self) -> (r: Self)
        ensures
            r == *self,
    {
        Branch { id: self.id, name: self.name.clone() }
    }
}

impl Clone for Comment {
    fn clone(&self) -> (r: Self)
        ensures
            r == *self,
    {
        Comment { id: self.id, text: self.text.clone() }
    }
}

impl Clone for Story {
    fn clone(&self) -> (r: Self)
        ensures
            same_story(r, *self),
    {
        Story {
            id: self.id,
            name: self.name.clone(),
            description: self.description.clone(),
            completed: self.completed,
            branches: clone_vec_branches(&self.branches),
            comments: clone_vec_comments(&self.comments),
            epic_id: self.epic_id,
            iteration_id: self.iteration_id,
            app_url: self.app_url.clone(),
        }
    }
}

impl Clone for Iteration {
    fn clone(&self) -> (r: Self)
        ensures
            r == *self,
    {
        Iteration { id: self.id, name: self.name.clone() }
    }
}

impl Clone for Epic {
    fn clone(&self) -> (r: Self)
        ensures
            same_epic(r, *self),
    {
        Epic {
            id: self.id,
            completed: self.completed,
            description: self.description.clone(),
            name: self.name.clone(),
            owner_ids: clone_vec_u128(&self.owner_ids),
            started: self.started,
        }
    }
}

impl Clone for EpicSlim {
    fn clone(&self) -> (r: Self)
        ensures
            r.id == self.id,
            r.owner_ids@ == self.owner_ids@,
    {
        EpicSlim { id: self.id, owner_ids: clone_vec_u128(&self.owner_ids) }
    }
}

/// Copies a list of stories, field by field.
pub fn clone_stories(v: &Vec<Story>) -> (r: Vec<Story>)
    ensures
        same_stories(r@, v@),
        story_ids(r@) == story_ids(v@),
{
    let r = v.clone();
    assert(forall|i: int| 0 <= i < v@.len() ==> cloned::<Story>(v@[i], #[trigger] r@[i]));
    assert(story_ids(r@) =~= story_ids(v@));
    r
}

/// Copies a list of iterations; the copy is equal to the source.
pub fn clone_iterations(v: &Vec<Iteration>) -> (r: Vec<Iteration>)
    ensures
        r@ == v@,
{
    let r = v.clone();
    assert(forall|i: int| 0 <= i < v@.len() ==> cloned::<Iteration>(v@[i], #[trigger] r@[i]));
    assert(r@ =~= v@);
    r
}

/// Whether two story lists carry the same ids in the same order.
pub fn same_story_ids(a: &Vec<Story>, b: &Vec<Story>) -> (r: bool)
    ensures
        r == (story_ids(a@) == story_ids(b@)),
{
    if a.len() != b.len() {
        assert(story_ids(a@).len() != story_ids(b@).len());
        return false;
    }
    let mut i: usize = 0;
    while i < a.len()
        invariant
            a@.len() == b@.len(),
            i <= a@.len(),
            forall|j: int| 0 <= j < i ==> a@[j].id == b@[j].id,
        decreases a@.len() - i,
    {
        if a[i].id != b[i].id {
            assert(story_ids(a@)[i as int] != story_ids(b@)[i as int]);
            return false;
        }
        i = i + 1;
    }
    assert(story_ids(a@) =~= story_ids(b@));
    true
}

} // verus!
