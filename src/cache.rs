use vstd::prelude::*;
use crate::domain::{EpicSlim, Iteration, Story};
use crate::text::{join_path, joined_path};

verus! {

/// The last known domain data, persisted between runs.
#[derive(Debug)]
pub struct Cache {
    pub current_iterations: Option<Vec<Iteration>>,
    pub iterations: Vec<Iteration>,
    pub iteration_stories: Option<Vec<Story>>,
    pub epics: Vec<EpicSlim>,
    pub active_story: Option<Story>,
    pub user_id: Option<u128>,
    pub cache_dir: String,
}

/// What reading the cache file gave.
#[derive(Debug)]
pub enum CacheReadOutcome {
    /// The file could not be read, or its directory could not be made.
    Unreadable,
    /// The file was read but does not parse.
    Corrupt,
    /// The file was read and parsed.
    Parsed(Cache),
}

/// What to do with the cache file after a read.
#[derive(Debug, Clone, Copy, PartialEq, Eq, Structural)]
pub enum CacheFileAction {
    Keep,
    Delete,
}

impl Cache {
    /// A cache with nothing in it, kept in the given directory.
    pub open spec fn is_empty_in(&self, dir: Seq<char>) -> bool {
        &&& self.current_iterations.is_none()
        &&& self.iterations@.len() == 0
        &&& self.iteration_stories.is_none()
        &&& self.epics@.len() == 0
        &&& self.active_story.is_none()
        &&& self.user_id.is_none()
        &&& self.cache_dir@ == dir
    }

    /// An empty cache kept in `cache_dir`.
    pub fn new(cache_dir: String) -> (r: Cache)
        ensures
            r.is_empty_in(cache_dir@),
    {
        Cache {
            current_iterations: None,
            iterations: Vec::new(),
            iteration_stories: None,
            epics: Vec::new(),
            active_story: None,
            user_id: None,
            cache_dir,
        }
    }

    /// The current iterations, by reference, if any are known.
    pub fn current_iterations_ref(&self) -> (r: Option<&Vec<Iteration>>)
        ensures
            r.is_some() == self.current_iterations.is_some(),
            r matches Some(v) ==> v@ == self.current_iterations.unwrap()@,
    {
        match &self.current_iterations {
            Some(v) => Some(v),
            None => None,
        }
    }

    /// The path of the cache file in a directory.
    pub fn get_cache_file(cache_dir: String) -> (r: String)
        ensures
            r@ == joined_path(cache_dir@, "cache.json"@),
    {
        join_path(cache_dir.as_str(), "cache.json")
    }

    /// Settles a read of the cache file: a parsed cache is used as it is;
    /// otherwise the cache starts empty in `cache_dir`, and a file that
    /// does not parse is to be deleted.
    pub fn from_read(cache_dir: String, outcome: CacheReadOutcome) -> (r: (Cache, CacheFileAction))
        ensures
            outcome matches CacheReadOutcome::Parsed(c) ==> r.0 == c && r.1 == CacheFileAction::Keep,
            outcome is Unreadable ==> r.0.is_empty_in(cache_dir@) && r.1 == CacheFileAction::Keep,
            outcome is Corrupt ==> r.0.is_empty_in(cache_dir@) && r.1 == CacheFileAction::Delete,
    {
        match outcome {
            CacheReadOutcome::Parsed(c) => (c, CacheFileAction::Keep),
            CacheReadOutcome::Unreadable => (Cache::new(cache_dir), CacheFileAction::Keep),
            CacheReadOutcome::Corrupt => (Cache::new(cache_dir), CacheFileAction::Delete),
        }
    }
}

} // verus!
