//! The rows of the backlog of builds: what a producer submits and what a worker is handed.

use vstd::prelude::*;
use crate::builder::BuildResult;
use crate::database::{DatabaseEntry, EntryStatus, Slot};

verus! {

/// A request to build one branch of one repository. It never changes once made.
#[derive(Debug, PartialEq, Eq)]
pub struct BuildInsert {
    /// Where the sources are cloned from.
    pub clone_url: String,
    /// The branch to build.
    pub branch: String,
}

impl Clone for BuildInsert {
    fn clone(&self) -> (r: Self)
        ensures
            r == *self,
    {
        BuildInsert { clone_url: self.clone_url.clone(), branch: self.branch.clone() }
    }
}

/// A build request as the store holds it, under the id the store gave it.
#[derive(Debug, PartialEq, Eq)]
pub struct Build {
    pub id: u64,
    pub status: EntryStatus,
    pub clone_url: String,
    pub branch: String,
    /// The outcome of the build, present once the entry is done.
    pub results: Option<BuildResult>,
}

impl Build {
    /// The request this entry was made from.
    pub open spec fn request(&self) -> BuildInsert {
        BuildInsert { clone_url: self.clone_url, branch: self.branch }
    }

    /// The entry as the backlog model sees it.
    pub open spec fn slot(&self) -> Slot<BuildInsert> {
        Slot { request: self.request(), status: self.status, results: self.results }
    }

    /// The same entry in another status and with other results.
    pub open spec fn with_state(&self, status: EntryStatus, results: Option<BuildResult>) -> Build {
        Build { id: self.id, status, clone_url: self.clone_url, branch: self.branch, results }
    }

    /// The entry as it stands once a worker has claimed it.
    pub open spec fn claimed(&self) -> Build {
        self.with_state(EntryStatus::InProgress, self.results)
    }
}

impl Clone for Build {
    fn clone(&self) -> (r: Self)
        ensures
            r == *self,
    {
        let results = match &self.results {
            Some(found) => Some(found.clone()),
            None => None,
        };
        Build {
            id: self.id,
            status: self.status,
            clone_url: self.clone_url.clone(),
            branch: self.branch.clone(),
            results,
        }
    }
}

impl DatabaseEntry<BuildInsert> for Build {
    open spec fn base(&self) -> BuildInsert {
        self.request()
    }

    fn get_base(&self) -> (a: BuildInsert) {
        BuildInsert { clone_url: self.clone_url.clone(), branch: self.branch.clone() }
    }
}

} // verus!
