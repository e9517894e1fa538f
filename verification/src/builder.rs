//! The build executor as the queue sees it: what it is handed and what it reports.

use vstd::prelude::*;

verus! {

/// What a build reported once it ran to completion. A failing build is a result like any other.
#[derive(Debug, PartialEq, Eq)]
pub struct BuildResult {
    /// Whether the build and its tests passed.
    pub pass: bool,
    /// The report to keep with the entry.
    pub output: String,
}

impl Clone for BuildResult {
    fn clone(&self) -> (r: Self)
        ensures
            r == *self,
    {
        BuildResult { pass: self.pass, output: self.output.clone() }
    }
}

/// Something that can be built and tested from start to end.
pub trait WholeBuildable {
    /// Runs the whole build. `None` means that the executor could not produce any result,
    /// which is not the same as a build that ran and failed.
    fn whole_build(&self) -> Option<BuildResult>;
}

/// A request from which the thing to build can be made.
pub trait ToWholeBuildable<B: WholeBuildable> {
    fn to_whole_buildable(&self) -> B;
}

} // verus!
