use gradr::builder::{BuildResult, ToWholeBuildable, WholeBuildable};
use gradr::builds::{Build, BuildInsert};
use gradr::database::{Database, EntryStatus, QueueError};
use gradr::memory_db::MemoryDatabase;
use gradr::worker::{record_outcome, worker_loop_step, WorkerStep};

/// Passes every branch but "broken", and cannot run "lost" at all.
struct ByBranch {
    branch: String,
}

impl WholeBuildable for ByBranch {
    fn whole_build(&self) -> Option<BuildResult> {
        if self.branch == "lost" {
            None
        } else {
            Some(BuildResult { pass: self.branch != "broken", output: self.branch.clone() })
        }
    }
}

impl ToWholeBuildable<ByBranch> for BuildInsert {
    fn to_whole_buildable(&self) -> ByBranch {
        ByBranch { branch: self.branch.clone() }
    }
}

struct Unreachable;

impl Database<BuildInsert, Build> for Unreachable {
    fn add_pending(&mut self, _entry: BuildInsert) -> Result<(), QueueError> {
        Err(QueueError::StoreUnavailable)
    }

    fn get_pending(&mut self) -> Result<Option<Build>, QueueError> {
        Err(QueueError::StoreUnavailable)
    }

    fn add_test_results(&mut self, _entry: Build, _results: BuildResult) -> Result<(), QueueError> {
        Err(QueueError::StoreUnavailable)
    }
}

fn request(branch: &str) -> BuildInsert {
    BuildInsert { clone_url: "https://example.org/project.git".to_string(), branch: branch.to_string() }
}

fn step(db: &mut MemoryDatabase) -> Result<WorkerStep, QueueError> {
    worker_loop_step::<ByBranch, BuildInsert, Build, MemoryDatabase>(db)
}

#[test]
fn worker_is_idle_on_an_empty_store() {
    let mut db = MemoryDatabase::new();
    assert_eq!(step(&mut db), Ok(WorkerStep::Idle));
    assert_eq!(step(&mut db), Ok(WorkerStep::Idle));
    assert_eq!(db.len(), 0);
}

#[test]
fn worker_drains_main_then_feat_then_idles() {
    let mut db = MemoryDatabase::new();
    assert_eq!(db.add_pending(request("main")), Ok(()));
    assert_eq!(db.add_pending(request("broken")), Ok(()));

    assert_eq!(step(&mut db), Ok(WorkerStep::Recorded));
    assert_eq!(db.entry(0).unwrap().status, EntryStatus::Done);
    assert_eq!(
        db.entry(0).unwrap().results,
        Some(BuildResult { pass: true, output: "main".to_string() })
    );
    assert_eq!(db.entry(1).unwrap().status, EntryStatus::Pending);

    assert_eq!(step(&mut db), Ok(WorkerStep::Recorded));
    assert_eq!(db.entry(1).unwrap().status, EntryStatus::Done);
    assert_eq!(
        db.entry(1).unwrap().results,
        Some(BuildResult { pass: false, output: "broken".to_string() })
    );

    assert_eq!(step(&mut db), Ok(WorkerStep::Idle));
}

#[test]
fn a_failing_build_is_recorded_like_a_passing_one() {
    let mut db = MemoryDatabase::new();
    assert_eq!(db.add_pending(request("broken")), Ok(()));
    assert_eq!(step(&mut db), Ok(WorkerStep::Recorded));
    let stored = db.entry(0).unwrap();
    assert_eq!(stored.status, EntryStatus::Done);
    assert_eq!(stored.results.unwrap().pass, false);
}

#[test]
fn an_executor_fault_leaves_the_entry_in_progress() {
    let mut db = MemoryDatabase::new();
    assert_eq!(db.add_pending(request("lost")), Ok(()));
    assert_eq!(db.add_pending(request("main")), Ok(()));
    assert_eq!(step(&mut db), Err(QueueError::ExecutorFault));
    assert_eq!(db.entry(0).unwrap().status, EntryStatus::InProgress);
    assert_eq!(db.entry(0).unwrap().results, None);
    // The stuck entry is not handed out again; the next step takes the next entry.
    assert_eq!(step(&mut db), Ok(WorkerStep::Recorded));
    assert_eq!(db.entry(0).unwrap().status, EntryStatus::InProgress);
    assert_eq!(db.entry(1).unwrap().status, EntryStatus::Done);
    assert_eq!(step(&mut db), Ok(WorkerStep::Idle));
}

#[test]
fn worker_reports_an_unreachable_store() {
    let mut store = Unreachable;
    assert_eq!(
        worker_loop_step::<ByBranch, BuildInsert, Build, Unreachable>(&mut store),
        Err(QueueError::StoreUnavailable)
    );
}

#[test]
fn recording_a_result_finishes_the_entry() {
    let mut db = MemoryDatabase::new();
    assert_eq!(db.add_pending(request("main")), Ok(()));
    let claimed = db.get_pending().unwrap().unwrap();
    let report = BuildResult { pass: true, output: "ok".to_string() };
    assert_eq!(record_outcome(&mut db, claimed, Some(report.clone())), Ok(()));
    assert_eq!(db.entry(0).unwrap().status, EntryStatus::Done);
    assert_eq!(db.entry(0).unwrap().results, Some(report));
}

#[test]
fn recording_a_fault_changes_nothing() {
    let mut db = MemoryDatabase::new();
    assert_eq!(db.add_pending(request("main")), Ok(()));
    let claimed = db.get_pending().unwrap().unwrap();
    assert_eq!(record_outcome(&mut db, claimed, None), Err(QueueError::ExecutorFault));
    assert_eq!(db.entry(0).unwrap().status, EntryStatus::InProgress);
    assert_eq!(db.entry(0).unwrap().results, None);
}

#[test]
fn recording_for_an_entry_that_is_not_claimed_is_refused() {
    let mut db = MemoryDatabase::new();
    assert_eq!(db.add_pending(request("main")), Ok(()));
    let pending = db.entry(0).unwrap();
    let report = BuildResult { pass: true, output: String::new() };
    assert_eq!(
        record_outcome(&mut db, pending, Some(report)),
        Err(QueueError::InvalidTransition)
    );
    assert_eq!(db.entry(0).unwrap().status, EntryStatus::Pending);
}
