use gradr::builder::BuildResult;
use gradr::builds::{Build, BuildInsert};
use gradr::database::{Database, EntryStatus};
use gradr::memory_db::MemoryDatabase;

fn request(branch: &str) -> BuildInsert {
    BuildInsert { clone_url: "https://example.org/project.git".to_string(), branch: branch.to_string() }
}

/// Two workers share one store; `first` says which of them reaches it first.
fn race_for_one_entry(first: usize) -> [Option<Build>; 2] {
    let mut db = MemoryDatabase::new();
    assert_eq!(db.add_pending(request("main")), Ok(()));
    let mut got: [Option<Build>; 2] = [None, None];
    got[first] = db.get_pending().unwrap();
    got[1 - first] = db.get_pending().unwrap();
    assert_eq!(db.entry(0).unwrap().status, EntryStatus::InProgress);
    got
}

#[test]
fn two_workers_race_for_one_entry() {
    for first in 0..2 {
        let got = race_for_one_entry(first);
        assert_eq!(got.iter().filter(|g| g.is_some()).count(), 1);
        assert_eq!(got.iter().filter(|g| g.is_none()).count(), 1);
        assert_eq!(got[first].as_ref().unwrap().id, 0);
    }
}

/// Runs two workers on a store of `entries` pending entries. Bit `i` of `schedule`
/// says which worker takes step `i`; a worker's step is a claim if it holds nothing,
/// else the report for what it holds.
fn run_schedule(entries: u64, schedule: u32, steps: u32) -> (Vec<u64>, MemoryDatabase) {
    let mut db = MemoryDatabase::new();
    for i in 0..entries {
        assert_eq!(db.add_pending(request(&format!("b{}", i))), Ok(()));
    }
    let mut holding: [Option<Build>; 2] = [None, None];
    let mut claimed: Vec<u64> = Vec::new();
    for i in 0..steps {
        let worker = ((schedule >> i) & 1) as usize;
        match holding[worker].take() {
            Some(entry) => {
                let report = BuildResult { pass: worker == 0, output: format!("by {}", worker) };
                assert_eq!(db.add_test_results(entry, report), Ok(()));
            }
            None => {
                if let Some(entry) = db.get_pending().unwrap() {
                    claimed.push(entry.id);
                    holding[worker] = Some(entry);
                }
            }
        }
    }
    (claimed, db)
}

#[test]
fn every_interleaving_of_two_workers_claims_each_entry_once() {
    let steps = 10;
    for schedule in 0..(1u32 << steps) {
        let (claimed, db) = run_schedule(3, schedule, steps);
        let mut sorted = claimed.clone();
        sorted.sort();
        sorted.dedup();
        assert_eq!(sorted.len(), claimed.len());
        // Claims come in the order of submission, whoever makes them.
        assert_eq!(claimed, sorted);
        for id in 0..3u64 {
            let entry = db.entry(id).unwrap();
            assert_eq!(entry.status == EntryStatus::Pending, !claimed.contains(&id));
            assert_eq!(entry.status == EntryStatus::Done, entry.results.is_some());
        }
    }
}
