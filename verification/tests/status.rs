use gradr::database::{EntryStatus, QueueError};

#[test]
fn status_codes_are_zero_one_two() {
    assert_eq!(EntryStatus::Pending.to_int(), 0);
    assert_eq!(EntryStatus::InProgress.to_int(), 1);
    assert_eq!(EntryStatus::Done.to_int(), 2);
}

#[test]
fn status_decodes_what_it_encodes() {
    for status in [EntryStatus::Pending, EntryStatus::InProgress, EntryStatus::Done] {
        assert_eq!(EntryStatus::from_int(status.to_int()), Some(status));
    }
}

#[test]
fn status_decoding_refuses_other_numbers() {
    assert_eq!(EntryStatus::from_int(3), None);
    assert_eq!(EntryStatus::from_int(-1), None);
    assert_eq!(EntryStatus::from_int(i32::MAX), None);
    assert_eq!(EntryStatus::from_int(i32::MIN), None);
}

#[test]
fn errors_are_told_apart() {
    assert_ne!(QueueError::StoreUnavailable, QueueError::InvalidTransition);
    assert_ne!(QueueError::InvalidTransition, QueueError::ExecutorFault);
    assert_ne!(QueueError::ExecutorFault, QueueError::StoreUnavailable);
}
