use safedrive::error::{SDAPIError, SDError};
use safedrive::sync::{
    cancel_statuses, entry_plan, finish_wait_action, item_issue, upload_report_action,
    BlockRecord, EntryKind, EntryPlan, FileProgress, SyncStatus, SyncTotals, UploadReport, WaitAction,
    HMAC_SIZE,
};

fn block(real: u64, compressed: bool, compressed_size: Option<u64>, padded: u64, hmac: u8) -> BlockRecord {
    BlockRecord { real_size: real, compressed, compressed_size, padded_size: padded, hmac: vec![hmac; HMAC_SIZE as usize] }
}

#[test]
fn new_totals_are_zero() {
    let t = SyncTotals::new();
    assert_eq!(t, SyncTotals { estimated_size: 0, processed_size: 0, processed_size_compressed: 0, processed_size_padding: 0, failed: 0 });
}

#[test]
fn estimate_and_progress() {
    let mut t = SyncTotals::new();
    t.add_estimate(100);
    t.add_estimate(23);
    assert_eq!(t.estimated_size, 123);
    assert!(matches!(t.progress(0), SyncStatus::Progress(123, 0, 0)));
}

#[test]
fn recording_blocks_counts_sizes_and_padding() {
    let mut t = SyncTotals::new();
    t.add_estimate(1000);
    let mut f = FileProgress::new();
    let b1 = block(100, true, Some(60), 64, 1);
    assert!(t.can_record_block(&f, &b1));
    let s1 = t.record_block(&mut f, &b1);
    assert!(matches!(s1, SyncStatus::Progress(1000, 100, 100)));
    assert_eq!(t.processed_size_compressed, 60);
    assert_eq!(f.padding, 4);

    let b2 = block(50, false, None, 64, 2);
    let s2 = t.record_block(&mut f, &b2);
    assert!(matches!(s2, SyncStatus::Progress(1000, 150, 50)));
    assert_eq!(t.processed_size_compressed, 110);
    assert_eq!(f.padding, 18);

    let mut bag = vec![1u8; 32];
    bag.extend(vec![2u8; 32]);
    assert_eq!(f.hmac_bag, bag);

    let entry = t.finish_file(&f, 2);
    assert_eq!(entry, 64);
    assert_eq!(entry as usize, f.hmac_bag.len());
    assert_eq!(t.processed_size_padding, 18);
}

#[test]
fn compressed_without_size_counts_padding_over_nothing() {
    let mut t = SyncTotals::new();
    let mut f = FileProgress::new();
    let b = block(40, true, None, 48, 0);
    t.record_block(&mut f, &b);
    assert_eq!(f.padding, 48);
    assert_eq!(t.processed_size_compressed, 40);
}

#[test]
fn blocks_that_would_underflow_are_refused() {
    let t = SyncTotals::new();
    let f = FileProgress::new();
    assert!(!t.can_record_block(&f, &block(100, false, None, 99, 0)));
    assert!(!t.can_record_block(&f, &block(100, true, Some(70), 60, 0)));
    let full = SyncTotals { processed_size: u64::MAX, ..SyncTotals::new() };
    assert!(!full.can_record_block(&f, &block(1, false, None, 1, 0)));
}

#[test]
fn failures_and_session_size() {
    let mut t = SyncTotals::new();
    t.record_failure();
    t.record_failure();
    assert_eq!(t.failed, 2);
    t.add_session_size(Some(10));
    t.add_session_size(None);
    assert_eq!(t.estimated_size, 10);
}

#[test]
fn entry_plans() {
    assert_eq!(entry_plan(EntryKind::File, 10), EntryPlan::Chunk);
    assert_eq!(entry_plan(EntryKind::File, 0), EntryPlan::Empty);
    assert_eq!(entry_plan(EntryKind::Directory, 4096), EntryPlan::Empty);
    assert_eq!(entry_plan(EntryKind::Symlink, 12), EntryPlan::Link);
    assert_eq!(entry_plan(EntryKind::Other, 0), EntryPlan::Skip);
}

#[test]
fn cancellation_ends_with_cancelled() {
    let v = cancel_statuses(None);
    assert_eq!(v.len(), 1);
    assert!(matches!(v[0], SyncStatus::Error(SDError::Cancelled)));
    let v = cancel_statuses(Some("sending on a closed channel".to_string()));
    assert_eq!(v.len(), 2);
    match &v[0] {
        SyncStatus::Issue(m) => assert_eq!(m, "not able to cancel upload: (sending on a closed channel)"),
        other => panic!("unexpected {:?}", other),
    }
    assert!(matches!(v[1], SyncStatus::Error(SDError::Cancelled)));
}

#[test]
fn upload_reports_while_chunking() {
    assert!(upload_report_action(UploadReport::Message(Ok(false))).is_none());
    assert!(upload_report_action(UploadReport::Idle).is_none());
    assert!(matches!(upload_report_action(UploadReport::Message(Err(SDError::Authentication))), Some(SyncStatus::Error(SDError::Authentication))));
    match upload_report_action(UploadReport::Closed("receiving on a closed channel".to_string())) {
        Some(SyncStatus::Error(SDError::Internal(m))) => assert_eq!(m, "end of channel: receiving on a closed channel"),
        other => panic!("unexpected {:?}", other),
    }
}

#[test]
fn waiting_for_the_upload_to_finish() {
    assert!(matches!(finish_wait_action(UploadReport::Message(Ok(true))), WaitAction::Done));
    assert!(matches!(finish_wait_action(UploadReport::Message(Ok(false))), WaitAction::Wait));
    assert!(matches!(finish_wait_action(UploadReport::Idle), WaitAction::Wait));
    assert!(matches!(finish_wait_action(UploadReport::Closed(String::new())), WaitAction::Done));
    assert!(matches!(finish_wait_action(UploadReport::Message(Err(SDError::Cancelled))), WaitAction::Stop(SyncStatus::Error(SDError::Cancelled))));
}

#[test]
fn finishing_the_session() {
    let t = SyncTotals { estimated_size: 10, processed_size: 7, ..SyncTotals::new() };
    let ok = t.finish_statuses(Ok(()));
    assert_eq!(ok.len(), 1);
    assert!(matches!(ok[0], SyncStatus::Progress(10, 7, 0)));
    let auth = t.finish_statuses(Err(SDAPIError::Authentication));
    assert_eq!(auth.len(), 1);
    assert!(matches!(auth[0], SyncStatus::Error(SDError::Authentication)));
    let other = t.finish_statuses(Err(SDAPIError::Internal("boom".to_string())));
    assert_eq!(other.len(), 2);
    match &other[0] {
        SyncStatus::Issue(m) => assert_eq!(m, "not able to finish sync: boom"),
        o => panic!("unexpected {:?}", o),
    }
    assert!(matches!(&other[1], SyncStatus::Error(SDError::RequestFailure(SDAPIError::Internal(m))) if m == "boom"));
}

#[test]
fn api_errors_become_sync_errors() {
    assert!(matches!(SDError::from_api(SDAPIError::Authentication), SDError::Authentication));
    assert!(matches!(SDError::from_api(SDAPIError::RetryUpload), SDError::RequestFailure(SDAPIError::RetryUpload)));
}

#[test]
fn item_issue_names_the_item() {
    match item_issue("docs/a.txt", "could not read from file") {
        SyncStatus::Issue(m) => assert_eq!(m, "not able to sync file docs/a.txt: could not read from file"),
        other => panic!("unexpected {:?}", other),
    }
}

#[test]
fn link_issue_names_the_link() {
    match safedrive::sync::link_issue("docs/l", "No such file or directory") {
        SyncStatus::Issue(m) => assert_eq!(m, "failed to set symlink for docs/l: No such file or directory"),
        other => panic!("unexpected {:?}", other),
    }
}
