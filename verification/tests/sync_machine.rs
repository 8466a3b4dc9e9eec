use safedrive::error::{SDAPIError, SDError};
use safedrive::sync::{BlockRecord, EntryKind, EntryPlan, SyncStatus, UploadReport};
use safedrive::sync_machine::{SyncMachine, SyncPhase};

fn machine() -> SyncMachine {
    SyncMachine::new(42, "session-a".to_string())
}

fn block(real: u64, padded: u64, tag: u8) -> BlockRecord {
    BlockRecord { real_size: real, compressed: false, compressed_size: None, padded_size: padded, hmac: vec![tag; 32] }
}

#[test]
fn a_whole_session() {
    let mut m = machine();
    assert_eq!(m.phase, SyncPhase::Preparing);
    let (v, reg) = m.folder_ready(Ok((true, true)));
    assert!(v.is_empty());
    let reg = reg.unwrap();
    assert_eq!(reg.folder_id, 42);
    assert_eq!(reg.name, "session-a");
    assert!(reg.encrypted);
    assert_eq!(m.phase, SyncPhase::Registering);
    assert!(m.registered(Ok(())).is_empty());
    assert_eq!(m.phase, SyncPhase::Estimating);
    assert!(m.measured(Ok(4096)).is_empty());
    assert!(m.measured(Ok(100)).is_empty());
    let issue = m.measured(Err(("docs/x".to_string(), "permission denied".to_string())));
    assert!(matches!(&issue[0], SyncStatus::Issue(t) if t == "not able to sync file docs/x: permission denied"));
    assert_eq!(m.totals.estimated_size, 4196);
    m.begin_walk();
    assert_eq!(m.phase, SyncPhase::Walking);

    let (v, plan, _) = m.item(true, None, "f".to_string());
    assert!(matches!(v[0], SyncStatus::Progress(4196, 0, 0)));
    assert_eq!(plan, EntryPlan::Skip);

    let (_, plan, _) = m.item(false, Some((EntryKind::Directory, 4096)), "f".to_string());
    assert_eq!(plan, EntryPlan::Empty);

    let (_, plan, _) = m.item(false, Some((EntryKind::File, 100)), "f".to_string());
    assert_eq!(plan, EntryPlan::Chunk);
    assert_eq!(m.phase, SyncPhase::Chunking);
    assert!(m.upload_check(UploadReport::Idle).is_empty());
    let (v, msg) = m.block(&block(60, 64, 1), vec![7; 64]);
    assert_eq!(msg.block, Some(vec![7; 64]));
    assert!(!msg.cancel);
    assert!(matches!(v[0], SyncStatus::Progress(4196, 60, 60)));
    assert!(m.upload_check(UploadReport::Message(Ok(false))).is_empty());
    let (v, _) = m.block(&block(40, 48, 2), vec![8; 48]);
    assert!(matches!(v[0], SyncStatus::Progress(4196, 100, 40)));
    assert_eq!(m.file.padding, 12);
    let entry = m.file_done();
    assert_eq!(entry.size, 64);
    assert_eq!(entry.name, "f");
    assert_eq!(entry.data.len(), 64);
    assert_eq!(m.totals.processed_size_padding, 12);
    assert_eq!(m.phase, SyncPhase::Walking);

    let (_, plan, _) = m.item(false, None, "f".to_string());
    assert_eq!(plan, EntryPlan::Skip);
    assert_eq!(m.totals.failed, 1);

    let msg = m.end_walk();
    assert!(msg.block.is_none() && !msg.cancel);
    assert!(m.walk_signalled(None).is_empty());
    assert_eq!(m.phase, SyncPhase::Draining);
    assert!(m.drain(UploadReport::Idle).is_empty());
    assert_eq!(m.phase, SyncPhase::Draining);
    assert!(m.drain(UploadReport::Message(Ok(true))).is_empty());
    assert_eq!(m.phase, SyncPhase::Wrapping);
    let v = m.session_wrapped(Ok(Some(500)));
    assert!(matches!(v[0], SyncStatus::Progress(4696, 100, 0)));
    assert_eq!(m.phase, SyncPhase::Uploading);
    let v = m.session_finished(Ok(()));
    assert!(matches!(v[0], SyncStatus::Progress(4696, 100, 0)));
    assert_eq!(m.phase, SyncPhase::Finished);
}

#[test]
fn missing_folder_stops() {
    let mut m = machine();
    let (v, reg) = m.folder_ready(Ok((true, false)));
    assert!(reg.is_none());
    assert!(matches!(v[..], [SyncStatus::Error(SDError::FolderMissing)]));
    assert_eq!(m.phase, SyncPhase::Stopped);

    let mut m = machine();
    let (v, reg) = m.folder_ready(Err(SDAPIError::Authentication));
    assert!(reg.is_none());
    assert!(matches!(v[..], [SyncStatus::Error(SDError::Authentication)]));
    assert_eq!(m.phase, SyncPhase::Stopped);
}

#[test]
fn refused_registration_stops() {
    let mut m = machine();
    let _ = m.folder_ready(Ok((true, true)));
    let v = m.registered(Err(SDAPIError::Internal("x".to_string())));
    assert!(matches!(&v[..], [SyncStatus::Error(SDError::RequestFailure(SDAPIError::Internal(t)))] if t == "x"));
    assert_eq!(m.phase, SyncPhase::Stopped);
}

fn walking() -> SyncMachine {
    let mut m = machine();
    let _ = m.folder_ready(Ok((true, true)));
    m.registered(Ok(()));
    m.begin_walk();
    m
}

#[test]
fn cancelling_while_chunking() {
    let mut m = walking();
    let _ = m.item(false, Some((EntryKind::File, 10)), "f".to_string());
    let msg = m.begin_cancel();
    assert!(msg.block.is_none() && msg.cancel);
    let v = m.cancel(Some("sending on a closed channel".to_string()));
    assert_eq!(v.len(), 2);
    assert!(matches!(&v[0], SyncStatus::Issue(t) if t == "not able to cancel upload: (sending on a closed channel)"));
    assert!(matches!(v[1], SyncStatus::Error(SDError::Cancelled)));
    assert_eq!(m.phase, SyncPhase::Stopped);
}

#[test]
fn closed_upload_channel_stops_chunking() {
    let mut m = walking();
    let _ = m.item(false, Some((EntryKind::File, 10)), "f".to_string());
    let v = m.upload_check(UploadReport::Closed("receiving on a closed channel".to_string()));
    assert!(matches!(&v[..], [SyncStatus::Error(SDError::Internal(t))] if t == "end of channel: receiving on a closed channel"));
    assert_eq!(m.phase, SyncPhase::Stopped);
}

#[test]
fn failed_block_skips_the_file() {
    let mut m = walking();
    let _ = m.item(false, Some((EntryKind::File, 10)), "f".to_string());
    let v = m.block_failed("a/b", Some("disconnected".to_string()));
    assert_eq!(v.len(), 2);
    assert!(matches!(&v[0], SyncStatus::Issue(t) if t == "not able to sync file a/b: writing failed (disconnected)"));
    assert!(matches!(&v[1], SyncStatus::Issue(t) if t == "not able to sync file a/b: could not read from file"));
    assert_eq!(m.totals.failed, 1);
    assert_eq!(m.phase, SyncPhase::Walking);
}

#[test]
fn wrap_failure_stops() {
    let mut m = walking();
    let _ = m.item(false, Some((EntryKind::File, 10)), "f".to_string());
    let v = m.wrap_failed("bad key".to_string());
    assert!(matches!(&v[..], [SyncStatus::Error(SDError::CryptoError(t))] if t == "bad key"));
    assert_eq!(m.phase, SyncPhase::Stopped);
}

#[test]
fn draining_and_finishing_failures() {
    let mut m = walking();
    m.end_walk();
    let v = m.walk_signalled(Some("closed".to_string()));
    assert!(matches!(&v[..], [SyncStatus::Issue(t)] if t == "not able to signal write cache to finish: closed"));
    assert!(m.drain(UploadReport::Closed(String::new())).is_empty());
    assert_eq!(m.phase, SyncPhase::Wrapping);
    m.session_wrapped(Ok(None));
    let v = m.session_finished(Err(SDAPIError::RetryUpload));
    assert_eq!(v.len(), 2);
    assert!(matches!(&v[0], SyncStatus::Issue(t) if t == "not able to finish sync: block upload should be retried"));
    assert!(matches!(v[1], SyncStatus::Error(SDError::RequestFailure(SDAPIError::RetryUpload))));
    assert_eq!(m.phase, SyncPhase::Stopped);

    let mut m = walking();
    m.end_walk();
    m.walk_signalled(None);
    let v = m.drain(UploadReport::Message(Err(SDError::Authentication)));
    assert!(matches!(v[..], [SyncStatus::Error(SDError::Authentication)]));
    assert_eq!(m.phase, SyncPhase::Stopped);
}

#[test]
fn wrapping_failure_and_refused_upload() {
    let mut m = walking();
    m.end_walk();
    m.walk_signalled(None);
    m.drain(UploadReport::Message(Ok(true)));
    let v = m.session_wrapped(Err("no key".to_string()));
    assert!(matches!(&v[..], [SyncStatus::Error(SDError::CryptoError(t))] if t == "no key"));
    assert_eq!(m.phase, SyncPhase::Stopped);

    let mut m = walking();
    m.end_walk();
    m.walk_signalled(None);
    m.drain(UploadReport::Message(Ok(true)));
    m.session_wrapped(Ok(None));
    let v = m.session_finished(Err(SDAPIError::Authentication));
    assert!(matches!(v[..], [SyncStatus::Error(SDError::Authentication)]));
}

#[test]
fn successive_progress_reports_add_the_block_size() {
    let mut m = walking();
    let mut reports = Vec::new();
    let (v, _, _) = m.item(false, Some((EntryKind::File, 30)), "f".to_string());
    reports.extend(v);
    reports.extend(m.block(&block(10, 16, 1), vec![0; 16]).0);
    reports.extend(m.upload_check(UploadReport::Idle));
    reports.extend(m.block(&block(20, 32, 2), vec![0; 32]).0);
    m.file_done();
    let (v, _, _) = m.item(false, None, "g".to_string());
    reports.extend(v);
    let progress: Vec<(u64, u64)> = reports
        .iter()
        .filter_map(|s| match s { SyncStatus::Progress(_, d, b) => Some((*d, *b)), _ => None })
        .collect();
    assert_eq!(progress, vec![(0, 0), (10, 10), (30, 20), (30, 0)]);
    for w in progress.windows(2) {
        assert_eq!(w[1].0, w[0].0 + w[1].1);
    }
}

#[test]
fn archive_entries_of_the_walk() {
    let mut m = walking();
    let (_, plan, entry) = m.item(false, Some((EntryKind::Directory, 4096)), "docs".to_string());
    assert_eq!(plan, EntryPlan::Empty);
    let entry = entry.unwrap();
    assert_eq!((entry.name.as_str(), entry.size, entry.data.len()), ("docs", 0, 0));
    let (_, plan, entry) = m.item(false, Some((EntryKind::Symlink, 9)), "docs/link".to_string());
    assert_eq!(plan, EntryPlan::Link);
    assert_eq!(entry.unwrap().name, "docs/link");
    let (_, plan, entry) = m.item(false, Some((EntryKind::File, 0)), "docs/empty".to_string());
    assert_eq!(plan, EntryPlan::Empty);
    assert_eq!(entry.unwrap().size, 0);
    let (_, plan, entry) = m.item(false, Some((EntryKind::Other, 0)), "docs/socket".to_string());
    assert_eq!(plan, EntryPlan::Skip);
    assert!(entry.is_none());
    let (_, plan, entry) = m.item(false, Some((EntryKind::File, 5)), "docs/a.txt".to_string());
    assert_eq!(plan, EntryPlan::Chunk);
    assert!(entry.is_none());
    assert_eq!(m.file.length, 5);
    m.block(&block(5, 16, 3), vec![1; 16]);
    assert_eq!(m.file.processed, 5);
    let entry = m.file_done();
    assert_eq!(entry.name, "docs/a.txt");
    assert_eq!(entry.size, 32);
    assert_eq!(entry.data, vec![3; 32]);
}
