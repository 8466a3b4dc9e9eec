//! A sync session as a state machine. The caller performs the I/O (the
//! folder lookup, the walk, the chunker, the upload thread, the server) and
//! hands each outcome to the machine; the machine keeps the counters, moves
//! from phase to phase and says what to report and what to do with an entry.

use vstd::prelude::*;
use crate::error::{SDAPIError, SDError, api_error_message};
use crate::sync::{
    ArchiveEntry, BlockRecord, EntryKind, EntryPlan, FileProgress, SyncStatus, SyncTotals, UploadReport, WaitAction,
    block_fits, cancel_statuses, entry_plan, finish_wait_action, item_issue, padding_overhead,
    sd_error_of, totals_after_block, zero_totals, entry_plan_spec, upload_report_action, HMAC_SIZE,
};

verus! {

/// Where a sync session stands.
#[derive(PartialEq, Eq, Structural, Clone, Copy, Debug)]
pub enum SyncPhase {
    /// Waiting for the folder to be looked up and checked.
    Preparing,
    /// Waiting for the server to register the session.
    Registering,
    /// Adding up the sizes of the folder's items.
    Estimating,
    /// Going through the folder's items one by one.
    Walking,
    /// Cutting one file into blocks.
    Chunking,
    /// The user cancelled; the upload thread is being told so.
    Cancelling,
    /// The walk is over; the upload thread is being told so.
    Signalling,
    /// Every block was handed over; waiting for the upload thread.
    Draining,
    /// Waiting for the session archive to be wrapped.
    Wrapping,
    /// Waiting for the server to take the session archive.
    Uploading,
    /// The session is on the server.
    Finished,
    /// The session stopped with an error.
    Stopped,
}

/// A sync session: the folder and the session name it syncs under, its
/// phase, its counters and the file being chunked.
pub struct SyncMachine {
    pub folder_id: u64,
    pub session_name: String,
    pub phase: SyncPhase,
    pub totals: SyncTotals,
    pub file: FileProgress,
    /// The lengths of the files archived so far, added up.
    pub archived_bytes: Ghost<nat>,
    /// The bytes processed of files that failed part way, added up.
    pub abandoned_bytes: Ghost<nat>,
}

/// What the upload thread is told: a wrapped block to upload, that the user
/// cancelled, or (neither) that every block was handed over.
pub struct UploadMessage {
    pub block: Option<Vec<u8>>,
    pub cancel: bool,
}

/// The registration that the server is asked for: the folder, the session
/// name, and whether the session is encrypted.
pub struct SessionRegistration {
    pub folder_id: u64,
    pub name: String,
    pub encrypted: bool,
}

/// `s` is an issue report with the text `m`.
pub open spec fn is_issue(s: SyncStatus, m: Seq<char>) -> bool {
    s matches SyncStatus::Issue(text) && text@ == m
}

/// `s` reports that the sync stopped inside the client, with the text `m`.
pub open spec fn is_internal_error(s: SyncStatus, m: Seq<char>) -> bool {
    s matches SyncStatus::Error(SDError::Internal(text)) && text@ == m
}

/// `s` reports that the sync stopped because wrapping failed, with the text `m`.
pub open spec fn is_crypto_error(s: SyncStatus, m: Seq<char>) -> bool {
    s matches SyncStatus::Error(SDError::CryptoError(text)) && text@ == m
}

/// What holds of every step of a session: the counters never go back, the
/// session stops exactly when a step reports an error, which is then the last
/// report of the step, and every progress report shows the counters as they
/// stand after the step.
pub open spec fn sound_step(before: SyncTotals, after: SyncTotals, stopped: bool, v: Seq<SyncStatus>) -> bool {
    &&& before.estimated_size <= after.estimated_size
    &&& before.processed_size <= after.processed_size
    &&& before.failed <= after.failed
    &&& stopped <==> (v.len() > 0 && v.last() is Error)
    &&& forall|i: int| 0 <= i < v.len() - 1 ==> !(#[trigger] v[i] is Error)
    &&& forall|i: int| 0 <= i < v.len() ==> (#[trigger] v[i] matches SyncStatus::Progress(e, p, _)
        ==> e == after.estimated_size && p == after.processed_size)
    &&& after.processed_size == before.processed_size + progress_blocks(v)
    &&& forall|i: int| 0 <= i < v.len() ==> (#[trigger] v[i] matches SyncStatus::Progress(_, p, _)
        ==> p == before.processed_size + progress_blocks(v.take(i + 1)))
}

/// The bytes of the block that a report announces: those of a progress
/// report, none for any other.
pub open spec fn block_of(s: SyncStatus) -> nat {
    match s {
        SyncStatus::Progress(_, _, b) => b as nat,
        _ => 0,
    }
}

/// The block bytes that the reports `v` announce, added up.
pub open spec fn progress_blocks(v: Seq<SyncStatus>) -> nat
    decreases v.len(),
{
    if v.len() == 0 { 0 } else { progress_blocks(v.drop_last()) + block_of(v.last()) }
}

proof fn lemma_progress_blocks_short(v: Seq<SyncStatus>)
    requires
        v.len() <= 2,
    ensures
        progress_blocks(v.take(0)) == 0,
        v.len() >= 1 ==> progress_blocks(v.take(1)) == block_of(v[0]),
        v.len() == 2 ==> progress_blocks(v.take(2)) == block_of(v[0]) + block_of(v[1]),
        progress_blocks(v) == if v.len() == 0 { 0 } else if v.len() == 1 { block_of(v[0]) } else {
            block_of(v[0]) + block_of(v[1])
        },
{
    reveal_with_fuel(progress_blocks, 3);
    assert(v.take(0) =~= Seq::<SyncStatus>::empty());
    if v.len() >= 1 {
        assert(v.take(1).drop_last() =~= Seq::<SyncStatus>::empty());
        if v.len() == 1 {
            assert(v.take(1) =~= v);
        }
    }
    if v.len() == 2 {
        assert(v.take(2).drop_last() =~= v.take(1));
        assert(v.take(2) =~= v);
    }
}

impl SyncMachine {
    /// A session that has done nothing yet.
    /// Whether the machine agrees with itself: one HMAC of `HMAC_SIZE` bytes
    /// kept per processed block; no file open while walking; and every
    /// processed byte belongs to an archived file, to a file that failed, or
    /// to the file being chunked.
    pub open spec fn wf(&self) -> bool {
        &&& self.file.hmac_bag@.len() == self.file.blocks * HMAC_SIZE
        &&& !(self.phase == SyncPhase::Chunking || self.phase == SyncPhase::Cancelling
            || self.phase == SyncPhase::Stopped) ==> self.file.processed == 0
        &&& self.totals.processed_size == self.archived_bytes@ + self.abandoned_bytes@ + self.file.processed
    }

    /// A session of the folder `folder_id` under `session_name` that has done
    /// nothing yet.
    pub fn new(folder_id: u64, session_name: String) -> (m: SyncMachine)
        ensures
            m.folder_id == folder_id,
            m.session_name@ == session_name@,
            m.phase == SyncPhase::Preparing,
            m.totals == zero_totals(),
            m.file.blocks == 0,
            m.file.hmac_bag@ == Seq::<u8>::empty(),
            m.archived_bytes@ == 0,
            m.abandoned_bytes@ == 0,
            m.wf(),
    {
        SyncMachine {
            folder_id,
            session_name,
            phase: SyncPhase::Preparing,
            totals: SyncTotals::new(),
            file: FileProgress::new(),
            archived_bytes: Ghost(0),
            abandoned_bytes: Ghost(0),
        }
    }

    /// The folder was looked up: `Ok((exists, is_dir))` says what is on disk
    /// at its path. The session goes on to registration only for an existing
    /// directory; the registration to ask for is then returned: this folder,
    /// this session name, encrypted.
    pub fn folder_ready(&mut self, lookup: Result<(bool, bool), SDAPIError>) -> (r: (Vec<SyncStatus>, Option<SessionRegistration>))
        requires
            old(self).wf(),
            old(self).phase == SyncPhase::Preparing,
        ensures
            final(self).wf(),
            final(self).totals == old(self).totals,
            match lookup {
                Err(e) => final(self).phase == SyncPhase::Stopped && r.0@ == seq![SyncStatus::Error(sd_error_of(e))],
                Ok((exists, is_dir)) => if exists && is_dir {
                    final(self).phase == SyncPhase::Registering && r.0@.len() == 0
                } else {
                    final(self).phase == SyncPhase::Stopped && r.0@ == seq![SyncStatus::Error(SDError::FolderMissing)]
                },
            },
            r.1 is Some <==> final(self).phase == SyncPhase::Registering,
            r.1 matches Some(reg) ==> reg.folder_id == old(self).folder_id && reg.name@ == old(self).session_name@
                && reg.encrypted,
            sound_step(old(self).totals, final(self).totals, final(self).phase == SyncPhase::Stopped, r.0@),
    {
        let mut v: Vec<SyncStatus> = Vec::new();
        let mut registration: Option<SessionRegistration> = None;
        match lookup {
            Err(e) => {
                v.push(SyncStatus::Error(SDError::from_api(e)));
                self.phase = SyncPhase::Stopped;
            },
            Ok((exists, is_dir)) => {
                if exists && is_dir {
                    self.phase = SyncPhase::Registering;
                    registration = Some(SessionRegistration {
                        folder_id: self.folder_id,
                        name: self.session_name.clone(),
                        encrypted: true,
                    });
                } else {
                    v.push(SyncStatus::Error(SDError::FolderMissing));
                    self.phase = SyncPhase::Stopped;
                }
            },
        }
        proof { lemma_progress_blocks_short(v@); }
        (v, registration)
    }

    /// The server answered the registration of the session.
    pub fn registered(&mut self, result: Result<(), SDAPIError>) -> (v: Vec<SyncStatus>)
        requires
            old(self).wf(),
            old(self).phase == SyncPhase::Registering,
        ensures
            final(self).wf(),
            final(self).totals == old(self).totals,
            match result {
                Ok(()) => final(self).phase == SyncPhase::Estimating && v@.len() == 0,
                Err(e) => final(self).phase == SyncPhase::Stopped && v@ == seq![SyncStatus::Error(sd_error_of(e))],
            },
            sound_step(old(self).totals, final(self).totals, final(self).phase == SyncPhase::Stopped, v@),
    {
        let mut v: Vec<SyncStatus> = Vec::new();
        match result {
            Ok(()) => { self.phase = SyncPhase::Estimating; },
            Err(e) => {
                v.push(SyncStatus::Error(SDError::from_api(e)));
                self.phase = SyncPhase::Stopped;
            },
        }
        proof { lemma_progress_blocks_short(v@); }
        v
    }

    /// One item of the folder was measured: its length, or its path and why
    /// it could not be read.
    pub fn measured(&mut self, item: Result<u64, (String, String)>) -> (v: Vec<SyncStatus>)
        requires
            old(self).wf(),
            old(self).phase == SyncPhase::Estimating,
            item matches Ok(len) ==> old(self).totals.estimated_size + len <= u64::MAX,
        ensures
            final(self).wf(),
            final(self).phase == SyncPhase::Estimating,
            match item {
                Ok(len) => final(self).totals == (SyncTotals {
                    estimated_size: (old(self).totals.estimated_size + len) as u64,
                    ..old(self).totals
                }) && v@.len() == 0,
                Err((path, reason)) => final(self).totals == old(self).totals && v@.len() == 1
                    && is_issue(v@[0], "not able to sync file "@ + path@ + ": "@ + reason@),
            },
            sound_step(old(self).totals, final(self).totals, final(self).phase == SyncPhase::Stopped, v@),
    {
        let mut v: Vec<SyncStatus> = Vec::new();
        match item {
            Ok(len) => { self.totals.add_estimate(len); },
            Err((path, reason)) => { v.push(item_issue(path.as_str(), reason.as_str())); },
        }
        proof { lemma_progress_blocks_short(v@); }
        v
    }

    /// Every item was measured; the walk that syncs them begins.
    pub fn begin_walk(&mut self)
        requires
            old(self).wf(),
            old(self).phase == SyncPhase::Estimating,
        ensures
            final(self).wf(),
            final(self).phase == SyncPhase::Walking,
            final(self).totals == old(self).totals,
    {
        self.phase = SyncPhase::Walking;
    }

    /// The user cancelled: returns the message that tells the upload thread
    /// to stop, which the caller sends before reporting the outcome.
    pub fn begin_cancel(&mut self) -> (m: UploadMessage)
        requires
            old(self).wf(),
            old(self).phase == SyncPhase::Walking || old(self).phase == SyncPhase::Chunking,
        ensures
            final(self).wf(),
            final(self).phase == SyncPhase::Cancelling,
            final(self).totals == old(self).totals,
            m.block is None && m.cancel,
    {
        self.phase = SyncPhase::Cancelling;
        UploadMessage { block: None, cancel: true }
    }

    /// The cancel message was sent, or the description of why it could not
    /// be sent is given; the session stops.
    pub fn cancel(&mut self, send_failure: Option<String>) -> (v: Vec<SyncStatus>)
        requires
            old(self).wf(),
            old(self).phase == SyncPhase::Cancelling,
        ensures
            final(self).wf(),
            final(self).phase == SyncPhase::Stopped,
            final(self).totals == old(self).totals,
            v@.last() == SyncStatus::Error(SDError::Cancelled),
            send_failure is None ==> v@.len() == 1,
            send_failure matches Some(e) ==> v@.len() == 2
                && is_issue(v@[0], "not able to cancel upload: ("@ + e@ + ")"@),
            sound_step(old(self).totals, final(self).totals, final(self).phase == SyncPhase::Stopped, v@),
    {
        let v = cancel_statuses(send_failure);
        self.phase = SyncPhase::Stopped;
        proof { lemma_progress_blocks_short(v@); }
        v
    }

    /// The walk reached an item: whether it is the folder itself, its kind
    /// and length where its metadata could be read, and its path relative to
    /// the folder. Reports progress first; says what to do with the item, and
    /// gives the archive entry of an empty file, a directory or a symlink
    /// (no data, size 0). A file with data is archived once it is chunked.
    pub fn item(&mut self, is_root: bool, entry: Option<(EntryKind, u64)>, name: String)
        -> (r: (Vec<SyncStatus>, EntryPlan, Option<ArchiveEntry>))
        requires
            old(self).wf(),
            old(self).phase == SyncPhase::Walking,
            !is_root && entry is None ==> old(self).totals.failed < u64::MAX,
        ensures
            r.0@ == seq![SyncStatus::Progress(old(self).totals.estimated_size, old(self).totals.processed_size, 0)],
            is_root ==> r.1 == EntryPlan::Skip && final(self).totals == old(self).totals,
            !is_root && entry is None ==> r.1 == EntryPlan::Skip
                && final(self).totals == (SyncTotals { failed: (old(self).totals.failed + 1) as u64, ..old(self).totals }),
            !is_root ==> (entry matches Some((kind, len)) ==> r.1 == entry_plan_spec(kind, len)
                && final(self).totals == old(self).totals),
            !is_root ==> (entry matches Some((kind, len)) ==> (kind == EntryKind::File && len > 0 <==> r.1 == EntryPlan::Chunk)),
            !is_root ==> (entry matches Some((kind, len)) ==> (kind == EntryKind::File && len == 0 ==> r.1 == EntryPlan::Empty)),
            final(self).phase == if r.1 == EntryPlan::Chunk { SyncPhase::Chunking } else { SyncPhase::Walking },
            r.1 == EntryPlan::Chunk ==> (entry matches Some((_, len)) && final(self).file.length == len)
                && final(self).file.name@ == name@ && final(self).file.processed == 0
                && final(self).file.blocks == 0 && final(self).file.padding == 0
                && final(self).file.hmac_bag@ == Seq::<u8>::empty(),
            r.2 is Some <==> (r.1 == EntryPlan::Empty || r.1 == EntryPlan::Link),
            r.2 matches Some(a) ==> a.name@ == name@ && a.size == 0 && a.data@ == Seq::<u8>::empty(),
            final(self).wf(),
            sound_step(old(self).totals, final(self).totals, final(self).phase == SyncPhase::Stopped, r.0@),
    {
        let mut v: Vec<SyncStatus> = Vec::new();
        v.push(self.totals.progress(0));
        proof { lemma_progress_blocks_short(v@); }
        if is_root {
            return (v, EntryPlan::Skip, None);
        }
        match entry {
            None => {
                self.totals.record_failure();
                (v, EntryPlan::Skip, None)
            },
            Some((kind, len)) => {
                let plan = entry_plan(kind, len);
                if plan == EntryPlan::Chunk {
                    self.file = FileProgress::for_file(name, len);
                    self.phase = SyncPhase::Chunking;
                    (v, plan, None)
                } else if plan == EntryPlan::Skip {
                    (v, plan, None)
                } else {
                    (v, plan, Some(ArchiveEntry { name, size: 0, data: Vec::new() }))
                }
            },
        }
    }

    /// One look at the upload thread's channel between blocks.
    pub fn upload_check(&mut self, report: UploadReport) -> (v: Vec<SyncStatus>)
        requires
            old(self).wf(),
            old(self).phase == SyncPhase::Chunking,
        ensures
            final(self).wf(),
            final(self).totals == old(self).totals,
            match report {
                UploadReport::Message(Ok(_)) => final(self).phase == SyncPhase::Chunking && v@.len() == 0,
                UploadReport::Idle => final(self).phase == SyncPhase::Chunking && v@.len() == 0,
                UploadReport::Message(Err(e)) => final(self).phase == SyncPhase::Stopped
                    && v@ == seq![SyncStatus::Error(e)],
                UploadReport::Closed(d) => final(self).phase == SyncPhase::Stopped && v@.len() == 1
                    && is_internal_error(v@[0], "end of channel: "@ + d@),
            },
            sound_step(old(self).totals, final(self).totals, final(self).phase == SyncPhase::Stopped, v@),
    {
        let mut v: Vec<SyncStatus> = Vec::new();
        match upload_report_action(report) {
            None => {},
            Some(s) => {
                v.push(s);
                self.phase = SyncPhase::Stopped;
            },
        }
        proof { lemma_progress_blocks_short(v@); }
        v
    }

    /// A block of the file was read, compressed and wrapped into `wrapped`:
    /// counts it and returns the progress report and the message that hands
    /// the wrapped block to the upload thread.
    pub fn block(&mut self, block: &BlockRecord, wrapped: Vec<u8>) -> (r: (Vec<SyncStatus>, UploadMessage))
        requires
            old(self).phase == SyncPhase::Chunking,
            old(self).wf(),
            block_fits(old(self).totals, old(self).file.padding, *block),
            block.hmac@.len() == HMAC_SIZE,
            old(self).file.processed + block.real_size <= u64::MAX,
            old(self).file.blocks < u64::MAX,
        ensures
            final(self).phase == SyncPhase::Chunking,
            final(self).totals == totals_after_block(old(self).totals, *block),
            final(self).file.name == old(self).file.name,
            final(self).file.length == old(self).file.length,
            final(self).file.processed == old(self).file.processed + block.real_size,
            final(self).file.blocks == old(self).file.blocks + 1,
            final(self).file.padding == old(self).file.padding + padding_overhead(*block),
            final(self).file.hmac_bag@ == old(self).file.hmac_bag@ + block.hmac@,
            final(self).wf(),
            r.0@ == seq![SyncStatus::Progress(final(self).totals.estimated_size, final(self).totals.processed_size, block.real_size)],
            r.1.block == Some(wrapped) && !r.1.cancel,
            sound_step(old(self).totals, final(self).totals, final(self).phase == SyncPhase::Stopped, r.0@),
    {
        let mut v: Vec<SyncStatus> = Vec::new();
        let s = self.totals.record_block(&mut self.file, block);
        self.file.processed = self.file.processed + block.real_size;
        self.file.blocks = self.file.blocks + 1;
        v.push(s);
        proof { lemma_progress_blocks_short(v@); }
        (v, UploadMessage { block: Some(wrapped), cancel: false })
    }

    /// Wrapping (encrypting) a block failed; the session stops.
    pub fn wrap_failed(&mut self, reason: String) -> (v: Vec<SyncStatus>)
        requires
            old(self).wf(),
            old(self).phase == SyncPhase::Chunking,
        ensures
            final(self).wf(),
            final(self).phase == SyncPhase::Stopped,
            final(self).totals == old(self).totals,
            v@.len() == 1 && is_crypto_error(v@[0], reason@),
            sound_step(old(self).totals, final(self).totals, final(self).phase == SyncPhase::Stopped, v@),
    {
        let mut v: Vec<SyncStatus> = Vec::new();
        v.push(SyncStatus::Error(SDError::CryptoError(reason)));
        self.phase = SyncPhase::Stopped;
        proof { lemma_progress_blocks_short(v@); }
        v
    }

    /// The file at `path` could not be chunked to its end: a block could not
    /// be read, or handing one to the upload thread failed (its description
    /// given). The file counts as failed and the walk goes on.
    pub fn block_failed(&mut self, path: &str, send_failure: Option<String>) -> (v: Vec<SyncStatus>)
        requires
            old(self).wf(),
            old(self).phase == SyncPhase::Chunking,
            old(self).totals.failed < u64::MAX,
        ensures
            final(self).wf(),
            final(self).phase == SyncPhase::Walking,
            final(self).totals == (SyncTotals { failed: (old(self).totals.failed + 1) as u64, ..old(self).totals }),
            v@.len() >= 1,
            is_issue(v@.last(), "not able to sync file "@ + path@ + ": "@ + "could not read from file"@),
            final(self).archived_bytes@ == old(self).archived_bytes@,
            final(self).abandoned_bytes@ == old(self).abandoned_bytes@ + old(self).file.processed,
            send_failure is None ==> v@.len() == 1,
            send_failure matches Some(e) ==> v@.len() == 2
                && is_issue(v@[0], "not able to sync file "@ + path@ + ": "@ + ("writing failed ("@ + e@ + ")"@)),
            sound_step(old(self).totals, final(self).totals, final(self).phase == SyncPhase::Stopped, v@),
    {
        let mut v: Vec<SyncStatus> = Vec::new();
        match send_failure {
            Some(e) => {
                let reason = String::from_str("writing failed (").concat(e.as_str()).concat(")");
                v.push(item_issue(path, reason.as_str()));
            },
            None => {},
        }
        v.push(item_issue(path, "could not read from file"));
        self.totals.record_failure();
        proof {
            self.abandoned_bytes@ = self.abandoned_bytes@ + self.file.processed as nat;
        }
        self.file = FileProgress::new();
        self.phase = SyncPhase::Walking;
        proof { lemma_progress_blocks_short(v@); }
        v
    }

    /// Every block of the file was processed, and together they hold the
    /// file's length (the original asserts it). Returns the file's archive
    /// entry: its name, one HMAC per block as data, and that data's size.
    pub fn file_done(&mut self) -> (a: ArchiveEntry)
        requires
            old(self).phase == SyncPhase::Chunking,
            old(self).wf(),
            old(self).file.processed == old(self).file.length,
            old(self).totals.processed_size_padding + old(self).file.padding <= u64::MAX,
            old(self).file.blocks * HMAC_SIZE <= u64::MAX,
        ensures
            final(self).phase == SyncPhase::Walking,
            final(self).totals == (SyncTotals {
                processed_size_padding: (old(self).totals.processed_size_padding + old(self).file.padding) as u64,
                ..old(self).totals
            }),
            a.name@ == old(self).file.name@,
            a.data@ == old(self).file.hmac_bag@,
            a.size == old(self).file.blocks * HMAC_SIZE,
            a.size == a.data@.len(),
            final(self).archived_bytes@ == old(self).archived_bytes@ + old(self).file.length,
            final(self).abandoned_bytes@ == old(self).abandoned_bytes@,
            final(self).wf(),
    {
        let mut done = FileProgress::new();
        std::mem::swap(&mut done, &mut self.file);
        proof {
            self.archived_bytes@ = self.archived_bytes@ + done.length as nat;
        }
        let size = self.totals.finish_file(&done, done.blocks);
        self.phase = SyncPhase::Walking;
        ArchiveEntry { name: done.name, size, data: done.hmac_bag }
    }

    /// The walk is over: returns the message that tells the upload thread
    /// every block was handed over, which the caller sends.
    pub fn end_walk(&mut self) -> (m: UploadMessage)
        requires
            old(self).wf(),
            old(self).phase == SyncPhase::Walking,
        ensures
            final(self).wf(),
            final(self).phase == SyncPhase::Signalling,
            final(self).totals == old(self).totals,
            m.block is None && !m.cancel,
    {
        self.phase = SyncPhase::Signalling;
        UploadMessage { block: None, cancel: false }
    }

    /// The end-of-walk message was sent, or the description of why it could
    /// not be sent is given; the session waits for the upload thread.
    pub fn walk_signalled(&mut self, signal_failure: Option<String>) -> (v: Vec<SyncStatus>)
        requires
            old(self).wf(),
            old(self).phase == SyncPhase::Signalling,
        ensures
            final(self).wf(),
            final(self).phase == SyncPhase::Draining,
            final(self).totals == old(self).totals,
            signal_failure is None ==> v@.len() == 0,
            signal_failure matches Some(e) ==> v@.len() == 1
                && is_issue(v@[0], "not able to signal write cache to finish: "@ + e@),
            sound_step(old(self).totals, final(self).totals, final(self).phase == SyncPhase::Stopped, v@),
    {
        let mut v: Vec<SyncStatus> = Vec::new();
        match signal_failure {
            Some(e) => {
                v.push(SyncStatus::Issue(String::from_str("not able to signal write cache to finish: ").concat(e.as_str())));
            },
            None => {},
        }
        self.phase = SyncPhase::Draining;
        proof { lemma_progress_blocks_short(v@); }
        v
    }

    /// One look at the upload thread's channel while waiting for it to end.
    pub fn drain(&mut self, report: UploadReport) -> (v: Vec<SyncStatus>)
        requires
            old(self).wf(),
            old(self).phase == SyncPhase::Draining,
        ensures
            final(self).wf(),
            final(self).totals == old(self).totals,
            match report {
                UploadReport::Message(Ok(finished)) => v@.len() == 0
                    && final(self).phase == if finished { SyncPhase::Wrapping } else { SyncPhase::Draining },
                UploadReport::Idle => v@.len() == 0 && final(self).phase == SyncPhase::Draining,
                UploadReport::Closed(_) => v@.len() == 0 && final(self).phase == SyncPhase::Wrapping,
                UploadReport::Message(Err(e)) => final(self).phase == SyncPhase::Stopped
                    && v@ == seq![SyncStatus::Error(e)],
            },
            sound_step(old(self).totals, final(self).totals, final(self).phase == SyncPhase::Stopped, v@),
    {
        let mut v: Vec<SyncStatus> = Vec::new();
        match finish_wait_action(report) {
            WaitAction::Done => { self.phase = SyncPhase::Wrapping; },
            WaitAction::Wait => {},
            WaitAction::Stop(s) => {
                v.push(s);
                self.phase = SyncPhase::Stopped;
            },
        }
        proof { lemma_progress_blocks_short(v@); }
        v
    }

    /// The session archive was wrapped: its compressed size where it was
    /// compressed, or why wrapping failed.
    pub fn session_wrapped(&mut self, result: Result<Option<u64>, String>) -> (v: Vec<SyncStatus>)
        requires
            old(self).wf(),
            old(self).phase == SyncPhase::Wrapping,
            result matches Ok(Some(size)) ==> old(self).totals.estimated_size + size <= u64::MAX,
        ensures
            final(self).wf(),
            match result {
                Err(reason) => final(self).phase == SyncPhase::Stopped && final(self).totals == old(self).totals
                    && v@.len() == 1
                    && is_crypto_error(v@[0], reason@),
                Ok(compressed) => final(self).phase == SyncPhase::Uploading
                    && final(self).totals == match compressed {
                        Some(size) => SyncTotals { estimated_size: (old(self).totals.estimated_size + size) as u64, ..old(self).totals },
                        None => old(self).totals,
                    }
                    && v@ == seq![SyncStatus::Progress(final(self).totals.estimated_size, final(self).totals.processed_size, 0)],
            },
            sound_step(old(self).totals, final(self).totals, final(self).phase == SyncPhase::Stopped, v@),
    {
        let mut v: Vec<SyncStatus> = Vec::new();
        match result {
            Err(reason) => {
                v.push(SyncStatus::Error(SDError::CryptoError(reason)));
                self.phase = SyncPhase::Stopped;
            },
            Ok(compressed) => {
                self.totals.add_session_size(compressed);
                v.push(self.totals.progress(0));
                self.phase = SyncPhase::Uploading;
            },
        }
        proof { lemma_progress_blocks_short(v@); }
        v
    }

    /// The server answered the upload of the session archive.
    pub fn session_finished(&mut self, result: Result<(), SDAPIError>) -> (v: Vec<SyncStatus>)
        requires
            old(self).wf(),
            old(self).phase == SyncPhase::Uploading,
        ensures
            final(self).wf(),
            final(self).totals == old(self).totals,
            final(self).phase == if result is Ok { SyncPhase::Finished } else { SyncPhase::Stopped },
            result is Ok ==> v@ == seq![SyncStatus::Progress(old(self).totals.estimated_size, old(self).totals.processed_size, 0)],
            result matches Err(SDAPIError::Authentication) ==> v@ == seq![SyncStatus::Error(SDError::Authentication)],
            result matches Err(e) ==> (!(e is Authentication) ==> {
                &&& v@.len() == 2
                &&& is_issue(v@[0], "not able to finish sync: "@ + api_error_message(e))
                &&& v@[1] == SyncStatus::Error(SDError::RequestFailure(e))
            }),
            sound_step(old(self).totals, final(self).totals, final(self).phase == SyncPhase::Stopped, v@),
    {
        let ok = result.is_ok();
        let v = self.totals.finish_statuses(result);
        self.phase = if ok { SyncPhase::Finished } else { SyncPhase::Stopped };
        proof { lemma_progress_blocks_short(v@); }
        v
    }
}

/// Outside the chunking of a file, every byte the session counted as
/// processed belongs to a file it archived (whose blocks held exactly the
/// file's length) or to a file that failed part way: with no failed file,
/// the processed size is the sum of the archived files' lengths.
pub proof fn lemma_processed_bytes_accounted(m: &SyncMachine)
    requires
        m.wf(),
        !(m.phase == SyncPhase::Chunking || m.phase == SyncPhase::Cancelling || m.phase == SyncPhase::Stopped),
    ensures
        m.totals.processed_size == m.archived_bytes@ + m.abandoned_bytes@,
{
}

/// One step of a session as its contracts see it: the counters before and
/// after, whether it stopped the session, and what it reported.
pub type SyncStep = (SyncTotals, SyncTotals, bool, Seq<SyncStatus>);

/// `steps` is a run of a session: every step is sound, each starts from the
/// counters the one before left, and no step follows one that stopped the
/// session (every step asks for a phase other than `Stopped`).
pub open spec fn chained_run(steps: Seq<SyncStep>) -> bool {
    &&& forall|i: int| 0 <= i < steps.len() ==> #[trigger] sound_step(steps[i].0, steps[i].1, steps[i].2, steps[i].3)
    &&& forall|i: int| 0 <= i < steps.len() - 1 ==> (#[trigger] steps[i]).1 == steps[i + 1].0 && !steps[i].2
}

/// All that a run reported, in order.
pub open spec fn run_reports(steps: Seq<SyncStep>) -> Seq<SyncStatus>
    decreases steps.len(),
{
    if steps.len() == 0 { Seq::empty() } else { run_reports(steps.drop_last()) + steps.last().3 }
}

proof fn lemma_progress_blocks_concat(a: Seq<SyncStatus>, b: Seq<SyncStatus>)
    ensures
        progress_blocks(a + b) == progress_blocks(a) + progress_blocks(b),
    decreases b.len(),
{
    if b.len() == 0 {
        assert(a + b =~= a);
    } else {
        lemma_progress_blocks_concat(a, b.drop_last());
        assert((a + b).drop_last() =~= a + b.drop_last());
    }
}

proof fn lemma_chained_prefix(steps: Seq<SyncStep>)
    requires
        chained_run(steps),
        steps.len() > 0,
    ensures
        chained_run(steps.drop_last()),
{
    let init = steps.drop_last();
    assert forall|i: int| 0 <= i < init.len() implies #[trigger] sound_step(init[i].0, init[i].1, init[i].2, init[i].3) by {
        assert(init[i] == steps[i]);
        assert(sound_step(steps[i].0, steps[i].1, steps[i].2, steps[i].3));
    }
    assert forall|i: int| 0 <= i < init.len() - 1 implies (#[trigger] init[i]).1 == init[i + 1].0 && !init[i].2 by {
        assert(init[i] == steps[i]);
        assert(init[i + 1] == steps[i + 1]);
        assert(steps[i].1 == steps[i + 1].0 && !steps[i].2);
    }
}

/// Over a whole run of a session: an error is reported at most once and only
/// as the very last report, exactly when the last step stopped the session;
/// the processed counter ends at its start plus the block sizes reported, and
/// each progress report shows the start plus the block sizes reported up to
/// and including it; and the estimate that progress reports show never goes
/// back.
pub proof fn lemma_run_reports(steps: Seq<SyncStep>)
    requires
        chained_run(steps),
        steps.len() > 0,
    ensures
        forall|k: int| 0 <= k < run_reports(steps).len() - 1 ==> !(#[trigger] run_reports(steps)[k] is Error),
        steps.last().2 <==> (run_reports(steps).len() > 0 && run_reports(steps).last() is Error),
        steps.last().1.processed_size == steps[0].0.processed_size + progress_blocks(run_reports(steps)),
        forall|k: int| 0 <= k < run_reports(steps).len() ==> (#[trigger] run_reports(steps)[k] matches SyncStatus::Progress(_, p, _)
            ==> p == steps[0].0.processed_size + progress_blocks(run_reports(steps).take(k + 1))),
        forall|k: int| 0 <= k < run_reports(steps).len() ==> (#[trigger] run_reports(steps)[k] matches SyncStatus::Progress(e, _, _)
            ==> e <= steps.last().1.estimated_size),
        forall|k1: int, k2: int| 0 <= k1 < k2 < run_reports(steps).len()
            && #[trigger] run_reports(steps)[k1] is Progress && #[trigger] run_reports(steps)[k2] is Progress
            ==> run_reports(steps)[k1]->Progress_0 <= run_reports(steps)[k2]->Progress_0,
    decreases steps.len(),
{
    let r = run_reports(steps);
    let last = steps.last();
    let v = last.3;
    assert(last == steps[steps.len() - 1]);
    assert(sound_step(steps[steps.len() - 1].0, steps[steps.len() - 1].1, steps[steps.len() - 1].2, steps[steps.len() - 1].3));
    if steps.len() == 1 {
        assert(run_reports(steps.drop_last()) =~= Seq::<SyncStatus>::empty());
        assert(r =~= v);
        assert forall|k: int| 0 <= k < r.len() implies (#[trigger] r[k] matches SyncStatus::Progress(_, p, _)
            ==> p == steps[0].0.processed_size + progress_blocks(r.take(k + 1))) by {
            assert(r.take(k + 1) =~= v.take(k + 1));
        }
    } else {
        let init = steps.drop_last();
        lemma_chained_prefix(steps);
        lemma_run_reports(init);
        let pr = run_reports(init);
        assert(r == pr + v);
        let n = steps.len();
        assert(init.last() == steps[n - 2]);
        assert(steps[n - 2].1 == steps[n - 1].0 && !steps[n - 2].2);
        assert(init[0] == steps[0]);
        // Nothing in the earlier reports is an error.
        assert forall|k: int| 0 <= k < pr.len() implies !(#[trigger] pr[k] is Error) by {
            if k < pr.len() - 1 {
            } else {
                assert(pr[k] == pr.last());
            }
        }
        assert forall|k: int| 0 <= k < r.len() - 1 implies !(#[trigger] r[k] is Error) by {
            if k < pr.len() {
                assert(r[k] == pr[k]);
            } else {
                assert(r[k] == v[k - pr.len()]);
            }
        }
        if v.len() == 0 {
            assert(r =~= pr);
            if pr.len() > 0 {
                assert(pr.last() == pr[pr.len() - 1]);
            }
        } else {
            assert(r.last() == v.last());
        }
        lemma_progress_blocks_concat(pr, v);
        assert forall|k: int| 0 <= k < r.len() implies (#[trigger] r[k] matches SyncStatus::Progress(_, p, _)
            ==> p == steps[0].0.processed_size + progress_blocks(r.take(k + 1))) by {
            if k < pr.len() {
                assert(r[k] == pr[k]);
                assert(r.take(k + 1) =~= pr.take(k + 1));
            } else {
                let j = k - pr.len();
                assert(r[k] == v[j]);
                assert(r.take(k + 1) =~= pr + v.take(j + 1));
                lemma_progress_blocks_concat(pr, v.take(j + 1));
            }
        }
        assert forall|k: int| 0 <= k < r.len() implies (#[trigger] r[k] matches SyncStatus::Progress(e, _, _)
            ==> e <= last.1.estimated_size) by {
            if k < pr.len() {
                assert(r[k] == pr[k]);
            } else {
                assert(r[k] == v[k - pr.len()]);
            }
        }
        assert forall|k1: int, k2: int| 0 <= k1 < k2 < r.len() && #[trigger] r[k1] is Progress && #[trigger] r[k2] is Progress
            implies r[k1]->Progress_0 <= r[k2]->Progress_0 by {
            if k2 < pr.len() {
                assert(r[k1] == pr[k1]);
                assert(r[k2] == pr[k2]);
            } else if k1 < pr.len() {
                assert(r[k1] == pr[k1]);
                assert(r[k2] == v[k2 - pr.len()]);
            } else {
                assert(r[k1] == v[k1 - pr.len()]);
                assert(r[k2] == v[k2 - pr.len()]);
            }
        }
    }
}

proof fn lemma_progress_blocks_take_step(r: Seq<SyncStatus>, j: int)
    requires
        0 <= j < r.len(),
    ensures
        progress_blocks(r.take(j + 1)) == progress_blocks(r.take(j)) + block_of(r[j]),
{
    assert(r.take(j + 1).drop_last() =~= r.take(j));
}

proof fn lemma_progress_blocks_quiet(r: Seq<SyncStatus>, k1: int, k2: int)
    requires
        0 <= k1 < k2 <= r.len(),
        forall|j: int| k1 < j < k2 ==> !(#[trigger] r[j] is Progress),
    ensures
        progress_blocks(r.take(k2)) == progress_blocks(r.take(k1 + 1)),
    decreases k2 - k1,
{
    if k2 > k1 + 1 {
        lemma_progress_blocks_quiet(r, k1, k2 - 1);
        lemma_progress_blocks_take_step(r, k2 - 1);
    }
}

/// Between two successive progress reports of a run, the processed counter
/// grows by exactly the block size the later one reports, and the estimate
/// does not go back.
pub proof fn lemma_successive_progress(steps: Seq<SyncStep>, k1: int, k2: int)
    requires
        chained_run(steps),
        steps.len() > 0,
        0 <= k1 < k2 < run_reports(steps).len(),
        run_reports(steps)[k1] is Progress,
        run_reports(steps)[k2] is Progress,
        forall|j: int| k1 < j < k2 ==> !(#[trigger] run_reports(steps)[j] is Progress),
    ensures
        run_reports(steps)[k2]->Progress_1 == run_reports(steps)[k1]->Progress_1 + run_reports(steps)[k2]->Progress_2,
        run_reports(steps)[k1]->Progress_0 <= run_reports(steps)[k2]->Progress_0,
{
    let r = run_reports(steps);
    lemma_run_reports(steps);
    lemma_progress_blocks_quiet(r, k1, k2);
    lemma_progress_blocks_take_step(r, k2);
    assert(r[k1] matches SyncStatus::Progress(_, _, _));
    assert(r[k2] matches SyncStatus::Progress(_, _, _));
}

} // verus!
