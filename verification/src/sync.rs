//! The decisions and the bookkeeping of a sync session: the caller walks the
//! folder, reads files, talks to the upload thread and the server, and hands
//! each event to these functions, which say what to report and what to keep.

use vstd::prelude::*;
use crate::error::{SDAPIError, SDError, api_error_message};
use crate::multipart::append_bytes;

verus! {

/// Bytes of one block HMAC; a file's archive entry holds one per block.
pub const HMAC_SIZE: u64 = 32;

/// What a sync session reports to its caller.
#[derive(Debug, Clone)]
pub enum SyncStatus {
    /// Estimated total bytes, bytes processed so far, bytes of the block just processed.
    Progress(u64, u64, u64),
    /// Something went wrong with one item; the sync goes on.
    Issue(String),
    /// The sync stopped with this error.
    Error(SDError),
}

/// The counters a sync session keeps.
#[derive(PartialEq, Eq, Structural, Clone, Copy, Debug)]
pub struct SyncTotals {
    pub estimated_size: u64,
    pub processed_size: u64,
    pub processed_size_compressed: u64,
    pub processed_size_padding: u64,
    pub failed: u64,
}

/// What is known of one block after it was read, compressed and wrapped.
pub struct BlockRecord {
    pub real_size: u64,
    pub compressed: bool,
    pub compressed_size: Option<u64>,
    pub padded_size: u64,
    pub hmac: Vec<u8>,
}

/// What a sync session keeps of the file being chunked.
pub struct FileProgress {
    /// The file's path relative to the synced folder: its archive entry's name.
    pub name: String,
    /// The file's length when the walk reached it.
    pub length: u64,
    /// The real bytes of the blocks processed so far.
    pub processed: u64,
    /// The blocks processed so far.
    pub blocks: u64,
    /// The bytes that wrapping added to those blocks.
    pub padding: u64,
    /// Their HMACs, one after the other.
    pub hmac_bag: Vec<u8>,
}

/// One entry of the session archive: its name (the path relative to the
/// synced folder), the size its header gives, and its data.
pub struct ArchiveEntry {
    pub name: String,
    pub size: u64,
    pub data: Vec<u8>,
}

/// The kinds of directory entries the walk meets.
#[derive(PartialEq, Eq, Structural, Clone, Copy, Debug)]
pub enum EntryKind {
    File,
    Directory,
    Symlink,
    Other,
}

/// What the session does with an entry of the folder.
#[derive(PartialEq, Eq, Structural, Clone, Copy, Debug)]
pub enum EntryPlan {
    /// Cut the file into blocks; the archive entry lists their HMACs.
    Chunk,
    /// Archive the entry with no data.
    Empty,
    /// Archive the symlink, with its target, and no data.
    Link,
    /// Leave the entry out.
    Skip,
}

/// What the upload thread has said, as seen by one look at its channel.
#[derive(Debug)]
pub enum UploadReport {
    /// A message: the upload went on (`Ok(finished)`) or failed.
    Message(Result<bool, SDError>),
    /// No message is waiting.
    Idle,
    /// The channel is closed; the text is how the channel describes that.
    Closed(String),
}

/// What to do after one look at the upload thread's channel at the end.
#[derive(Debug, Clone)]
pub enum WaitAction {
    /// The upload is over; go on with the session.
    Done,
    /// Look again later.
    Wait,
    /// Report this and stop.
    Stop(SyncStatus),
}

/// The counters of a session that has not looked at anything yet.
pub open spec fn zero_totals() -> SyncTotals {
    SyncTotals { estimated_size: 0, processed_size: 0, processed_size_compressed: 0, processed_size_padding: 0, failed: 0 }
}

/// The totals after one block was processed.
pub open spec fn totals_after_block(t: SyncTotals, b: BlockRecord) -> SyncTotals {
    SyncTotals {
        processed_size: (t.processed_size + b.real_size) as u64,
        processed_size_compressed: (t.processed_size_compressed + match b.compressed_size {
            Some(size) => size,
            None => b.real_size,
        }) as u64,
        ..t
    }
}

/// The bytes that wrapping added to a block: over the compressed size when
/// the block was compressed (none known counts as 0), else over the real size.
pub open spec fn padding_overhead(b: BlockRecord) -> int {
    if b.compressed {
        b.padded_size - match b.compressed_size { Some(size) => size as int, None => 0 }
    } else {
        b.padded_size - b.real_size
    }
}

/// Whether recording `b` keeps every counter within a u64 and the overhead
/// non-negative.
pub open spec fn block_fits(t: SyncTotals, padding: u64, b: BlockRecord) -> bool {
    &&& t.processed_size + b.real_size <= u64::MAX
    &&& t.processed_size_compressed + match b.compressed_size {
            Some(size) => size,
            None => b.real_size,
        } <= u64::MAX
    &&& 0 <= padding_overhead(b)
    &&& padding + padding_overhead(b) <= u64::MAX
}

/// The SDError that a failed API call becomes.
pub open spec fn sd_error_of(e: SDAPIError) -> SDError {
    match e {
        SDAPIError::Authentication => SDError::Authentication,
        _ => SDError::RequestFailure(e),
    }
}

impl SDError {
    /// The SDError that a failed API call becomes: a refused token stays an
    /// authentication error, anything else is a failed request.
    pub fn from_api(e: SDAPIError) -> (r: SDError)
        ensures
            r == sd_error_of(e),
    {
        match e {
            SDAPIError::Authentication => SDError::Authentication,
            _ => SDError::RequestFailure(e),
        }
    }
}

impl SyncTotals {
    /// The counters of a session that has not looked at anything yet.
    pub fn new() -> (t: SyncTotals)
        ensures
            t == zero_totals(),
    {
        SyncTotals {
            estimated_size: 0,
            processed_size: 0,
            processed_size_compressed: 0,
            processed_size_padding: 0,
            failed: 0,
        }
    }

    /// Counts an item of `stream_length` bytes into the estimate.
    pub fn add_estimate(&mut self, stream_length: u64)
        requires
            old(self).estimated_size + stream_length <= u64::MAX,
        ensures
            *final(self) == (SyncTotals { estimated_size: (old(self).estimated_size + stream_length) as u64, ..*old(self) }),
    {
        self.estimated_size = self.estimated_size + stream_length;
    }

    /// The progress report after a block of `block_size` bytes (0 for none).
    pub fn progress(&self, block_size: u64) -> (s: SyncStatus)
        ensures
            s == SyncStatus::Progress(self.estimated_size, self.processed_size, block_size),
    {
        SyncStatus::Progress(self.estimated_size, self.processed_size, block_size)
    }

    /// Counts an item that could not be synced.
    pub fn record_failure(&mut self)
        requires
            old(self).failed < u64::MAX,
        ensures
            *final(self) == (SyncTotals { failed: (old(self).failed + 1) as u64, ..*old(self) }),
    {
        self.failed = self.failed + 1;
    }

    /// Whether `block` can be recorded into these totals and `file`.
    pub fn can_record_block(&self, file: &FileProgress, block: &BlockRecord) -> (ok: bool)
        ensures
            ok == block_fits(*self, file.padding, *block),
    {
        let compressed_part = match block.compressed_size {
            Some(size) => size,
            None => block.real_size,
        };
        let base = if block.compressed {
            match block.compressed_size {
                Some(size) => size,
                None => 0,
            }
        } else {
            block.real_size
        };
        u64::MAX - self.processed_size >= block.real_size
            && u64::MAX - self.processed_size_compressed >= compressed_part
            && block.padded_size >= base
            && u64::MAX - file.padding >= block.padded_size - base
    }

    /// Records a processed block: adds it to the counters, its padding to the
    /// file's and its HMAC to the file's list, and returns the progress report.
    pub fn record_block(&mut self, file: &mut FileProgress, block: &BlockRecord) -> (s: SyncStatus)
        requires
            block_fits(*old(self), old(file).padding, *block),
        ensures
            *final(self) == totals_after_block(*old(self), *block),
            final(file).padding == old(file).padding + padding_overhead(*block),
            final(file).hmac_bag@ == old(file).hmac_bag@ + block.hmac@,
            final(file).name == old(file).name,
            final(file).length == old(file).length,
            final(file).processed == old(file).processed,
            final(file).blocks == old(file).blocks,
            s == SyncStatus::Progress(final(self).estimated_size, final(self).processed_size, block.real_size),
    {
        let block_compressed_size = match block.compressed_size {
            Some(size) => {
                self.processed_size_compressed = self.processed_size_compressed + size;
                size
            },
            None => {
                self.processed_size_compressed = self.processed_size_compressed + block.real_size;
                0
            },
        };
        append_bytes(&mut file.hmac_bag, block.hmac.as_slice());
        let padding_overhead = if block.compressed {
            block.padded_size - block_compressed_size
        } else {
            block.padded_size - block.real_size
        };
        file.padding = file.padding + padding_overhead;
        self.processed_size = self.processed_size + block.real_size;
        SyncStatus::Progress(self.estimated_size, self.processed_size, block.real_size)
    }

    /// Closes a fully chunked file: adds its padding to the session's and
    /// returns the size of its archive entry, one HMAC per block.
    pub fn finish_file(&mut self, file: &FileProgress, chunk_count: u64) -> (entry_size: u64)
        requires
            old(self).processed_size_padding + file.padding <= u64::MAX,
            chunk_count * HMAC_SIZE <= u64::MAX,
        ensures
            *final(self) == (SyncTotals {
                processed_size_padding: (old(self).processed_size_padding + file.padding) as u64,
                ..*old(self)
            }),
            entry_size == chunk_count * HMAC_SIZE,
    {
        self.processed_size_padding = self.processed_size_padding + file.padding;
        chunk_count * HMAC_SIZE
    }

    /// Counts the compressed size of the session archive into the estimate.
    pub fn add_session_size(&mut self, compressed_size: Option<u64>)
        requires
            compressed_size matches Some(size) ==> old(self).estimated_size + size <= u64::MAX,
        ensures
            *final(self) == match compressed_size {
                Some(size) => SyncTotals { estimated_size: (old(self).estimated_size + size) as u64, ..*old(self) },
                None => *old(self),
            },
    {
        match compressed_size {
            Some(size) => { self.estimated_size = self.estimated_size + size; },
            None => {},
        }
    }

    /// What to report once the server answered the request that finishes
    /// the session.
    pub fn finish_statuses(&self, result: Result<(), SDAPIError>) -> (v: Vec<SyncStatus>)
        ensures
            result is Ok ==> v@ == seq![SyncStatus::Progress(self.estimated_size, self.processed_size, 0)],
            result matches Err(SDAPIError::Authentication) ==> v@ == seq![SyncStatus::Error(SDError::Authentication)],
            result matches Err(e) ==> (!(e is Authentication) ==> {
                &&& v@.len() == 2
                &&& v@[0] matches SyncStatus::Issue(m) && m@ == "not able to finish sync: "@ + api_error_message(e)
                &&& v@[1] == SyncStatus::Error(SDError::RequestFailure(e))
            }),
    {
        let mut v: Vec<SyncStatus> = Vec::new();
        match result {
            Ok(()) => {
                v.push(SyncStatus::Progress(self.estimated_size, self.processed_size, 0));
            },
            Err(SDAPIError::Authentication) => {
                v.push(SyncStatus::Error(SDError::Authentication));
            },
            Err(e) => {
                let message = String::from_str("not able to finish sync: ").concat(e.message().as_str());
                v.push(SyncStatus::Issue(message));
                v.push(SyncStatus::Error(SDError::RequestFailure(e)));
            },
        }
        v
    }
}

impl FileProgress {
    /// A file of which no block was processed yet.
    pub fn new() -> (f: FileProgress)
        ensures
            f.name@ == Seq::<char>::empty(),
            f.length == 0,
            f.processed == 0,
            f.blocks == 0,
            f.padding == 0,
            f.hmac_bag@ == Seq::<u8>::empty(),
    {
        FileProgress { name: String::new(), length: 0, processed: 0, blocks: 0, padding: 0, hmac_bag: Vec::new() }
    }

    /// The file called `name` (relative to the synced folder), `length`
    /// bytes long, of which no block was processed yet.
    pub fn for_file(name: String, length: u64) -> (f: FileProgress)
        ensures
            f.name@ == name@,
            f.length == length,
            f.processed == 0,
            f.blocks == 0,
            f.padding == 0,
            f.hmac_bag@ == Seq::<u8>::empty(),
    {
        FileProgress { name, length, processed: 0, blocks: 0, padding: 0, hmac_bag: Vec::new() }
    }
}

/// What becomes of an entry: a file with data is chunked, an empty file or a
/// directory is archived empty, a symlink with its target, anything else is
/// left out.
pub open spec fn entry_plan_spec(kind: EntryKind, stream_length: u64) -> EntryPlan {
    match kind {
        EntryKind::File => if stream_length > 0 { EntryPlan::Chunk } else { EntryPlan::Empty },
        EntryKind::Directory => EntryPlan::Empty,
        EntryKind::Symlink => EntryPlan::Link,
        EntryKind::Other => EntryPlan::Skip,
    }
}

/// What becomes of an entry of the given kind and length.
pub fn entry_plan(kind: EntryKind, stream_length: u64) -> (p: EntryPlan)
    ensures
        p == entry_plan_spec(kind, stream_length),
        kind == EntryKind::File && stream_length > 0 ==> p == EntryPlan::Chunk,
        kind == EntryKind::File && stream_length == 0 ==> p == EntryPlan::Empty,
        kind == EntryKind::Directory ==> p == EntryPlan::Empty,
        kind == EntryKind::Symlink ==> p == EntryPlan::Link,
        kind == EntryKind::Other ==> p == EntryPlan::Skip,
{
    match kind {
        EntryKind::File => if stream_length > 0 { EntryPlan::Chunk } else { EntryPlan::Empty },
        EntryKind::Directory => EntryPlan::Empty,
        EntryKind::Symlink => EntryPlan::Link,
        EntryKind::Other => EntryPlan::Skip,
    }
}

/// What to report when the user cancelled: a failure to tell the upload
/// thread (its description given) is reported first; the sync then ends
/// with `Cancelled`.
pub fn cancel_statuses(send_failure: Option<String>) -> (v: Vec<SyncStatus>)
    ensures
        v@.len() >= 1,
        v@.last() == SyncStatus::Error(SDError::Cancelled),
        send_failure is None ==> v@.len() == 1,
        send_failure matches Some(e) ==> {
            &&& v@.len() == 2
            &&& v@[0] matches SyncStatus::Issue(m) && m@ == "not able to cancel upload: ("@ + e@ + ")"@
        },
{
    let mut v: Vec<SyncStatus> = Vec::new();
    match send_failure {
        Some(e) => {
            let message = String::from_str("not able to cancel upload: (").concat(e.as_str()).concat(")");
            v.push(SyncStatus::Issue(message));
        },
        None => {},
    }
    v.push(SyncStatus::Error(SDError::Cancelled));
    v
}

/// What to do after one look at the upload thread's channel while blocks are
/// still being produced: `None` to go on, or what to report before stopping.
pub fn upload_report_action(report: UploadReport) -> (a: Option<SyncStatus>)
    ensures
        match report {
            UploadReport::Message(Ok(_)) => a is None,
            UploadReport::Message(Err(e)) => a == Some(SyncStatus::Error(e)),
            UploadReport::Idle => a is None,
            UploadReport::Closed(d) => a matches Some(SyncStatus::Error(SDError::Internal(m)))
                && m@ == "end of channel: "@ + d@,
        },
{
    match report {
        UploadReport::Message(Ok(_)) => None,
        UploadReport::Message(Err(e)) => Some(SyncStatus::Error(e)),
        UploadReport::Idle => None,
        UploadReport::Closed(d) => Some(SyncStatus::Error(SDError::Internal(String::from_str("end of channel: ").concat(d.as_str())))),
    }
}

/// What to do after one look at the upload thread's channel once every block
/// was handed over: a message saying it finished, or a closed channel, ends
/// the wait; an error stops the sync.
pub fn finish_wait_action(report: UploadReport) -> (a: WaitAction)
    ensures
        match report {
            UploadReport::Message(Ok(finished)) => if finished { a is Done } else { a is Wait },
            UploadReport::Message(Err(e)) => a == WaitAction::Stop(SyncStatus::Error(e)),
            UploadReport::Idle => a is Wait,
            UploadReport::Closed(_) => a is Done,
        },
{
    match report {
        UploadReport::Message(Ok(finished)) => if finished { WaitAction::Done } else { WaitAction::Wait },
        UploadReport::Message(Err(e)) => WaitAction::Stop(SyncStatus::Error(e)),
        UploadReport::Idle => WaitAction::Wait,
        UploadReport::Closed(_) => WaitAction::Done,
    }
}

/// The report for an item that could not be synced: the item's path and
/// what went wrong.
pub fn item_issue(path: &str, reason: &str) -> (s: SyncStatus)
    ensures
        s matches SyncStatus::Issue(m) && m@ == "not able to sync file "@ + path@ + ": "@ + reason@,
{
    SyncStatus::Issue(String::from_str("not able to sync file ").concat(path).concat(": ").concat(reason))
}

/// The totals after the blocks `bs` were processed in order.
pub open spec fn totals_after_blocks(t: SyncTotals, bs: Seq<BlockRecord>) -> SyncTotals
    decreases bs.len(),
{
    if bs.len() == 0 {
        t
    } else {
        totals_after_block(totals_after_blocks(t, bs.drop_last()), bs.last())
    }
}

/// The real bytes of the blocks `bs`.
pub open spec fn real_bytes(bs: Seq<BlockRecord>) -> int
    decreases bs.len(),
{
    if bs.len() == 0 { 0 } else { real_bytes(bs.drop_last()) + bs.last().real_size }
}

/// The HMACs of the blocks `bs`, one after the other.
pub open spec fn hmac_list(bs: Seq<BlockRecord>) -> Seq<u8>
    decreases bs.len(),
{
    if bs.len() == 0 { Seq::empty() } else { hmac_list(bs.drop_last()) + bs.last().hmac@ }
}

/// The processed size counts every real byte of every block once: after any
/// run of blocks it has grown by their real sizes, and the estimate, the
/// padding and the failure count are as they were.
pub proof fn lemma_processed_counts_real_bytes(t: SyncTotals, bs: Seq<BlockRecord>)
    requires
        t.processed_size + real_bytes(bs) <= u64::MAX,
    ensures
        totals_after_blocks(t, bs).processed_size == t.processed_size + real_bytes(bs),
        totals_after_blocks(t, bs).estimated_size == t.estimated_size,
        totals_after_blocks(t, bs).processed_size_padding == t.processed_size_padding,
        totals_after_blocks(t, bs).failed == t.failed,
    decreases bs.len(),
{
    if bs.len() > 0 {
        lemma_real_bytes_nonneg(bs.drop_last());
        lemma_processed_counts_real_bytes(t, bs.drop_last());
    }
}

proof fn lemma_real_bytes_nonneg(bs: Seq<BlockRecord>)
    ensures
        real_bytes(bs) >= 0,
    decreases bs.len(),
{
    if bs.len() > 0 {
        lemma_real_bytes_nonneg(bs.drop_last());
    }
}

/// A chunked file's archive entry is as long as the data written into it:
/// with one HMAC of `HMAC_SIZE` bytes per block, the HMAC list of `n` blocks
/// has the `n * HMAC_SIZE` bytes that `finish_file` gives the entry.
pub proof fn lemma_entry_size_matches_hmac_list(bs: Seq<BlockRecord>)
    requires
        forall|i: int| 0 <= i < bs.len() ==> (#[trigger] bs[i]).hmac@.len() == HMAC_SIZE,
    ensures
        hmac_list(bs).len() == bs.len() * HMAC_SIZE,
    decreases bs.len(),
{
    if bs.len() > 0 {
        let init = bs.drop_last();
        assert forall|i: int| 0 <= i < init.len() implies (#[trigger] init[i]).hmac@.len() == HMAC_SIZE by {
            assert(init[i] == bs[i]);
        }
        lemma_entry_size_matches_hmac_list(init);
        assert(bs.last() == bs[bs.len() - 1]);
    }
}

/// The report for a symlink whose target could not be read or recorded:
/// the link's path and what went wrong. The link is still archived.
pub fn link_issue(path: &str, reason: &str) -> (s: SyncStatus)
    ensures
        s matches SyncStatus::Issue(m) && m@ == "failed to set symlink for "@ + path@ + ": "@ + reason@,
{
    SyncStatus::Issue(String::from_str("failed to set symlink for ").concat(path).concat(": ").concat(reason))
}

/// A regular file with data is chunked, whatever its length; a regular file
/// is archived empty only when it has no data; a directory is archived empty,
/// a symlink as a link, anything else is left out.
pub proof fn lemma_entry_plans(kind: EntryKind, stream_length: u64)
    ensures
        kind == EntryKind::File && stream_length > 0 ==> entry_plan_spec(kind, stream_length) == EntryPlan::Chunk,
        kind == EntryKind::File && entry_plan_spec(kind, stream_length) == EntryPlan::Empty ==> stream_length == 0,
        kind == EntryKind::Directory ==> entry_plan_spec(kind, stream_length) == EntryPlan::Empty,
        kind == EntryKind::Symlink ==> entry_plan_spec(kind, stream_length) == EntryPlan::Link,
        kind == EntryKind::Other ==> entry_plan_spec(kind, stream_length) == EntryPlan::Skip,
{
}

} // verus!
