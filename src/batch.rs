//! Chunked, transactional indexing of one root, and progress over a batch of roots.
use vstd::prelude::*;
use crate::model::{copy_folder, SearchFolder};
use crate::text::text_eq;
use crate::freshness::{is_current, timestamp_seconds, needs_processing_spec, FileStat, StoredState};

verus! {

/// Number of files handled under one transaction.
pub const CHUNK_SIZE: usize = 20;

/// Why indexing, extraction or a registry change failed.
#[derive(Debug)]
pub enum IndexError {
    /// Reading a file or its metadata failed.
    Io(String),
    /// The image could not be decoded.
    Decode(String),
    /// The thumbnail could not be encoded.
    Thumbnail(String),
    /// A transaction or query failed.
    Storage(String),
    /// No registered root has the given id.
    NotFound,
    /// An indexing request named no root.
    Validation,
}

/// Copies an error, field for field.
pub fn copy_error(e: &IndexError) -> (r: IndexError)
    ensures
        r == *e,
{
    match e {
        IndexError::Io(s) => IndexError::Io(s.clone()),
        IndexError::Decode(s) => IndexError::Decode(s.clone()),
        IndexError::Thumbnail(s) => IndexError::Thumbnail(s.clone()),
        IndexError::Storage(s) => IndexError::Storage(s.clone()),
        IndexError::NotFound => IndexError::NotFound,
        IndexError::Validation => IndexError::Validation,
    }
}

/// What became of one file of a chunk.
#[derive(Debug)]
pub enum FileOutcome {
    /// Its stored record was current.
    Skipped,
    /// Its record was extracted and upserted.
    Written,
    /// Something failed for it.
    Failed(IndexError),
}

/// Failures met while reading, decoding or thumbnailing one file, before
/// anything of it was written: they leave only that file unindexed.
pub open spec fn is_file_local(e: IndexError) -> bool {
    e is Io || e is Decode || e is Thumbnail
}

/// An outcome that discards its chunk and ends its root: any other failure,
/// such as one of the transaction itself.
pub open spec fn is_fatal(o: FileOutcome) -> bool {
    match o {
        FileOutcome::Failed(e) => !is_file_local(e),
        _ => false,
    }
}

/// Whether an outcome discards its chunk and ends its root.
pub fn is_fatal_outcome(o: &FileOutcome) -> (r: bool)
    ensures
        r == is_fatal(*o),
{
    match o {
        FileOutcome::Failed(e) => match e {
            IndexError::Io(_) => false,
            IndexError::Decode(_) => false,
            IndexError::Thumbnail(_) => false,
            _ => true,
        },
        _ => false,
    }
}

/// Whether the file was left unindexed by a failure of its own.
pub open spec fn is_local_failure(o: FileOutcome) -> bool {
    match o {
        FileOutcome::Failed(e) => is_file_local(e),
        _ => false,
    }
}

/// Number of upserted files.
pub open spec fn written_count(os: Seq<FileOutcome>) -> nat
    decreases os.len(),
{
    if os.len() == 0 {
        0
    } else {
        written_count(os.drop_last()) + if os.last() is Written { 1nat } else { 0nat }
    }
}

/// Number of files left unindexed by failures of their own.
pub open spec fn local_failure_count(os: Seq<FileOutcome>) -> nat
    decreases os.len(),
{
    if os.len() == 0 {
        0
    } else {
        local_failure_count(os.drop_last()) + if is_local_failure(os.last()) { 1nat } else { 0nat }
    }
}

/// The error of the first fatal outcome, if any.
pub open spec fn first_fatal(os: Seq<FileOutcome>) -> Option<IndexError>
    decreases os.len(),
{
    if os.len() == 0 {
        None
    } else {
        match os[0] {
            FileOutcome::Failed(e) => if is_file_local(e) { first_fatal(os.drop_first()) } else { Some(e) },
            _ => first_fatal(os.drop_first()),
        }
    }
}

proof fn lemma_first_fatal_none(os: Seq<FileOutcome>)
    ensures
        first_fatal(os) is None <==> forall|k: int| 0 <= k < os.len() ==> !is_fatal(#[trigger] os[k]),
    decreases os.len(),
{
    if os.len() > 0 {
        lemma_first_fatal_none(os.drop_first());
        assert forall|k: int| 1 <= k < os.len() implies #[trigger] os[k] == os.drop_first()[k - 1] by {}
        if first_fatal(os) is None {
            assert forall|k: int| 0 <= k < os.len() implies !is_fatal(#[trigger] os[k]) by {
                if k > 0 {
                    assert(os[k] == os.drop_first()[k - 1]);
                }
            }
        }
    }
}

/// Progress of indexing one root, chunk by chunk. The caller opens one
/// transaction per chunk that `next_chunk` hands out, handles its files in
/// order, and reports their outcomes to `finish_chunk`; it commits exactly when
/// that returns `true`. A file that fails on its own is left unindexed while
/// the chunk and the root go on; any other failure discards the chunk and ends
/// the root.
#[derive(Debug)]
pub struct RootIndexer {
    /// Number of candidate files of the root.
    pub total: usize,
    /// Index of the first file of the next chunk.
    pub next: usize,
    /// Records written by committed chunks.
    pub written: u64,
    /// Files of committed chunks left unindexed by failures of their own.
    pub not_indexed: u64,
    /// The error that stopped the root, if any.
    pub failure: Option<IndexError>,
}

impl RootIndexer {
    pub open spec fn wf(&self) -> bool {
        &&& self.next <= self.total
        &&& self.written + self.not_indexed <= self.next
        &&& (self.next == self.total || self.next % CHUNK_SIZE == 0)
    }

    /// One past the last file of the chunk that starts at `next`.
    pub open spec fn chunk_end(&self) -> nat {
        if self.next + CHUNK_SIZE <= self.total { (self.next + CHUNK_SIZE) as nat } else { self.total as nat }
    }

    pub open spec fn is_done(&self) -> bool {
        self.failure is Some || self.next == self.total
    }

    pub fn new(total: usize) -> (r: RootIndexer)
        ensures
            r.wf(),
            r.total == total,
            r.next == 0,
            r.written == 0,
            r.not_indexed == 0,
            r.failure is None,
    {
        RootIndexer { total, next: 0, written: 0, not_indexed: 0, failure: None }
    }

    /// The bounds `[start, end)` of the next chunk, or `None` once the root is done.
    pub fn next_chunk(&self) -> (r: Option<(usize, usize)>)
        requires
            self.wf(),
        ensures
            r is None <==> self.is_done(),
            r matches Some(b) ==> b.0 == self.next && b.1 == self.chunk_end(),
    {
        if self.failure.is_some() || self.next == self.total {
            None
        } else if self.total - self.next >= CHUNK_SIZE {
            Some((self.next, self.next + CHUNK_SIZE))
        } else {
            Some((self.next, self.total))
        }
    }

    /// Takes the outcomes of the current chunk's files, in order; the list may
    /// stop at a fatal outcome. The chunk commits, and the root moves on to the
    /// next chunk, exactly when no outcome is fatal: files that failed on their
    /// own are then counted as not indexed. Otherwise the chunk is discarded and
    /// the root stops with the first fatal error.
    pub fn finish_chunk(&mut self, outcomes: &Vec<FileOutcome>) -> (committed: bool)
        requires
            old(self).wf(),
            !old(self).is_done(),
            outcomes@.len() <= old(self).chunk_end() - old(self).next,
            outcomes@.len() < old(self).chunk_end() - old(self).next ==> first_fatal(outcomes@) is Some,
        ensures
            final(self).wf(),
            final(self).total == old(self).total,
            committed == (first_fatal(outcomes@) is None),
            committed == forall|k: int| 0 <= k < outcomes@.len() ==> !is_fatal(#[trigger] outcomes@[k]),
            committed ==> final(self).next == old(self).chunk_end()
                && final(self).written == old(self).written + written_count(outcomes@)
                && final(self).not_indexed == old(self).not_indexed + local_failure_count(outcomes@)
                && final(self).failure is None,
            !committed ==> final(self).next == old(self).next
                && final(self).written == old(self).written
                && final(self).not_indexed == old(self).not_indexed
                && final(self).failure == first_fatal(outcomes@),
    {
        proof {
            lemma_first_fatal_none(outcomes@);
        }
        assert(outcomes@.subrange(0, outcomes@.len() as int) =~= outcomes@);
        let mut count: u64 = 0;
        let mut local: u64 = 0;
        let mut i: usize = 0;
        while i < outcomes.len()
            invariant
                i <= outcomes@.len(),
                outcomes@.len() <= CHUNK_SIZE,
                count == written_count(outcomes@.subrange(0, i as int)),
                local == local_failure_count(outcomes@.subrange(0, i as int)),
                count + local <= i,
                self.total == old(self).total,
                self.next == old(self).next,
                self.written == old(self).written,
                self.not_indexed == old(self).not_indexed,
                self.failure is None,
                self.wf(),
                outcomes@.len() <= old(self).chunk_end() - old(self).next,
                first_fatal(outcomes@) == first_fatal(outcomes@.subrange(i as int, outcomes@.len() as int)),
            decreases outcomes@.len() - i,
        {
            proof {
                assert(outcomes@.subrange(0, i + 1).drop_last() =~= outcomes@.subrange(0, i as int));
                assert(outcomes@.subrange(i as int, outcomes@.len() as int).drop_first()
                    =~= outcomes@.subrange(i + 1, outcomes@.len() as int));
            }
            match &outcomes[i] {
                FileOutcome::Failed(e) => {
                    if is_fatal_outcome(&outcomes[i]) {
                        self.failure = Some(copy_error(e));
                        return false;
                    }
                    local = local + 1;
                },
                FileOutcome::Written => {
                    count = count + 1;
                },
                FileOutcome::Skipped => {},
            }
            i = i + 1;
        }
        assert(outcomes@.subrange(0, i as int) =~= outcomes@);
        let end = if self.total - self.next >= CHUNK_SIZE { self.next + CHUNK_SIZE } else { self.total };
        self.written = self.written + count;
        self.not_indexed = self.not_indexed + local;
        self.next = end;
        true
    }

    /// The root's result once it is done: the records written, or what stopped it.
    pub fn result(&self) -> (r: Result<u64, IndexError>)
        requires
            self.wf(),
            self.is_done(),
        ensures
            self.failure is None ==> r == Ok::<u64, IndexError>(self.written),
            self.failure matches Some(e) ==> r == Err::<u64, IndexError>(e),
    {
        match &self.failure {
            Some(e) => Err(copy_error(e)),
            None => Ok(self.written),
        }
    }
}

/// Files whose stored record is current need no processing, and a chunk of
/// which every file was skipped commits without writing a record. This covers
/// only records that are current by the freshness rule (stored stamp at or
/// before the file's modification time); a record stamped at processing time,
/// after that modification, is not current and is processed again.
pub proof fn lemma_current_files_write_nothing(
    stored: Seq<StoredState>,
    now: Seq<FileStat>,
    os: Seq<FileOutcome>,
)
    requires
        stored.len() == now.len(),
        os.len() == now.len(),
        forall|k: int| 0 <= k < stored.len() ==> #[trigger] is_current(stored[k], timestamp_seconds(stored[k].updated_at@), now[k]),
        forall|k: int| 0 <= k < os.len() ==> (#[trigger] os[k] is Skipped <==> !needs_processing_spec(Some(stored[k]), now[k])),
    ensures
        forall|k: int| 0 <= k < os.len() ==> #[trigger] os[k] is Skipped,
        first_fatal(os) is None,
        written_count(os) == 0,
    decreases os.len(),
{
    assert forall|k: int| 0 <= k < os.len() implies #[trigger] os[k] is Skipped by {
        assert(is_current(stored[k], timestamp_seconds(stored[k].updated_at@), now[k]));
    }
    lemma_first_fatal_none(os);
    if os.len() > 0 {
        assert(stored.drop_last().len() == now.drop_last().len());
        lemma_current_files_write_nothing(stored.drop_last(), now.drop_last(), os.drop_last());
    }
}

/// A file that fails on its own, before anything of it is written, never
/// stops its chunk: with no other failure the chunk commits, and every other
/// file's outcome counts as if it were alone.
pub proof fn lemma_local_failure_keeps_chunk(os: Seq<FileOutcome>)
    requires
        forall|k: int| 0 <= k < os.len() ==> (#[trigger] os[k] is Failed ==> is_local_failure(os[k])),
    ensures
        first_fatal(os) is None,
{
    lemma_first_fatal_none(os);
    assert forall|k: int| 0 <= k < os.len() implies !is_fatal(#[trigger] os[k]) by {
        if os[k] is Failed {
            assert(is_local_failure(os[k]));
        }
    }
}

impl IndexError {
    /// A human-readable account of the error.
    pub fn describe(&self) -> (r: String)
        ensures
            r@ == error_text(*self),
    {
        match self {
            IndexError::Io(s) => String::from_str("I/O error: ").concat(s.as_str()),
            IndexError::Decode(s) => String::from_str("decode error: ").concat(s.as_str()),
            IndexError::Thumbnail(s) => String::from_str("thumbnail error: ").concat(s.as_str()),
            IndexError::Storage(s) => String::from_str("storage error: ").concat(s.as_str()),
            IndexError::NotFound => String::from_str("not found"),
            IndexError::Validation => String::from_str("no folders given"),
        }
    }
}

pub open spec fn error_text(e: IndexError) -> Seq<char> {
    match e {
        IndexError::Io(s) => "I/O error: "@ + s@,
        IndexError::Decode(s) => "decode error: "@ + s@,
        IndexError::Thumbnail(s) => "thumbnail error: "@ + s@,
        IndexError::Storage(s) => "storage error: "@ + s@,
        IndexError::NotFound => "not found"@,
        IndexError::Validation => "no folders given"@,
    }
}

// ------------------------------------------------------------- root batches

/// Whether `paths` names `p`.
pub open spec fn names_path(paths: Seq<String>, p: Seq<char>) -> bool {
    exists|k: int| 0 <= k < paths.len() && #[trigger] paths[k]@ == p
}

/// Registered roots whose path is among `paths`, in registry order.
pub open spec fn selected_roots(rows: Seq<SearchFolder>, paths: Seq<String>) -> Seq<SearchFolder>
    decreases rows.len(),
{
    if rows.len() == 0 {
        Seq::empty()
    } else {
        let prev = selected_roots(rows.drop_last(), paths);
        if names_path(paths, rows.last().path@) { prev.push(rows.last()) } else { prev }
    }
}

fn contains_text(paths: &Vec<String>, p: &String) -> (r: bool)
    ensures
        r == names_path(paths@, p@),
{
    let mut i: usize = 0;
    while i < paths.len()
        invariant
            i <= paths@.len(),
            forall|k: int| 0 <= k < i ==> #[trigger] paths@[k]@ != p@,
        decreases paths@.len() - i,
    {
        if text_eq(paths[i].as_str(), p.as_str()) {
            return true;
        }
        i = i + 1;
    }
    false
}

/// The roots an indexing request names. A request that names no folder is
/// refused; paths that no registered root has are passed over.
pub fn select_roots(rows: &Vec<SearchFolder>, paths: &Vec<String>) -> (r: Result<Vec<SearchFolder>, IndexError>)
    ensures
        paths@.len() == 0 <==> r is Err,
        r is Err ==> r == Err::<Vec<SearchFolder>, IndexError>(IndexError::Validation),
        r matches Ok(v) ==> v@ == selected_roots(rows@, paths@),
{
    if paths.len() == 0 {
        return Err(IndexError::Validation);
    }
    let mut out: Vec<SearchFolder> = Vec::new();
    let mut i: usize = 0;
    while i < rows.len()
        invariant
            i <= rows@.len(),
            out@ == selected_roots(rows@.subrange(0, i as int), paths@),
        decreases rows@.len() - i,
    {
        proof {
            assert(rows@.subrange(0, i + 1).drop_last() =~= rows@.subrange(0, i as int));
        }
        if contains_text(paths, &rows[i].path) {
            out.push(copy_folder(&rows[i]));
        }
        i = i + 1;
    }
    assert(rows@.subrange(0, rows@.len() as int) =~= rows@);
    Ok(out)
}

/// A progress notification, emitted after each root of a batch.
#[derive(Debug)]
pub struct ProgressEvent {
    pub event_id: String,
    pub progress: u64,
    pub message: String,
}

/// Progress text for a root that finished.
pub open spec fn progress_message(folder: Seq<char>, result: Result<u64, IndexError>) -> Seq<char> {
    match result {
        Ok(_) => "Indexed folder: "@ + folder,
        Err(e) => "Folder processing failed: "@ + folder + " - error: "@ + error_text(e),
    }
}

/// How far the counter moves for a finished root: one, plus the records it wrote.
pub open spec fn progress_step(result: Result<u64, IndexError>) -> nat {
    match result {
        Ok(w) => (1 + w) as nat,
        Err(_) => 1,
    }
}

/// The progress counter of one batch of roots, starting at one.
#[derive(Debug)]
pub struct ProgressCounter {
    pub value: u64,
}

impl ProgressCounter {
    pub fn new() -> (r: ProgressCounter)
        ensures
            r.value == 1,
    {
        ProgressCounter { value: 1 }
    }

    /// Reports a finished root, successful or not, and advances the counter,
    /// so that successive events of a batch carry strictly increasing values.
    pub fn root_finished(&mut self, event_id: &str, folder: &str, result: &Result<u64, IndexError>) -> (ev: ProgressEvent)
        requires
            old(self).value + progress_step(*result) <= u64::MAX,
        ensures
            ev.event_id@ == event_id@,
            ev.progress == old(self).value,
            ev.message@ == progress_message(folder@, *result),
            final(self).value == old(self).value + progress_step(*result),
            final(self).value > ev.progress,
    {
        let progress = self.value;
        let message = match result {
            Ok(w) => {
                self.value = self.value + 1 + *w;
                String::from_str("Indexed folder: ").concat(folder)
            },
            Err(e) => {
                self.value = self.value + 1;
                let mut m = String::from_str("Folder processing failed: ");
                m.append(folder);
                m.append(" - error: ");
                let d = e.describe();
                m.append(d.as_str());
                m
            },
        };
        ProgressEvent { event_id: event_id.to_string(), progress, message }
    }
}

} // verus!
