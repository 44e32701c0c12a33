//! Deciding whether a file must be (re)processed, from its stored record and
//! what the filesystem reports now. A heuristic: content is never hashed.
use vstd::prelude::*;

verus! {

/// Seconds since the Unix epoch of a timestamp text, as chrono parses a
/// relaxed RFC 3339 `DateTime<Utc>`; `None` when it does not parse.
pub uninterp spec fn timestamp_seconds(s: Seq<char>) -> Option<int>;

/// Relies on chrono's `FromStr` for `DateTime<Utc>` (relaxed RFC 3339) and
/// `DateTime::timestamp` (whole seconds since the epoch).
#[verifier::external_body]
fn parse_timestamp(s: &str) -> (r: Option<i64>)
    ensures
        r matches Some(t) ==> timestamp_seconds(s@) == Some(t as int),
        r is None ==> timestamp_seconds(s@) is None,
{
    match s.parse::<chrono::DateTime<chrono::Utc>>() {
        Ok(d) => Some(d.timestamp()),
        Err(_) => None,
    }
}

/// What a shard holds of a file from an earlier run.
#[derive(Debug)]
pub struct StoredState {
    pub file_size: i64,
    pub thumbnail_len: i64,
    pub updated_at: String,
}

/// What the filesystem reports of a file now.
#[derive(Clone, Copy, Debug, PartialEq, Eq, Structural)]
pub struct FileStat {
    pub size: u64,
    /// Modification time, whole seconds since the Unix epoch.
    pub modified_secs: i64,
}

/// A stored record is still current: same size, a thumbnail, and a stored
/// stamp at or before the file's modification time.
pub open spec fn is_current(st: StoredState, stored_secs: Option<int>, now: FileStat) -> bool {
    &&& st.file_size == now.size
    &&& st.thumbnail_len > 0
    &&& match stored_secs {
        Some(t) => t <= now.modified_secs,
        None => false,
    }
}

/// Processing is required unless a stored record is still current.
pub open spec fn needs_processing_spec(stored: Option<StoredState>, now: FileStat) -> bool {
    match stored {
        Some(st) => !is_current(st, timestamp_seconds(st.updated_at@), now),
        None => true,
    }
}

/// Decides currency once the stored stamp has been read as seconds.
pub fn is_current_at(st: &StoredState, stored_secs: Option<i64>, now: &FileStat) -> (r: bool)
    ensures
        r == is_current(*st, match stored_secs {
            Some(t) => Some(t as int),
            None => None,
        }, *now),
{
    let same_size = st.file_size >= 0 && st.file_size as u64 == now.size;
    if !same_size || st.thumbnail_len <= 0 {
        return false;
    }
    match stored_secs {
        Some(t) => t <= now.modified_secs,
        None => false,
    }
}

/// Whether a file must be processed, given its stored record if any.
pub fn needs_processing(stored: &Option<StoredState>, now: &FileStat) -> (r: bool)
    ensures
        r == needs_processing_spec(*stored, *now),
{
    match stored {
        Some(st) => {
            let secs = parse_timestamp(st.updated_at.as_str());
            !is_current_at(st, secs, now)
        },
        None => true,
    }
}

/// A file whose size differs from the stored one is always processed again,
/// whatever the timestamps say.
pub proof fn lemma_size_change_forces_processing(st: StoredState, now: FileStat)
    requires
        st.file_size != now.size,
    ensures
        needs_processing_spec(Some(st), now),
{
}

/// A file with no stored record is always processed.
pub proof fn lemma_new_file_is_processed(now: FileStat)
    ensures
        needs_processing_spec(None, now),
{
}

} // verus!
