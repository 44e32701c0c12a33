//! Filtering of walked filesystem entries into indexing candidates.
use vstd::prelude::*;
use crate::text::{lower_of, lowercase, text_eq};

verus! {

/// What `Path::extension` gives for a path, as text.
pub uninterp spec fn extension_of(path: Seq<char>) -> Option<Seq<char>>;

/// What `Path::starts_with` gives: whether `base` is a whole-component prefix of `path`.
pub uninterp spec fn path_under(path: Seq<char>, base: Seq<char>) -> bool;

/// Relies on `std::path::Path::extension` (read lossily as text): the part of
/// the file name after its last dot, if there is one.
#[verifier::external_body]
fn path_extension(path: &str) -> (r: Option<String>)
    ensures
        r matches Some(e) ==> extension_of(path@) == Some(e@),
        r is None ==> extension_of(path@) is None,
{
    match std::path::Path::new(path).extension() {
        Some(e) => Some(e.to_string_lossy().to_string()),
        None => None,
    }
}

/// Relies on `std::path::Path::starts_with`, which compares whole path
/// components and not characters.
#[verifier::external_body]
fn path_starts_with(path: &str, base: &str) -> (r: bool)
    ensures
        r == path_under(path@, base@),
{
    std::path::Path::new(path).starts_with(base)
}

/// The lower-cased extensions of supported image files.
pub open spec fn is_supported_ext(ext: Seq<char>) -> bool {
    ext == "jpg"@ || ext == "jpeg"@ || ext == "png"@
}

/// A path names a supported image when its extension, lower-cased, is supported.
pub open spec fn is_image_path(path: Seq<char>) -> bool {
    match extension_of(path) {
        Some(e) => is_supported_ext(lower_of(e)),
        None => false,
    }
}

/// A path lies under one of the ignored roots.
pub open spec fn is_ignored_path(path: Seq<char>, ignored: Seq<String>) -> bool {
    exists|k: int| 0 <= k < ignored.len() && #[trigger] path_under(path, ignored[k]@)
}

/// Tests an already lower-cased extension against the supported set.
pub fn is_supported_extension(ext: &str) -> (r: bool)
    ensures
        r == is_supported_ext(ext@),
{
    text_eq(ext, "jpg") || text_eq(ext, "jpeg") || text_eq(ext, "png")
}

/// Whether a path names a supported image file (case-insensitive extension).
pub fn is_image_file(path: &str) -> (r: bool)
    ensures
        r == is_image_path(path@),
{
    match path_extension(path) {
        Some(e) => {
            let low = lowercase(e.as_str());
            is_supported_extension(low.as_str())
        },
        None => false,
    }
}

/// Whether a path lies under any of the ignored roots.
pub fn is_ignored(path: &str, ignored: &Vec<String>) -> (r: bool)
    ensures
        r == is_ignored_path(path@, ignored@),
{
    let mut i: usize = 0;
    while i < ignored.len()
        invariant
            i <= ignored@.len(),
            forall|k: int| 0 <= k < i ==> !#[trigger] path_under(path@, ignored@[k]@),
        decreases ignored@.len() - i,
    {
        if path_starts_with(path, ignored[i].as_str()) {
            return true;
        }
        i = i + 1;
    }
    false
}

/// One entry met while walking a root.
#[derive(Debug)]
pub struct WalkEntry {
    pub path: String,
    pub is_file: bool,
}

/// An entry is a candidate when it is a regular image file outside every ignored root.
pub open spec fn is_candidate(e: WalkEntry, ignored: Seq<String>) -> bool {
    e.is_file && is_image_path(e.path@) && !is_ignored_path(e.path@, ignored)
}

/// Paths of the candidate entries, in walk order.
pub open spec fn candidate_paths(es: Seq<WalkEntry>, ignored: Seq<String>) -> Seq<Seq<char>>
    decreases es.len(),
{
    if es.len() == 0 {
        Seq::empty()
    } else {
        let prev = candidate_paths(es.drop_last(), ignored);
        if is_candidate(es.last(), ignored) {
            prev.push(es.last().path@)
        } else {
            prev
        }
    }
}

/// Keeps the walked entries that are to be indexed.
pub fn select_candidates(entries: &Vec<WalkEntry>, ignored: &Vec<String>) -> (r: Vec<String>)
    ensures
        r@.map_values(|s: String| s@) == candidate_paths(entries@, ignored@),
{
    let mut out: Vec<String> = Vec::new();
    let mut i: usize = 0;
    while i < entries.len()
        invariant
            i <= entries@.len(),
            out@.map_values(|s: String| s@) == candidate_paths(entries@.subrange(0, i as int), ignored@),
        decreases entries@.len() - i,
    {
        let e = &entries[i];
        proof {
            assert(entries@.subrange(0, i + 1).drop_last() =~= entries@.subrange(0, i as int));
        }
        if e.is_file && is_image_file(e.path.as_str()) && !is_ignored(e.path.as_str(), ignored) {
            let ghost before = out@;
            out.push(e.path.clone());
            assert(out@.map_values(|s: String| s@) =~= before.map_values(|s: String| s@).push(e.path@));
        }
        i = i + 1;
    }
    assert(entries@.subrange(0, entries@.len() as int) =~= entries@);
    out
}


/// A path under an ignored root is never selected, and only image files are.
pub proof fn lemma_ignored_never_selected(es: Seq<WalkEntry>, ignored: Seq<String>, k: int)
    requires
        0 <= k < candidate_paths(es, ignored).len(),
    ensures
        !is_ignored_path(candidate_paths(es, ignored)[k], ignored),
        is_image_path(candidate_paths(es, ignored)[k]),
    decreases es.len(),
{
    let prev = candidate_paths(es.drop_last(), ignored);
    if k < prev.len() {
        lemma_ignored_never_selected(es.drop_last(), ignored, k);
    }
}

/// A regular image file outside every ignored root is selected.
pub proof fn lemma_unignored_image_selected(es: Seq<WalkEntry>, ignored: Seq<String>, i: int)
    requires
        0 <= i < es.len(),
        es[i].is_file,
        is_image_path(es[i].path@),
        !is_ignored_path(es[i].path@, ignored),
    ensures
        candidate_paths(es, ignored).contains(es[i].path@),
    decreases es.len(),
{
    let prev = candidate_paths(es.drop_last(), ignored);
    if i == es.len() - 1 {
        assert(candidate_paths(es, ignored).last() == es[i].path@);
    } else {
        lemma_unignored_image_selected(es.drop_last(), ignored, i);
        let j = choose|j: int| 0 <= j < prev.len() && prev[j] == es[i].path@;
        assert(candidate_paths(es, ignored)[j] == es[i].path@);
    }
}

} // verus!
