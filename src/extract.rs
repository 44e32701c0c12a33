//! What extraction and lookups derive from a file's bytes and embedded text:
//! the stored metadata text, the stored thumbnail text, and inline data URLs.
use vstd::prelude::*;
use base64::Engine;
use crate::batch::IndexError;
use crate::text::text_eq;

verus! {

/// What serde_json gives when a text is parsed as a JSON value and written
/// back compactly; `None` when it does not parse.
pub uninterp spec fn json_reencoded(s: Seq<char>) -> Option<Seq<char>>;

/// The standard, padded base64 encoding of bytes.
pub uninterp spec fn base64_of(b: Seq<u8>) -> Seq<char>;

/// The MIME essence that mime_guess gives for a path's extension
/// (`application/octet-stream` when it knows none).
pub uninterp spec fn mime_of(path: Seq<char>) -> Seq<char>;

/// The (keyword, text) pairs of the international text chunks that the png
/// crate reads from a PNG's header chunks (those before the image data); a
/// chunk whose text cannot be decoded gives empty text. `None` when the bytes
/// are not a PNG it can read that far.
pub uninterp spec fn png_text_of(bytes: Seq<u8>) -> Option<Seq<(Seq<char>, Seq<char>)>>;

/// Relies on png's `Decoder::read_info`, `Info::utf8_text` and `ITXtChunk::get_text`.
#[verifier::external_body]
fn png_text_chunks(bytes: &[u8]) -> (r: Option<Vec<TextChunk>>)
    ensures
        r matches Some(v) ==> png_text_of(bytes@) == Some(chunk_views(v@)),
        r is None ==> png_text_of(bytes@) is None,
{
    match png::Decoder::new(bytes).read_info() {
        Ok(reader) => Some(reader.info().utf8_text.iter().map(|t| TextChunk {
            keyword: t.keyword.clone(),
            text: t.get_text().unwrap_or_default(),
        }).collect()),
        Err(_) => None,
    }
}

/// Relies on `serde_json::from_str::<Value>` and `Value`'s compact `Display`.
#[verifier::external_body]
fn reencode_json(s: &str) -> (r: Option<String>)
    ensures
        r matches Some(j) ==> json_reencoded(s@) == Some(j@),
        r is None ==> json_reencoded(s@) is None,
{
    match serde_json::from_str::<serde_json::Value>(s) {
        Ok(v) => Some(v.to_string()),
        Err(_) => None,
    }
}

/// Relies on base64's `STANDARD` engine `encode`, which uses the standard
/// alphabet with padding: four characters for each started group of three bytes.
#[verifier::external_body]
fn encode_base64(b: &[u8]) -> (r: String)
    ensures
        r@ == base64_of(b@),
        r@.len() == 4 * ((b@.len() + 2) / 3),
{
    base64::engine::general_purpose::STANDARD.encode(b)
}

/// Relies on `mime_guess::from_path(..).first_or_octet_stream().essence_str()`,
/// a lookup by the path's extension.
#[verifier::external_body]
fn guess_mime(path: &str) -> (r: String)
    ensures
        r@ == mime_of(path@),
{
    mime_guess::from_path(path).first_or_octet_stream().essence_str().to_string()
}

/// A text chunk found in an image container: its keyword and its text.
#[derive(Debug)]
pub struct TextChunk {
    pub keyword: String,
    pub text: String,
}

/// A chunk as its keyword and text.
pub open spec fn chunk_views(cs: Seq<TextChunk>) -> Seq<(Seq<char>, Seq<char>)> {
    cs.map_values(|c: TextChunk| (c.keyword@, c.text@))
}

/// Text of the first pair whose keyword is `Description`.
pub open spec fn description_in(pairs: Seq<(Seq<char>, Seq<char>)>) -> Option<Seq<char>>
    decreases pairs.len(),
{
    if pairs.len() == 0 {
        None
    } else if pairs[0].0 == description_keyword() {
        Some(pairs[0].1)
    } else {
        description_in(pairs.drop_first())
    }
}

proof fn lemma_description_views(cs: Seq<TextChunk>)
    ensures
        description_of(cs) == description_in(chunk_views(cs)),
    decreases cs.len(),
{
    if cs.len() > 0 {
        assert(chunk_views(cs).drop_first() =~= chunk_views(cs.drop_first()));
        lemma_description_views(cs.drop_first());
    }
}

/// The keyword of the chunk that holds embedded metadata.
pub open spec fn description_keyword() -> Seq<char> {
    "Description"@
}

/// Text of the first chunk whose keyword is `Description`.
pub open spec fn description_of(chunks: Seq<TextChunk>) -> Option<Seq<char>>
    decreases chunks.len(),
{
    if chunks.len() == 0 {
        None
    } else if chunks[0].keyword@ == description_keyword() {
        Some(chunks[0].text@)
    } else {
        description_of(chunks.drop_first())
    }
}

/// Stored metadata for a found text: its JSON re-encoding when it parses,
/// else the text as it is.
pub open spec fn metadata_text_of(raw: Seq<char>, parsed: Option<Seq<char>>) -> Seq<char> {
    match parsed {
        Some(j) => j,
        None => raw,
    }
}

/// Stored metadata for what a file embeds: empty when it embeds nothing.
pub open spec fn stored_metadata(found: Option<Seq<char>>) -> Seq<char> {
    match found {
        Some(t) => metadata_text_of(t, json_reencoded(t)),
        None => Seq::empty(),
    }
}

/// Finds the embedded metadata text among the chunks.
pub fn find_description(chunks: &Vec<TextChunk>) -> (r: Option<String>)
    ensures
        r matches Some(t) ==> description_of(chunks@) == Some(t@),
        r is None ==> description_of(chunks@) is None,
{
    assert(chunks@.subrange(0, chunks@.len() as int) =~= chunks@);
    let mut i: usize = 0;
    while i < chunks.len()
        invariant
            i <= chunks@.len(),
            description_of(chunks@) == description_of(chunks@.subrange(i as int, chunks@.len() as int)),
        decreases chunks@.len() - i,
    {
        proof {
            assert(chunks@.subrange(i as int, chunks@.len() as int).drop_first()
                =~= chunks@.subrange(i + 1, chunks@.len() as int));
        }
        if text_eq(chunks[i].keyword.as_str(), "Description") {
            return Some(chunks[i].text.clone());
        }
        i = i + 1;
    }
    None
}

/// Chooses the stored form of a found text once it was tried as JSON.
pub fn metadata_from_parsed(raw: String, parsed: Option<String>) -> (r: String)
    ensures
        r@ == metadata_text_of(raw@, match parsed {
            Some(j) => Some(j@),
            None => None,
        }),
{
    match parsed {
        Some(j) => j,
        None => raw,
    }
}

/// The metadata text to store for a file, from its text chunks. A text that
/// is not JSON is kept verbatim; no `Description` chunk gives empty metadata.
pub fn embedded_metadata(chunks: &Vec<TextChunk>) -> (r: String)
    ensures
        r@ == stored_metadata(description_of(chunks@)),
{
    match find_description(chunks) {
        Some(t) => {
            let parsed = reencode_json(t.as_str());
            metadata_from_parsed(t, parsed)
        },
        None => String::new(),
    }
}

/// Stored metadata for a PNG file's bytes: empty when they hold no readable
/// `Description` text chunk (or are no PNG at all).
pub open spec fn png_metadata(bytes: Seq<u8>) -> Seq<char> {
    match png_text_of(bytes) {
        Some(pairs) => stored_metadata(description_in(pairs)),
        None => Seq::empty(),
    }
}

/// The metadata text to store for an image file, from its bytes.
pub fn metadata_from_png(bytes: &Vec<u8>) -> (r: String)
    ensures
        r@ == png_metadata(bytes@),
{
    match png_text_chunks(bytes.as_slice()) {
        Some(chunks) => {
            proof {
                lemma_description_views(chunks@);
            }
            embedded_metadata(&chunks)
        },
        None => String::new(),
    }
}

/// The stored text of a thumbnail: base64 of its PNG bytes.
pub fn thumbnail_text(png: &Vec<u8>) -> (r: String)
    ensures
        r@ == base64_of(png@),
        r@.len() == 4 * ((png@.len() + 2) / 3),
{
    encode_base64(png.as_slice())
}

/// An inline data URL from a MIME type and base64 text.
pub open spec fn data_url_of(mime: Seq<char>, b64: Seq<char>) -> Seq<char> {
    "data:"@ + mime + ";base64,"@ + b64
}

/// Builds a data URL once the MIME type and encoding are known.
pub fn data_url_from(mime: &str, b64: &str) -> (r: String)
    ensures
        r@ == data_url_of(mime@, b64@),
{
    let mut s = String::from_str("data:");
    s.append(mime);
    s.append(";base64,");
    s.append(b64);
    s
}

/// A file's bytes as a data URL typed by its path's extension.
pub fn file_data_url(path: &str, bytes: &Vec<u8>) -> (r: String)
    ensures
        r@ == data_url_of(mime_of(path@), base64_of(bytes@)),
{
    let mime = guess_mime(path);
    let b64 = encode_base64(bytes.as_slice());
    data_url_from(mime.as_str(), b64.as_str())
}

/// The columns of a stored record that a metadata lookup reads.
#[derive(Debug)]
pub struct StoredMetadata {
    pub metadata_json: Option<String>,
    pub file_created_at: Option<String>,
}

/// What a metadata lookup found stored for a file.
#[derive(Debug)]
pub struct FoundMetadata {
    pub metadata: String,
    pub file_created_at: String,
}

/// A file's stored metadata, the file itself as a data URL, and its creation stamp.
#[derive(Debug)]
pub struct MetadataView {
    pub metadata: String,
    pub data_url: String,
    pub file_created_at: String,
}

/// Reads a lookup's stored row, if any. With no row, or no metadata in it,
/// the answer is `NotFound`; a missing creation stamp reads as empty.
pub fn lookup_metadata(row: &Option<StoredMetadata>) -> (r: Result<FoundMetadata, IndexError>)
    ensures
        r is Ok <==> (row matches Some(s) && s.metadata_json is Some),
        r is Err ==> r == Err::<FoundMetadata, IndexError>(IndexError::NotFound),
        r matches Ok(f) ==> {
            &&& f.metadata@ == row->0.metadata_json->0@
            &&& f.file_created_at@ == match row->0.file_created_at {
                Some(c) => c@,
                None => Seq::<char>::empty(),
            }
        },
{
    match row {
        Some(s) => match &s.metadata_json {
            Some(m) => {
                let created = match &s.file_created_at {
                    Some(c) => c.clone(),
                    None => String::new(),
                };
                Ok(FoundMetadata { metadata: m.clone(), file_created_at: created })
            },
            None => Err(IndexError::NotFound),
        },
        None => Err(IndexError::NotFound),
    }
}

/// Answers a metadata lookup once the stored metadata was found and the
/// file's bytes were read.
pub fn metadata_view(path: &str, found: FoundMetadata, bytes: &Vec<u8>) -> (r: MetadataView)
    ensures
        r.metadata@ == found.metadata@,
        r.data_url@ == data_url_of(mime_of(path@), base64_of(bytes@)),
        r.file_created_at@ == found.file_created_at@,
{
    MetadataView { metadata: found.metadata, data_url: file_data_url(path, bytes), file_created_at: found.file_created_at }
}

} // verus!
