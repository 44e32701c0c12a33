//! Rows of the root registry and records of a shard store.
use vstd::prelude::*;

verus! {

/// A registered root (or ignore root): its row id, its path, and the stable
/// id that names its shard store.
#[derive(Debug)]
pub struct SearchFolder {
    pub id: i32,
    pub path: String,
    pub uuid: String,
}

/// Copies a registry row, field for field.
pub fn copy_folder(f: &SearchFolder) -> (r: SearchFolder)
    ensures
        r == *f,
{
    SearchFolder { id: f.id, path: f.path.clone(), uuid: f.uuid.clone() }
}

/// One image record of a shard, keyed by `file_path`. The thumbnail is held
/// as base64 text of PNG bytes; `metadata` may be empty.
#[derive(Debug)]
pub struct ImageData {
    pub id: i32,
    pub file_path: String,
    pub thumbnail: String,
    pub width: u32,
    pub height: u32,
    pub file_size: u64,
    pub metadata: String,
    pub file_created_at: String,
    pub created_at: String,
    pub updated_at: String,
}

} // verus!
