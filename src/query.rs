//! The fixed SQL texts of the registry and of the shard stores, built once at
//! startup and handed to whatever needs them.
use vstd::prelude::*;

verus! {

pub const CREATE_TABLES: &'static str = "CREATE TABLE IF NOT EXISTS search_folders (id INTEGER PRIMARY KEY AUTOINCREMENT, path TEXT NOT NULL, uuid TEXT NOT NULL UNIQUE); CREATE TABLE IF NOT EXISTS ignore_folders (id INTEGER PRIMARY KEY AUTOINCREMENT, path TEXT NOT NULL, uuid TEXT NOT NULL UNIQUE);";

pub const CREATE_SUB_INDEX: &'static str = "CREATE TABLE IF NOT EXISTS images (id INTEGER PRIMARY KEY AUTOINCREMENT, file_path TEXT NOT NULL UNIQUE, thumbnail TEXT NOT NULL, width INTEGER NOT NULL, height INTEGER NOT NULL, file_size INTEGER NOT NULL, metadata_json TEXT NOT NULL DEFAULT '', file_created_at TEXT NOT NULL, created_at TEXT NOT NULL, updated_at TEXT NOT NULL);";

pub const INSERT_FOLDER: &'static str = "INSERT INTO search_folders (path, uuid) VALUES (?1, ?2)";

pub const INSERT_IGNORE_FOLDER: &'static str = "INSERT INTO ignore_folders (path, uuid) VALUES (?1, ?2)";

pub const SELECT_ALL_FOLDERS: &'static str = "SELECT id, path, uuid FROM search_folders ORDER BY id";

pub const SELECT_ALL_IGNORE_FOLDERS: &'static str = "SELECT id, path, uuid FROM ignore_folders ORDER BY id";

pub const DELETE_FOLDER: &'static str = "DELETE FROM search_folders WHERE id = ?1";

pub const DELETE_IGNORE_FOLDER: &'static str = "DELETE FROM ignore_folders WHERE id = ?1";

/// Insert-or-replace keyed by `file_path`: a second write of a path updates
/// its one row, refreshing everything but `file_created_at` and `created_at`.
pub const INSERT_IMAGE: &'static str = "INSERT INTO images (file_path, thumbnail, width, height, file_size, metadata_json, file_created_at, created_at, updated_at) VALUES (?1, ?2, ?3, ?4, ?5, ?6, ?7, ?8, ?9) ON CONFLICT(file_path) DO UPDATE SET thumbnail = excluded.thumbnail, width = excluded.width, height = excluded.height, file_size = excluded.file_size, metadata_json = excluded.metadata_json, updated_at = excluded.updated_at";

/// The SQL texts in use.
pub struct Queries {
    pub create_tables: &'static str,
    pub create_sub_index: &'static str,
    pub insert_folder: &'static str,
    pub insert_ignore_folder: &'static str,
    pub select_all_folders: &'static str,
    pub select_all_ignore_folders: &'static str,
    pub delete_folder: &'static str,
    pub delete_ignore_folder: &'static str,
    pub insert_image: &'static str,
}

impl Queries {
    pub fn load() -> (r: Self)
        ensures
            r.create_tables@ == CREATE_TABLES@,
            r.create_sub_index@ == CREATE_SUB_INDEX@,
            r.insert_folder@ == INSERT_FOLDER@,
            r.insert_ignore_folder@ == INSERT_IGNORE_FOLDER@,
            r.select_all_folders@ == SELECT_ALL_FOLDERS@,
            r.select_all_ignore_folders@ == SELECT_ALL_IGNORE_FOLDERS@,
            r.delete_folder@ == DELETE_FOLDER@,
            r.delete_ignore_folder@ == DELETE_IGNORE_FOLDER@,
            r.insert_image@ == INSERT_IMAGE@,
    {
        Queries {
            create_tables: CREATE_TABLES,
            create_sub_index: CREATE_SUB_INDEX,
            insert_folder: INSERT_FOLDER,
            insert_ignore_folder: INSERT_IGNORE_FOLDER,
            select_all_folders: SELECT_ALL_FOLDERS,
            select_all_ignore_folders: SELECT_ALL_IGNORE_FOLDERS,
            delete_folder: DELETE_FOLDER,
            delete_ignore_folder: DELETE_IGNORE_FOLDER,
            insert_image: INSERT_IMAGE,
        }
    }
}

} // verus!
