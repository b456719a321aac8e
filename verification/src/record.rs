//! The normalized, immutable snapshot of one filesystem entry's attributes,
//! and the raw attribute bundle it is built from.

use vstd::prelude::*;

verus! {

/// Classification of an entry by its filesystem metadata (not content).
#[derive(Clone, Copy, PartialEq, Eq, Structural, Debug)]
pub enum EntryType {
    Dir,
    File,
}

/// Everything known about one inspected path, fully built or not built at
/// all.  Enrichment failures are captured as sentinel strings inside the
/// record, never as errors escaping construction.
pub struct FileRecord {
    pub name: String,
    pub size: u64,
    pub blocks: u64,
    pub io_block: u64,
    pub devices: u64,
    pub entry_type: EntryType,
    pub inod: u64,
    pub links: u64,
    pub access: String,
    pub uid: String,
    pub gid: String,
    pub sympolic: bool,
    pub access_date: String,
    pub modify_date: String,
    pub change_data: String,
    pub birth: String,
    pub file_type: String,
}

/// The mathematical model of a [`FileRecord`]: the same fields with strings
/// abstracted to character sequences.
pub ghost struct FileRecordV {
    pub name: Seq<char>,
    pub size: u64,
    pub blocks: u64,
    pub io_block: u64,
    pub devices: u64,
    pub entry_type: EntryType,
    pub inod: u64,
    pub links: u64,
    pub access: Seq<char>,
    pub uid: Seq<char>,
    pub gid: Seq<char>,
    pub sympolic: bool,
    pub access_date: Seq<char>,
    pub modify_date: Seq<char>,
    pub change_data: Seq<char>,
    pub birth: Seq<char>,
    pub file_type: Seq<char>,
}

impl View for FileRecord {
    type V = FileRecordV;

    open spec fn view(&self) -> FileRecordV {
        FileRecordV {
            name: self.name@,
            size: self.size,
            blocks: self.blocks,
            io_block: self.io_block,
            devices: self.devices,
            entry_type: self.entry_type,
            inod: self.inod,
            links: self.links,
            access: self.access@,
            uid: self.uid@,
            gid: self.gid@,
            sympolic: self.sympolic,
            access_date: self.access_date@,
            modify_date: self.modify_date@,
            change_data: self.change_data@,
            birth: self.birth@,
            file_type: self.file_type@,
        }
    }
}

/// The raw OS-level attribute bundle for one path, as the operating system
/// reports it.  Each timestamp is `None` where the OS does not support that
/// field; `changed` is a bare epoch-seconds value as the OS hands it out.
pub struct RawMetadata {
    pub size: u64,
    pub blocks: u64,
    pub io_block: u64,
    pub devices: u64,
    pub inod: u64,
    pub links: u64,
    pub uid: u32,
    pub gid: u32,
    pub is_dir: bool,
    pub is_symlink: bool,
    pub access: String,
    pub accessed: Option<i64>,
    pub modified: Option<i64>,
    pub created: Option<i64>,
    pub changed: i64,
}

} // verus!
