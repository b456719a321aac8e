//! The plain formatter: one labeled line per field, fixed human-readable
//! labels, newline-terminated, stable field order.

use vstd::prelude::*;
use vstd::string::*;
use crate::record::{EntryType, FileRecord, FileRecordV};
use crate::numfmt::{dec_str, u64_to_string};
use crate::textlib::{appears, cat3, suffix_of};
use crate::textlib::{
    lemma_appears_here, lemma_appears_in_suffix, lemma_suffix_step, lemma_suffix_trans,
};

verus! {

/// The textual label of an entry type, as the plain and structured
/// formatters spell it.
pub open spec fn entry_label(t: EntryType) -> Seq<char> {
    match t {
        EntryType::Dir => "Dir"@,
        EntryType::File => "File"@,
    }
}

/// The textual label of a boolean.
pub open spec fn bool_label(b: bool) -> Seq<char> {
    if b {
        "true"@
    } else {
        "false"@
    }
}

pub fn entry_str(t: EntryType) -> (r: &'static str)
    ensures
        r@ == entry_label(t),
{
    match t {
        EntryType::Dir => "Dir",
        EntryType::File => "File",
    }
}

pub fn bool_str(b: bool) -> (r: &'static str)
    ensures
        r@ == bool_label(b),
{
    if b {
        "true"
    } else {
        "false"
    }
}

pub open spec fn pl_end() -> Seq<char> {
    "\n"@
}

pub open spec fn pl_file_type(m: FileRecordV) -> Seq<char> {
    "\nDetected File Type: "@ + (m.file_type + pl_end())
}

pub open spec fn pl_birth(m: FileRecordV) -> Seq<char> {
    "\nBirth Date: "@ + (m.birth + pl_file_type(m))
}

pub open spec fn pl_change(m: FileRecordV) -> Seq<char> {
    "\nChange Date: "@ + (m.change_data + pl_birth(m))
}

pub open spec fn pl_modify(m: FileRecordV) -> Seq<char> {
    "\nModify Date: "@ + (m.modify_date + pl_change(m))
}

pub open spec fn pl_access_date(m: FileRecordV) -> Seq<char> {
    "\nAccess Date: "@ + (m.access_date + pl_modify(m))
}

pub open spec fn pl_sympolic(m: FileRecordV) -> Seq<char> {
    "\nSymbolic Link: "@ + (bool_label(m.sympolic) + pl_access_date(m))
}

pub open spec fn pl_gid(m: FileRecordV) -> Seq<char> {
    "\nGID: "@ + (m.gid + pl_sympolic(m))
}

pub open spec fn pl_uid(m: FileRecordV) -> Seq<char> {
    "\nUID: "@ + (m.uid + pl_gid(m))
}

pub open spec fn pl_access(m: FileRecordV) -> Seq<char> {
    "\nAccess Permissions: "@ + (m.access + pl_uid(m))
}

pub open spec fn pl_links(m: FileRecordV) -> Seq<char> {
    "\nLinks: "@ + (dec_str(m.links as nat) + pl_access(m))
}

pub open spec fn pl_inod(m: FileRecordV) -> Seq<char> {
    "\nInode: "@ + (dec_str(m.inod as nat) + pl_links(m))
}

pub open spec fn pl_entry(m: FileRecordV) -> Seq<char> {
    "\nEntry Type: "@ + (entry_label(m.entry_type) + pl_inod(m))
}

pub open spec fn pl_devices(m: FileRecordV) -> Seq<char> {
    "\nDevices: "@ + (dec_str(m.devices as nat) + pl_entry(m))
}

pub open spec fn pl_io_block(m: FileRecordV) -> Seq<char> {
    "\nIO Block Size: "@ + (dec_str(m.io_block as nat) + pl_devices(m))
}

pub open spec fn pl_blocks(m: FileRecordV) -> Seq<char> {
    " bytes\nBlocks: "@ + (dec_str(m.blocks as nat) + pl_io_block(m))
}

pub open spec fn pl_size(m: FileRecordV) -> Seq<char> {
    "\nSize: "@ + (dec_str(m.size as nat) + pl_blocks(m))
}

/// The whole plain report for a record.
pub open spec fn plain_of(m: FileRecordV) -> Seq<char> {
    "File Name: "@ + (m.name + pl_size(m))
}

impl FileRecord {
    /// Render the record as the plain, human-readable report.
    pub fn render_normal(&self) -> (s: String)
        ensures
            s@ == plain_of(self@),
    {
        let t16 = cat3("\nDetected File Type: ", self.file_type.as_str(), "\n");
        let t15 = cat3("\nBirth Date: ", self.birth.as_str(), t16.as_str());
        let t14 = cat3("\nChange Date: ", self.change_data.as_str(), t15.as_str());
        let t13 = cat3("\nModify Date: ", self.modify_date.as_str(), t14.as_str());
        let t12 = cat3("\nAccess Date: ", self.access_date.as_str(), t13.as_str());
        let t11 = cat3("\nSymbolic Link: ", bool_str(self.sympolic), t12.as_str());
        let t10 = cat3("\nGID: ", self.gid.as_str(), t11.as_str());
        let t9 = cat3("\nUID: ", self.uid.as_str(), t10.as_str());
        let t8 = cat3("\nAccess Permissions: ", self.access.as_str(), t9.as_str());
        let links = u64_to_string(self.links);
        let t7 = cat3("\nLinks: ", links.as_str(), t8.as_str());
        let inod = u64_to_string(self.inod);
        let t6 = cat3("\nInode: ", inod.as_str(), t7.as_str());
        let t5 = cat3("\nEntry Type: ", entry_str(self.entry_type), t6.as_str());
        let devices = u64_to_string(self.devices);
        let t4 = cat3("\nDevices: ", devices.as_str(), t5.as_str());
        let io_block = u64_to_string(self.io_block);
        let t3 = cat3("\nIO Block Size: ", io_block.as_str(), t4.as_str());
        let blocks = u64_to_string(self.blocks);
        let t2 = cat3(" bytes\nBlocks: ", blocks.as_str(), t3.as_str());
        let size = u64_to_string(self.size);
        let t1 = cat3("\nSize: ", size.as_str(), t2.as_str());
        cat3("File Name: ", self.name.as_str(), t1.as_str())
    }
}

/// Every field value of the record appears, in its documented textual
/// encoding, somewhere in the plain report: no field is silently dropped.
pub proof fn lemma_plain_lists_fields(m: FileRecordV)
    ensures
        appears(plain_of(m), m.name),
        appears(plain_of(m), dec_str(m.size as nat)),
        appears(plain_of(m), dec_str(m.blocks as nat)),
        appears(plain_of(m), dec_str(m.io_block as nat)),
        appears(plain_of(m), dec_str(m.devices as nat)),
        appears(plain_of(m), entry_label(m.entry_type)),
        appears(plain_of(m), dec_str(m.inod as nat)),
        appears(plain_of(m), dec_str(m.links as nat)),
        appears(plain_of(m), m.access),
        appears(plain_of(m), m.uid),
        appears(plain_of(m), m.gid),
        appears(plain_of(m), bool_label(m.sympolic)),
        appears(plain_of(m), m.access_date),
        appears(plain_of(m), m.modify_date),
        appears(plain_of(m), m.change_data),
        appears(plain_of(m), m.birth),
        appears(plain_of(m), m.file_type),
{
    let s = plain_of(m);
    lemma_appears_here("File Name: "@, m.name, pl_size(m));
    lemma_suffix_step("File Name: "@, m.name + pl_size(m));
    lemma_suffix_step(m.name, pl_size(m));
    lemma_suffix_trans(pl_size(m), m.name + pl_size(m), s);

    lemma_appears_here("\nSize: "@, dec_str(m.size as nat), pl_blocks(m));
    lemma_appears_in_suffix(s, pl_size(m), dec_str(m.size as nat));
    lemma_suffix_step("\nSize: "@, dec_str(m.size as nat) + pl_blocks(m));
    lemma_suffix_trans(dec_str(m.size as nat) + pl_blocks(m), pl_size(m), s);
    lemma_suffix_step(dec_str(m.size as nat), pl_blocks(m));
    lemma_suffix_trans(pl_blocks(m), dec_str(m.size as nat) + pl_blocks(m), s);

    lemma_appears_here(" bytes\nBlocks: "@, dec_str(m.blocks as nat), pl_io_block(m));
    lemma_appears_in_suffix(s, pl_blocks(m), dec_str(m.blocks as nat));
    lemma_suffix_step(" bytes\nBlocks: "@, dec_str(m.blocks as nat) + pl_io_block(m));
    lemma_suffix_trans(dec_str(m.blocks as nat) + pl_io_block(m), pl_blocks(m), s);
    lemma_suffix_step(dec_str(m.blocks as nat), pl_io_block(m));
    lemma_suffix_trans(pl_io_block(m), dec_str(m.blocks as nat) + pl_io_block(m), s);

    lemma_appears_here("\nIO Block Size: "@, dec_str(m.io_block as nat), pl_devices(m));
    lemma_appears_in_suffix(s, pl_io_block(m), dec_str(m.io_block as nat));
    lemma_suffix_step("\nIO Block Size: "@, dec_str(m.io_block as nat) + pl_devices(m));
    lemma_suffix_trans(dec_str(m.io_block as nat) + pl_devices(m), pl_io_block(m), s);
    lemma_suffix_step(dec_str(m.io_block as nat), pl_devices(m));
    lemma_suffix_trans(pl_devices(m), dec_str(m.io_block as nat) + pl_devices(m), s);

    lemma_appears_here("\nDevices: "@, dec_str(m.devices as nat), pl_entry(m));
    lemma_appears_in_suffix(s, pl_devices(m), dec_str(m.devices as nat));
    lemma_suffix_step("\nDevices: "@, dec_str(m.devices as nat) + pl_entry(m));
    lemma_suffix_trans(dec_str(m.devices as nat) + pl_entry(m), pl_devices(m), s);
    lemma_suffix_step(dec_str(m.devices as nat), pl_entry(m));
    lemma_suffix_trans(pl_entry(m), dec_str(m.devices as nat) + pl_entry(m), s);

    lemma_appears_here("\nEntry Type: "@, entry_label(m.entry_type), pl_inod(m));
    lemma_appears_in_suffix(s, pl_entry(m), entry_label(m.entry_type));
    lemma_suffix_step("\nEntry Type: "@, entry_label(m.entry_type) + pl_inod(m));
    lemma_suffix_trans(entry_label(m.entry_type) + pl_inod(m), pl_entry(m), s);
    lemma_suffix_step(entry_label(m.entry_type), pl_inod(m));
    lemma_suffix_trans(pl_inod(m), entry_label(m.entry_type) + pl_inod(m), s);

    lemma_appears_here("\nInode: "@, dec_str(m.inod as nat), pl_links(m));
    lemma_appears_in_suffix(s, pl_inod(m), dec_str(m.inod as nat));
    lemma_suffix_step("\nInode: "@, dec_str(m.inod as nat) + pl_links(m));
    lemma_suffix_trans(dec_str(m.inod as nat) + pl_links(m), pl_inod(m), s);
    lemma_suffix_step(dec_str(m.inod as nat), pl_links(m));
    lemma_suffix_trans(pl_links(m), dec_str(m.inod as nat) + pl_links(m), s);

    lemma_appears_here("\nLinks: "@, dec_str(m.links as nat), pl_access(m));
    lemma_appears_in_suffix(s, pl_links(m), dec_str(m.links as nat));
    lemma_suffix_step("\nLinks: "@, dec_str(m.links as nat) + pl_access(m));
    lemma_suffix_trans(dec_str(m.links as nat) + pl_access(m), pl_links(m), s);
    lemma_suffix_step(dec_str(m.links as nat), pl_access(m));
    lemma_suffix_trans(pl_access(m), dec_str(m.links as nat) + pl_access(m), s);

    lemma_appears_here("\nAccess Permissions: "@, m.access, pl_uid(m));
    lemma_appears_in_suffix(s, pl_access(m), m.access);
    lemma_suffix_step("\nAccess Permissions: "@, m.access + pl_uid(m));
    lemma_suffix_trans(m.access + pl_uid(m), pl_access(m), s);
    lemma_suffix_step(m.access, pl_uid(m));
    lemma_suffix_trans(pl_uid(m), m.access + pl_uid(m), s);

    lemma_appears_here("\nUID: "@, m.uid, pl_gid(m));
    lemma_appears_in_suffix(s, pl_uid(m), m.uid);
    lemma_suffix_step("\nUID: "@, m.uid + pl_gid(m));
    lemma_suffix_trans(m.uid + pl_gid(m), pl_uid(m), s);
    lemma_suffix_step(m.uid, pl_gid(m));
    lemma_suffix_trans(pl_gid(m), m.uid + pl_gid(m), s);

    lemma_appears_here("\nGID: "@, m.gid, pl_sympolic(m));
    lemma_appears_in_suffix(s, pl_gid(m), m.gid);
    lemma_suffix_step("\nGID: "@, m.gid + pl_sympolic(m));
    lemma_suffix_trans(m.gid + pl_sympolic(m), pl_gid(m), s);
    lemma_suffix_step(m.gid, pl_sympolic(m));
    lemma_suffix_trans(pl_sympolic(m), m.gid + pl_sympolic(m), s);

    lemma_appears_here("\nSymbolic Link: "@, bool_label(m.sympolic), pl_access_date(m));
    lemma_appears_in_suffix(s, pl_sympolic(m), bool_label(m.sympolic));
    lemma_suffix_step("\nSymbolic Link: "@, bool_label(m.sympolic) + pl_access_date(m));
    lemma_suffix_trans(bool_label(m.sympolic) + pl_access_date(m), pl_sympolic(m), s);
    lemma_suffix_step(bool_label(m.sympolic), pl_access_date(m));
    lemma_suffix_trans(pl_access_date(m), bool_label(m.sympolic) + pl_access_date(m), s);

    lemma_appears_here("\nAccess Date: "@, m.access_date, pl_modify(m));
    lemma_appears_in_suffix(s, pl_access_date(m), m.access_date);
    lemma_suffix_step("\nAccess Date: "@, m.access_date + pl_modify(m));
    lemma_suffix_trans(m.access_date + pl_modify(m), pl_access_date(m), s);
    lemma_suffix_step(m.access_date, pl_modify(m));
    lemma_suffix_trans(pl_modify(m), m.access_date + pl_modify(m), s);

    lemma_appears_here("\nModify Date: "@, m.modify_date, pl_change(m));
    lemma_appears_in_suffix(s, pl_modify(m), m.modify_date);
    lemma_suffix_step("\nModify Date: "@, m.modify_date + pl_change(m));
    lemma_suffix_trans(m.modify_date + pl_change(m), pl_modify(m), s);
    lemma_suffix_step(m.modify_date, pl_change(m));
    lemma_suffix_trans(pl_change(m), m.modify_date + pl_change(m), s);

    lemma_appears_here("\nChange Date: "@, m.change_data, pl_birth(m));
    lemma_appears_in_suffix(s, pl_change(m), m.change_data);
    lemma_suffix_step("\nChange Date: "@, m.change_data + pl_birth(m));
    lemma_suffix_trans(m.change_data + pl_birth(m), pl_change(m), s);
    lemma_suffix_step(m.change_data, pl_birth(m));
    lemma_suffix_trans(pl_birth(m), m.change_data + pl_birth(m), s);

    lemma_appears_here("\nBirth Date: "@, m.birth, pl_file_type(m));
    lemma_appears_in_suffix(s, pl_birth(m), m.birth);
    lemma_suffix_step("\nBirth Date: "@, m.birth + pl_file_type(m));
    lemma_suffix_trans(m.birth + pl_file_type(m), pl_birth(m), s);
    lemma_suffix_step(m.birth, pl_file_type(m));
    lemma_suffix_trans(pl_file_type(m), m.birth + pl_file_type(m), s);

    lemma_appears_here("\nDetected File Type: "@, m.file_type, pl_end());
    lemma_appears_in_suffix(s, pl_file_type(m), m.file_type);
}

} // verus!
