//! The tabular formatter: a single-row table with one column per field,
//! rendered by the tabled crate with its rounded border style.

use vstd::prelude::*;
use vstd::string::*;
use crate::record::{FileRecord, FileRecordV};
use crate::numfmt::{dec_str, u64_to_string};
use crate::plain::{bool_label, bool_str, entry_label, entry_str};

verus! {

/// The rendered table for the given header cells and row cells, as the
/// tabled crate draws it: a function of the cell strings alone.
pub uninterp spec fn table_of(headers: Seq<Seq<char>>, row: Seq<Seq<char>>) -> Seq<char>;

/// Relies on tabled's `Builder` (header record, then row record) and
/// `Style::rounded`: the drawn table depends on the pushed cells alone.
#[verifier::external_body]
fn tabled_rounded(headers: &Vec<String>, row: &Vec<String>) -> (r: String)
    ensures
        r@ == table_of(headers.deep_view(), row.deep_view()),
{
    let mut b = tabled::builder::Builder::default();
    b.push_record(headers.clone());
    b.push_record(row.clone());
    let mut t = b.build();
    t.with(tabled::settings::Style::rounded());
    t.to_string()
}

/// The column headers: the field names in declaration order.
pub open spec fn table_headers() -> Seq<Seq<char>> {
    seq![
        "name"@,
        "size"@,
        "blocks"@,
        "io_block"@,
        "devices"@,
        "entry_type"@,
        "inod"@,
        "links"@,
        "access"@,
        "uid"@,
        "gid"@,
        "sympolic"@,
        "access_date"@,
        "modify_date"@,
        "change_data"@,
        "birth"@,
        "file_type"@,
    ]
}

/// The single row: each field in its textual encoding, in field order.
pub open spec fn table_row(m: FileRecordV) -> Seq<Seq<char>> {
    seq![
        m.name,
        dec_str(m.size as nat),
        dec_str(m.blocks as nat),
        dec_str(m.io_block as nat),
        dec_str(m.devices as nat),
        entry_label(m.entry_type),
        dec_str(m.inod as nat),
        dec_str(m.links as nat),
        m.access,
        m.uid,
        m.gid,
        bool_label(m.sympolic),
        m.access_date,
        m.modify_date,
        m.change_data,
        m.birth,
        m.file_type,
    ]
}

impl FileRecord {
    /// Render the record as a one-row table with rounded borders.
    pub fn render_table(&self) -> (s: String)
        ensures
            s@ == table_of(table_headers(), table_row(self@)),
    {
        let mut headers: Vec<String> = Vec::new();
        headers.push("name".to_owned());
        headers.push("size".to_owned());
        headers.push("blocks".to_owned());
        headers.push("io_block".to_owned());
        headers.push("devices".to_owned());
        headers.push("entry_type".to_owned());
        headers.push("inod".to_owned());
        headers.push("links".to_owned());
        headers.push("access".to_owned());
        headers.push("uid".to_owned());
        headers.push("gid".to_owned());
        headers.push("sympolic".to_owned());
        headers.push("access_date".to_owned());
        headers.push("modify_date".to_owned());
        headers.push("change_data".to_owned());
        headers.push("birth".to_owned());
        headers.push("file_type".to_owned());
        let mut row: Vec<String> = Vec::new();
        row.push(self.name.clone());
        row.push(u64_to_string(self.size));
        row.push(u64_to_string(self.blocks));
        row.push(u64_to_string(self.io_block));
        row.push(u64_to_string(self.devices));
        row.push(entry_str(self.entry_type).to_owned());
        row.push(u64_to_string(self.inod));
        row.push(u64_to_string(self.links));
        row.push(self.access.clone());
        row.push(self.uid.clone());
        row.push(self.gid.clone());
        row.push(bool_str(self.sympolic).to_owned());
        row.push(self.access_date.clone());
        row.push(self.modify_date.clone());
        row.push(self.change_data.clone());
        row.push(self.birth.clone());
        row.push(self.file_type.clone());
        proof {
            assert(headers.deep_view() =~= table_headers());
            assert(row.deep_view() =~= table_row(self@));
        }
        tabled_rounded(&headers, &row)
    }
}

} // verus!
