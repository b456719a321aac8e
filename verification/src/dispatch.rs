//! Style selection and the dispatcher: drive the pipeline from raw
//! attributes to one rendered string, or to one descriptive error line.

use vstd::prelude::*;
use vstd::string::*;
use crate::record::{EntryType, FileRecord, FileRecordV, RawMetadata};
use crate::plain::plain_of;
use crate::json::json_of;
use crate::table::{table_headers, table_of, table_row};
use crate::resolve::{calendar_shape, in_calendar_range, inspect, utc_calendar_of};
use crate::textlib::{appears, cat3, lemma_appears_here};

verus! {

/// The presentation style of one invocation.
#[derive(Clone, Copy, PartialEq, Eq, Structural, Debug)]
pub enum Style {
    Normal,
    Table,
    Json,
}

/// Why the raw attributes of a path could not be obtained.
#[derive(Clone, Copy, PartialEq, Eq, Structural, Debug)]
pub enum MetaErrorKind {
    NotFound,
    PermissionDenied,
    Other,
}

/// A failed metadata query: its class and the system's message text.
pub struct MetaError {
    pub kind: MetaErrorKind,
    pub message: String,
}

/// What each style renders a record to.
pub open spec fn rendered_of(m: FileRecordV, style: Style) -> Seq<char> {
    match style {
        Style::Normal => plain_of(m),
        Style::Table => table_of(table_headers(), table_row(m)),
        Style::Json => json_of(m),
    }
}

impl FileRecord {
    /// Pure dispatch over the closed style set: every style renders every
    /// well-formed record, so rendering is total.
    pub fn render_with_style(&self, style: Style) -> (s: String)
        ensures
            s@ == rendered_of(self@, style),
    {
        match style {
            Style::Normal => self.render_normal(),
            Style::Table => self.render_table(),
            Style::Json => self.render_json(),
        }
    }
}

/// The one error line written when the metadata query fails: it names the
/// path and carries the system's message.
pub open spec fn error_line_of(path: Seq<char>, msg: Seq<char>) -> Seq<char> {
    "Failed to get metadata for '"@ + (path + ("': "@ + msg))
}

/// Build the error line for a failed metadata query.
pub fn error_line(path: &str, msg: &str) -> (s: String)
    ensures
        s@ == error_line_of(path@, msg@),
{
    let tail = cat3("': ", msg, "");
    proof {
        reveal_strlit("");
        assert(tail@ =~= "': "@ + msg@);
    }
    cat3("Failed to get metadata for '", path, tail.as_str())
}

/// The error line always contains the literal path string.
pub proof fn lemma_error_line_contains_path(path: Seq<char>, msg: Seq<char>)
    ensures
        appears(error_line_of(path, msg), path),
{
    lemma_appears_here("Failed to get metadata for '"@, path, "': "@ + msg);
}

/// Where neither the path nor the message holds a line break, the error
/// line is a single line.
pub proof fn lemma_error_line_single(path: Seq<char>, msg: Seq<char>)
    requires
        forall|k: int| 0 <= k < path.len() ==> path[k] != '\n',
        forall|k: int| 0 <= k < msg.len() ==> msg[k] != '\n',
    ensures
        forall|k: int| 0 <= k < error_line_of(path, msg).len() ==> error_line_of(path, msg)[k]
            != '\n',
{
    reveal_strlit("Failed to get metadata for '");
    reveal_strlit("': ");
    let s = error_line_of(path, msg);
    assert forall|k: int| 0 <= k < s.len() implies s[k] != '\n' by {
        let a = "Failed to get metadata for '"@;
        let b = "': "@;
        if k < a.len() {
            assert(s[k] == a[k]);
        } else if k < a.len() + path.len() {
            assert(s[k] == path[k - a.len()]);
        } else if k < a.len() + path.len() + b.len() {
            assert(s[k] == b[k - a.len() - path.len()]);
        } else {
            assert(s[k] == msg[k - a.len() - path.len() - b.len()]);
        }
    }
}

/// Drive the pipeline: build and render the record for a successful
/// metadata query, or hand back the one error line for a failed one.
pub fn run(path: &str, meta: Result<RawMetadata, MetaError>, style: Style) -> (r: Result<
    String,
    String,
>)
    ensures
        meta is Ok <==> r is Ok,
        meta is Err ==> r->Err_0@ == error_line_of(path@, meta->Err_0.message@),
        meta is Ok ==> exists|m: FileRecordV|
            {
                &&& #[trigger] r->Ok_0@ == rendered_of(m, style)
                &&& m.name == path@
                &&& m.size == meta->Ok_0.size
                &&& m.blocks == meta->Ok_0.blocks
                &&& m.io_block == meta->Ok_0.io_block
                &&& m.devices == meta->Ok_0.devices
                &&& m.inod == meta->Ok_0.inod
                &&& m.links == meta->Ok_0.links
                &&& m.entry_type == (if meta->Ok_0.is_dir {
                    EntryType::Dir
                } else {
                    EntryType::File
                })
                &&& m.sympolic == meta->Ok_0.is_symlink
                &&& m.access == meta->Ok_0.access@
                &&& m.change_data == (if in_calendar_range(meta->Ok_0.changed) {
                    utc_calendar_of(meta->Ok_0.changed)
                } else {
                    "Unavailable"@
                })
                &&& (meta->Ok_0.accessed is None ==> m.access_date == "Unavailable"@)
                &&& (meta->Ok_0.accessed matches Some(x) ==> (if in_calendar_range(x) {
                    calendar_shape(m.access_date)
                } else {
                    m.access_date == "Unavailable"@
                }))
                &&& (meta->Ok_0.modified is None ==> m.modify_date == "Unavailable"@)
                &&& (meta->Ok_0.modified matches Some(x) ==> (if in_calendar_range(x) {
                    calendar_shape(m.modify_date)
                } else {
                    m.modify_date == "Unavailable"@
                }))
                &&& (meta->Ok_0.created is None ==> m.birth == "Unavailable"@)
                &&& (meta->Ok_0.created matches Some(x) ==> (if in_calendar_range(x) {
                    calendar_shape(m.birth)
                } else {
                    m.birth == "Unavailable"@
                }))
            },
{
    match meta {
        Ok(raw) => {
            let rec = inspect(&raw, path);
            let out = rec.render_with_style(style);
            proof {
                let m = rec@;
                assert(out@ == rendered_of(m, style));
            }
            Ok(out)
        },
        Err(e) => Err(error_line(path, e.message.as_str())),
    }
}

} // verus!
