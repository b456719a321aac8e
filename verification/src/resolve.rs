//! Enrichment of raw attributes: identity resolution, timestamp formatting,
//! and content classification, each degrading to a sentinel value instead of
//! failing, and the builder that composes one [`FileRecord`] out of them.

use vstd::prelude::*;
use vstd::string::*;
use crate::record::{EntryType, FileRecord, RawMetadata};
use crate::numfmt::{dec_str, is_dec_digit, u64_to_string};

verus! {

/// The first second of chrono's earliest calendar date (January 1 of its
/// minimum year).
pub const MIN_CALENDAR_SECS: i64 = -8334601228800;

/// The last second of chrono's latest calendar date (December 31 of its
/// maximum year).
pub const MAX_CALENDAR_SECS: i64 = 8210266876799;

/// Whether chrono can place an epoch-seconds value on the calendar.
pub open spec fn in_calendar_range(secs: i64) -> bool {
    MIN_CALENDAR_SECS <= secs && secs <= MAX_CALENDAR_SECS
}

/// The calendar rendering (`%Y-%m-%d %H:%M:%S`, UTC) of an epoch-seconds
/// value, as the chrono crate computes it: a function of the value alone.
pub uninterp spec fn utc_calendar_of(secs: i64) -> Seq<char>;

/// The shape of a `%Y-%m-%d %H:%M:%S` rendering: a year of at least four
/// digits (with a sign for years outside four digits), then zero-padded
/// two-digit month, day, hour, minute, and second fields.
pub open spec fn calendar_shape(s: Seq<char>) -> bool {
    let n = s.len() as int;
    &&& n >= 19
    &&& (is_dec_digit(s[0]) || s[0] == '-' || s[0] == '+')
    &&& (forall|k: int| 1 <= k < n - 15 ==> is_dec_digit(#[trigger] s[k]))
    &&& s[n - 15] == '-'
    &&& is_dec_digit(s[n - 14])
    &&& is_dec_digit(s[n - 13])
    &&& s[n - 12] == '-'
    &&& is_dec_digit(s[n - 11])
    &&& is_dec_digit(s[n - 10])
    &&& s[n - 9] == ' '
    &&& is_dec_digit(s[n - 8])
    &&& is_dec_digit(s[n - 7])
    &&& s[n - 6] == ':'
    &&& is_dec_digit(s[n - 5])
    &&& is_dec_digit(s[n - 4])
    &&& s[n - 3] == ':'
    &&& is_dec_digit(s[n - 2])
    &&& is_dec_digit(s[n - 1])
}

/// Relies on chrono's `TimeZone::timestamp_opt` on `Utc` and its `format`:
/// it returns no value exactly for seconds outside chrono's calendar (the
/// range of its minimum and maximum dates), and otherwise always a single
/// one, whose rendering with this fixed format string depends on the
/// seconds value alone and has the year-month-day hour:minute:second shape.
#[verifier::external_body]
fn utc_format(secs: i64) -> (r: Option<String>)
    ensures
        r is Some <==> in_calendar_range(secs),
        r is Some ==> r->0@ == utc_calendar_of(secs),
        r is Some ==> calendar_shape(r->0@),
{
    <chrono::Utc as chrono::TimeZone>::timestamp_opt(&chrono::Utc, secs, 0).single().map(
        |dt| dt.format("%Y-%m-%d %H:%M:%S").to_string(),
    )
}

/// Relies on chrono's `TimeZone::timestamp_opt` on `Local` and its `format`:
/// the same entry point as the UTC wrapper, so a value comes back exactly
/// for seconds inside chrono's calendar, in the same fixed shape.  Which
/// calendar time it names also depends on the machine's time zone, so the
/// rendering itself is not pinned.
#[verifier::external_body]
fn local_format(secs: i64) -> (r: Option<String>)
    ensures
        r is Some <==> in_calendar_range(secs),
        r is Some ==> calendar_shape(r->0@),
{
    <chrono::Local as chrono::TimeZone>::timestamp_opt(&chrono::Local, secs, 0).single().map(
        |dt| dt.format("%Y-%m-%d %H:%M:%S").to_string(),
    )
}

/// Relies on the users crate's `get_user_by_uid` and `User::name`.  The
/// result depends on the host's account database, so nothing is promised.
#[verifier::external_body]
fn user_name_of(uid: u32) -> (r: Option<String>) {
    users::get_user_by_uid(uid).map(|u| u.name().to_string_lossy().into_owned())
}

/// Relies on the users crate's `get_group_by_gid` and `Group::name`.  The
/// result depends on the host's group database, so nothing is promised.
#[verifier::external_body]
fn group_name_of(gid: u32) -> (r: Option<String>) {
    users::get_group_by_gid(gid).map(|g| g.name().to_string_lossy().into_owned())
}

/// Relies on tree_magic_mini's `from_filepath`: it inspects the file's
/// contents, so the result depends on what is on disk, and nothing is
/// promised; a missing or unreadable file gives no value.
#[verifier::external_body]
fn mime_of(path: &str) -> (r: Option<String>) {
    tree_magic_mini::from_filepath(std::path::Path::new(path)).map(|m| m.to_string())
}

/// The owner or group label: the resolved name where the lookup found one,
/// else the numeric id in decimal.  Resolution failure degrades, it never
/// aborts record construction.
pub fn owner_label(id: u32, name: Option<String>) -> (r: String)
    ensures
        match name {
            Some(n) => r@ == n@,
            None => r@ == dec_str(id as nat),
        },
{
    match name {
        Some(n) => n,
        None => u64_to_string(id as u64),
    }
}

/// A timestamp label: the formatted string where one was computed, else the
/// unavailability sentinel.
pub fn time_label(t: Option<String>) -> (r: String)
    ensures
        match t {
            Some(x) => r@ == x@,
            None => r@ == "Unavailable"@,
        },
{
    match t {
        Some(x) => x,
        None => "Unavailable".to_owned(),
    }
}

/// A content label: the sniffed classification where one was computed, else
/// the "unknown" sentinel.
pub fn content_label(t: Option<String>) -> (r: String)
    ensures
        match t {
            Some(x) => r@ == x@,
            None => r@ == "unknown"@,
        },
{
    match t {
        Some(x) => x,
        None => "unknown".to_owned(),
    }
}

/// The UTC calendar label of a bare epoch-seconds value: the rendering of
/// the value itself, independent of the host's time zone, with the sentinel
/// exactly where the value lies outside chrono's calendar.
pub fn from_unix_to_normal_time(time: i64) -> (r: String)
    ensures
        in_calendar_range(time) ==> r@ == utc_calendar_of(time),
        !in_calendar_range(time) ==> r@ == "Unavailable"@,
{
    time_label(utc_format(time))
}

/// The local calendar label of an optional epoch-seconds value: a calendar
/// string for a supplied, in-range value, and the sentinel otherwise —
/// never any other text.
pub fn format_time(secs: Option<i64>) -> (r: String)
    ensures
        secs is None ==> r@ == "Unavailable"@,
        secs matches Some(x) ==> (if in_calendar_range(x) {
            calendar_shape(r@)
        } else {
            r@ == "Unavailable"@
        }),
        calendar_shape(r@) || r@ == "Unavailable"@,
{
    match secs {
        Some(x) => time_label(local_format(x)),
        None => time_label(None),
    }
}

/// Pure composition of one record out of the raw attributes and the already
/// resolved enrichment outcomes.  Every field of the result is pinned: the
/// classification follows the directory bit, the link flag follows the link
/// bit independently, and each optional enrichment falls back to its
/// documented sentinel.
pub fn extract_data(
    raw: &RawMetadata,
    file_name: &str,
    user: Option<String>,
    group: Option<String>,
    mime: Option<String>,
    access_time: Option<String>,
    modify_time: Option<String>,
    birth_time: Option<String>,
    change_time: Option<String>,
) -> (rec: FileRecord)
    ensures
        rec@.name == file_name@,
        rec@.size == raw.size,
        rec@.blocks == raw.blocks,
        rec@.io_block == raw.io_block,
        rec@.devices == raw.devices,
        rec@.entry_type == (if raw.is_dir {
            EntryType::Dir
        } else {
            EntryType::File
        }),
        rec@.inod == raw.inod,
        rec@.links == raw.links,
        rec@.access == raw.access@,
        rec@.sympolic == raw.is_symlink,
        rec@.uid == match user {
            Some(n) => n@,
            None => dec_str(raw.uid as nat),
        },
        rec@.gid == match group {
            Some(n) => n@,
            None => dec_str(raw.gid as nat),
        },
        rec@.access_date == match access_time {
            Some(t) => t@,
            None => "Unavailable"@,
        },
        rec@.modify_date == match modify_time {
            Some(t) => t@,
            None => "Unavailable"@,
        },
        rec@.birth == match birth_time {
            Some(t) => t@,
            None => "Unavailable"@,
        },
        rec@.change_data == match change_time {
            Some(t) => t@,
            None => "Unavailable"@,
        },
        rec@.file_type == match mime {
            Some(x) => x@,
            None => "unknown"@,
        },
{
    let entry_type = if raw.is_dir {
        EntryType::Dir
    } else {
        EntryType::File
    };
    FileRecord {
        name: file_name.to_owned(),
        size: raw.size,
        blocks: raw.blocks,
        io_block: raw.io_block,
        devices: raw.devices,
        entry_type,
        inod: raw.inod,
        links: raw.links,
        access: raw.access.clone(),
        uid: owner_label(raw.uid, user),
        gid: owner_label(raw.gid, group),
        sympolic: raw.is_symlink,
        access_date: time_label(access_time),
        modify_date: time_label(modify_time),
        change_data: time_label(change_time),
        birth: time_label(birth_time),
        file_type: content_label(mime),
    }
}

/// Run every enrichment for one raw attribute bundle and build the record.
/// The OS-derived fields are pinned exactly; the enriched ones are pinned
/// up to the outcome of the host lookups.
pub fn inspect(raw: &RawMetadata, file_name: &str) -> (rec: FileRecord)
    ensures
        rec@.name == file_name@,
        rec@.size == raw.size,
        rec@.blocks == raw.blocks,
        rec@.io_block == raw.io_block,
        rec@.devices == raw.devices,
        rec@.entry_type == (if raw.is_dir {
            EntryType::Dir
        } else {
            EntryType::File
        }),
        rec@.inod == raw.inod,
        rec@.links == raw.links,
        rec@.access == raw.access@,
        rec@.sympolic == raw.is_symlink,
        rec@.change_data == (if in_calendar_range(raw.changed) {
            utc_calendar_of(raw.changed)
        } else {
            "Unavailable"@
        }),
        raw.accessed is None ==> rec@.access_date == "Unavailable"@,
        raw.accessed matches Some(x) ==> (if in_calendar_range(x) {
            calendar_shape(rec@.access_date)
        } else {
            rec@.access_date == "Unavailable"@
        }),
        raw.modified is None ==> rec@.modify_date == "Unavailable"@,
        raw.modified matches Some(x) ==> (if in_calendar_range(x) {
            calendar_shape(rec@.modify_date)
        } else {
            rec@.modify_date == "Unavailable"@
        }),
        raw.created is None ==> rec@.birth == "Unavailable"@,
        raw.created matches Some(x) ==> (if in_calendar_range(x) {
            calendar_shape(rec@.birth)
        } else {
            rec@.birth == "Unavailable"@
        }),
{
    let user = user_name_of(raw.uid);
    let group = group_name_of(raw.gid);
    let mime = mime_of(file_name);
    let access_time = match raw.accessed {
        Some(x) => local_format(x),
        None => None,
    };
    let modify_time = match raw.modified {
        Some(x) => local_format(x),
        None => None,
    };
    let birth_time = match raw.created {
        Some(x) => local_format(x),
        None => None,
    };
    let change_time = utc_format(raw.changed);
    extract_data(
        raw,
        file_name,
        user,
        group,
        mime,
        access_time,
        modify_time,
        birth_time,
        change_time,
    )
}

} // verus!
