//! The structured formatter: a pretty-printed JSON rendering of a record
//! with stable key order, a strict parser for it, and the proof that the
//! round trip is lossless.

use vstd::prelude::*;
use vstd::string::*;
use crate::record::{EntryType, FileRecord, FileRecordV};
use crate::numfmt::{dec_str, sp_u64, u64_to_string, scan_u64};
use crate::numfmt::{lemma_dec_str_digits, lemma_dec_val_of_dec_str, lemma_digits_end_of};
use crate::escape::{escape, escape_string, sp_string, parse_string, unescape};
use crate::escape::{lemma_scan_quote_of, lemma_skip_shift, lemma_unescape_escape};
use crate::plain::{bool_label, bool_str, entry_label, entry_str};
use crate::textlib::{appears, cat3, eat_lit, sp_lit};
use crate::textlib::{
    lemma_appears_here, lemma_appears_in_suffix, lemma_suffix_step, lemma_suffix_trans,
};

verus! {

pub open spec fn js_end() -> Seq<char> {
    "\"\n}"@
}

pub open spec fn js_file_type(m: FileRecordV) -> Seq<char> {
    "\",\n  \"file_type\": \""@ + (escape(m.file_type) + js_end())
}

pub open spec fn js_birth(m: FileRecordV) -> Seq<char> {
    "\",\n  \"birth\": \""@ + (escape(m.birth) + js_file_type(m))
}

pub open spec fn js_change(m: FileRecordV) -> Seq<char> {
    "\",\n  \"change_data\": \""@ + (escape(m.change_data) + js_birth(m))
}

pub open spec fn js_modify(m: FileRecordV) -> Seq<char> {
    "\",\n  \"modify_date\": \""@ + (escape(m.modify_date) + js_change(m))
}

pub open spec fn js_access_date(m: FileRecordV) -> Seq<char> {
    ",\n  \"access_date\": \""@ + (escape(m.access_date) + js_modify(m))
}

pub open spec fn js_sympolic(m: FileRecordV) -> Seq<char> {
    "\",\n  \"sympolic\": "@ + (bool_label(m.sympolic) + js_access_date(m))
}

pub open spec fn js_gid(m: FileRecordV) -> Seq<char> {
    "\",\n  \"gid\": \""@ + (escape(m.gid) + js_sympolic(m))
}

pub open spec fn js_uid(m: FileRecordV) -> Seq<char> {
    "\",\n  \"uid\": \""@ + (escape(m.uid) + js_gid(m))
}

pub open spec fn js_access(m: FileRecordV) -> Seq<char> {
    ",\n  \"access\": \""@ + (escape(m.access) + js_uid(m))
}

pub open spec fn js_links(m: FileRecordV) -> Seq<char> {
    ",\n  \"links\": "@ + (dec_str(m.links as nat) + js_access(m))
}

pub open spec fn js_inod(m: FileRecordV) -> Seq<char> {
    "\",\n  \"inod\": "@ + (dec_str(m.inod as nat) + js_links(m))
}

pub open spec fn js_entry(m: FileRecordV) -> Seq<char> {
    ",\n  \"entry_type\": \""@ + (entry_label(m.entry_type) + js_inod(m))
}

pub open spec fn js_devices(m: FileRecordV) -> Seq<char> {
    ",\n  \"devices\": "@ + (dec_str(m.devices as nat) + js_entry(m))
}

pub open spec fn js_io_block(m: FileRecordV) -> Seq<char> {
    ",\n  \"io_block\": "@ + (dec_str(m.io_block as nat) + js_devices(m))
}

pub open spec fn js_blocks(m: FileRecordV) -> Seq<char> {
    ",\n  \"blocks\": "@ + (dec_str(m.blocks as nat) + js_io_block(m))
}

pub open spec fn js_size(m: FileRecordV) -> Seq<char> {
    "\",\n  \"size\": "@ + (dec_str(m.size as nat) + js_blocks(m))
}

/// The whole structured document for a record.
pub open spec fn json_of(m: FileRecordV) -> Seq<char> {
    "{\n  \"name\": \""@ + (escape(m.name) + js_size(m))
}

/// What reading one boolean at position `i` yields.
pub open spec fn sp_bool(s: Seq<char>, i: nat) -> Option<(bool, nat)> {
    if sp_lit(s, i, "true"@) is Some {
        Some((true, sp_lit(s, i, "true"@)->0))
    } else if sp_lit(s, i, "false"@) is Some {
        Some((false, sp_lit(s, i, "false"@)->0))
    } else {
        None
    }
}

/// What reading one entry-type label at position `i` yields.
pub open spec fn sp_entry(s: Seq<char>, i: nat) -> Option<(EntryType, nat)> {
    if sp_lit(s, i, "Dir"@) is Some {
        Some((EntryType::Dir, sp_lit(s, i, "Dir"@)->0))
    } else if sp_lit(s, i, "File"@) is Some {
        Some((EntryType::File, sp_lit(s, i, "File"@)->0))
    } else {
        None
    }
}

/// The loose parse of a structured document: the record it describes and
/// the end position, or nothing where the shape does not fit.
pub open spec fn sp_record(s: Seq<char>) -> Option<(FileRecordV, nat)> {
    match sp_lit(s, 0, "{\n  \"name\": \""@) {
        None => None,
        Some(i1) => match sp_string(s, i1) {
            None => None,
            Some((name, q1)) => match sp_lit(s, q1, "\",\n  \"size\": "@) {
                None => None,
                Some(i2) => match sp_u64(s, i2) {
                    None => None,
                    Some((size, p2)) => match sp_lit(s, p2, ",\n  \"blocks\": "@) {
                        None => None,
                        Some(i3) => match sp_u64(s, i3) {
                            None => None,
                            Some((blocks, p3)) => match sp_lit(s, p3, ",\n  \"io_block\": "@) {
                                None => None,
                                Some(i4) => match sp_u64(s, i4) {
                                    None => None,
                                    Some((io_block, p4)) => sp_record_devices(
                                        s,
                                        p4,
                                        name,
                                        size,
                                        blocks,
                                        io_block,
                                    ),
                                },
                            },
                        },
                    },
                },
            },
        },
    }
}

pub open spec fn sp_record_devices(
    s: Seq<char>,
    p: nat,
    name: Seq<char>,
    size: u64,
    blocks: u64,
    io_block: u64,
) -> Option<(FileRecordV, nat)> {
    match sp_lit(s, p, ",\n  \"devices\": "@) {
        None => None,
        Some(i5) => match sp_u64(s, i5) {
            None => None,
            Some((devices, p5)) => match sp_lit(s, p5, ",\n  \"entry_type\": \""@) {
                None => None,
                Some(i6) => match sp_entry(s, i6) {
                    None => None,
                    Some((entry, p6)) => match sp_lit(s, p6, "\",\n  \"inod\": "@) {
                        None => None,
                        Some(i7) => match sp_u64(s, i7) {
                            None => None,
                            Some((inod, p7)) => match sp_lit(s, p7, ",\n  \"links\": "@) {
                                None => None,
                                Some(i8) => match sp_u64(s, i8) {
                                    None => None,
                                    Some((links, p8)) => sp_record_access(
                                        s,
                                        p8,
                                        FileRecordV {
                                            name,
                                            size,
                                            blocks,
                                            io_block,
                                            devices,
                                            entry_type: entry,
                                            inod,
                                            links,
                                            access: Seq::empty(),
                                            uid: Seq::empty(),
                                            gid: Seq::empty(),
                                            sympolic: false,
                                            access_date: Seq::empty(),
                                            modify_date: Seq::empty(),
                                            change_data: Seq::empty(),
                                            birth: Seq::empty(),
                                            file_type: Seq::empty(),
                                        },
                                    ),
                                },
                            },
                        },
                    },
                },
            },
        },
    }
}

pub open spec fn sp_record_access(s: Seq<char>, p: nat, m0: FileRecordV) -> Option<
    (FileRecordV, nat),
> {
    match sp_lit(s, p, ",\n  \"access\": \""@) {
        None => None,
        Some(i9) => match sp_string(s, i9) {
            None => None,
            Some((access, q9)) => match sp_lit(s, q9, "\",\n  \"uid\": \""@) {
                None => None,
                Some(i10) => match sp_string(s, i10) {
                    None => None,
                    Some((uid, q10)) => match sp_lit(s, q10, "\",\n  \"gid\": \""@) {
                        None => None,
                        Some(i11) => match sp_string(s, i11) {
                            None => None,
                            Some((gid, q11)) => match sp_lit(s, q11, "\",\n  \"sympolic\": "@) {
                                None => None,
                                Some(i12) => match sp_bool(s, i12) {
                                    None => None,
                                    Some((symp, p12)) => sp_record_dates(
                                        s,
                                        p12,
                                        FileRecordV { access, uid, gid, sympolic: symp, ..m0 },
                                    ),
                                },
                            },
                        },
                    },
                },
            },
        },
    }
}

pub open spec fn sp_record_dates(s: Seq<char>, p: nat, m0: FileRecordV) -> Option<
    (FileRecordV, nat),
> {
    match sp_lit(s, p, ",\n  \"access_date\": \""@) {
        None => None,
        Some(i13) => match sp_string(s, i13) {
            None => None,
            Some((adate, q13)) => match sp_lit(s, q13, "\",\n  \"modify_date\": \""@) {
                None => None,
                Some(i14) => match sp_string(s, i14) {
                    None => None,
                    Some((mdate, q14)) => match sp_lit(s, q14, "\",\n  \"change_data\": \""@) {
                        None => None,
                        Some(i15) => match sp_string(s, i15) {
                            None => None,
                            Some((cdate, q15)) => match sp_lit(s, q15, "\",\n  \"birth\": \""@) {
                                None => None,
                                Some(i16) => match sp_string(s, i16) {
                                    None => None,
                                    Some((bdate, q16)) => match sp_lit(
                                        s,
                                        q16,
                                        "\",\n  \"file_type\": \""@,
                                    ) {
                                        None => None,
                                        Some(i17) => match sp_string(s, i17) {
                                            None => None,
                                            Some((ftype, q17)) => match sp_lit(
                                                s,
                                                q17,
                                                "\"\n}"@,
                                            ) {
                                                None => None,
                                                Some(end) => Some(
                                                    (
                                                        FileRecordV {
                                                            access_date: adate,
                                                            modify_date: mdate,
                                                            change_data: cdate,
                                                            birth: bdate,
                                                            file_type: ftype,
                                                            ..m0
                                                        },
                                                        end,
                                                    ),
                                                ),
                                            },
                                        },
                                    },
                                },
                            },
                        },
                    },
                },
            },
        },
    }
}

/// The strict parse: the loose parse must succeed and re-rendering the
/// record it found must give back the input unchanged.
pub open spec fn sp_json_parse(s: Seq<char>) -> Option<FileRecordV> {
    match sp_record(s) {
        Some(p) => if json_of(p.0) == s {
            Some(p.0)
        } else {
            None
        },
        None => None,
    }
}

impl FileRecord {
    /// Render the record as the structured (JSON) document.
    pub fn render_json(&self) -> (s: String)
        ensures
            s@ == json_of(self@),
    {
        let t17 = "\"\n}";
        let ftype = escape_string(self.file_type.as_str());
        let t16 = cat3("\",\n  \"file_type\": \"", ftype.as_str(), t17);
        let bdate = escape_string(self.birth.as_str());
        let t15 = cat3("\",\n  \"birth\": \"", bdate.as_str(), t16.as_str());
        let cdate = escape_string(self.change_data.as_str());
        let t14 = cat3("\",\n  \"change_data\": \"", cdate.as_str(), t15.as_str());
        let mdate = escape_string(self.modify_date.as_str());
        let t13 = cat3("\",\n  \"modify_date\": \"", mdate.as_str(), t14.as_str());
        let adate = escape_string(self.access_date.as_str());
        let t12 = cat3(",\n  \"access_date\": \"", adate.as_str(), t13.as_str());
        let t11 = cat3("\",\n  \"sympolic\": ", bool_str(self.sympolic), t12.as_str());
        let gid = escape_string(self.gid.as_str());
        let t10 = cat3("\",\n  \"gid\": \"", gid.as_str(), t11.as_str());
        let uid = escape_string(self.uid.as_str());
        let t9 = cat3("\",\n  \"uid\": \"", uid.as_str(), t10.as_str());
        let access = escape_string(self.access.as_str());
        let t8 = cat3(",\n  \"access\": \"", access.as_str(), t9.as_str());
        let links = u64_to_string(self.links);
        let t7 = cat3(",\n  \"links\": ", links.as_str(), t8.as_str());
        let inod = u64_to_string(self.inod);
        let t6 = cat3("\",\n  \"inod\": ", inod.as_str(), t7.as_str());
        let t5 = cat3(",\n  \"entry_type\": \"", entry_str(self.entry_type), t6.as_str());
        let devices = u64_to_string(self.devices);
        let t4 = cat3(",\n  \"devices\": ", devices.as_str(), t5.as_str());
        let io_block = u64_to_string(self.io_block);
        let t3 = cat3(",\n  \"io_block\": ", io_block.as_str(), t4.as_str());
        let blocks = u64_to_string(self.blocks);
        let t2 = cat3(",\n  \"blocks\": ", blocks.as_str(), t3.as_str());
        let size = u64_to_string(self.size);
        let t1 = cat3("\",\n  \"size\": ", size.as_str(), t2.as_str());
        let name = escape_string(self.name.as_str());
        cat3("{\n  \"name\": \"", name.as_str(), t1.as_str())
    }
}

pub proof fn lemma_lit_step(s: Seq<char>, i: nat, lit: Seq<char>, rest: Seq<char>)
    requires
        i <= s.len(),
        s.skip(i as int) == lit + rest,
    ensures
        i + lit.len() <= s.len(),
        sp_lit(s, i, lit) == Some((i + lit.len()) as nat),
        s.skip((i + lit.len()) as int) == rest,
{
    assert(s.skip(i as int).len() == s.len() - i);
    assert forall|k: int| 0 <= k < lit.len() implies s.subrange(
        i as int,
        (i + lit.len()) as int,
    )[k] == lit[k] by {
        assert(s.skip(i as int)[k] == s[i + k]);
        assert((lit + rest)[k] == lit[k]);
        assert(s.subrange(i as int, (i + lit.len()) as int)[k] == s[i + k]);
    }
    assert(s.subrange(i as int, (i + lit.len()) as int) =~= lit);
    lemma_skip_shift(s, i, lit, rest);
}

pub proof fn lemma_str_step(s: Seq<char>, i: nat, x: Seq<char>, rest: Seq<char>)
    requires
        i <= s.len(),
        s.skip(i as int) == escape(x) + rest,
        rest.len() > 0,
        rest[0] == '"',
    ensures
        i + escape(x).len() < s.len(),
        sp_string(s, i) == Some((x, (i + escape(x).len()) as nat)),
        s.skip((i + escape(x).len()) as int) == rest,
{
    lemma_scan_quote_of(s, i, x, rest);
    let q: nat = i + escape(x).len();
    assert(s.skip(i as int).len() == s.len() - i);
    assert forall|k: int| 0 <= k < escape(x).len() implies s.subrange(i as int, q as int)[k]
        == escape(x)[k] by {
        assert(s.skip(i as int)[k] == s[i + k]);
        assert((escape(x) + rest)[k] == escape(x)[k]);
        assert(s.subrange(i as int, q as int)[k] == s[i + k]);
    }
    assert(s.subrange(i as int, q as int) =~= escape(x));
    lemma_unescape_escape(x);
    assert(unescape(s.subrange(i as int, q as int)) == Some(x));
    lemma_skip_shift(s, i, escape(x), rest);
}

pub proof fn lemma_num_step(s: Seq<char>, i: nat, v: u64, rest: Seq<char>)
    requires
        i <= s.len(),
        s.skip(i as int) == dec_str(v as nat) + rest,
        rest.len() > 0,
        !crate::numfmt::is_dec_digit(rest[0]),
    ensures
        i + dec_str(v as nat).len() < s.len(),
        sp_u64(s, i) == Some((v, (i + dec_str(v as nat).len()) as nat)),
        s.skip((i + dec_str(v as nat).len()) as int) == rest,
{
    let d = dec_str(v as nat);
    lemma_dec_str_digits(v as nat);
    assert(s.skip(i as int).len() == s.len() - i);
    let j: nat = i + d.len();
    assert forall|k: int| 0 <= k < d.len() implies s.subrange(i as int, j as int)[k] == d[k] by {
        assert(s.skip(i as int)[k] == s[i + k]);
        assert((d + rest)[k] == d[k]);
        assert(s.subrange(i as int, j as int)[k] == s[i + k]);
    }
    assert(s.subrange(i as int, j as int) =~= d);
    assert(s[j as int] == s.skip(i as int)[d.len() as int]);
    assert(s[j as int] == rest[0]);
    lemma_digits_end_of(s, i, d);
    lemma_dec_val_of_dec_str(v as nat);
    lemma_skip_shift(s, i, d, rest);
}

pub proof fn lemma_bool_step(s: Seq<char>, i: nat, b: bool, rest: Seq<char>)
    requires
        i <= s.len(),
        s.skip(i as int) == bool_label(b) + rest,
    ensures
        i + bool_label(b).len() <= s.len(),
        sp_bool(s, i) == Some((b, (i + bool_label(b).len()) as nat)),
        s.skip((i + bool_label(b).len()) as int) == rest,
{
    reveal_strlit("true");
    reveal_strlit("false");
    if b {
        lemma_lit_step(s, i, "true"@, rest);
    } else {
        lemma_lit_step(s, i, "false"@, rest);
        if i + "true"@.len() <= s.len() && s.subrange(i as int, (i + "true"@.len()) as int)
            == "true"@ {
            assert(s[i as int] == s.subrange(i as int, (i + "true"@.len()) as int)[0]);
            assert(s[i as int] == 't');
            assert(s.skip(i as int)[0] == ("false"@ + rest)[0]);
            assert(s[i as int] == 'f');
            assert(false);
        }
    }
}

pub proof fn lemma_entry_step(s: Seq<char>, i: nat, t: EntryType, rest: Seq<char>)
    requires
        i <= s.len(),
        s.skip(i as int) == entry_label(t) + rest,
    ensures
        i + entry_label(t).len() <= s.len(),
        sp_entry(s, i) == Some((t, (i + entry_label(t).len()) as nat)),
        s.skip((i + entry_label(t).len()) as int) == rest,
{
    reveal_strlit("Dir");
    reveal_strlit("File");
    match t {
        EntryType::Dir => {
            lemma_lit_step(s, i, "Dir"@, rest);
        },
        EntryType::File => {
            lemma_lit_step(s, i, "File"@, rest);
            if i + "Dir"@.len() <= s.len() && s.subrange(i as int, (i + "Dir"@.len()) as int)
                == "Dir"@ {
                assert(s[i as int] == s.subrange(i as int, (i + "Dir"@.len()) as int)[0]);
                assert(s[i as int] == 'D');
                assert(s.skip(i as int)[0] == ("File"@ + rest)[0]);
                assert(s[i as int] == 'F');
                assert(false);
            }
        },
    }
}

pub proof fn lemma_parse_dates_of(s: Seq<char>, p: nat, m: FileRecordV, m0: FileRecordV)
    requires
        p <= s.len(),
        s.skip(p as int) == js_access_date(m),
    ensures
        sp_record_dates(s, p, m0) == Some(
            (
                FileRecordV {
                    access_date: m.access_date,
                    modify_date: m.modify_date,
                    change_data: m.change_data,
                    birth: m.birth,
                    file_type: m.file_type,
                    ..m0
                },
                s.len() as nat,
            ),
        ),
{
    reveal_strlit(",\n  \"access_date\": \"");
    reveal_strlit("\",\n  \"modify_date\": \"");
    reveal_strlit("\",\n  \"change_data\": \"");
    reveal_strlit("\",\n  \"birth\": \"");
    reveal_strlit("\",\n  \"file_type\": \"");
    reveal_strlit("\"\n}");
    lemma_lit_step(s, p, ",\n  \"access_date\": \""@, escape(m.access_date) + js_modify(m));
    let i13: nat = p + ",\n  \"access_date\": \""@.len();
    assert(js_modify(m)[0] == '"');
    lemma_str_step(s, i13, m.access_date, js_modify(m));
    let q13: nat = i13 + escape(m.access_date).len();
    lemma_lit_step(s, q13, "\",\n  \"modify_date\": \""@, escape(m.modify_date) + js_change(m));
    let i14: nat = q13 + "\",\n  \"modify_date\": \""@.len();
    assert(js_change(m)[0] == '"');
    lemma_str_step(s, i14, m.modify_date, js_change(m));
    let q14: nat = i14 + escape(m.modify_date).len();
    lemma_lit_step(s, q14, "\",\n  \"change_data\": \""@, escape(m.change_data) + js_birth(m));
    let i15: nat = q14 + "\",\n  \"change_data\": \""@.len();
    assert(js_birth(m)[0] == '"');
    lemma_str_step(s, i15, m.change_data, js_birth(m));
    let q15: nat = i15 + escape(m.change_data).len();
    lemma_lit_step(s, q15, "\",\n  \"birth\": \""@, escape(m.birth) + js_file_type(m));
    let i16: nat = q15 + "\",\n  \"birth\": \""@.len();
    assert(js_file_type(m)[0] == '"');
    lemma_str_step(s, i16, m.birth, js_file_type(m));
    let q16: nat = i16 + escape(m.birth).len();
    lemma_lit_step(s, q16, "\",\n  \"file_type\": \""@, escape(m.file_type) + js_end());
    let i17: nat = q16 + "\",\n  \"file_type\": \""@.len();
    assert(js_end()[0] == '"');
    lemma_str_step(s, i17, m.file_type, js_end());
    let q17: nat = i17 + escape(m.file_type).len();
    assert(s.skip(q17 as int) == "\"\n}"@ + Seq::<char>::empty()) by {
        assert("\"\n}"@ + Seq::<char>::empty() =~= js_end());
    }
    lemma_lit_step(s, q17, "\"\n}"@, Seq::<char>::empty());
    let end: nat = q17 + "\"\n}"@.len();
    assert(s.skip(end as int).len() == 0);
    assert(end == s.len());
}

pub proof fn lemma_parse_access_of(s: Seq<char>, p: nat, m: FileRecordV, m0: FileRecordV)
    requires
        p <= s.len(),
        s.skip(p as int) == js_access(m),
    ensures
        sp_record_access(s, p, m0) == Some(
            (
                FileRecordV {
                    access: m.access,
                    uid: m.uid,
                    gid: m.gid,
                    sympolic: m.sympolic,
                    access_date: m.access_date,
                    modify_date: m.modify_date,
                    change_data: m.change_data,
                    birth: m.birth,
                    file_type: m.file_type,
                    ..m0
                },
                s.len() as nat,
            ),
        ),
{
    reveal_strlit(",\n  \"access\": \"");
    reveal_strlit("\",\n  \"uid\": \"");
    reveal_strlit("\",\n  \"gid\": \"");
    reveal_strlit("\",\n  \"sympolic\": ");
    lemma_lit_step(s, p, ",\n  \"access\": \""@, escape(m.access) + js_uid(m));
    let i9: nat = p + ",\n  \"access\": \""@.len();
    assert(js_uid(m)[0] == '"');
    lemma_str_step(s, i9, m.access, js_uid(m));
    let q9: nat = i9 + escape(m.access).len();
    lemma_lit_step(s, q9, "\",\n  \"uid\": \""@, escape(m.uid) + js_gid(m));
    let i10: nat = q9 + "\",\n  \"uid\": \""@.len();
    assert(js_gid(m)[0] == '"');
    lemma_str_step(s, i10, m.uid, js_gid(m));
    let q10: nat = i10 + escape(m.uid).len();
    lemma_lit_step(s, q10, "\",\n  \"gid\": \""@, escape(m.gid) + js_sympolic(m));
    let i11: nat = q10 + "\",\n  \"gid\": \""@.len();
    assert(js_sympolic(m)[0] == '"');
    lemma_str_step(s, i11, m.gid, js_sympolic(m));
    let q11: nat = i11 + escape(m.gid).len();
    lemma_lit_step(s, q11, "\",\n  \"sympolic\": "@, bool_label(m.sympolic) + js_access_date(m));
    let i12: nat = q11 + "\",\n  \"sympolic\": "@.len();
    lemma_bool_step(s, i12, m.sympolic, js_access_date(m));
    let p12: nat = i12 + bool_label(m.sympolic).len();
    let m1 = FileRecordV { access: m.access, uid: m.uid, gid: m.gid, sympolic: m.sympolic, ..m0 };
    lemma_parse_dates_of(s, p12, m, m1);
}

pub proof fn lemma_parse_devices_of(s: Seq<char>, p: nat, m: FileRecordV)
    requires
        p <= s.len(),
        s.skip(p as int) == js_devices(m),
    ensures
        sp_record_devices(s, p, m.name, m.size, m.blocks, m.io_block) == Some(
            (m, s.len() as nat),
        ),
{
    reveal_strlit(",\n  \"devices\": ");
    reveal_strlit(",\n  \"entry_type\": \"");
    reveal_strlit("\",\n  \"inod\": ");
    reveal_strlit(",\n  \"links\": ");
    reveal_strlit(",\n  \"access\": \"");
    lemma_lit_step(s, p, ",\n  \"devices\": "@, dec_str(m.devices as nat) + js_entry(m));
    let i5: nat = p + ",\n  \"devices\": "@.len();
    assert(js_entry(m)[0] == ',');
    lemma_num_step(s, i5, m.devices, js_entry(m));
    let p5: nat = i5 + dec_str(m.devices as nat).len();
    lemma_lit_step(s, p5, ",\n  \"entry_type\": \""@, entry_label(m.entry_type) + js_inod(m));
    let i6: nat = p5 + ",\n  \"entry_type\": \""@.len();
    lemma_entry_step(s, i6, m.entry_type, js_inod(m));
    let p6: nat = i6 + entry_label(m.entry_type).len();
    lemma_lit_step(s, p6, "\",\n  \"inod\": "@, dec_str(m.inod as nat) + js_links(m));
    let i7: nat = p6 + "\",\n  \"inod\": "@.len();
    assert(js_links(m)[0] == ',');
    lemma_num_step(s, i7, m.inod, js_links(m));
    let p7: nat = i7 + dec_str(m.inod as nat).len();
    lemma_lit_step(s, p7, ",\n  \"links\": "@, dec_str(m.links as nat) + js_access(m));
    let i8: nat = p7 + ",\n  \"links\": "@.len();
    assert(js_access(m)[0] == ',');
    lemma_num_step(s, i8, m.links, js_access(m));
    let p8: nat = i8 + dec_str(m.links as nat).len();
    let m0 = FileRecordV {
        name: m.name,
        size: m.size,
        blocks: m.blocks,
        io_block: m.io_block,
        devices: m.devices,
        entry_type: m.entry_type,
        inod: m.inod,
        links: m.links,
        access: Seq::empty(),
        uid: Seq::empty(),
        gid: Seq::empty(),
        sympolic: false,
        access_date: Seq::empty(),
        modify_date: Seq::empty(),
        change_data: Seq::empty(),
        birth: Seq::empty(),
        file_type: Seq::empty(),
    };
    lemma_parse_access_of(s, p8, m, m0);
}

/// The structured round trip is lossless: parsing the rendered document of
/// any record gives back exactly that record.
pub proof fn lemma_parse_of_json(m: FileRecordV)
    ensures
        sp_json_parse(json_of(m)) == Some(m),
{
    let s = json_of(m);
    reveal_strlit("{\n  \"name\": \"");
    reveal_strlit("\",\n  \"size\": ");
    reveal_strlit(",\n  \"blocks\": ");
    reveal_strlit(",\n  \"io_block\": ");
    reveal_strlit(",\n  \"devices\": ");
    assert(s.skip(0) =~= s);
    lemma_lit_step(s, 0, "{\n  \"name\": \""@, escape(m.name) + js_size(m));
    let i1: nat = "{\n  \"name\": \""@.len();
    assert(js_size(m)[0] == '"');
    lemma_str_step(s, i1, m.name, js_size(m));
    let q1: nat = i1 + escape(m.name).len();
    lemma_lit_step(s, q1, "\",\n  \"size\": "@, dec_str(m.size as nat) + js_blocks(m));
    let i2: nat = q1 + "\",\n  \"size\": "@.len();
    assert(js_blocks(m)[0] == ',');
    lemma_num_step(s, i2, m.size, js_blocks(m));
    let p2: nat = i2 + dec_str(m.size as nat).len();
    lemma_lit_step(s, p2, ",\n  \"blocks\": "@, dec_str(m.blocks as nat) + js_io_block(m));
    let i3: nat = p2 + ",\n  \"blocks\": "@.len();
    assert(js_io_block(m)[0] == ',');
    lemma_num_step(s, i3, m.blocks, js_io_block(m));
    let p3: nat = i3 + dec_str(m.blocks as nat).len();
    lemma_lit_step(s, p3, ",\n  \"io_block\": "@, dec_str(m.io_block as nat) + js_devices(m));
    let i4: nat = p3 + ",\n  \"io_block\": "@.len();
    assert(js_devices(m)[0] == ',');
    lemma_num_step(s, i4, m.io_block, js_devices(m));
    let p4: nat = i4 + dec_str(m.io_block as nat).len();
    lemma_parse_devices_of(s, p4, m);
    assert(sp_record(s) == Some((m, s.len() as nat)));
    assert(sp_json_parse(s) == Some(m));
}

impl FileRecord {
    /// Parse a structured document back into a record.  It returns a record
    /// exactly when the input is the rendered document of one, and then
    /// returns that record: the inverse of [`FileRecord::render_json`].
    pub fn from_json(s: &String) -> (r: Option<FileRecord>)
        ensures
            match sp_json_parse(s@) {
                Some(m) => r is Some && r->0@ == m,
                None => r is None,
            },
            r is Some ==> json_of(r->0@) == s@,
    {
        let st = s.as_str();
        let (name, size, blocks, io_block, p4) = match parse_head(st) {
            Some(t) => t,
            None => {
                return None;
            },
        };
        let ghost gname = name@;
        let (devices, entry, inod, links, p8) = match parse_mid(
            st,
            p4,
            Ghost(gname),
            Ghost(size),
            Ghost(blocks),
            Ghost(io_block),
        ) {
            Some(t) => t,
            None => {
                return None;
            },
        };
        let ghost m0 = FileRecordV {
            name: gname,
            size,
            blocks,
            io_block,
            devices,
            entry_type: entry,
            inod,
            links,
            access: Seq::empty(),
            uid: Seq::empty(),
            gid: Seq::empty(),
            sympolic: false,
            access_date: Seq::empty(),
            modify_date: Seq::empty(),
            change_data: Seq::empty(),
            birth: Seq::empty(),
            file_type: Seq::empty(),
        };
        let (access, uid, gid, symp, p12) = match parse_strs(st, p8, Ghost(m0)) {
            Some(t) => t,
            None => {
                return None;
            },
        };
        let ghost m1 = FileRecordV {
            access: access@,
            uid: uid@,
            gid: gid@,
            sympolic: symp,
            ..m0
        };
        let (adate, mdate, cdate, bdate, ftype, _end) = match parse_dates(st, p12, Ghost(m1)) {
            Some(t) => t,
            None => {
                return None;
            },
        };
        let ghost mfin = FileRecordV {
            access_date: adate@,
            modify_date: mdate@,
            change_data: cdate@,
            birth: bdate@,
            file_type: ftype@,
            ..m1
        };
        let rec = FileRecord {
            name,
            size,
            blocks,
            io_block,
            devices,
            entry_type: entry,
            inod,
            links,
            access,
            uid,
            gid,
            sympolic: symp,
            access_date: adate,
            modify_date: mdate,
            change_data: cdate,
            birth: bdate,
            file_type: ftype,
        };
        proof {
            assert(sp_record(s@) is Some);
            assert(sp_record(s@).unwrap().0 == rec@);
        }
        let enc = rec.render_json();
        if enc.eq(s) {
            Some(rec)
        } else {
            None
        }
    }
}

/// Read the opening brace, the name, and the first three numeric fields.
fn parse_head(s: &str) -> (r: Option<(String, u64, u64, u64, usize)>)
    ensures
        match r {
            Some(t) => t.4 <= s@.len() && sp_record(s@) == sp_record_devices(
                s@,
                t.4 as nat,
                t.0@,
                t.1,
                t.2,
                t.3,
            ),
            None => sp_record(s@) is None,
        },
{
    let i1 = match eat_lit(s, 0, "{\n  \"name\": \"") {
        Some(j) => j,
        None => {
            return None;
        },
    };
    let (name, q1) = match parse_string(s, i1) {
        Some(p) => p,
        None => {
            return None;
        },
    };
    let i2 = match eat_lit(s, q1, "\",\n  \"size\": ") {
        Some(j) => j,
        None => {
            return None;
        },
    };
    let (size, p2) = match scan_u64(s, i2) {
        Some(p) => p,
        None => {
            return None;
        },
    };
    let i3 = match eat_lit(s, p2, ",\n  \"blocks\": ") {
        Some(j) => j,
        None => {
            return None;
        },
    };
    let (blocks, p3) = match scan_u64(s, i3) {
        Some(p) => p,
        None => {
            return None;
        },
    };
    let i4 = match eat_lit(s, p3, ",\n  \"io_block\": ") {
        Some(j) => j,
        None => {
            return None;
        },
    };
    let (io_block, p4) = match scan_u64(s, i4) {
        Some(p) => p,
        None => {
            return None;
        },
    };
    Some((name, size, blocks, io_block, p4))
}

/// Read the middle numeric fields and the entry-type label.
fn parse_mid(
    s: &str,
    p: usize,
    Ghost(gname): Ghost<Seq<char>>,
    Ghost(gsize): Ghost<u64>,
    Ghost(gblocks): Ghost<u64>,
    Ghost(gio): Ghost<u64>,
) -> (r: Option<(u64, EntryType, u64, u64, usize)>)
    requires
        p <= s@.len(),
    ensures
        match r {
            Some(t) => t.4 <= s@.len() && sp_record_devices(s@, p as nat, gname, gsize, gblocks, gio)
                == sp_record_access(
                s@,
                t.4 as nat,
                FileRecordV {
                    name: gname,
                    size: gsize,
                    blocks: gblocks,
                    io_block: gio,
                    devices: t.0,
                    entry_type: t.1,
                    inod: t.2,
                    links: t.3,
                    access: Seq::empty(),
                    uid: Seq::empty(),
                    gid: Seq::empty(),
                    sympolic: false,
                    access_date: Seq::empty(),
                    modify_date: Seq::empty(),
                    change_data: Seq::empty(),
                    birth: Seq::empty(),
                    file_type: Seq::empty(),
                },
            ),
            None => sp_record_devices(s@, p as nat, gname, gsize, gblocks, gio) is None,
        },
{
    let i5 = match eat_lit(s, p, ",\n  \"devices\": ") {
        Some(j) => j,
        None => {
            return None;
        },
    };
    let (devices, p5) = match scan_u64(s, i5) {
        Some(t) => t,
        None => {
            return None;
        },
    };
    let i6 = match eat_lit(s, p5, ",\n  \"entry_type\": \"") {
        Some(j) => j,
        None => {
            return None;
        },
    };
    let (entry, p6) = match parse_entry(s, i6) {
        Some(t) => t,
        None => {
            return None;
        },
    };
    let i7 = match eat_lit(s, p6, "\",\n  \"inod\": ") {
        Some(j) => j,
        None => {
            return None;
        },
    };
    let (inod, p7) = match scan_u64(s, i7) {
        Some(t) => t,
        None => {
            return None;
        },
    };
    let i8 = match eat_lit(s, p7, ",\n  \"links\": ") {
        Some(j) => j,
        None => {
            return None;
        },
    };
    let (links, p8) = match scan_u64(s, i8) {
        Some(t) => t,
        None => {
            return None;
        },
    };
    Some((devices, entry, inod, links, p8))
}

/// Read the ownership strings and the symbolic-link flag.
fn parse_strs(s: &str, p: usize, Ghost(m0): Ghost<FileRecordV>) -> (r: Option<
    (String, String, String, bool, usize),
>)
    requires
        p <= s@.len(),
    ensures
        match r {
            Some(t) => t.4 <= s@.len() && sp_record_access(s@, p as nat, m0) == sp_record_dates(
                s@,
                t.4 as nat,
                FileRecordV { access: t.0@, uid: t.1@, gid: t.2@, sympolic: t.3, ..m0 },
            ),
            None => sp_record_access(s@, p as nat, m0) is None,
        },
{
    let i9 = match eat_lit(s, p, ",\n  \"access\": \"") {
        Some(j) => j,
        None => {
            return None;
        },
    };
    let (access, q9) = match parse_string(s, i9) {
        Some(t) => t,
        None => {
            return None;
        },
    };
    let i10 = match eat_lit(s, q9, "\",\n  \"uid\": \"") {
        Some(j) => j,
        None => {
            return None;
        },
    };
    let (uid, q10) = match parse_string(s, i10) {
        Some(t) => t,
        None => {
            return None;
        },
    };
    let i11 = match eat_lit(s, q10, "\",\n  \"gid\": \"") {
        Some(j) => j,
        None => {
            return None;
        },
    };
    let (gid, q11) = match parse_string(s, i11) {
        Some(t) => t,
        None => {
            return None;
        },
    };
    let i12 = match eat_lit(s, q11, "\",\n  \"sympolic\": ") {
        Some(j) => j,
        None => {
            return None;
        },
    };
    let (symp, p12) = match parse_bool(s, i12) {
        Some(t) => t,
        None => {
            return None;
        },
    };
    Some((access, uid, gid, symp, p12))
}

/// Read the four date strings, the content label, and the closing brace.
fn parse_dates(s: &str, p: usize, Ghost(m0): Ghost<FileRecordV>) -> (r: Option<
    (String, String, String, String, String, usize),
>)
    requires
        p <= s@.len(),
    ensures
        match r {
            Some(t) => sp_record_dates(s@, p as nat, m0) == Some(
                (
                    FileRecordV {
                        access_date: t.0@,
                        modify_date: t.1@,
                        change_data: t.2@,
                        birth: t.3@,
                        file_type: t.4@,
                        ..m0
                    },
                    t.5 as nat,
                ),
            ),
            None => sp_record_dates(s@, p as nat, m0) is None,
        },
{
    let i13 = match eat_lit(s, p, ",\n  \"access_date\": \"") {
        Some(j) => j,
        None => {
            return None;
        },
    };
    let (adate, q13) = match parse_string(s, i13) {
        Some(t) => t,
        None => {
            return None;
        },
    };
    let i14 = match eat_lit(s, q13, "\",\n  \"modify_date\": \"") {
        Some(j) => j,
        None => {
            return None;
        },
    };
    let (mdate, q14) = match parse_string(s, i14) {
        Some(t) => t,
        None => {
            return None;
        },
    };
    let i15 = match eat_lit(s, q14, "\",\n  \"change_data\": \"") {
        Some(j) => j,
        None => {
            return None;
        },
    };
    let (cdate, q15) = match parse_string(s, i15) {
        Some(t) => t,
        None => {
            return None;
        },
    };
    let i16 = match eat_lit(s, q15, "\",\n  \"birth\": \"") {
        Some(j) => j,
        None => {
            return None;
        },
    };
    let (bdate, q16) = match parse_string(s, i16) {
        Some(t) => t,
        None => {
            return None;
        },
    };
    let i17 = match eat_lit(s, q16, "\",\n  \"file_type\": \"") {
        Some(j) => j,
        None => {
            return None;
        },
    };
    let (ftype, q17) = match parse_string(s, i17) {
        Some(t) => t,
        None => {
            return None;
        },
    };
    let end = match eat_lit(s, q17, "\"\n}") {
        Some(j) => j,
        None => {
            return None;
        },
    };
    Some((adate, mdate, cdate, bdate, ftype, end))
}


/// Read one entry-type label, refining [`sp_entry`].
fn parse_entry(s: &str, i: usize) -> (r: Option<(EntryType, usize)>)
    requires
        i <= s@.len(),
    ensures
        match r {
            Some(p) => sp_entry(s@, i as nat) == Some((p.0, p.1 as nat)) && i <= p.1 <= s@.len(),
            None => sp_entry(s@, i as nat) is None,
        },
{
    match eat_lit(s, i, "Dir") {
        Some(j) => Some((EntryType::Dir, j)),
        None => match eat_lit(s, i, "File") {
            Some(j) => Some((EntryType::File, j)),
            None => None,
        },
    }
}

/// Read one boolean label, refining [`sp_bool`].
fn parse_bool(s: &str, i: usize) -> (r: Option<(bool, usize)>)
    requires
        i <= s@.len(),
    ensures
        match r {
            Some(p) => sp_bool(s@, i as nat) == Some((p.0, p.1 as nat)) && i <= p.1 <= s@.len(),
            None => sp_bool(s@, i as nat) is None,
        },
{
    match eat_lit(s, i, "true") {
        Some(j) => Some((true, j)),
        None => match eat_lit(s, i, "false") {
            Some(j) => Some((false, j)),
            None => None,
        },
    }
}


/// Every field value of the record appears, in its escaped or decimal
/// encoding, somewhere in the structured document: no field is dropped.
pub proof fn lemma_json_lists_fields(m: FileRecordV)
    ensures
        appears(json_of(m), escape(m.name)),
        appears(json_of(m), dec_str(m.size as nat)),
        appears(json_of(m), dec_str(m.blocks as nat)),
        appears(json_of(m), dec_str(m.io_block as nat)),
        appears(json_of(m), dec_str(m.devices as nat)),
        appears(json_of(m), entry_label(m.entry_type)),
        appears(json_of(m), dec_str(m.inod as nat)),
        appears(json_of(m), dec_str(m.links as nat)),
        appears(json_of(m), escape(m.access)),
        appears(json_of(m), escape(m.uid)),
        appears(json_of(m), escape(m.gid)),
        appears(json_of(m), bool_label(m.sympolic)),
        appears(json_of(m), escape(m.access_date)),
        appears(json_of(m), escape(m.modify_date)),
        appears(json_of(m), escape(m.change_data)),
        appears(json_of(m), escape(m.birth)),
        appears(json_of(m), escape(m.file_type)),
{
    let s = json_of(m);
    lemma_appears_here("{\n  \"name\": \""@, escape(m.name), js_size(m));
    lemma_suffix_step("{\n  \"name\": \""@, escape(m.name) + js_size(m));
    lemma_suffix_step(escape(m.name), js_size(m));
    lemma_suffix_trans(js_size(m), escape(m.name) + js_size(m), s);
    lemma_appears_here("\",\n  \"size\": "@, dec_str(m.size as nat), js_blocks(m));
    lemma_appears_in_suffix(s, js_size(m), dec_str(m.size as nat));
    lemma_suffix_step("\",\n  \"size\": "@, dec_str(m.size as nat) + js_blocks(m));
    lemma_suffix_trans(dec_str(m.size as nat) + js_blocks(m), js_size(m), s);
    lemma_suffix_step(dec_str(m.size as nat), js_blocks(m));
    lemma_suffix_trans(js_blocks(m), dec_str(m.size as nat) + js_blocks(m), s);
    lemma_appears_here(",\n  \"blocks\": "@, dec_str(m.blocks as nat), js_io_block(m));
    lemma_appears_in_suffix(s, js_blocks(m), dec_str(m.blocks as nat));
    lemma_suffix_step(",\n  \"blocks\": "@, dec_str(m.blocks as nat) + js_io_block(m));
    lemma_suffix_trans(dec_str(m.blocks as nat) + js_io_block(m), js_blocks(m), s);
    lemma_suffix_step(dec_str(m.blocks as nat), js_io_block(m));
    lemma_suffix_trans(js_io_block(m), dec_str(m.blocks as nat) + js_io_block(m), s);
    lemma_appears_here(",\n  \"io_block\": "@, dec_str(m.io_block as nat), js_devices(m));
    lemma_appears_in_suffix(s, js_io_block(m), dec_str(m.io_block as nat));
    lemma_suffix_step(",\n  \"io_block\": "@, dec_str(m.io_block as nat) + js_devices(m));
    lemma_suffix_trans(dec_str(m.io_block as nat) + js_devices(m), js_io_block(m), s);
    lemma_suffix_step(dec_str(m.io_block as nat), js_devices(m));
    lemma_suffix_trans(js_devices(m), dec_str(m.io_block as nat) + js_devices(m), s);
    lemma_appears_here(",\n  \"devices\": "@, dec_str(m.devices as nat), js_entry(m));
    lemma_appears_in_suffix(s, js_devices(m), dec_str(m.devices as nat));
    lemma_suffix_step(",\n  \"devices\": "@, dec_str(m.devices as nat) + js_entry(m));
    lemma_suffix_trans(dec_str(m.devices as nat) + js_entry(m), js_devices(m), s);
    lemma_suffix_step(dec_str(m.devices as nat), js_entry(m));
    lemma_suffix_trans(js_entry(m), dec_str(m.devices as nat) + js_entry(m), s);
    lemma_appears_here(",\n  \"entry_type\": \""@, entry_label(m.entry_type), js_inod(m));
    lemma_appears_in_suffix(s, js_entry(m), entry_label(m.entry_type));
    lemma_suffix_step(",\n  \"entry_type\": \""@, entry_label(m.entry_type) + js_inod(m));
    lemma_suffix_trans(entry_label(m.entry_type) + js_inod(m), js_entry(m), s);
    lemma_suffix_step(entry_label(m.entry_type), js_inod(m));
    lemma_suffix_trans(js_inod(m), entry_label(m.entry_type) + js_inod(m), s);
    lemma_appears_here("\",\n  \"inod\": "@, dec_str(m.inod as nat), js_links(m));
    lemma_appears_in_suffix(s, js_inod(m), dec_str(m.inod as nat));
    lemma_suffix_step("\",\n  \"inod\": "@, dec_str(m.inod as nat) + js_links(m));
    lemma_suffix_trans(dec_str(m.inod as nat) + js_links(m), js_inod(m), s);
    lemma_suffix_step(dec_str(m.inod as nat), js_links(m));
    lemma_suffix_trans(js_links(m), dec_str(m.inod as nat) + js_links(m), s);
    lemma_appears_here(",\n  \"links\": "@, dec_str(m.links as nat), js_access(m));
    lemma_appears_in_suffix(s, js_links(m), dec_str(m.links as nat));
    lemma_suffix_step(",\n  \"links\": "@, dec_str(m.links as nat) + js_access(m));
    lemma_suffix_trans(dec_str(m.links as nat) + js_access(m), js_links(m), s);
    lemma_suffix_step(dec_str(m.links as nat), js_access(m));
    lemma_suffix_trans(js_access(m), dec_str(m.links as nat) + js_access(m), s);
    lemma_appears_here(",\n  \"access\": \""@, escape(m.access), js_uid(m));
    lemma_appears_in_suffix(s, js_access(m), escape(m.access));
    lemma_suffix_step(",\n  \"access\": \""@, escape(m.access) + js_uid(m));
    lemma_suffix_trans(escape(m.access) + js_uid(m), js_access(m), s);
    lemma_suffix_step(escape(m.access), js_uid(m));
    lemma_suffix_trans(js_uid(m), escape(m.access) + js_uid(m), s);
    lemma_appears_here("\",\n  \"uid\": \""@, escape(m.uid), js_gid(m));
    lemma_appears_in_suffix(s, js_uid(m), escape(m.uid));
    lemma_suffix_step("\",\n  \"uid\": \""@, escape(m.uid) + js_gid(m));
    lemma_suffix_trans(escape(m.uid) + js_gid(m), js_uid(m), s);
    lemma_suffix_step(escape(m.uid), js_gid(m));
    lemma_suffix_trans(js_gid(m), escape(m.uid) + js_gid(m), s);
    lemma_appears_here("\",\n  \"gid\": \""@, escape(m.gid), js_sympolic(m));
    lemma_appears_in_suffix(s, js_gid(m), escape(m.gid));
    lemma_suffix_step("\",\n  \"gid\": \""@, escape(m.gid) + js_sympolic(m));
    lemma_suffix_trans(escape(m.gid) + js_sympolic(m), js_gid(m), s);
    lemma_suffix_step(escape(m.gid), js_sympolic(m));
    lemma_suffix_trans(js_sympolic(m), escape(m.gid) + js_sympolic(m), s);
    lemma_appears_here("\",\n  \"sympolic\": "@, bool_label(m.sympolic), js_access_date(m));
    lemma_appears_in_suffix(s, js_sympolic(m), bool_label(m.sympolic));
    lemma_suffix_step("\",\n  \"sympolic\": "@, bool_label(m.sympolic) + js_access_date(m));
    lemma_suffix_trans(bool_label(m.sympolic) + js_access_date(m), js_sympolic(m), s);
    lemma_suffix_step(bool_label(m.sympolic), js_access_date(m));
    lemma_suffix_trans(js_access_date(m), bool_label(m.sympolic) + js_access_date(m), s);
    lemma_appears_here(",\n  \"access_date\": \""@, escape(m.access_date), js_modify(m));
    lemma_appears_in_suffix(s, js_access_date(m), escape(m.access_date));
    lemma_suffix_step(",\n  \"access_date\": \""@, escape(m.access_date) + js_modify(m));
    lemma_suffix_trans(escape(m.access_date) + js_modify(m), js_access_date(m), s);
    lemma_suffix_step(escape(m.access_date), js_modify(m));
    lemma_suffix_trans(js_modify(m), escape(m.access_date) + js_modify(m), s);
    lemma_appears_here("\",\n  \"modify_date\": \""@, escape(m.modify_date), js_change(m));
    lemma_appears_in_suffix(s, js_modify(m), escape(m.modify_date));
    lemma_suffix_step("\",\n  \"modify_date\": \""@, escape(m.modify_date) + js_change(m));
    lemma_suffix_trans(escape(m.modify_date) + js_change(m), js_modify(m), s);
    lemma_suffix_step(escape(m.modify_date), js_change(m));
    lemma_suffix_trans(js_change(m), escape(m.modify_date) + js_change(m), s);
    lemma_appears_here("\",\n  \"change_data\": \""@, escape(m.change_data), js_birth(m));
    lemma_appears_in_suffix(s, js_change(m), escape(m.change_data));
    lemma_suffix_step("\",\n  \"change_data\": \""@, escape(m.change_data) + js_birth(m));
    lemma_suffix_trans(escape(m.change_data) + js_birth(m), js_change(m), s);
    lemma_suffix_step(escape(m.change_data), js_birth(m));
    lemma_suffix_trans(js_birth(m), escape(m.change_data) + js_birth(m), s);
    lemma_appears_here("\",\n  \"birth\": \""@, escape(m.birth), js_file_type(m));
    lemma_appears_in_suffix(s, js_birth(m), escape(m.birth));
    lemma_suffix_step("\",\n  \"birth\": \""@, escape(m.birth) + js_file_type(m));
    lemma_suffix_trans(escape(m.birth) + js_file_type(m), js_birth(m), s);
    lemma_suffix_step(escape(m.birth), js_file_type(m));
    lemma_suffix_trans(js_file_type(m), escape(m.birth) + js_file_type(m), s);

    lemma_appears_here("\",\n  \"file_type\": \""@, escape(m.file_type), js_end());
    lemma_appears_in_suffix(s, js_file_type(m), escape(m.file_type));
}

} // verus!
