//! The embedded migration table's wire format, and its verified parser.
//!
//! The table is a delimiter-separated text compiled into the binary: one
//! line per migration, four fields per line separated by `~`, every
//! field quoted with `"` and any quote inside a field doubled. The
//! grammar is this module's own: the spec functions here define it, the
//! parser is proved to compute exactly what they say, and the encoding
//! of any record list is proved to parse back to itself.
use vstd::prelude::*;

use crate::adapter::utf8_from;
use crate::errors::MigrationError;
use crate::migrations::Migration;
use crate::migrations::migrations_wf;
use vstd::utf8::decode_utf8;
use vstd::utf8::valid_utf8;

verus! {

/// The field delimiter, `~`.
pub const DELIMITER: u8 = 126;

/// The field quote, `"`.
pub const QUOTE: u8 = 34;

/// The record terminator, a newline.
pub const RECORD_END: u8 = 10;

/// One parsed record: the four raw byte fields of one line, in order
/// timestamp, name, up script, down script.
pub type RawFields = (Seq<u8>, Seq<u8>, Seq<u8>, Seq<u8>);

/// Parses a quoted field's content from position `i` (just past the
/// opening quote): the unescaped bytes and the position just past the
/// closing quote, or `None` for an unterminated field.
pub open spec fn s_content(b: Seq<u8>, i: int) -> Option<(Seq<u8>, int)>
    decreases b.len() - i,
    when 0 <= i <= b.len()
{
    if i >= b.len() {
        None
    } else if b[i] == QUOTE {
        if i + 1 < b.len() && b[i + 1] == QUOTE {
            match s_content(b, i + 2) {
                Some((s, j)) => Some((seq![QUOTE] + s, j)),
                None => None,
            }
        } else {
            Some((Seq::empty(), i + 1))
        }
    } else {
        match s_content(b, i + 1) {
            Some((s, j)) => Some((seq![b[i]] + s, j)),
            None => None,
        }
    }
}

/// Parses one quoted field starting at position `i`.
pub open spec fn s_field(b: Seq<u8>, i: int) -> Option<(Seq<u8>, int)> {
    if 0 <= i < b.len() && b[i] == QUOTE {
        s_content(b, i + 1)
    } else {
        None
    }
}

/// A parsed field ends after where it began, within the buffer.
pub proof fn lemma_content_advances(b: Seq<u8>, i: int)
    requires
        0 <= i <= b.len(),
    ensures
        s_content(b, i) matches Some((s, j)) ==> i < j <= b.len(),
    decreases b.len() - i,
{
    if i < b.len() {
        if b[i] == QUOTE {
            if i + 1 < b.len() && b[i + 1] == QUOTE {
                lemma_content_advances(b, i + 2);
            }
        } else {
            lemma_content_advances(b, i + 1);
        }
    }
}

/// Parses one record: four fields separated by the delimiter, closed by
/// the record terminator; the fields and the position just past it.
pub open spec fn s_record(b: Seq<u8>, i: int) -> Option<(RawFields, int)> {
    match s_field(b, i) {
        Some((f1, j1)) => if j1 < b.len() && b[j1] == DELIMITER {
            match s_field(b, j1 + 1) {
                Some((f2, j2)) => if j2 < b.len() && b[j2] == DELIMITER {
                    match s_field(b, j2 + 1) {
                        Some((f3, j3)) => if j3 < b.len() && b[j3] == DELIMITER {
                            match s_field(b, j3 + 1) {
                                Some((f4, j4)) => if j4 < b.len() && b[j4] == RECORD_END {
                                    Some(((f1, f2, f3, f4), j4 + 1))
                                } else {
                                    None
                                },
                                None => None,
                            }
                        } else {
                            None
                        },
                        None => None,
                    }
                } else {
                    None
                },
                None => None,
            }
        } else {
            None
        },
        None => None,
    }
}

/// Parses the whole table from position `i`: every record to the end of
/// the buffer, or `None` if anything is malformed or left over.
pub open spec fn s_file(b: Seq<u8>, i: int) -> Option<Seq<RawFields>>
    decreases b.len() - i,
    when 0 <= i <= b.len()
{
    if i == b.len() {
        Some(Seq::empty())
    } else {
        match s_record(b, i) {
            Some((rec, j)) => if i < j <= b.len() {
                match s_file(b, j) {
                    Some(rest) => Some(seq![rec] + rest),
                    None => None,
                }
            } else {
                None
            },
            None => None,
        }
    }
}

/// Parses a field's content, as `s_content` says.
fn p_content(b: &[u8], i: usize) -> (r: Option<(Vec<u8>, usize)>)
    requires
        i <= b@.len(),
    ensures
        match r {
            Some((v, j)) => s_content(b@, i as int) == Some((v@, j as int)),
            None => s_content(b@, i as int) is None,
        },
    decreases b@.len() - i,
{
    if i >= b.len() {
        None
    } else if b[i] == QUOTE {
        if i + 1 < b.len() && b[i + 1] == QUOTE {
            match p_content(b, i + 2) {
                Some((mut v, j)) => {
                    let ghost tail = v@;
                    v.insert(0, QUOTE);
                    proof {
                        assert(v@ =~= seq![QUOTE] + tail);
                    }
                    Some((v, j))
                },
                None => None,
            }
        } else {
            Some((Vec::new(), i + 1))
        }
    } else {
        let c = b[i];
        match p_content(b, i + 1) {
            Some((mut v, j)) => {
                let ghost tail = v@;
                v.insert(0, c);
                proof {
                    assert(v@ =~= seq![c] + tail);
                }
                Some((v, j))
            },
            None => None,
        }
    }
}

/// Parses one quoted field, as `s_field` says.
fn p_field(b: &[u8], i: usize) -> (r: Option<(Vec<u8>, usize)>)
    requires
        i <= b@.len(),
    ensures
        match r {
            Some((v, j)) => s_field(b@, i as int) == Some((v@, j as int)) && i < j <= b@.len(),
            None => s_field(b@, i as int) is None,
        },
{
    if i < b.len() && b[i] == QUOTE {
        proof {
            lemma_content_advances(b@, i + 1);
        }
        p_content(b, i + 1)
    } else {
        None
    }
}

/// Parses one record, as `s_record` says.
fn p_record(b: &[u8], i: usize) -> (r: Option<((Vec<u8>, Vec<u8>, Vec<u8>, Vec<u8>), usize)>)
    requires
        i <= b@.len(),
    ensures
        match r {
            Some((rec, j)) => s_record(b@, i as int) == Some(
                ((rec.0@, rec.1@, rec.2@, rec.3@), j as int),
            ) && i < j <= b@.len(),
            None => s_record(b@, i as int) is None,
        },
{
    let (f1, j1) = match p_field(b, i) {
        Some(x) => x,
        None => {
            return None;
        },
    };
    if !(j1 < b.len() && b[j1] == DELIMITER) {
        return None;
    }
    let (f2, j2) = match p_field(b, j1 + 1) {
        Some(x) => x,
        None => {
            return None;
        },
    };
    if !(j2 < b.len() && b[j2] == DELIMITER) {
        return None;
    }
    let (f3, j3) = match p_field(b, j2 + 1) {
        Some(x) => x,
        None => {
            return None;
        },
    };
    if !(j3 < b.len() && b[j3] == DELIMITER) {
        return None;
    }
    let (f4, j4) = match p_field(b, j3 + 1) {
        Some(x) => x,
        None => {
            return None;
        },
    };
    if !(j4 < b.len() && b[j4] == RECORD_END) {
        return None;
    }
    Some(((f1, f2, f3, f4), j4 + 1))
}

/// What parsing the rest of the buffer from `pos` adds to what is
/// already parsed: the whole table, or nothing if the rest is malformed.
pub open spec fn glue(acc: Seq<RawFields>, b: Seq<u8>, pos: int) -> Option<Seq<RawFields>> {
    match s_file(b, pos) {
        Some(rest) => Some(acc + rest),
        None => None,
    }
}

/// Parses the whole table, as `s_file` says: the raw byte fields of
/// every record.
fn p_file(b: &[u8]) -> (r: Option<Vec<(Vec<u8>, Vec<u8>, Vec<u8>, Vec<u8>)>>)
    ensures
        match r {
            Some(recs) => {
                &&& s_file(b@, 0) matches Some(srecs)
                &&& srecs.len() == recs@.len()
                &&& forall|k: int|
                    0 <= k < recs@.len() ==> s_file(b@, 0)->Some_0[k] == (
                    (#[trigger] recs@[k]).0@,
                    recs@[k].1@,
                    recs@[k].2@,
                    recs@[k].3@,
                )
            },
            None => s_file(b@, 0) is None,
        },
{
    let mut acc: Vec<(Vec<u8>, Vec<u8>, Vec<u8>, Vec<u8>)> = Vec::new();
    let mut pos: usize = 0;
    let ghost whole = s_file(b@, 0);
    while pos < b.len()
        invariant
            pos <= b@.len(),
            whole == s_file(b@, 0),
            whole == glue(
                Seq::new(acc@.len(), |k: int| (acc@[k].0@, acc@[k].1@, acc@[k].2@, acc@[k].3@)),
                b@,
                pos as int,
            ),
        decreases b@.len() - pos,
    {
        let ghost accs = Seq::new(
            acc@.len(),
            |k: int| (acc@[k].0@, acc@[k].1@, acc@[k].2@, acc@[k].3@),
        );
        match p_record(b, pos) {
            Some((rec, j)) => {
                let ghost srec = (rec.0@, rec.1@, rec.2@, rec.3@);
                acc.push(rec);
                proof {
                    assert(s_file(b@, pos as int) == match s_file(b@, j as int) {
                        Some(rest) => Some(seq![srec] + rest),
                        None => None::<Seq<RawFields>>,
                    });
                    assert(Seq::new(
                        acc@.len(),
                        |k: int| (acc@[k].0@, acc@[k].1@, acc@[k].2@, acc@[k].3@),
                    ) =~= accs + seq![srec]);
                    if s_file(b@, j as int) is Some {
                        let rest = s_file(b@, j as int)->Some_0;
                        assert((accs + seq![srec]) + rest =~= accs + (seq![srec] + rest));
                    }
                }
                pos = j;
            },
            None => {
                return None;
            },
        }
    }
    proof {
        assert(s_file(b@, pos as int) == Some(Seq::<RawFields>::empty()));
        let ghost accs = Seq::new(
            acc@.len(),
            |k: int| (acc@[k].0@, acc@[k].1@, acc@[k].2@, acc@[k].3@),
        );
        assert(accs + Seq::<RawFields>::empty() =~= accs);
    }
    Some(acc)
}

/// A non-empty run of ASCII decimal digits.
pub open spec fn is_digits(s: Seq<u8>) -> bool {
    s.len() > 0 && forall|k: int| 0 <= k < s.len() ==> 48 <= #[trigger] s[k] <= 57
}

/// The number a run of decimal digits denotes.
pub open spec fn dec_val(s: Seq<u8>) -> int
    decreases s.len(),
{
    if s.len() == 0 {
        0
    } else {
        dec_val(s.drop_last()) * 10 + (s.last() - 48)
    }
}

/// A digit run denotes a non-negative number.
proof fn lemma_dec_val_nonneg(s: Seq<u8>)
    requires
        forall|k: int| 0 <= k < s.len() ==> 48 <= #[trigger] s[k] <= 57,
    ensures
        dec_val(s) >= 0,
    decreases s.len(),
{
    if s.len() > 0 {
        assert(forall|k: int|
            0 <= k < s.drop_last().len() ==> 48 <= #[trigger] s.drop_last()[k] <= 57);
        lemma_dec_val_nonneg(s.drop_last());
    }
}

/// Within a digit run, a prefix never denotes more than the whole.
proof fn lemma_dec_val_prefix(s: Seq<u8>, i: int)
    requires
        forall|k: int| 0 <= k < s.len() ==> 48 <= #[trigger] s[k] <= 57,
        0 <= i <= s.len(),
    ensures
        dec_val(s.take(i)) <= dec_val(s),
    decreases s.len() - i,
{
    if i < s.len() {
        assert(s.take(i + 1).drop_last() =~= s.take(i));
        assert(forall|k: int|
            0 <= k < s.take(i).len() ==> 48 <= #[trigger] s.take(i)[k] <= 57);
        lemma_dec_val_nonneg(s.take(i));
        assert(dec_val(s.take(i + 1)) == dec_val(s.take(i)) * 10 + (s[i] - 48));
        assert(dec_val(s.take(i)) * 10 >= dec_val(s.take(i))) by (nonlinear_arith)
            requires
                dec_val(s.take(i)) >= 0,
        ;
        lemma_dec_val_prefix(s, i + 1);
        assert(s.take(s.len() as int) =~= s);
    } else {
        assert(s.take(i) =~= s);
    }
}

/// Parses a whole digit run as an unsigned 64-bit number: `Some` exactly
/// when the bytes are all digits and the value fits.
pub fn parse_u64(s: &[u8]) -> (r: Option<u64>)
    ensures
        r is Some <==> is_digits(s@) && dec_val(s@) <= u64::MAX,
        r matches Some(v) ==> v == dec_val(s@),
{
    let n = s.len();
    if n == 0 {
        return None;
    }
    let mut acc: u64 = 0;
    for i in 0..n
        invariant
            n == s@.len(),
            forall|k: int| 0 <= k < i ==> 48 <= #[trigger] s@[k] <= 57,
            acc == dec_val(s@.take(i as int)),
    {
        let c = s[i];
        if c < 48 || c > 57 {
            return None;
        }
        let d = (c - 48) as u64;
        proof {
            assert(s@.take(i + 1).drop_last() =~= s@.take(i as int));
            assert(dec_val(s@.take(i + 1)) == acc * 10 + d);
            vstd::arithmetic::div_mod::lemma_fundamental_div_mod(
                u64::MAX - d,
                10,
            );
        }
        if acc > (u64::MAX - d) / 10 {
            proof {
                assert(acc * 10 + d > u64::MAX) by (nonlinear_arith)
                    requires
                        acc >= (u64::MAX - d as int) / 10 + 1,
                        ((u64::MAX - d as int) / 10) * 10 + ((u64::MAX - d as int) % 10)
                            == u64::MAX - d as int,
                        0 <= (u64::MAX - d as int) % 10 < 10,
                        d <= 9,
                ;
                if is_digits(s@) && dec_val(s@) <= u64::MAX {
                    lemma_dec_val_prefix(s@, i + 1);
                    assert(false);
                }
            }
            return None;
        }
        proof {
            assert(acc * 10 + d <= u64::MAX) by (nonlinear_arith)
                requires
                    acc <= (u64::MAX - d as int) / 10,
                    ((u64::MAX - d as int) / 10) * 10 + ((u64::MAX - d as int) % 10) == u64::MAX
                        - d as int,
                    0 <= (u64::MAX - d as int) % 10,
                    d <= 9,
            ;
        }
        acc = acc * 10 + d;
    }
    proof {
        assert(s@.take(n as int) =~= s@);
    }
    Some(acc)
}

/// What makes one raw record convertible: a timestamp of digits that
/// fits 64 bits, and the three text fields valid UTF-8.
pub open spec fn rec_ok(rec: RawFields) -> bool {
    &&& is_digits(rec.0) && dec_val(rec.0) <= u64::MAX
    &&& valid_utf8(rec.1)
    &&& valid_utf8(rec.2)
    &&& valid_utf8(rec.3)
}

/// Every record of the table convertible.
pub open spec fn recs_ok(recs: Seq<RawFields>) -> bool {
    forall|k: int| 0 <= k < recs.len() ==> rec_ok(#[trigger] recs[k])
}

/// How one migration reflects the raw record it was read from.
pub open spec fn migration_of(rec: RawFields, m: Migration) -> bool {
    &&& m.timestamp == dec_val(rec.0)
    &&& m.name@ == decode_utf8(rec.1)
    &&& m.up@ == decode_utf8(rec.2)
    &&& m.down@ == decode_utf8(rec.3)
}

/// Decodes the embedded migration table: exactly the migrations the
/// table's records denote, in the table's order; a malformed table or
/// an unconvertible record is a parse error.
pub fn parse_migrations(blob: &[u8]) -> (r: Result<Vec<Migration>, MigrationError>)
    ensures
        s_file(blob@, 0) is None ==> r == Err::<Vec<Migration>, MigrationError>(
            MigrationError::Parse,
        ),
        s_file(blob@, 0) matches Some(recs) ==> {
            if recs_ok(recs) {
                &&& r matches Ok(ms)
                &&& ms@.len() == recs.len()
                &&& forall|k: int|
                    0 <= k < recs.len() ==> migration_of(recs[k], #[trigger] r->Ok_0@[k])
            } else {
                r == Err::<Vec<Migration>, MigrationError>(MigrationError::Parse)
            }
        },
{
    let raw = match p_file(blob) {
        Some(raw) => raw,
        None => {
            return Err(MigrationError::Parse);
        },
    };
    let ghost recs = s_file(blob@, 0)->Some_0;
    let mut out: Vec<Migration> = Vec::new();
    let n = raw.len();
    for i in 0..n
        invariant
            n == raw@.len(),
            s_file(blob@, 0) == Some(recs),
            recs.len() == raw@.len(),
            forall|k: int|
                0 <= k < recs.len() ==> recs[k] == (
                (#[trigger] raw@[k]).0@,
                raw@[k].1@,
                raw@[k].2@,
                raw@[k].3@,
            ),
            out@.len() == i,
            forall|k: int| 0 <= k < i ==> rec_ok(#[trigger] recs[k]),
            forall|k: int| 0 <= k < i ==> migration_of(recs[k], #[trigger] out@[k]),
    {
        let rec = &raw[i];
        let timestamp = match parse_u64(rec.0.as_slice()) {
            Some(v) => v,
            None => {
                proof {
                    assert(!rec_ok(recs[i as int]));
                }
                return Err(MigrationError::Parse);
            },
        };
        let name = match utf8_from(rec.1.as_slice()) {
            Some(s) => s.to_owned(),
            None => {
                proof {
                    assert(!rec_ok(recs[i as int]));
                }
                return Err(MigrationError::Parse);
            },
        };
        let up = match utf8_from(rec.2.as_slice()) {
            Some(s) => s.to_owned(),
            None => {
                proof {
                    assert(!rec_ok(recs[i as int]));
                }
                return Err(MigrationError::Parse);
            },
        };
        let down = match utf8_from(rec.3.as_slice()) {
            Some(s) => s.to_owned(),
            None => {
                proof {
                    assert(!rec_ok(recs[i as int]));
                }
                return Err(MigrationError::Parse);
            },
        };
        out.push(Migration { timestamp, name, up, down });
    }
    Ok(out)
}

/// What the table's records denote, taken as a compiled migration set:
/// no empty script and no repeated timestamp.
pub open spec fn denoted_wf(recs: Seq<RawFields>) -> bool {
    &&& forall|k: int|
        0 <= k < recs.len() ==> decode_utf8((#[trigger] recs[k]).2).len() > 0 && decode_utf8(
            recs[k].3,
        ).len() > 0
    &&& forall|k: int, l: int|
        0 <= k < l < recs.len() ==> dec_val(recs[k].0) != dec_val(recs[l].0)
}

/// Decodes and checks the embedded migration table in one step: the
/// compiled migration set the engine runs from. A malformed table is a
/// parse error; a decodable table whose migrations break their
/// invariant is invalid.
pub fn load_migrations(blob: &[u8]) -> (r: Result<Vec<Migration>, MigrationError>)
    ensures
        r matches Ok(ms) ==> migrations_wf(ms@),
        s_file(blob@, 0) is None ==> r == Err::<Vec<Migration>, MigrationError>(
            MigrationError::Parse,
        ),
        s_file(blob@, 0) matches Some(recs) ==> {
            if !recs_ok(recs) {
                r == Err::<Vec<Migration>, MigrationError>(MigrationError::Parse)
            } else if !denoted_wf(recs) {
                r == Err::<Vec<Migration>, MigrationError>(MigrationError::Invalid)
            } else {
                &&& r matches Ok(ms)
                &&& ms@.len() == recs.len()
                &&& forall|k: int|
                    0 <= k < recs.len() ==> migration_of(recs[k], #[trigger] r->Ok_0@[k])
            }
        },
{
    let ms = match parse_migrations(blob) {
        Ok(ms) => ms,
        Err(e) => {
            return Err(e);
        },
    };
    let ok = crate::migrations::validate_migrations(&ms);
    proof {
        let recs = s_file(blob@, 0)->Some_0;
        assert(migrations_wf(ms@) <==> denoted_wf(recs)) by {
            if migrations_wf(ms@) {
                assert forall|k: int|
                    0 <= k < recs.len() implies decode_utf8((#[trigger] recs[k]).2).len() > 0
                    && decode_utf8(recs[k].3).len() > 0 by {
                    assert(migration_of(recs[k], ms@[k]));
                    assert(crate::migrations::migration_wf(ms@[k]));
                }
                assert forall|k: int, l: int|
                    0 <= k < l < recs.len() implies dec_val(recs[k].0) != dec_val(
                    recs[l].0,
                ) by {
                    assert(migration_of(recs[k], ms@[k]));
                    assert(migration_of(recs[l], ms@[l]));
                }
            }
            if denoted_wf(recs) {
                assert forall|k: int|
                    0 <= k < ms@.len() implies crate::migrations::migration_wf(
                    #[trigger] ms@[k],
                ) by {
                    assert(migration_of(recs[k], ms@[k]));
                }
                assert forall|k: int, l: int|
                    0 <= k < l < ms@.len() implies ms@[k].timestamp != ms@[l].timestamp by {
                    assert(migration_of(recs[k], ms@[k]));
                    assert(migration_of(recs[l], ms@[l]));
                }
            }
        }
    }
    if ok {
        Ok(ms)
    } else {
        Err(MigrationError::Invalid)
    }
}

/// A field's content escaped for the wire: every quote doubled.
pub open spec fn esc(s: Seq<u8>) -> Seq<u8>
    decreases s.len(),
{
    if s.len() == 0 {
        Seq::empty()
    } else if s[0] == QUOTE {
        seq![QUOTE, QUOTE] + esc(s.drop_first())
    } else {
        seq![s[0]] + esc(s.drop_first())
    }
}

/// A field on the wire: its escaped content between quotes.
pub open spec fn enc_field(s: Seq<u8>) -> Seq<u8> {
    seq![QUOTE] + esc(s) + seq![QUOTE]
}

/// A record on the wire: its four fields separated by the delimiter,
/// closed by the record terminator.
pub open spec fn enc_record(rec: RawFields) -> Seq<u8> {
    enc_field(rec.0) + seq![DELIMITER] + enc_field(rec.1) + seq![DELIMITER] + enc_field(rec.2)
        + seq![DELIMITER] + enc_field(rec.3) + seq![RECORD_END]
}

/// The whole table on the wire: its records in order.
pub open spec fn enc_file(recs: Seq<RawFields>) -> Seq<u8>
    decreases recs.len(),
{
    if recs.len() == 0 {
        Seq::empty()
    } else {
        enc_record(recs[0]) + enc_file(recs.drop_first())
    }
}

/// Parsing field content inverts escaping: wherever a buffer holds an
/// escaped content and its closing quote, and the byte after the close
/// (if any) is no quote, the content parses back exactly.
proof fn lemma_content_roundtrip(b: Seq<u8>, i: int, s: Seq<u8>)
    requires
        0 <= i,
        i + esc(s).len() + 1 <= b.len(),
        b.subrange(i, i + esc(s).len() + 1) == esc(s) + seq![QUOTE],
        i + esc(s).len() + 1 == b.len() || b[i + esc(s).len() + 1] != QUOTE,
    ensures
        s_content(b, i) == Some((s, i + esc(s).len() + 1)),
    decreases s.len(),
{
    let e = esc(s);
    let sub = b.subrange(i, i + e.len() + 1);
    if s.len() == 0 {
        assert(b[i] == (e + seq![QUOTE])[0]);
        assert(b[i] == QUOTE);
        if i + 1 < b.len() {
            assert(b[i + 1] != QUOTE);
        }
        assert(s =~= Seq::<u8>::empty());
    } else if s[0] == QUOTE {
        let tail = s.drop_first();
        assert(e =~= seq![QUOTE, QUOTE] + esc(tail));
        assert(b[i] == (e + seq![QUOTE])[0]);
        assert(b[i + 1] == (e + seq![QUOTE])[1]);
        assert(b[i] == QUOTE && b[i + 1] == QUOTE);
        assert(b.subrange(i + 2, i + 2 + esc(tail).len() + 1) =~= esc(tail) + seq![QUOTE]) by {
            assert forall|k: int| 0 <= k < esc(tail).len() + 1 implies b.subrange(
                i + 2,
                i + 2 + esc(tail).len() + 1,
            )[k] == (esc(tail) + seq![QUOTE])[k] by {
                assert(b[i + 2 + k] == (e + seq![QUOTE])[2 + k]);
            }
        }
        lemma_content_roundtrip(b, i + 2, tail);
        assert(seq![QUOTE] + tail =~= s);
    } else {
        let tail = s.drop_first();
        assert(e =~= seq![s[0]] + esc(tail));
        assert(b[i] == (e + seq![QUOTE])[0]);
        assert(b[i] == s[0]);
        assert(b.subrange(i + 1, i + 1 + esc(tail).len() + 1) =~= esc(tail) + seq![QUOTE]) by {
            assert forall|k: int| 0 <= k < esc(tail).len() + 1 implies b.subrange(
                i + 1,
                i + 1 + esc(tail).len() + 1,
            )[k] == (esc(tail) + seq![QUOTE])[k] by {
                assert(b[i + 1 + k] == (e + seq![QUOTE])[1 + k]);
            }
        }
        lemma_content_roundtrip(b, i + 1, tail);
        assert(seq![s[0]] + tail =~= s);
    }
}

/// Parsing a field inverts encoding one, under the same no-quote guard
/// after its end.
proof fn lemma_field_roundtrip(b: Seq<u8>, i: int, s: Seq<u8>)
    requires
        0 <= i,
        i + enc_field(s).len() <= b.len(),
        b.subrange(i, i + enc_field(s).len()) == enc_field(s),
        i + enc_field(s).len() == b.len() || b[i + enc_field(s).len()] != QUOTE,
    ensures
        s_field(b, i) == Some((s, i + enc_field(s).len())),
{
    let f = enc_field(s);
    assert(b[i] == f[0]);
    assert(b[i] == QUOTE);
    assert(b.subrange(i + 1, i + 1 + esc(s).len() + 1) =~= esc(s) + seq![QUOTE]) by {
        assert forall|k: int| 0 <= k < esc(s).len() + 1 implies b.subrange(
            i + 1,
            i + 1 + esc(s).len() + 1,
        )[k] == (esc(s) + seq![QUOTE])[k] by {
            assert(b[i + 1 + k] == f[1 + k]);
        }
    }
    lemma_content_roundtrip(b, i + 1, s);
}

/// Parsing a record inverts encoding one.
proof fn lemma_record_roundtrip(b: Seq<u8>, i: int, rec: RawFields)
    requires
        0 <= i,
        i + enc_record(rec).len() <= b.len(),
        b.subrange(i, i + enc_record(rec).len()) == enc_record(rec),
    ensures
        s_record(b, i) == Some((rec, i + enc_record(rec).len())),
{
    let r = enc_record(rec);
    let l1 = enc_field(rec.0).len() as int;
    let l2 = enc_field(rec.1).len() as int;
    let l3 = enc_field(rec.2).len() as int;
    let l4 = enc_field(rec.3).len() as int;
    let o1 = i;
    let o2 = o1 + l1 + 1;
    let o3 = o2 + l2 + 1;
    let o4 = o3 + l3 + 1;
    assert(r.len() == l1 + l2 + l3 + l4 + 4);
    assert forall|k: int| 0 <= k < r.len() implies b[i + k] == r[k] by {
        assert(b.subrange(i, i + r.len() as int)[k] == b[i + k]);
    }
    assert(b.subrange(o1, o1 + l1) =~= enc_field(rec.0)) by {
        assert forall|k: int| 0 <= k < l1 implies b.subrange(o1, o1 + l1)[k] == enc_field(
            rec.0,
        )[k] by {
            assert(b[i + k] == r[k]);
        }
    }
    assert(b[o1 + l1] == r[l1]);
    assert(b[o1 + l1] == DELIMITER);
    lemma_field_roundtrip(b, o1, rec.0);
    assert(b.subrange(o2, o2 + l2) =~= enc_field(rec.1)) by {
        assert forall|k: int| 0 <= k < l2 implies b.subrange(o2, o2 + l2)[k] == enc_field(
            rec.1,
        )[k] by {
            assert(b[i + (l1 + 1 + k)] == r[l1 + 1 + k]);
        }
    }
    assert(b[o2 + l2] == r[l1 + 1 + l2]);
    assert(b[o2 + l2] == DELIMITER);
    lemma_field_roundtrip(b, o2, rec.1);
    assert(b.subrange(o3, o3 + l3) =~= enc_field(rec.2)) by {
        assert forall|k: int| 0 <= k < l3 implies b.subrange(o3, o3 + l3)[k] == enc_field(
            rec.2,
        )[k] by {
            assert(b[i + (l1 + 1 + l2 + 1 + k)] == r[l1 + 1 + l2 + 1 + k]);
        }
    }
    assert(b[o3 + l3] == r[l1 + 1 + l2 + 1 + l3]);
    assert(b[o3 + l3] == DELIMITER);
    lemma_field_roundtrip(b, o3, rec.2);
    assert(b.subrange(o4, o4 + l4) =~= enc_field(rec.3)) by {
        assert forall|k: int| 0 <= k < l4 implies b.subrange(o4, o4 + l4)[k] == enc_field(
            rec.3,
        )[k] by {
            assert(b[i + (l1 + 1 + l2 + 1 + l3 + 1 + k)] == r[l1 + 1 + l2 + 1 + l3 + 1 + k]);
        }
    }
    assert(b[o4 + l4] == r[l1 + 1 + l2 + 1 + l3 + 1 + l4]);
    assert(b[o4 + l4] == RECORD_END);
    lemma_field_roundtrip(b, o4, rec.3);
}

/// Parsing the table from a given offset inverts encoding the records
/// that fill the rest of the buffer.
proof fn lemma_file_roundtrip_at(b: Seq<u8>, i: int, recs: Seq<RawFields>)
    requires
        0 <= i <= b.len(),
        b.len() == i + enc_file(recs).len(),
        b.subrange(i, b.len() as int) == enc_file(recs),
    ensures
        s_file(b, i) == Some(recs),
    decreases recs.len(),
{
    if recs.len() == 0 {
        assert(i == b.len());
        assert(recs =~= Seq::<RawFields>::empty());
    } else {
        let rec = recs[0];
        let rest = recs.drop_first();
        let rl = enc_record(rec).len() as int;
        assert(enc_file(recs) =~= enc_record(rec) + enc_file(rest));
        assert(b.subrange(i, i + rl) =~= enc_record(rec)) by {
            assert forall|k: int| 0 <= k < rl implies b.subrange(i, i + rl)[k] == enc_record(
                rec,
            )[k] by {
                assert(b.subrange(i, b.len() as int)[k] == b[i + k]);
            }
        }
        lemma_record_roundtrip(b, i, rec);
        let j = i + rl;
        assert(b.subrange(j, b.len() as int) =~= enc_file(rest)) by {
            assert forall|k: int| 0 <= k < enc_file(rest).len() implies b.subrange(
                j,
                b.len() as int,
            )[k] == enc_file(rest)[k] by {
                assert(b.subrange(i, b.len() as int)[rl + k] == b[i + rl + k]);
            }
        }
        lemma_file_roundtrip_at(b, j, rest);
        assert(enc_record(rec).len() > 0);
        assert(seq![rec] + rest =~= recs);
    }
}

/// The law of the wire format: encoding any record list and parsing it
/// back yields exactly those records, whatever bytes their fields hold.
pub proof fn lemma_encode_roundtrip(recs: Seq<RawFields>)
    ensures
        s_file(enc_file(recs), 0) == Some(recs),
{
    let b = enc_file(recs);
    assert(b.subrange(0, b.len() as int) =~= b);
    lemma_file_roundtrip_at(b, 0, recs);
}

} // verus!
