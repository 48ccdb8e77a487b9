use vstd::prelude::*;
use vstd::string::StringExecFns;
use crate::record::{views, Datum, FieldValue, Fields, Record};
use crate::text::{digit_char, signed_decimal, push_signed_decimal};

verus! {

/// A lower-case hexadecimal digit.
pub open spec fn hex_digit(d: nat) -> char {
    if d < 10 { digit_char(d) }
    else if d == 10 { 'a' }
    else if d == 11 { 'b' }
    else if d == 12 { 'c' }
    else if d == 13 { 'd' }
    else if d == 14 { 'e' }
    else { 'f' }
}

/// How one character stands inside a JSON string: the quote, the backslash
/// and the control characters below 0x20 are escaped, the latter by a short
/// escape where JSON has one and by `\u00XX` otherwise; every other
/// character stands for itself.
pub open spec fn escape_char(c: char) -> Seq<char> {
    if c == '"' { seq!['\\', '"'] }
    else if c == '\\' { seq!['\\', '\\'] }
    else if c == '\x08' { seq!['\\', 'b'] }
    else if c == '\t' { seq!['\\', 't'] }
    else if c == '\n' { seq!['\\', 'n'] }
    else if c == '\x0c' { seq!['\\', 'f'] }
    else if c == '\r' { seq!['\\', 'r'] }
    else if (c as u32) < 0x20 {
        seq!['\\', 'u', '0', '0', hex_digit((c as u32 / 16) as nat), hex_digit((c as u32 % 16) as nat)]
    } else {
        seq![c]
    }
}

/// The characters of `s`, each escaped.
pub open spec fn escaped(s: Seq<char>) -> Seq<char>
    decreases s.len(),
{
    if s.len() == 0 {
        Seq::empty()
    } else {
        escaped(s.drop_last()) + escape_char(s.last())
    }
}

/// The JSON string literal that stands for the text `s`.
pub open spec fn json_quoted(s: Seq<char>) -> Seq<char> {
    seq!['"'] + escaped(s) + seq!['"']
}

/// Relies on serde_json's compact Display of `Value::String`: the JSON
/// string literal of `s`, escaped as `escape_char` says.
#[verifier::external_body]
fn json_quote(s: &str) -> (r: String)
    ensures
        r@ == json_quoted(s@),
{
    serde_json::Value::String(s.to_string()).to_string()
}

/// The JSON text of one value.
pub open spec fn datum_json(d: Datum) -> Seq<char> {
    match d {
        Datum::Text(s) => json_quoted(s),
        Datum::Int(n) => signed_decimal(n),
    }
}

/// The JSON text of one member `"name":value`.
pub open spec fn member_json(p: (Seq<char>, Datum)) -> Seq<char> {
    json_quoted(p.0) + ":"@ + datum_json(p.1)
}

/// The members of an object, separated by commas.
pub open spec fn members_json(s: Fields) -> Seq<char>
    decreases s.len(),
{
    if s.len() == 0 {
        Seq::empty()
    } else if s.len() == 1 {
        member_json(s[0])
    } else {
        members_json(s.drop_last()) + ","@ + member_json(s.last())
    }
}

/// The compact JSON object of a record, its fields in order.
pub open spec fn record_json(s: Fields) -> Seq<char> {
    "{"@ + members_json(s) + "}"@
}

/// The objects of a sequence of records, separated by commas.
pub open spec fn records_json(rs: Seq<Fields>) -> Seq<char>
    decreases rs.len(),
{
    if rs.len() == 0 {
        Seq::empty()
    } else if rs.len() == 1 {
        record_json(rs[0])
    } else {
        records_json(rs.drop_last()) + ","@ + record_json(rs.last())
    }
}

/// The compact JSON array of a batch of records, in order.
pub open spec fn batch_json(rs: Seq<Fields>) -> Seq<char> {
    "["@ + records_json(rs) + "]"@
}

fn push_value(out: &mut String, v: &FieldValue)
    ensures
        final(out)@ == old(out)@ + datum_json(v@),
{
    match v {
        FieldValue::Text(s) => {
            let q = json_quote(s.as_str());
            out.append(q.as_str());
        },
        FieldValue::Int(n) => push_signed_decimal(out, *n),
    }
}

fn push_record(out: &mut String, r: &Record)
    ensures
        final(out)@ == old(out)@ + record_json(r@),
{
    let ghost start = out@;
    out.append("{");
    let n = r.fields.len();
    let mut i: usize = 0;
    while i < n
        invariant
            n == r.fields.len(),
            0 <= i <= n,
            out@ == start + "{"@ + members_json(r@.subrange(0, i as int)),
        decreases n - i,
    {
        let ghost before = out@;
        if i > 0 {
            out.append(",");
        }
        let k = json_quote(r.fields[i].0.as_str());
        out.append(k.as_str());
        out.append(":");
        push_value(out, &r.fields[i].1);
        proof {
            let s = r@.subrange(0, i as int + 1);
            assert(s.drop_last() =~= r@.subrange(0, i as int));
            assert(s.last() == r@[i as int]);
            if i == 0 {
                assert(before =~= start + "{"@);
                assert(out@ =~= start + "{"@ + members_json(s));
            } else {
                assert(out@ =~= start + "{"@ + members_json(s));
            }
        }
        i = i + 1;
    }
    out.append("}");
    assert(r@.subrange(0, n as int) =~= r@);
    assert(out@ =~= start + record_json(r@));
}

/// The body of the request that delivers `batch`: a compact JSON array of
/// the records, each an object of its fields in order.
pub fn batch_body(batch: &Vec<Record>) -> (r: String)
    ensures
        r@ == batch_json(views(batch@)),
{
    let mut out = String::from_str("[");
    let n = batch.len();
    let mut i: usize = 0;
    while i < n
        invariant
            n == batch.len(),
            0 <= i <= n,
            out@ == "["@ + records_json(views(batch@).subrange(0, i as int)),
        decreases n - i,
    {
        let ghost before = out@;
        if i > 0 {
            out.append(",");
        }
        push_record(&mut out, &batch[i]);
        proof {
            let s = views(batch@).subrange(0, i as int + 1);
            assert(s.drop_last() =~= views(batch@).subrange(0, i as int));
            assert(s.last() == batch@[i as int]@);
            if i == 0 {
                assert(out@ =~= "["@ + records_json(s));
            } else {
                assert(out@ =~= "["@ + records_json(s));
            }
        }
        i = i + 1;
    }
    out.append("]");
    assert(views(batch@).subrange(0, n as int) =~= views(batch@));
    out
}

/// The address that takes log batches on a collector at `base`.
pub fn logs_endpoint(base: &str) -> (r: String)
    ensures
        r@ == base@ + "/api/v2/logs"@,
{
    let mut s = String::from_str(base);
    s.append("/api/v2/logs");
    s
}

} // verus!
