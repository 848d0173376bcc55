use vstd::prelude::*;
use vstd::string::*;

use crate::model::User;

verus! {

/// The JSON string literal that serde_json writes for the text `s`: quoted,
/// with its escapes. It depends on `s` alone.
pub uninterp spec fn json_text_of(s: Seq<char>) -> Seq<char>;

/// The decimal digit for `d`, for `0 <= d < 10`.
pub open spec fn digit_char(d: int) -> char {
    "0123456789"@[d]
}

/// The decimal digits of `n`, most significant first, without leading zeros.
pub open spec fn decimal(n: nat) -> Seq<char>
    decreases n,
{
    if n < 10 {
        seq![digit_char(n as int)]
    } else {
        decimal(n / 10).push(digit_char((n % 10) as int))
    }
}

/// A JSON number for the integer `i`.
pub open spec fn int_text(i: int) -> Seq<char> {
    if i < 0 {
        seq!['-'] + decimal((-i) as nat)
    } else {
        decimal(i as nat)
    }
}

/// A JSON number, or `null` when absent.
pub open spec fn optional_int_text(o: Option<i64>) -> Seq<char> {
    match o {
        Some(i) => int_text(i as int),
        None => "null"@,
    }
}

/// A JSON string, or `null` when absent.
pub open spec fn optional_json_text(o: Option<String>) -> Seq<char> {
    match o {
        Some(s) => json_text_of(s@),
        None => "null"@,
    }
}

/// A user as a JSON object; an absent field is `null`.
pub open spec fn user_json(u: User) -> Seq<char> {
    "{\"user_id\":"@ + int_text(u.user_id as int) + ",\"email_address\":"@
        + optional_json_text(u.email_address) + ",\"created_at\":"@
        + optional_int_text(u.created_at) + ",\"deleted\":"@ + optional_int_text(u.deleted)
        + ",\"settings\":"@ + optional_json_text(u.settings) + "}"@
}

/// The wrapper object around the text of a fetched object.
pub open spec fn content_json(content: Seq<char>) -> Seq<char> {
    "{\"content\":"@ + json_text_of(content) + "}"@
}

/// Relies on the `Display` impl of `serde_json::Value`: a string value is
/// written, in compact form, as a quoted and escaped JSON string.
#[verifier::external_body]
fn json_text(s: &str) -> (r: String)
    ensures
        r@ == json_text_of(s@),
{
    serde_json::Value::String(s.to_string()).to_string()
}

/// Appends `s` as a JSON string.
pub fn push_json_text(out: &mut String, s: &str)
    ensures
        final(out)@ == old(out)@ + json_text_of(s@),
{
    let t = json_text(s);
    out.append(t.as_str());
}

/// Appends the decimal digits of `n`.
fn push_decimal(out: &mut String, n: u64)
    ensures
        final(out)@ == old(out)@ + decimal(n as nat),
    decreases n,
{
    if n >= 10 {
        push_decimal(out, n / 10);
    }
    let d: usize = (n % 10) as usize;
    let digits = "0123456789";
    proof {
        reveal_strlit("0123456789");
    }
    let piece = digits.substring_char(d, d + 1);
    assert(piece@ =~= seq![digit_char(d as int)]);
    out.append(piece);
    assert(final(out)@ =~= old(out)@ + decimal(n as nat));
}

/// Appends `i` as a JSON number.
pub fn push_int(out: &mut String, i: i64)
    ensures
        final(out)@ == old(out)@ + int_text(i as int),
{
    if i < 0 {
        let minus = "-";
        proof {
            reveal_strlit("-");
        }
        out.append(minus);
        let m: u64 = (-(i + 1)) as u64 + 1;
        push_decimal(out, m);
        assert(final(out)@ =~= old(out)@ + int_text(i as int));
    } else {
        push_decimal(out, i as u64);
    }
}

/// Appends `o` as a JSON number, or `null` when it is absent.
pub fn push_optional_int(out: &mut String, o: &Option<i64>)
    ensures
        final(out)@ == old(out)@ + optional_int_text(*o),
{
    match o {
        Some(i) => push_int(out, *i),
        None => out.append("null"),
    }
}

/// Appends `o` as a JSON string, or `null` when it is absent.
pub fn push_optional_text(out: &mut String, o: &Option<String>)
    ensures
        final(out)@ == old(out)@ + optional_json_text(*o),
{
    match o {
        Some(s) => push_json_text(out, s.as_str()),
        None => out.append("null"),
    }
}

/// Writes `u` as a JSON object with its five fields in a fixed order.
pub fn user_json_text(u: &User) -> (r: String)
    ensures
        r@ == user_json(*u),
{
    let mut out = String::new();
    out.append("{\"user_id\":");
    push_int(&mut out, u.user_id);
    out.append(",\"email_address\":");
    push_optional_text(&mut out, &u.email_address);
    out.append(",\"created_at\":");
    push_optional_int(&mut out, &u.created_at);
    out.append(",\"deleted\":");
    push_optional_int(&mut out, &u.deleted);
    out.append(",\"settings\":");
    push_optional_text(&mut out, &u.settings);
    out.append("}");
    assert(out@ =~= user_json(*u));
    out
}

/// Writes the wrapper object around the text of a fetched object.
pub fn content_json_text(content: &str) -> (r: String)
    ensures
        r@ == content_json(content@),
{
    let mut out = String::new();
    out.append("{\"content\":");
    push_json_text(&mut out, content);
    out.append("}");
    assert(out@ =~= content_json(content@));
    out
}

} // verus!
