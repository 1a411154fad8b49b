//! The text a flash cookie holds: the message's JSON text under the single
//! key `_`, as in `{"_":"saved"}`.
//!
//! The envelope is this crate's own format and is written and read here,
//! character by character. What stands under `_` is handed to the message
//! type's own JSON reader and writer.

use vstd::prelude::*;
use vstd::string::*;
use crate::error::{DecodeError, EncodeError};
use crate::payload::Payload;

verus! {

/// JSON white space.
pub open spec fn is_space(c: char) -> bool {
    c == ' ' || c == '\t' || c == '\n' || c == '\r'
}

/// The first position at or after `from` that holds no white space.
pub open spec fn skip_space(s: Seq<char>, from: int) -> int
    decreases s.len() - from,
{
    if 0 <= from < s.len() && is_space(s[from]) {
        skip_space(s, from + 1)
    } else {
        from
    }
}

/// The end of `s[..to]` once the white space at its end is cut off.
pub open spec fn trim_end(s: Seq<char>, to: int) -> int
    decreases to,
{
    if 0 < to <= s.len() && is_space(s[to - 1]) {
        trim_end(s, to - 1)
    } else {
        to
    }
}

/// The envelope around a payload text: `{"_":` before it and `}` after it.
pub open spec fn envelope(payload: Seq<char>) -> Seq<char> {
    seq!['{', '"', '_', '"', ':'] + payload + seq!['}']
}

/// The payload text of an envelope, or `None` where `s` is no envelope.
///
/// An envelope is an opening brace, the key `"_"`, a colon, the payload and
/// a closing brace. White space may stand before the brace, the key and the
/// colon and after the closing brace; whatever stands between the colon and
/// the closing brace is the payload.
pub open spec fn envelope_payload(s: Seq<char>) -> Option<Seq<char>> {
    let open = skip_space(s, 0);
    let key = skip_space(s, open + 1);
    let colon = skip_space(s, key + 3);
    let close = trim_end(s, s.len() as int) - 1;
    if open < s.len() && s[open] == '{' && key + 2 < s.len() && s[key] == '"' && s[key + 1] == '_'
        && s[key + 2] == '"' && colon < s.len() && s[colon] == ':' && colon < close && s[close]
        == '}' {
        Some(s.subrange(colon + 1, close))
    } else {
        None
    }
}

/// Copies the characters of `text` into a vector.
fn chars_of(text: &str) -> (v: Vec<char>)
    ensures
        v@ == text@,
{
    let mut v: Vec<char> = Vec::new();
    for c in it: text.chars()
        invariant
            it.seq() == text@,
            v@ == it.seq().take(it.index()),
    {
        v.push(c);
    }
    v
}

/// Whether a character is JSON white space.
fn is_space_char(c: char) -> (b: bool)
    ensures
        b == is_space(c),
{
    c == ' ' || c == '\t' || c == '\n' || c == '\r'
}

/// The first position at or after `from` that holds no white space.
fn skip_space_in(v: &Vec<char>, from: usize) -> (r: usize)
    requires
        from <= v.len(),
    ensures
        r == skip_space(v@, from as int),
        from <= r <= v.len(),
{
    let mut i: usize = from;
    while i < v.len() && is_space_char(v[i])
        invariant
            from <= i <= v.len(),
            skip_space(v@, from as int) == skip_space(v@, i as int),
        decreases v.len() - i,
    {
        i = i + 1;
    }
    i
}

/// The end of the text once the white space at its end is cut off.
fn trim_end_in(v: &Vec<char>) -> (r: usize)
    ensures
        r == trim_end(v@, v.len() as int),
        r <= v.len(),
{
    let mut i: usize = v.len();
    while i > 0 && is_space_char(v[i - 1])
        invariant
            i <= v.len(),
            trim_end(v@, v.len() as int) == trim_end(v@, i as int),
        decreases i,
    {
        i = i - 1;
    }
    i
}

/// Puts the envelope around a payload text.
pub fn enclose(payload: &str) -> (text: String)
    ensures
        text@ == envelope(payload@),
{
    proof {
        reveal_strlit("{\"_\":");
        reveal_strlit("}");
    }
    let mut text = "{\"_\":".to_owned();
    text.append(payload);
    text.append("}");
    assert(text@ =~= envelope(payload@));
    text
}

/// Takes the payload text out of an envelope; `None` where `text` is no
/// envelope.
pub fn payload_of<'a>(text: &'a str) -> (r: Option<&'a str>)
    ensures
        match r {
            Some(payload) => envelope_payload(text@) == Some(payload@),
            None => envelope_payload(text@) is None,
        },
{
    let v = chars_of(text);
    let n: usize = v.len();
    let open: usize = skip_space_in(&v, 0);
    if open >= n || v[open] != '{' {
        return None;
    }
    let key: usize = skip_space_in(&v, open + 1);
    if n - key < 3 || v[key] != '"' || v[key + 1] != '_' || v[key + 2] != '"' {
        return None;
    }
    let colon: usize = skip_space_in(&v, key + 3);
    if colon >= n || v[colon] != ':' {
        return None;
    }
    let end: usize = trim_end_in(&v);
    if end <= colon || end - colon < 2 || v[end - 1] != '}' {
        return None;
    }
    Some(text.substring_char(colon + 1, end - 1))
}

/// What `decode` may return for a cookie text.
pub open spec fn decoded<T: Payload>(cookie: Seq<char>, r: Result<T, DecodeError>) -> bool {
    match envelope_payload(cookie) {
        None => r == Err::<T, DecodeError>(DecodeError::NotAnEnvelope),
        Some(payload) => match r {
            Ok(value) => T::reads(payload, &value),
            Err(e) => e == DecodeError::BadPayload && forall|value: T| !T::reads(payload, &value),
        },
    }
}

/// Writes a message as cookie text: its JSON text in the envelope. Fails
/// where the message has no JSON text, and only there.
pub fn encode<T: Payload>(value: &T) -> (r: Result<String, EncodeError>)
    ensures
        match r {
            Ok(text) => value.json() matches Some(payload) && text@ == envelope(payload),
            Err(_) => value.json() is None,
        },
{
    match value.to_json() {
        Ok(payload) => Ok(enclose(payload.as_str())),
        Err(e) => Err(e),
    }
}

/// Reads a message from cookie text. Fails with `NotAnEnvelope` where the
/// text is no envelope, and with `BadPayload` where it is one and what it
/// holds stands for no value of `T`.
pub fn decode<T: Payload>(cookie: &str) -> (r: Result<T, DecodeError>)
    ensures
        decoded(cookie@, r),
{
    match payload_of(cookie) {
        None => Err(DecodeError::NotAnEnvelope),
        Some(payload) => match T::from_json(payload) {
            Some(value) => Ok(value),
            None => Err(DecodeError::BadPayload),
        },
    }
}

/// Whether a text is white space throughout.
pub open spec fn all_space(s: Seq<char>) -> bool {
    forall|i: int| 0 <= i < s.len() ==> is_space(#[trigger] s[i])
}

/// An envelope with white space where it may stand: `a` before the brace,
/// `b` before the key, `c` before the colon and `d` after the closing brace.
pub open spec fn spaced_envelope(
    a: Seq<char>,
    b: Seq<char>,
    c: Seq<char>,
    payload: Seq<char>,
    d: Seq<char>,
) -> Seq<char> {
    a + seq!['{'] + b + seq!['"', '_', '"'] + c + seq![':'] + payload + seq!['}'] + d
}

/// Whether `s` is an envelope that holds `payload`, by the grammar: it is
/// made of a brace, the key, a colon, the payload and a brace, with nothing
/// but white space in the four places where white space may stand.
pub open spec fn is_envelope_of(s: Seq<char>, payload: Seq<char>) -> bool {
    exists|a: Seq<char>, b: Seq<char>, c: Seq<char>, d: Seq<char>|
        all_space(a) && all_space(b) && all_space(c) && all_space(d) && s
            == #[trigger] spaced_envelope(a, b, c, payload, d)
}

/// `skip_space` passes over white space only and stops at the first
/// character that is none.
proof fn skip_space_stops(s: Seq<char>, from: int)
    requires
        0 <= from <= s.len(),
    ensures
        from <= skip_space(s, from) <= s.len(),
        forall|i: int| from <= i < skip_space(s, from) ==> is_space(#[trigger] s[i]),
        skip_space(s, from) < s.len() ==> !is_space(s[skip_space(s, from)]),
    decreases s.len() - from,
{
    if from < s.len() && is_space(s[from]) {
        skip_space_stops(s, from + 1);
    }
}

/// `skip_space` passes over a run of white space that ends at `to`.
proof fn skip_space_over(s: Seq<char>, from: int, to: int)
    requires
        0 <= from <= to <= s.len(),
        forall|i: int| from <= i < to ==> is_space(#[trigger] s[i]),
        to < s.len() ==> !is_space(s[to]),
    ensures
        skip_space(s, from) == to,
    decreases to - from,
{
    if from < to {
        skip_space_over(s, from + 1, to);
    }
}

/// `trim_end` cuts white space only and stops behind the last character
/// that is none.
proof fn trim_end_stops(s: Seq<char>, to: int)
    requires
        0 <= to <= s.len(),
    ensures
        0 <= trim_end(s, to) <= to,
        forall|i: int| trim_end(s, to) <= i < to ==> is_space(#[trigger] s[i]),
        trim_end(s, to) > 0 ==> !is_space(s[trim_end(s, to) - 1]),
    decreases to,
{
    if 0 < to && is_space(s[to - 1]) {
        trim_end_stops(s, to - 1);
    }
}

/// `trim_end` cuts a run of white space that begins at `from`.
proof fn trim_end_over(s: Seq<char>, from: int, to: int)
    requires
        0 <= from <= to <= s.len(),
        forall|i: int| from <= i < to ==> is_space(#[trigger] s[i]),
        from > 0 ==> !is_space(s[from - 1]),
    ensures
        trim_end(s, to) == from,
    decreases to - from,
{
    if from < to {
        trim_end_over(s, from, to - 1);
    }
}

/// Where each part of a spaced envelope lies.
proof fn spaced_envelope_parts(
    a: Seq<char>,
    b: Seq<char>,
    c: Seq<char>,
    payload: Seq<char>,
    d: Seq<char>,
)
    requires
        all_space(a),
        all_space(b),
        all_space(c),
        all_space(d),
    ensures
        ({
            let s = spaced_envelope(a, b, c, payload, d);
            let open = a.len() as int;
            let key = open + 1 + b.len();
            let colon = key + 3 + c.len();
            let close = colon + 1 + payload.len();
            &&& s.len() == close + 1 + d.len()
            &&& forall|i: int| 0 <= i < open ==> is_space(#[trigger] s[i])
            &&& s[open] == '{'
            &&& forall|i: int| open + 1 <= i < key ==> is_space(#[trigger] s[i])
            &&& s[key] == '"'
            &&& s[key + 1] == '_'
            &&& s[key + 2] == '"'
            &&& forall|i: int| key + 3 <= i < colon ==> is_space(#[trigger] s[i])
            &&& s[colon] == ':'
            &&& s.subrange(colon + 1, close) == payload
            &&& s[close] == '}'
            &&& forall|i: int| close < i < s.len() ==> is_space(#[trigger] s[i])
        }),
{
    let open = a.len() as int;
    let key = open + 1 + b.len();
    let colon = key + 3 + c.len();
    let close = colon + 1 + payload.len();
    let t1 = a + seq!['{'];
    let t2 = t1 + b;
    let t3 = t2 + seq!['"', '_', '"'];
    let t4 = t3 + c;
    let t5 = t4 + seq![':'];
    let t6 = t5 + payload;
    let t7 = t6 + seq!['}'];
    let s = t7 + d;
    assert(s == spaced_envelope(a, b, c, payload, d));
    assert forall|i: int| 0 <= i < open implies is_space(#[trigger] s[i]) by {
        assert(s[i] == t7[i] && t7[i] == t6[i] && t6[i] == t5[i] && t5[i] == t4[i] && t4[i]
            == t3[i] && t3[i] == t2[i] && t2[i] == t1[i] && t1[i] == a[i]);
    }
    assert(s[open] == '{') by {
        assert(s[open] == t7[open] && t7[open] == t6[open] && t6[open] == t5[open] && t5[open]
            == t4[open] && t4[open] == t3[open] && t3[open] == t2[open] && t2[open] == t1[open]);
    }
    assert forall|i: int| open + 1 <= i < key implies is_space(#[trigger] s[i]) by {
        assert(s[i] == t7[i] && t7[i] == t6[i] && t6[i] == t5[i] && t5[i] == t4[i] && t4[i]
            == t3[i] && t3[i] == t2[i] && t2[i] == b[i - open - 1]);
    }
    assert(s[key] == '"' && s[key + 1] == '_' && s[key + 2] == '"') by {
        assert forall|i: int| key <= i < key + 3 implies s[i] == #[trigger] t3[i] by {
            assert(s[i] == t7[i] && t7[i] == t6[i] && t6[i] == t5[i] && t5[i] == t4[i] && t4[i]
                == t3[i]);
        }
        assert(t3[key] == '"' && t3[key + 1] == '_' && t3[key + 2] == '"');
    }
    assert forall|i: int| key + 3 <= i < colon implies is_space(#[trigger] s[i]) by {
        assert(s[i] == t7[i] && t7[i] == t6[i] && t6[i] == t5[i] && t5[i] == t4[i] && t4[i]
            == c[i - key - 3]);
    }
    assert(s[colon] == ':') by {
        assert(s[colon] == t7[colon] && t7[colon] == t6[colon] && t6[colon] == t5[colon]);
    }
    assert(s.subrange(colon + 1, close) =~= payload) by {
        assert forall|i: int| 0 <= i < payload.len() implies s[colon + 1 + i] == payload[i] by {
            let j = colon + 1 + i;
            assert(s[j] == t7[j] && t7[j] == t6[j] && t6[j] == payload[i]);
        }
    }
    assert(s[close] == '}') by {
        assert(s[close] == t7[close]);
    }
    assert forall|i: int| close < i < s.len() implies is_space(#[trigger] s[i]) by {
        assert(s[i] == d[i - close - 1]);
    }
}

/// Every text that the grammar calls an envelope of `payload` is one to
/// `envelope_payload`.
proof fn grammar_gives_payload(s: Seq<char>, payload: Seq<char>)
    requires
        is_envelope_of(s, payload),
    ensures
        envelope_payload(s) == Some(payload),
{
    let (a, b, c, d) = choose|a: Seq<char>, b: Seq<char>, c: Seq<char>, d: Seq<char>|
        all_space(a) && all_space(b) && all_space(c) && all_space(d) && s
            == #[trigger] spaced_envelope(a, b, c, payload, d);
    spaced_envelope_parts(a, b, c, payload, d);
    let n = s.len() as int;
    let open = a.len() as int;
    let key = open + 1 + b.len();
    let colon = key + 3 + c.len();
    let close = colon + 1 + payload.len();
    skip_space_over(s, 0, open);
    skip_space_over(s, open + 1, key);
    skip_space_over(s, key + 3, colon);
    trim_end_over(s, close + 1, n);
}

/// Every text that `envelope_payload` takes a payload from is an envelope of
/// it by the grammar.
proof fn payload_gives_grammar(s: Seq<char>, payload: Seq<char>)
    requires
        envelope_payload(s) == Some(payload),
    ensures
        is_envelope_of(s, payload),
{
    let n = s.len() as int;
    let open = skip_space(s, 0);
    let key = skip_space(s, open + 1);
    let colon = skip_space(s, key + 3);
    let end = trim_end(s, n);
    skip_space_stops(s, 0);
    skip_space_stops(s, open + 1);
    skip_space_stops(s, key + 3);
    trim_end_stops(s, n);
    let a = s.subrange(0, open);
    let b = s.subrange(open + 1, key);
    let c = s.subrange(key + 3, colon);
    let d = s.subrange(end, n);
    assert(payload == s.subrange(colon + 1, end - 1));
    let t1 = a + seq!['{'];
    let t2 = t1 + b;
    let t3 = t2 + seq!['"', '_', '"'];
    let t4 = t3 + c;
    let t5 = t4 + seq![':'];
    let t6 = t5 + payload;
    let t7 = t6 + seq!['}'];
    let t8 = t7 + d;
    assert(t1 =~= s.subrange(0, open + 1));
    assert(t2 =~= s.subrange(0, key));
    assert(t3 =~= s.subrange(0, key + 3));
    assert(t4 =~= s.subrange(0, colon));
    assert(t5 =~= s.subrange(0, colon + 1));
    assert(t6 =~= s.subrange(0, end - 1));
    assert(t7 =~= s.subrange(0, end));
    assert(t8 =~= s);
    assert(s == spaced_envelope(a, b, c, payload, d));
    assert(all_space(a) && all_space(b) && all_space(c) && all_space(d));
}

/// The payload of an envelope is found exactly where the grammar puts it:
/// `envelope_payload` gives `payload` for `s` if and only if `s` is an
/// envelope that holds `payload`.
pub proof fn envelope_payload_is_grammar(s: Seq<char>, payload: Seq<char>)
    ensures
        envelope_payload(s) == Some(payload) <==> is_envelope_of(s, payload),
{
    if envelope_payload(s) == Some(payload) {
        payload_gives_grammar(s, payload);
    }
    if is_envelope_of(s, payload) {
        grammar_gives_payload(s, payload);
    }
}

/// The envelope loses nothing: the payload of the envelope around a text is
/// that text, whatever the text is.
pub proof fn envelope_round_trip(payload: Seq<char>)
    ensures
        envelope_payload(envelope(payload)) == Some(payload),
{
    let s = envelope(payload);
    assert(s.len() == payload.len() + 6);
    assert(s[0] == '{' && s[1] == '"' && s[2] == '_' && s[3] == '"' && s[4] == ':');
    assert(s[s.len() - 1] == '}');
    assert(skip_space(s, 0) == 0);
    assert(skip_space(s, 1) == 1);
    assert(skip_space(s, 4) == 4);
    assert(trim_end(s, s.len() as int) == s.len());
    assert(s.subrange(5, s.len() - 1) =~= payload);
}

/// Decoding what `encode` wrote never fails and gives a value that the
/// message's own JSON text stands for: for a message `value` with JSON text
/// `payload` that reads back as `value`, every result of `decode` on the
/// envelope around `payload` is a value that `payload` stands for. Where
/// `payload` stands for `value` alone, that value is `value`.
pub proof fn round_trip<T: Payload>(value: T, payload: Seq<char>, r: Result<T, DecodeError>)
    requires
        value.json() == Some(payload),
        T::reads(payload, &value),
        decoded(envelope(payload), r),
    ensures
        r matches Ok(back) && T::reads(payload, &back),
        (forall|other: T| T::reads(payload, &other) ==> other == value) ==> r == Ok::<
            T,
            DecodeError,
        >(value),
{
    envelope_round_trip(payload);
    match r {
        Ok(back) => {
            assert(T::reads(payload, &back));
        },
        Err(_) => {
            assert(forall|other: T| !T::reads(envelope_payload(envelope(payload))->Some_0, &other));
            assert(!T::reads(payload, &value));
        },
    }
}

} // verus!
