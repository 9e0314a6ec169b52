//! The wire format of the per-tick request.
//!
//! Each tick posts one JSON object with three string fields — `id` (the
//! caller name), `cmdIdRe` (the filter pattern, forwarded as an opaque
//! string, never evaluated here) and `cmd` (the command text) — with no
//! spacing between tokens.  The object is framed byte by byte against the
//! spec functions below: field bytes pass through unchanged except that the
//! quote and the backslash are backslash-escaped, the usual control
//! characters get their short escapes, and any other control byte becomes
//! `\u00` followed by two lowercase hex digits.  Bytes above the control
//! range, multi-byte UTF-8 included, stand for themselves.

use vstd::prelude::*;

verus! {

/// The byte of the lowercase hex digit for `d`, for `d < 16`.
pub open spec fn hex_digit(d: u8) -> u8
    recommends
        d < 16,
{
    if d < 10 {
        (0x30 + d) as u8
    } else {
        (0x57 + d) as u8
    }
}

/// How one field byte stands inside a JSON string.
pub open spec fn escaped_byte(b: u8) -> Seq<u8> {
    if b == 0x22 {  // "
        seq![0x5cu8, 0x22]
    } else if b == 0x5c {  // backslash
        seq![0x5cu8, 0x5c]
    } else if b == 0x08 {  // backspace
        seq![0x5cu8, 0x62]
    } else if b == 0x09 {  // tab
        seq![0x5cu8, 0x74]
    } else if b == 0x0a {  // line feed
        seq![0x5cu8, 0x6e]
    } else if b == 0x0c {  // form feed
        seq![0x5cu8, 0x66]
    } else if b == 0x0d {  // carriage return
        seq![0x5cu8, 0x72]
    } else if b < 0x20 {  // other control bytes: \u00 and two hex digits
        seq![0x5cu8, 0x75, 0x30, 0x30, hex_digit(b / 16), hex_digit(b % 16)]
    } else {
        seq![b]
    }
}

/// A whole field, escaped byte for byte.
pub open spec fn escaped(s: Seq<u8>) -> Seq<u8>
    decreases s.len(),
{
    if s.len() == 0 {
        Seq::empty()
    } else {
        escaped_byte(s[0]) + escaped(s.drop_first())
    }
}

/// Escaping works bytewise: escaping one more byte appends that byte's escape.
pub proof fn lemma_escaped_push(s: Seq<u8>, b: u8)
    ensures
        escaped(s.push(b)) == escaped(s) + escaped_byte(b),
    decreases s.len(),
{
    if s.len() == 0 {
        assert(s.push(b)[0] == b);
        assert(s.push(b).drop_first() =~= Seq::<u8>::empty());
        assert(escaped(Seq::<u8>::empty()) =~= Seq::<u8>::empty());
        assert(escaped(s.push(b)) == escaped_byte(b) + escaped(Seq::<u8>::empty()));
        assert(escaped(s.push(b)) =~= escaped(s) + escaped_byte(b));
    } else {
        assert(s.push(b)[0] == s[0]);
        assert(s.push(b).drop_first() =~= s.drop_first().push(b));
        lemma_escaped_push(s.drop_first(), b);
        assert(escaped(s.push(b)) =~= escaped(s) + escaped_byte(b));
    }
}

/// A JSON string: a quote, the escaped bytes, a quote.
pub open spec fn json_string(s: Seq<u8>) -> Seq<u8> {
    seq![0x22u8] + escaped(s) + seq![0x22u8]
}

/// The opening brace and the first key: `{"id":`
pub open spec fn key_id() -> Seq<u8> {
    seq![0x7bu8, 0x22, 0x69, 0x64, 0x22, 0x3a]
}

/// The second key with its separating comma: `,"cmdIdRe":`
pub open spec fn key_cmd_id_re() -> Seq<u8> {
    seq![0x2cu8, 0x22, 0x63, 0x6d, 0x64, 0x49, 0x64, 0x52, 0x65, 0x22, 0x3a]
}

/// The third key with its separating comma: `,"cmd":`
pub open spec fn key_cmd() -> Seq<u8> {
    seq![0x2cu8, 0x22, 0x63, 0x6d, 0x64, 0x22, 0x3a]
}

/// The serialized request payload:
/// `{"id":<id>,"cmdIdRe":<pattern>,"cmd":<command>}`,
/// each field a JSON string.
pub open spec fn payload_bytes(id: Seq<u8>, cmd_id_re: Seq<u8>, cmd: Seq<u8>) -> Seq<u8> {
    key_id() + json_string(id) + key_cmd_id_re() + json_string(cmd_id_re) + key_cmd()
        + json_string(cmd) + seq![0x7du8]
}

/// The lowercase hex digit for `d`.
fn hex_digit_byte(d: u8) -> (r: u8)
    requires
        d < 16,
    ensures
        r == hex_digit(d),
{
    if d < 10 {
        0x30 + d
    } else {
        0x57 + d
    }
}

/// Append the escape of one field byte.
fn push_escaped_byte(out: &mut Vec<u8>, b: u8)
    ensures
        final(out)@ == old(out)@ + escaped_byte(b),
{
    if b == 0x22 {
        out.push(0x5c);
        out.push(0x22);
    } else if b == 0x5c {
        out.push(0x5c);
        out.push(0x5c);
    } else if b == 0x08 {
        out.push(0x5c);
        out.push(0x62);
    } else if b == 0x09 {
        out.push(0x5c);
        out.push(0x74);
    } else if b == 0x0a {
        out.push(0x5c);
        out.push(0x6e);
    } else if b == 0x0c {
        out.push(0x5c);
        out.push(0x66);
    } else if b == 0x0d {
        out.push(0x5c);
        out.push(0x72);
    } else if b < 0x20 {
        out.push(0x5c);
        out.push(0x75);
        out.push(0x30);
        out.push(0x30);
        out.push(hex_digit_byte(b / 16));
        out.push(hex_digit_byte(b % 16));
    } else {
        out.push(b);
    }
    assert(out@ =~= old(out)@ + escaped_byte(b));
}

/// Append a whole field as a JSON string.
fn push_json_string(out: &mut Vec<u8>, s: &Vec<u8>)
    ensures
        final(out)@ == old(out)@ + json_string(s@),
{
    out.push(0x22);
    assert(out@ =~= old(out)@ + seq![0x22u8] + escaped(s@.take(0)));
    let mut i: usize = 0;
    while i < s.len()
        invariant
            i <= s.len(),
            out@ == old(out)@ + seq![0x22u8] + escaped(s@.take(i as int)),
        decreases s.len() - i,
    {
        proof {
            s@.lemma_take_succ_push(i as int);
            lemma_escaped_push(s@.take(i as int), s@[i as int]);
        }
        push_escaped_byte(out, s[i]);
        assert(out@ =~= old(out)@ + seq![0x22u8] + escaped(s@.take(i as int + 1)));
        i += 1;
    }
    assert(s@.take(s@.len() as int) =~= s@);
    out.push(0x22);
    assert(out@ =~= old(out)@ + json_string(s@));
}

/// Serialize the request payload built from the caller name, the filter
/// pattern and the command text.
pub fn encode_payload(id: &Vec<u8>, cmd_id_re: &Vec<u8>, cmd: &Vec<u8>) -> (r: Vec<u8>)
    ensures
        r@ == payload_bytes(id@, cmd_id_re@, cmd@),
{
    let mut out: Vec<u8> = Vec::new();
    out.push(0x7b);
    out.push(0x22);
    out.push(0x69);
    out.push(0x64);
    out.push(0x22);
    out.push(0x3a);
    assert(out@ =~= key_id());
    push_json_string(&mut out, id);
    out.push(0x2c);
    out.push(0x22);
    out.push(0x63);
    out.push(0x6d);
    out.push(0x64);
    out.push(0x49);
    out.push(0x64);
    out.push(0x52);
    out.push(0x65);
    out.push(0x22);
    out.push(0x3a);
    assert(out@ =~= key_id() + json_string(id@) + key_cmd_id_re());
    push_json_string(&mut out, cmd_id_re);
    out.push(0x2c);
    out.push(0x22);
    out.push(0x63);
    out.push(0x6d);
    out.push(0x64);
    out.push(0x22);
    out.push(0x3a);
    assert(out@ =~= key_id() + json_string(id@) + key_cmd_id_re() + json_string(cmd_id_re@)
        + key_cmd());
    push_json_string(&mut out, cmd);
    out.push(0x7d);
    assert(out@ =~= payload_bytes(id@, cmd_id_re@, cmd@));
    out
}

} // verus!
