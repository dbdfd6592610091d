//! The JSON error body sent back to browsers, built and escaped byte by
//! byte: `{"errors":["...","..."]}`.

use vstd::prelude::*;

use crate::util::push_all;

verus! {

/// Lowercase hex digit byte for a value below 16.
pub open spec fn spec_hex_digit_u8(n: u8) -> u8
    recommends
        n < 16,
{
    if n < 10 {
        (0x30 + n) as u8
    } else {
        (0x57 + n) as u8
    }
}

/// The escape of one byte inside a JSON string: quote and backslash get a
/// backslash, the named control characters get their short escapes, other
/// control bytes get `\u00xx`, everything else stands for itself.
pub open spec fn spec_escape_byte(b: u8) -> Seq<u8> {
    if b == 0x22 {
        seq![0x5cu8, 0x22u8]
    } else if b == 0x5c {
        seq![0x5cu8, 0x5cu8]
    } else if b == 0x08 {
        seq![0x5cu8, 0x62u8]
    } else if b == 0x09 {
        seq![0x5cu8, 0x74u8]
    } else if b == 0x0a {
        seq![0x5cu8, 0x6eu8]
    } else if b == 0x0c {
        seq![0x5cu8, 0x66u8]
    } else if b == 0x0d {
        seq![0x5cu8, 0x72u8]
    } else if b < 0x20 {
        seq![0x5cu8, 0x75u8, 0x30u8, 0x30u8, spec_hex_digit_u8(b >> 4), spec_hex_digit_u8(b & 0xf)]
    } else {
        seq![b]
    }
}

/// The escape of the first `i` bytes of `s`.
pub open spec fn spec_escape_prefix(s: Seq<u8>, i: int) -> Seq<u8>
    recommends
        0 <= i <= s.len(),
    decreases i,
{
    if i <= 0 {
        Seq::empty()
    } else {
        spec_escape_prefix(s, i - 1) + spec_escape_byte(s[i - 1])
    }
}

/// The JSON string escape of `s`.
pub open spec fn spec_json_escape(s: Seq<u8>) -> Seq<u8> {
    spec_escape_prefix(s, s.len() as int)
}

/// A quoted, escaped JSON string.
pub open spec fn spec_json_string(s: Seq<u8>) -> Seq<u8> {
    seq![0x22u8] + spec_json_escape(s) + seq![0x22u8]
}

/// The first `j` messages rendered as a comma-separated list of JSON
/// strings.
pub open spec fn spec_items_prefix(msgs: Seq<Seq<u8>>, j: int) -> Seq<u8>
    recommends
        0 <= j <= msgs.len(),
    decreases j,
{
    if j <= 0 {
        Seq::empty()
    } else if j == 1 {
        spec_json_string(msgs[0])
    } else {
        spec_items_prefix(msgs, j - 1) + seq![0x2cu8] + spec_json_string(msgs[j - 1])
    }
}

/// The bytes of `{"errors":[`.
pub open spec fn spec_errors_open() -> Seq<u8> {
    seq![
        0x7bu8,
        0x22u8,
        0x65u8,
        0x72u8,
        0x72u8,
        0x6fu8,
        0x72u8,
        0x73u8,
        0x22u8,
        0x3au8,
        0x5bu8,
    ]
}

/// The whole error body: `{"errors":[` messages `]}`.
pub open spec fn spec_errors_json(msgs: Seq<Seq<u8>>) -> Seq<u8> {
    spec_errors_open() + spec_items_prefix(msgs, msgs.len() as int) + seq![0x5du8, 0x7du8]
}

/// Append the escape of `s` to `out`.
fn push_escaped(out: &mut Vec<u8>, s: &[u8])
    ensures
        final(out)@ == old(out)@ + spec_json_escape(s@),
{
    let n = s.len();
    let mut i: usize = 0;
    while i < n
        invariant
            n == s@.len(),
            0 <= i <= n,
            out@ == old(out)@ + spec_escape_prefix(s@, i as int),
        decreases n - i,
    {
        let b = s[i];
        if b == 0x22 {
            out.push(0x5c);
            out.push(0x22);
        } else if b == 0x5c {
            out.push(0x5c);
            out.push(0x5c);
        } else if b == 0x08 {
            out.push(0x5c);
            out.push(0x62);
        } else if b == 0x09 {
            out.push(0x5c);
            out.push(0x74);
        } else if b == 0x0a {
            out.push(0x5c);
            out.push(0x6e);
        } else if b == 0x0c {
            out.push(0x5c);
            out.push(0x66);
        } else if b == 0x0d {
            out.push(0x5c);
            out.push(0x72);
        } else if b < 0x20 {
            out.push(0x5c);
            out.push(0x75);
            out.push(0x30);
            out.push(0x30);
            assert(b >> 4 < 16 && b & 0xf < 16) by (bit_vector);
            let hi = b >> 4;
            let lo = b & 0xf;
            out.push(if hi < 10 { 0x30 + hi } else { 0x57 + hi });
            out.push(if lo < 10 { 0x30 + lo } else { 0x57 + lo });
        } else {
            out.push(b);
        }
        proof {
            assert(out@ =~= old(out)@ + spec_escape_prefix(s@, i + 1));
        }
        i += 1;
    }
}

/// Append a quoted, escaped JSON string to `out`.
fn push_json_string(out: &mut Vec<u8>, s: &[u8])
    ensures
        final(out)@ == old(out)@ + spec_json_string(s@),
{
    out.push(0x22);
    push_escaped(out, s);
    out.push(0x22);
    proof {
        assert(out@ =~= old(out)@ + spec_json_string(s@));
    }
}

/// Build the `{"errors":[...]}` body for a list of messages.
pub fn errors_json(msgs: &Vec<Vec<u8>>) -> (r: Vec<u8>)
    ensures
        r@ == spec_errors_json(msgs@.map_values(|m: Vec<u8>| m@)),
{
    let ghost view = msgs@.map_values(|m: Vec<u8>| m@);
    let mut out: Vec<u8> = Vec::new();
    push_all(&mut out, &[0x7b, 0x22, 0x65, 0x72, 0x72, 0x6f, 0x72, 0x73, 0x22, 0x3a, 0x5b]);
    proof {
        assert(out@ =~= spec_errors_open());
    }
    let n = msgs.len();
    let mut j: usize = 0;
    while j < n
        invariant
            n == msgs@.len(),
            view == msgs@.map_values(|m: Vec<u8>| m@),
            0 <= j <= n,
            out@ == spec_errors_open() + spec_items_prefix(view, j as int),
        decreases n - j,
    {
        if j > 0 {
            out.push(0x2c);
        }
        push_json_string(&mut out, msgs[j].as_slice());
        proof {
            assert(view[j as int] == msgs@[j as int]@);
            assert(out@ =~= spec_errors_open() + spec_items_prefix(view, j + 1));
        }
        j += 1;
    }
    out.push(0x5d);
    out.push(0x7d);
    proof {
        assert(out@ =~= spec_errors_json(view));
    }
    out
}

} // verus!
