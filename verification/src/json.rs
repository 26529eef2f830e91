//! Building JSON request bodies as bytes. ACME request bodies are
//! constructed, never parsed, by this crate, so only an encoder is needed:
//! JSON string literals with the escaping RFC 8259 requires (quote,
//! backslash, and control characters), and helpers to append literal
//! fragments with exact contracts.
use vstd::prelude::*;

use vstd::string::StringSliceAdditionalSpecFns;

verus! {

/// The byte encoding of a string literal fragment (all fragments this crate
/// uses are ASCII, so this is one byte per character).
pub open spec fn lit_bytes(s: &str) -> Seq<u8> {
    s.spec_bytes()
}

/// The lower-case hexadecimal digit for a value below 16.
pub open spec fn hex_digit(n: u8) -> u8
    recommends
        n < 16,
{
    if n < 10 {
        (48 + n) as u8
    } else {
        (87 + n) as u8
    }
}

fn hex_digit_exec(n: u8) -> (r: u8)
    requires
        n < 16,
    ensures
        r == hex_digit(n),
{
    if n < 10 {
        48 + n
    } else {
        87 + n
    }
}

/// How one byte of a string appears inside a JSON string literal: quote and
/// backslash are escaped, control bytes become `\u00XX`, and every other
/// byte (including every byte of a multi-byte UTF-8 character) is itself.
pub open spec fn esc_byte(b: u8) -> Seq<u8> {
    if b == 34 {
        seq![92u8, 34u8]
    } else if b == 92 {
        seq![92u8, 92u8]
    } else if b < 32 {
        seq![92u8, 117u8, 48u8, 48u8, hex_digit(b / 16), hex_digit(b % 16)]
    } else {
        seq![b]
    }
}

/// A byte sequence escaped for use inside a JSON string literal.
pub open spec fn json_escaped(s: Seq<u8>) -> Seq<u8>
    decreases s.len(),
{
    if s.len() == 0 {
        Seq::empty()
    } else {
        esc_byte(s[0]) + json_escaped(s.drop_first())
    }
}

/// A JSON string literal: the escaped bytes between double quotes.
pub open spec fn json_str(s: Seq<u8>) -> Seq<u8> {
    seq![34u8] + json_escaped(s) + seq![34u8]
}

pub proof fn lemma_json_escaped_concat(s: Seq<u8>, t: Seq<u8>)
    ensures
        json_escaped(s + t) == json_escaped(s) + json_escaped(t),
    decreases s.len(),
{
    if s.len() == 0 {
        assert(s + t =~= t);
        assert(json_escaped(s) + json_escaped(t) =~= json_escaped(t));
    } else {
        assert((s + t).drop_first() =~= s.drop_first() + t);
        lemma_json_escaped_concat(s.drop_first(), t);
        assert(json_escaped(s + t) =~= json_escaped(s) + json_escaped(t));
    }
}

/// Append the bytes of a literal fragment.
pub fn push_lit(out: &mut Vec<u8>, s: &str)
    ensures
        final(out)@ == old(out)@ + lit_bytes(s),
{
    out.extend_from_slice(s.as_bytes());
}

/// Append the escaped bytes of a string.
pub fn push_json_escaped(out: &mut Vec<u8>, s: &[u8])
    ensures
        final(out)@ == old(out)@ + json_escaped(s@),
{
    let ghost orig = out@;
    let mut i: usize = 0;
    while i < s.len()
        invariant
            i <= s@.len(),
            out@ == orig + json_escaped(s@.take(i as int)),
        decreases s@.len() - i,
    {
        let b = s[i];
        if b == 34 {
            out.push(92);
            out.push(34);
        } else if b == 92 {
            out.push(92);
            out.push(92);
        } else if b < 32 {
            out.push(92);
            out.push(117);
            out.push(48);
            out.push(48);
            out.push(hex_digit_exec(b / 16));
            out.push(hex_digit_exec(b % 16));
        } else {
            out.push(b);
        }
        proof {
            let pre = s@.take(i as int);
            lemma_json_escaped_concat(pre, seq![s@[i as int]]);
            assert(seq![s@[i as int]].drop_first() =~= Seq::<u8>::empty());
            assert(json_escaped(Seq::<u8>::empty()) =~= Seq::<u8>::empty());
            assert(seq![s@[i as int]][0] == s@[i as int]);
            assert(json_escaped(seq![s@[i as int]]) =~= esc_byte(s@[i as int]) + json_escaped(
                seq![s@[i as int]].drop_first(),
            ));
            assert(json_escaped(seq![s@[i as int]]) =~= esc_byte(s@[i as int]));
            assert(s@.take(i + 1int) =~= pre + seq![s@[i as int]]);
            assert(out@ =~= orig + json_escaped(s@.take(i + 1int)));
        }
        i = i + 1;
    }
    proof {
        assert(s@.take(s@.len() as int) =~= s@);
    }
}

/// Append a complete JSON string literal for `s`.
pub fn push_json_str(out: &mut Vec<u8>, s: &str)
    ensures
        final(out)@ == old(out)@ + json_str(s.spec_bytes()),
{
    out.push(34);
    push_json_escaped(out, s.as_bytes());
    out.push(34);
    proof {
        assert(out@ =~= old(out)@ + json_str(s.spec_bytes()));
    }
}

/// The JSON spelling of a boolean.
pub open spec fn bool_json(b: bool) -> Seq<u8> {
    if b {
        lit_bytes("true")
    } else {
        lit_bytes("false")
    }
}

/// Append `true` or `false`.
pub fn push_bool(out: &mut Vec<u8>, b: bool)
    ensures
        final(out)@ == old(out)@ + bool_json(b),
{
    if b {
        push_lit(out, "true");
    } else {
        push_lit(out, "false");
    }
}

} // verus!
