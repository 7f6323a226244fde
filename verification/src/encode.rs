//! Building blocks for writing JSON request bodies.
//!
//! Bodies are assembled as character vectors.  Every helper has an exact
//! specification: the serialized form of a request is pinned character by
//! character.  String contents are escaped the way common JSON writers do:
//! quote and backslash get a backslash escape, the named control characters
//! get their short escapes, the remaining control characters a `\u00XX`
//! escape, and everything else stays as it is.

use vstd::prelude::*;

verus! {

/// The lowercase digit character for one value below sixteen.
pub open spec fn digit(n: int) -> char {
    if n == 0 {
        '0'
    } else if n == 1 {
        '1'
    } else if n == 2 {
        '2'
    } else if n == 3 {
        '3'
    } else if n == 4 {
        '4'
    } else if n == 5 {
        '5'
    } else if n == 6 {
        '6'
    } else if n == 7 {
        '7'
    } else if n == 8 {
        '8'
    } else if n == 9 {
        '9'
    } else if n == 10 {
        'a'
    } else if n == 11 {
        'b'
    } else if n == 12 {
        'c'
    } else if n == 13 {
        'd'
    } else if n == 14 {
        'e'
    } else {
        'f'
    }
}

/// The digit character, as executable code.
pub fn digit_char(n: u32) -> (r: char)
    requires
        n < 16,
    ensures
        r == digit(n as int),
{
    if n == 0 {
        '0'
    } else if n == 1 {
        '1'
    } else if n == 2 {
        '2'
    } else if n == 3 {
        '3'
    } else if n == 4 {
        '4'
    } else if n == 5 {
        '5'
    } else if n == 6 {
        '6'
    } else if n == 7 {
        '7'
    } else if n == 8 {
        '8'
    } else if n == 9 {
        '9'
    } else if n == 10 {
        'a'
    } else if n == 11 {
        'b'
    } else if n == 12 {
        'c'
    } else if n == 13 {
        'd'
    } else if n == 14 {
        'e'
    } else {
        'f'
    }
}

/// The escape of one character inside a JSON string literal.
pub open spec fn esc_char(c: char) -> Seq<char> {
    if c == '"' {
        seq!['\\', '"']
    } else if c == '\\' {
        seq!['\\', '\\']
    } else if c == '\u{08}' {
        seq!['\\', 'b']
    } else if c == '\u{0C}' {
        seq!['\\', 'f']
    } else if c == '\n' {
        seq!['\\', 'n']
    } else if c == '\r' {
        seq!['\\', 'r']
    } else if c == '\t' {
        seq!['\\', 't']
    } else if (c as u32) < 0x20 {
        seq!['\\', 'u', '0', '0', digit((c as u32 / 16) as int), digit((c as u32 % 16) as int)]
    } else {
        seq![c]
    }
}

/// The escape of a whole text.
pub open spec fn esc(s: Seq<char>) -> Seq<char>
    decreases s.len(),
{
    if s.len() == 0 {
        Seq::empty()
    } else {
        esc(s.drop_last()) + esc_char(s.last())
    }
}

/// A JSON string literal: quotes around the escaped text.
pub open spec fn quoted(s: Seq<char>) -> Seq<char> {
    seq!['"'] + esc(s) + seq!['"']
}

/// Appends the escape of one character.
fn push_esc_char(out: &mut Vec<char>, c: char)
    ensures
        final(out)@ == old(out)@ + esc_char(c),
{
    if c == '"' {
        out.push('\\');
        out.push('"');
        proof {
            assert(out@ =~= old(out)@ + esc_char(c));
        }
    } else if c == '\\' {
        out.push('\\');
        out.push('\\');
        proof {
            assert(out@ =~= old(out)@ + esc_char(c));
        }
    } else if c == '\u{08}' {
        out.push('\\');
        out.push('b');
        proof {
            assert(out@ =~= old(out)@ + esc_char(c));
        }
    } else if c == '\u{0C}' {
        out.push('\\');
        out.push('f');
        proof {
            assert(out@ =~= old(out)@ + esc_char(c));
        }
    } else if c == '\n' {
        out.push('\\');
        out.push('n');
        proof {
            assert(out@ =~= old(out)@ + esc_char(c));
        }
    } else if c == '\r' {
        out.push('\\');
        out.push('r');
        proof {
            assert(out@ =~= old(out)@ + esc_char(c));
        }
    } else if c == '\t' {
        out.push('\\');
        out.push('t');
        proof {
            assert(out@ =~= old(out)@ + esc_char(c));
        }
    } else {
        let u = c as u32;
        if u < 0x20 {
            out.push('\\');
            out.push('u');
            out.push('0');
            out.push('0');
            out.push(digit_char(u / 16));
            out.push(digit_char(u % 16));
            proof {
                assert(out@ =~= old(out)@ + esc_char(c));
            }
        } else {
            out.push(c);
            proof {
                assert(out@ =~= old(out)@ + esc_char(c));
            }
        }
    }
}

/// Appends a JSON string literal holding the text of `s`.
pub fn push_quoted(out: &mut Vec<char>, s: &str)
    ensures
        final(out)@ == old(out)@ + quoted(s@),
{
    out.push('"');
    let cs = crate::text::string_to_chars(s);
    let mut i: usize = 0;
    while i < cs.len()
        invariant
            i <= cs.len(),
            cs@ == s@,
            out@ == old(out)@ + seq!['"'] + esc(s@.subrange(0, i as int)),
        decreases cs.len() - i,
    {
        let c = cs[i];
        push_esc_char(out, c);
        i = i + 1;
        proof {
            let pre = s@.subrange(0, i as int);
            assert(pre.drop_last() =~= s@.subrange(0, i - 1));
            assert(pre.last() == c);
            assert(out@ =~= old(out)@ + seq!['"'] + esc(pre));
        }
    }
    out.push('"');
    proof {
        assert(s@.subrange(0, s@.len() as int) =~= s@);
        assert(out@ =~= old(out)@ + quoted(s@));
    }
}

/// The decimal form of one byte, without leading zeros.
pub open spec fn dec_u8(n: u8) -> Seq<char> {
    if n < 10 {
        seq![digit(n as int)]
    } else if n < 100 {
        seq![digit(n as int / 10), digit(n as int % 10)]
    } else {
        seq![digit(n as int / 100), digit((n as int / 10) % 10), digit(n as int % 10)]
    }
}

/// Appends the decimal form of one byte.
pub fn push_dec_u8(out: &mut Vec<char>, n: u8)
    ensures
        final(out)@ == old(out)@ + dec_u8(n),
{
    if n < 10 {
        out.push(digit_char(n as u32));
        proof {
            assert(out@ =~= old(out)@ + dec_u8(n));
        }
    } else if n < 100 {
        out.push(digit_char(n as u32 / 10));
        out.push(digit_char(n as u32 % 10));
        proof {
            assert(out@ =~= old(out)@ + dec_u8(n));
        }
    } else {
        out.push(digit_char(n as u32 / 100));
        out.push(digit_char((n as u32 / 10) % 10));
        out.push(digit_char(n as u32 % 10));
        proof {
            assert(out@ =~= old(out)@ + dec_u8(n));
        }
    }
}

/// The pieces joined with commas between them.
pub open spec fn comma_join(parts: Seq<Seq<char>>) -> Seq<char>
    decreases parts.len(),
{
    if parts.len() == 0 {
        Seq::empty()
    } else if parts.len() == 1 {
        parts[0]
    } else {
        comma_join(parts.drop_last()) + seq![','] + parts.last()
    }
}

/// A JSON array of string literals.
pub open spec fn string_array(elems: Seq<Seq<char>>) -> Seq<char> {
    seq!['['] + comma_join(elems.map_values(|e: Seq<char>| quoted(e))) + seq![']']
}

/// Appends a JSON array holding the strings of `elems`, in order.
pub fn push_string_array(out: &mut Vec<char>, elems: &Vec<String>)
    ensures
        final(out)@ == old(out)@ + string_array(elems.deep_view()),
{
    out.push('[');
    let ghost dv = elems.deep_view();
    let mut i: usize = 0;
    while i < elems.len()
        invariant
            i <= elems.len(),
            dv == elems.deep_view(),
            dv.len() == elems@.len(),
            forall|j: int| 0 <= j < elems@.len() ==> dv[j] == elems@[j]@,
            out@ == old(out)@ + seq!['['] + comma_join(
                dv.subrange(0, i as int).map_values(|e: Seq<char>| quoted(e)),
            ),
        decreases elems.len() - i,
    {
        if i > 0 {
            out.push(',');
        }
        push_quoted(out, elems[i].as_str());
        i = i + 1;
        proof {
            let q = |e: Seq<char>| quoted(e);
            let part = dv.subrange(0, i as int).map_values(q);
            let prev = dv.subrange(0, i - 1).map_values(q);
            assert(part.drop_last() =~= prev);
            assert(part.last() == quoted(dv[i - 1]));
            if i == 1 {
                assert(comma_join(part) == quoted(dv[0]));
            }
            assert(out@ =~= old(out)@ + seq!['['] + comma_join(part));
        }
    }
    out.push(']');
    proof {
        assert(dv.subrange(0, dv.len() as int) =~= dv);
        assert(out@ =~= old(out)@ + string_array(dv));
    }
}

/// A JSON array of byte values in decimal.
pub open spec fn byte_array(bytes: Seq<u8>) -> Seq<char> {
    seq!['['] + comma_join(bytes.map_values(|b: u8| dec_u8(b))) + seq![']']
}

/// Appends a JSON array holding the bytes of `bytes`, in order and in
/// decimal.
pub fn push_byte_array(out: &mut Vec<char>, bytes: &Vec<u8>)
    ensures
        final(out)@ == old(out)@ + byte_array(bytes@),
{
    out.push('[');
    let mut i: usize = 0;
    while i < bytes.len()
        invariant
            i <= bytes.len(),
            out@ == old(out)@ + seq!['['] + comma_join(
                bytes@.subrange(0, i as int).map_values(|b: u8| dec_u8(b)),
            ),
        decreases bytes.len() - i,
    {
        if i > 0 {
            out.push(',');
        }
        push_dec_u8(out, bytes[i]);
        i = i + 1;
        proof {
            let d = |b: u8| dec_u8(b);
            let part = bytes@.subrange(0, i as int).map_values(d);
            let prev = bytes@.subrange(0, i - 1).map_values(d);
            assert(part.drop_last() =~= prev);
            assert(part.last() == dec_u8(bytes@[i - 1]));
            if i == 1 {
                assert(comma_join(part) == dec_u8(bytes@[0]));
            }
            assert(out@ =~= old(out)@ + seq!['['] + comma_join(part));
        }
    }
    out.push(']');
    proof {
        assert(bytes@.subrange(0, bytes@.len() as int) =~= bytes@);
        assert(out@ =~= old(out)@ + byte_array(bytes@));
    }
}

} // verus!
