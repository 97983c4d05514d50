//! The canonical text that is hashed and signed.
//!
//! Blocks and transactions are hashed over a compact JSON rendering: arrays
//! and objects without white space, integers in decimal, strings in double
//! quotes with the escapes that JSON requires. The rendering is fixed byte
//! for byte; changing it invalidates every stored hash and signature.

use crate::hexfmt::hex_digit;
use vstd::prelude::*;

verus! {

/// The decimal digits of `n`, most significant first, without leading zeros.
pub open spec fn decimal(n: nat) -> Seq<u8>
    decreases n,
{
    if n < 10 {
        seq![(48 + n) as u8]
    } else {
        decimal(n / 10).push((48 + n % 10) as u8)
    }
}

/// The decimal rendering of a signed integer: a minus sign before the
/// digits of a negative number.
pub open spec fn signed_decimal(v: int) -> Seq<u8> {
    if v < 0 {
        seq!['-' as u8] + decimal((-v) as nat)
    } else {
        decimal(v as nat)
    }
}

/// How one byte of a string appears between the quotes: the quote, the
/// backslash and the bytes below `0x20` are escaped, every other byte stands
/// for itself.
pub open spec fn escaped_byte(b: u8) -> Seq<u8> {
    if b == 0x22 {
        seq!['\\' as u8, '"' as u8]
    } else if b == 0x5c {
        seq!['\\' as u8, '\\' as u8]
    } else if b == 0x08 {
        seq!['\\' as u8, 'b' as u8]
    } else if b == 0x09 {
        seq!['\\' as u8, 't' as u8]
    } else if b == 0x0a {
        seq!['\\' as u8, 'n' as u8]
    } else if b == 0x0c {
        seq!['\\' as u8, 'f' as u8]
    } else if b == 0x0d {
        seq!['\\' as u8, 'r' as u8]
    } else if b < 0x20 {
        seq![
            '\\' as u8,
            'u' as u8,
            '0' as u8,
            '0' as u8,
            hex_digit(b as int / 16),
            hex_digit(b as int % 16),
        ]
    } else {
        seq![b]
    }
}

/// The escaped form of every byte of `s`, in order.
pub open spec fn escaped(s: Seq<u8>) -> Seq<u8>
    decreases s.len(),
{
    if s.len() == 0 {
        Seq::empty()
    } else {
        escaped(s.drop_last()) + escaped_byte(s.last())
    }
}

/// A string given by its UTF-8 bytes, rendered in double quotes.
pub open spec fn quoted(s: Seq<u8>) -> Seq<u8> {
    seq!['"' as u8] + escaped(s) + seq!['"' as u8]
}

/// The rendering of an absent value.
pub open spec fn null() -> Seq<u8> {
    seq!['n' as u8, 'u' as u8, 'l' as u8, 'l' as u8]
}

/// Appends the decimal digits of `v`.
pub fn push_decimal(out: &mut Vec<u8>, v: u64)
    ensures
        final(out)@ == old(out)@ + decimal(v as nat),
    decreases v,
{
    if v >= 10 {
        push_decimal(out, v / 10);
    }
    let digit: u8 = 48 + (v % 10) as u8;
    out.push(digit);
}

/// Appends the decimal rendering of a signed integer.
pub fn push_signed_decimal(out: &mut Vec<u8>, v: i64)
    ensures
        final(out)@ == old(out)@ + signed_decimal(v as int),
{
    if v < 0 {
        out.push('-' as u8);
        let magnitude: u64 = (-(v + 1)) as u64 + 1;
        push_decimal(out, magnitude);
    } else {
        push_decimal(out, v as u64);
    }
}

/// Appends the escaped form of one byte.
fn push_escaped_byte(out: &mut Vec<u8>, b: u8)
    ensures
        final(out)@ == old(out)@ + escaped_byte(b),
{
    if b == 0x22 {
        out.push('\\' as u8);
        out.push('"' as u8);
    } else if b == 0x5c {
        out.push('\\' as u8);
        out.push('\\' as u8);
    } else if b == 0x08 {
        out.push('\\' as u8);
        out.push('b' as u8);
    } else if b == 0x09 {
        out.push('\\' as u8);
        out.push('t' as u8);
    } else if b == 0x0a {
        out.push('\\' as u8);
        out.push('n' as u8);
    } else if b == 0x0c {
        out.push('\\' as u8);
        out.push('f' as u8);
    } else if b == 0x0d {
        out.push('\\' as u8);
        out.push('r' as u8);
    } else if b < 0x20 {
        out.push('\\' as u8);
        out.push('u' as u8);
        out.push('0' as u8);
        out.push('0' as u8);
        out.push(nibble_digit(b / 16));
        out.push(nibble_digit(b % 16));
    } else {
        out.push(b);
    }
}

/// The lowercase hexadecimal digit for a value below sixteen.
fn nibble_digit(n: u8) -> (d: u8)
    requires
        n < 16,
    ensures
        d == hex_digit(n as int),
{
    if n < 10 {
        48 + n
    } else {
        87 + n
    }
}

/// Appends a string, given by its UTF-8 bytes, in double quotes.
pub fn push_quoted(out: &mut Vec<u8>, s: &[u8])
    ensures
        final(out)@ == old(out)@ + quoted(s@),
{
    out.push('"' as u8);
    let mut i: usize = 0;
    while i < s.len()
        invariant
            i <= s@.len(),
            out@ == old(out)@ + seq!['"' as u8] + escaped(s@.take(i as int)),
        decreases s@.len() - i,
    {
        push_escaped_byte(out, s[i]);
        proof {
            let next = s@.take(i + 1);
            assert(next.drop_last() =~= s@.take(i as int));
        }
        i += 1;
    }
    out.push('"' as u8);
    proof {
        assert(s@.take(s@.len() as int) =~= s@);
    }
}

/// Appends the rendering of an absent value.
pub fn push_null(out: &mut Vec<u8>)
    ensures
        final(out)@ == old(out)@ + null(),
{
    out.push('n' as u8);
    out.push('u' as u8);
    out.push('l' as u8);
    out.push('l' as u8);
}

} // verus!
