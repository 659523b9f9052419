//! Text output: numbers in decimal and hexadecimal, padded to a width, and
//! string pieces, all as bytes.

use vstd::prelude::*;
use vstd::string::StringSliceAdditionalSpecFns;

verus! {

/// ASCII digit for a value below 16, upper-case letters past 9.
pub open spec fn digit_char(d: int) -> u8 {
    if d < 10 { (48 + d) as u8 } else { (55 + d) as u8 }
}

/// The digits of `n` in base `base`, most significant first, without
/// leading zeros (a single 0 for zero).
pub open spec fn digits(n: nat, base: nat) -> Seq<u8>
    decreases n,
{
    if base < 2 || n < base {
        seq![digit_char(n as int)]
    } else {
        proof {
            assert(n / base < n) by (nonlinear_arith)
                requires
                    base >= 2,
                    n >= base,
            ;
        }
        digits(n / base, base).push(digit_char((n % base) as int))
    }
}

/// `s` preceded by enough `fill` bytes to make it `width` long.
pub open spec fn pad_left(s: Seq<u8>, width: nat, fill: u8) -> Seq<u8> {
    if s.len() >= width {
        s
    } else {
        Seq::new((width - s.len()) as nat, |i: int| fill) + s
    }
}

/// `s` followed by enough `fill` bytes to make it `width` long.
pub open spec fn pad_right(s: Seq<u8>, width: nat, fill: u8) -> Seq<u8> {
    if s.len() >= width {
        s
    } else {
        s + Seq::new((width - s.len()) as nat, |i: int| fill)
    }
}

/// A number in decimal, right-aligned in `width` columns.
pub open spec fn decimal(n: nat, width: nat) -> Seq<u8> {
    pad_left(digits(n, 10), width, 0x20)
}

/// An address: `0x` and at least eight upper-case hexadecimal digits.
pub open spec fn hex_word(n: nat) -> Seq<u8> {
    seq![0x30u8, 0x78u8] + pad_left(digits(n, 16), 8, 0x30)
}

/// The bytes of a string.
pub open spec fn text(s: &str) -> Seq<u8> {
    s.spec_bytes()
}

fn digit_byte(d: usize) -> (b: u8)
    requires
        d < 16,
    ensures
        b == digit_char(d as int),
{
    if d < 10 { (48 + d) as u8 } else { (55 + d) as u8 }
}

/// The digits of `n` in base `base`.
pub fn digits_of(n: usize, base: usize) -> (v: Vec<u8>)
    requires
        2 <= base <= 16,
    ensures
        v@ == digits(n as nat, base as nat),
    decreases n,
{
    if n < base {
        vec![digit_byte(n)]
    } else {
        assert(n / base < n) by (nonlinear_arith)
            requires
                base >= 2,
                n >= base,
        ;
        let mut v = digits_of(n / base, base);
        v.push(digit_byte(n % base));
        v
    }
}

/// Appends the bytes of `s`.
pub fn push_bytes(out: &mut Vec<u8>, s: &[u8])
    ensures
        final(out)@ == old(out)@ + s@,
{
    let mut i: usize = 0;
    while i < s.len()
        invariant
            i <= s@.len(),
            out@ == old(out)@ + s@.subrange(0, i as int),
        decreases s@.len() - i,
    {
        out.push(s[i]);
        i = i + 1;
        assert(out@ =~= old(out)@ + s@.subrange(0, i as int));
    }
    assert(s@.subrange(0, s@.len() as int) =~= s@);
}

/// Appends the bytes of a string.
pub fn push_str(out: &mut Vec<u8>, s: &str)
    ensures
        final(out)@ == old(out)@ + text(s),
{
    push_bytes(out, s.as_bytes());
}

/// Appends `count` copies of `fill`.
fn push_fill(out: &mut Vec<u8>, count: usize, fill: u8)
    ensures
        final(out)@ == old(out)@ + Seq::new(count as nat, |i: int| fill),
{
    let mut i: usize = 0;
    while i < count
        invariant
            i <= count,
            out@ == old(out)@ + Seq::new(i as nat, |k: int| fill),
        decreases count - i,
    {
        out.push(fill);
        i = i + 1;
        assert(out@ =~= old(out)@ + Seq::new(i as nat, |k: int| fill));
    }
}

/// Appends `s` padded on the left to `width` bytes.
pub fn push_padded(out: &mut Vec<u8>, s: &[u8], width: usize, fill: u8)
    ensures
        final(out)@ == old(out)@ + pad_left(s@, width as nat, fill),
{
    if s.len() < width {
        push_fill(out, width - s.len(), fill);
    }
    push_bytes(out, s);
    assert(out@ =~= old(out)@ + pad_left(s@, width as nat, fill));
}

/// Appends `s` padded on the right to `width` bytes.
pub fn push_padded_right(out: &mut Vec<u8>, s: &[u8], width: usize, fill: u8)
    ensures
        final(out)@ == old(out)@ + pad_right(s@, width as nat, fill),
{
    push_bytes(out, s);
    if s.len() < width {
        push_fill(out, width - s.len(), fill);
    }
    assert(out@ =~= old(out)@ + pad_right(s@, width as nat, fill));
}

/// Appends a number in decimal, right-aligned in `width` columns.
pub fn push_decimal(out: &mut Vec<u8>, n: usize, width: usize)
    ensures
        final(out)@ == old(out)@ + decimal(n as nat, width as nat),
{
    let d = digits_of(n, 10);
    push_padded(out, d.as_slice(), width, 0x20);
}

/// Appends an address as `0x` and eight or more hexadecimal digits.
pub fn push_hex_word(out: &mut Vec<u8>, n: usize)
    ensures
        final(out)@ == old(out)@ + hex_word(n as nat),
{
    let d = digits_of(n, 16);
    push_bytes(out, &[0x30, 0x78]);
    push_padded(out, d.as_slice(), 8, 0x30);
    assert(out@ =~= old(out)@ + hex_word(n as nat));
}

} // verus!
