//! Four-character codes.
//!
//! The native framework identifies component types, subtypes, manufacturers
//! and formats by 32-bit values that pack four ASCII bytes, most significant
//! byte first.  This module converts between the packed value and its four
//! bytes, and renders the human-readable display form used in diagnostics.

use vstd::prelude::*;

verus! {

/// The packed value of the four bytes `a b c d`, `a` being the most
/// significant.
pub open spec fn fourcc_pack(a: u8, b: u8, c: u8, d: u8) -> u32 {
    (a * 0x100_0000 + b * 0x1_0000 + c * 0x100 + d) as u32
}

/// Most significant byte of a packed code.
pub open spec fn fourcc_byte0(v: u32) -> u8 {
    ((v >> 24) & 0xff) as u8
}

/// Second byte of a packed code.
pub open spec fn fourcc_byte1(v: u32) -> u8 {
    ((v >> 16) & 0xff) as u8
}

/// Third byte of a packed code.
pub open spec fn fourcc_byte2(v: u32) -> u8 {
    ((v >> 8) & 0xff) as u8
}

/// Least significant byte of a packed code.
pub open spec fn fourcc_byte3(v: u32) -> u8 {
    (v & 0xff) as u8
}

/// Packs four bytes into a code, most significant byte first.
pub fn pack_fourcc(a: u8, b: u8, c: u8, d: u8) -> (r: u32)
    ensures
        r == fourcc_pack(a, b, c, d),
{
    let r = ((a as u32) << 24) | ((b as u32) << 16) | ((c as u32) << 8) | (d as u32);
    proof {
        assert(((a as u32) << 24) | ((b as u32) << 16) | ((c as u32) << 8) | (d as u32)
            == (a * 0x100_0000 + b * 0x1_0000 + c * 0x100 + d) as u32) by (bit_vector);
    }
    r
}

/// Unpacks a code into its four bytes, most significant byte first.
pub fn unpack_fourcc(v: u32) -> (r: (u8, u8, u8, u8))
    ensures
        r.0 == fourcc_byte0(v),
        r.1 == fourcc_byte1(v),
        r.2 == fourcc_byte2(v),
        r.3 == fourcc_byte3(v),
{
    (((v >> 24) & 0xff) as u8, ((v >> 16) & 0xff) as u8, ((v >> 8) & 0xff) as u8, (v & 0xff) as u8)
}

/// Packing four bytes and unpacking the result yields those bytes back.
pub proof fn lemma_fourcc_roundtrip(a: u8, b: u8, c: u8, d: u8)
    ensures
        fourcc_byte0(fourcc_pack(a, b, c, d)) == a,
        fourcc_byte1(fourcc_pack(a, b, c, d)) == b,
        fourcc_byte2(fourcc_pack(a, b, c, d)) == c,
        fourcc_byte3(fourcc_pack(a, b, c, d)) == d,
{
    assert((((a * 0x100_0000 + b * 0x1_0000 + c * 0x100 + d) as u32) >> 24) & 0xff == a)
        by (bit_vector);
    assert((((a * 0x100_0000 + b * 0x1_0000 + c * 0x100 + d) as u32) >> 16) & 0xff == b)
        by (bit_vector);
    assert((((a * 0x100_0000 + b * 0x1_0000 + c * 0x100 + d) as u32) >> 8) & 0xff == c)
        by (bit_vector);
    assert(((a * 0x100_0000 + b * 0x1_0000 + c * 0x100 + d) as u32) & 0xff == d) by (bit_vector);
}

/// The sixteen lower-case hexadecimal digit characters, indexed by value.
pub open spec fn hex_char(n: int) -> char {
    seq![
        '0', '1', '2', '3', '4', '5', '6', '7', '8', '9', 'a', 'b', 'c', 'd', 'e', 'f',
    ][n]
}

/// The eight lower-case hexadecimal digits of a 32-bit value, most
/// significant digit first.
pub open spec fn hex8(v: u32) -> Seq<char> {
    Seq::new(8, |i: int| hex_char(((v >> ((7 - i) * 4)) & 0xf) as int))
}

/// The display form of a packed code: the four bytes as characters between
/// single quotes, then the packed value in zero-padded hexadecimal.
pub open spec fn fourcc_display(fcc: u32) -> Seq<char> {
    seq!['\'', fourcc_byte0(fcc) as char, fourcc_byte1(fcc) as char, fourcc_byte2(
        fcc,
    ) as char, fourcc_byte3(fcc) as char, '\'', ' ', '(', '0', 'x'] + hex8(fcc) + seq![')']
}

/// Relies on the `format` macro of std: each byte formatted with `{}` after a
/// cast to `char` prints that character, and `{:08x}` prints the eight
/// lower-case hexadecimal digits of a 32-bit value, most significant first.
#[verifier::external_body]
fn render_fourcc(a: u8, b: u8, c: u8, d: u8, fcc: u32) -> (r: String)
    requires
        a == fourcc_byte0(fcc),
        b == fourcc_byte1(fcc),
        c == fourcc_byte2(fcc),
        d == fourcc_byte3(fcc),
    ensures
        r@ == fourcc_display(fcc),
{
    format!("'{}{}{}{}' (0x{:08x})", a as char, b as char, c as char, d as char, fcc)
}

/// Renders a packed code in its display form: the four characters between
/// single quotes, then the packed value in zero-padded hexadecimal.
pub fn format_ostype(fcc: u32) -> (r: String)
    ensures
        r@ == fourcc_display(fcc),
{
    let (a, b, c, d) = unpack_fourcc(fcc);
    render_fourcc(a, b, c, d, fcc)
}

/// Unpacking a code and packing the bytes again yields that code back.
pub proof fn lemma_fourcc_repack(v: u32)
    ensures
        fourcc_pack(fourcc_byte0(v), fourcc_byte1(v), fourcc_byte2(v), fourcc_byte3(v)) == v,
{
    assert((((((v >> 24) & 0xff) as u8) * 0x100_0000 + (((v >> 16) & 0xff) as u8) * 0x1_0000
        + (((v >> 8) & 0xff) as u8) * 0x100 + ((v & 0xff) as u8)) as u32) == v) by (bit_vector);
}

} // verus!
