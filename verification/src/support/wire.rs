//! Big-endian layout of the integers that appear on the wire.
use vstd::prelude::*;

verus! {

/// The two bytes of `v`, most significant first, as two's complement.
pub open spec fn i16_be(v: i16) -> Seq<u8> {
    let u: int = if v < 0 { v + 65536 } else { v as int };
    seq![(u / 256) as u8, (u % 256) as u8]
}

/// The four bytes of `v`, most significant first.
pub open spec fn u32_be(v: u32) -> Seq<u8> {
    seq![
        (v / 16777216) as u8,
        ((v / 65536) % 256) as u8,
        ((v / 256) % 256) as u8,
        (v % 256) as u8,
    ]
}

/// The four bytes of `v`, read back most significant first, give `v`.
pub proof fn lemma_u32_be_value(v: u32)
    ensures
        u32_be(v).len() == 4,
        u32_be(v)[0] as int * 16777216 + u32_be(v)[1] as int * 65536 + u32_be(v)[2] as int * 256
            + u32_be(v)[3] as int == v as int,
{
    let a: int = v as int / 16777216;
    let b: int = (v as int / 65536) % 256;
    let c: int = (v as int / 256) % 256;
    let d: int = v as int % 256;
    assert(0 <= a < 256 && 0 <= b < 256 && 0 <= c < 256 && 0 <= d < 256);
    assert(a * 16777216 + b * 65536 + c * 256 + d == v as int) by (nonlinear_arith)
        requires
            0 <= v < 4294967296,
            a == v / 16777216,
            b == (v / 65536) % 256,
            c == (v / 256) % 256,
            d == v % 256,
    ;
}

} // verus!
