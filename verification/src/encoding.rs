//! Byte-level encodings used across the engine: the little-endian integer
//! reading of a byte sequence, fixed-width encodings of machine integers,
//! and lower-case hex.

use vstd::prelude::*;
use vstd::string::*;

verus! {

/// The non-negative integer a byte sequence denotes in little-endian order.
pub open spec fn le_int(s: Seq<u8>) -> nat
    decreases s.len(),
{
    if s.len() == 0 {
        0
    } else {
        (s[0] + 256 * le_int(s.drop_first())) as nat
    }
}

/// Appending a byte on the high end adds its value at the next power of 256.
pub proof fn lemma_le_int_push(s: Seq<u8>, d: u8)
    ensures
        le_int(s.push(d)) == le_int(s) + d * vstd::arithmetic::power::pow(256, s.len() as nat),
    decreases s.len(),
{
    if s.len() == 0 {
        assert(s.push(d).drop_first() =~= Seq::<u8>::empty());
        assert(s.push(d)[0] == d);
        vstd::arithmetic::power::lemma_pow0(256);
        assert(le_int(Seq::<u8>::empty()) == 0);
        assert(s.push(d).len() == 1);
        assert(le_int(s.push(d))
            == (s.push(d)[0] + 256 * le_int(s.push(d).drop_first())) as nat);
        assert(le_int(s.push(d)) == d);
        assert(le_int(s) == 0);
        assert(d * vstd::arithmetic::power::pow(256, s.len() as nat) == d);
    } else {
        assert(s.push(d).drop_first() =~= s.drop_first().push(d));
        lemma_le_int_push(s.drop_first(), d);
        vstd::arithmetic::power::lemma_pow1(256);
        vstd::arithmetic::power::lemma_pow_adds(256, 1, (s.len() - 1) as nat);
        assert(vstd::arithmetic::power::pow(256, s.len() as nat)
            == 256 * vstd::arithmetic::power::pow(256, (s.len() - 1) as nat));
        assert(le_int(s.push(d)) == s[0] + 256 * le_int(s.drop_first().push(d)));
        let p: int = vstd::arithmetic::power::pow(256, (s.len() - 1) as nat);
        assert(256 * (le_int(s.drop_first()) + d * p)
            == 256 * le_int(s.drop_first()) + d * (256 * p)) by (nonlinear_arith);
    }
}

/// A byte sequence of zeros denotes zero; in particular padding a sequence
/// with a zero byte on the high end keeps its value.
pub proof fn lemma_le_int_push_zero(s: Seq<u8>)
    ensures
        le_int(s.push(0)) == le_int(s),
{
    lemma_le_int_push(s, 0);
}

/// The eighth power of 256 exceeds every `u64`.
proof fn lemma_pow256_8()
    ensures
        vstd::arithmetic::power::pow(256, 8) == 0x1_0000_0000_0000_0000,
{
    reveal(vstd::arithmetic::power::pow);
    assert(vstd::arithmetic::power::pow(256, 0) == 1)
        by { vstd::arithmetic::power::lemma_pow0(256); }
    assert(vstd::arithmetic::power::pow(256, 1) == 256 * vstd::arithmetic::power::pow(256, 0));
    assert(vstd::arithmetic::power::pow(256, 2) == 256 * vstd::arithmetic::power::pow(256, 1));
    assert(vstd::arithmetic::power::pow(256, 3) == 256 * vstd::arithmetic::power::pow(256, 2));
    assert(vstd::arithmetic::power::pow(256, 4) == 256 * vstd::arithmetic::power::pow(256, 3));
    assert(vstd::arithmetic::power::pow(256, 5) == 256 * vstd::arithmetic::power::pow(256, 4));
    assert(vstd::arithmetic::power::pow(256, 6) == 256 * vstd::arithmetic::power::pow(256, 5));
    assert(vstd::arithmetic::power::pow(256, 7) == 256 * vstd::arithmetic::power::pow(256, 6));
    assert(vstd::arithmetic::power::pow(256, 8) == 256 * vstd::arithmetic::power::pow(256, 7));
}

/// Encodes `x` as exactly `width` little-endian bytes; a width of at least
/// eight bytes holds any value.
pub fn int_to_le_bytes(x: u64, width: usize) -> (r: Vec<u8>)
    requires
        width >= 8,
    ensures
        r@.len() == width,
        le_int(r@) == x,
{
    let mut out: Vec<u8> = Vec::new();
    let mut rem: u64 = x;
    let mut i: usize = 0;
    proof {
        vstd::arithmetic::power::lemma_pow0(256);
    }
    while i < width
        invariant
            i <= width,
            out@.len() == i,
            le_int(out@) + rem * vstd::arithmetic::power::pow(256, i as nat) == x,
            i >= 8 ==> rem == 0,
            rem <= u64::MAX,
        decreases width - i,
    {
        let d: u8 = (rem % 256) as u8;
        proof {
            lemma_le_int_push(out@, d);
            vstd::arithmetic::power::lemma_pow_adds(256, i as nat, 1);
            vstd::arithmetic::power::lemma_pow1(256);
            assert((rem / 256) * 256 + (rem % 256) == rem) by (nonlinear_arith)
                requires rem <= u64::MAX;
            assert(le_int(out@) + d * vstd::arithmetic::power::pow(256, i as nat)
                + (rem / 256) * (vstd::arithmetic::power::pow(256, i as nat) * 256) == x)
                by (nonlinear_arith)
                requires
                    le_int(out@) + rem * vstd::arithmetic::power::pow(256, i as nat) == x,
                    d == rem % 256,
                    (rem / 256) * 256 + (rem % 256) == rem,
            ;
        }
        out.push(d);
        rem = rem / 256;
        i = i + 1;
        proof {
            if i >= 8 && rem > 0 {
                lemma_pow256_8();
                vstd::arithmetic::power::lemma_pow_increases(256, 8, i as nat);
                let p: int = vstd::arithmetic::power::pow(256, i as nat);
                assert(rem * p >= 1 * p) by (nonlinear_arith)
                    requires rem >= 1, p >= 0;
                assert(false);
            }
        }
    }
    out
}

/// Pads a byte sequence with zero bytes on the high end to `width` bytes,
/// keeping the denoted integer.
pub fn pad_le_bytes(bytes: &Vec<u8>, width: usize) -> (r: Vec<u8>)
    requires
        bytes@.len() <= width,
    ensures
        r@.len() == width,
        le_int(r@) == le_int(bytes@),
        r@.subrange(0, bytes@.len() as int) == bytes@,
{
    let mut out: Vec<u8> = bytes.clone();
    while out.len() < width
        invariant
            bytes@.len() <= out@.len() <= width,
            le_int(out@) == le_int(bytes@),
            out@.subrange(0, bytes@.len() as int) == bytes@,
        decreases width - out@.len(),
    {
        proof {
            lemma_le_int_push_zero(out@);
            assert(out@.push(0).subrange(0, bytes@.len() as int) =~= out@.subrange(0, bytes@.len() as int));
        }
        out.push(0);
    }
    out
}

/// Lower-case hex digits in value order.
pub open spec fn spec_hex_digits() -> Seq<char> {
    "0123456789abcdef"@
}

/// The lower-case hex encoding of a byte sequence, two digits per byte,
/// high nibble first.
pub open spec fn spec_to_hex(s: Seq<u8>) -> Seq<char>
    decreases s.len(),
{
    if s.len() == 0 {
        Seq::<char>::empty()
    } else {
        seq![
            spec_hex_digits()[(s.first() / 16) as int],
            spec_hex_digits()[(s.first() % 16) as int],
        ] + spec_to_hex(s.drop_first())
    }
}

/// Encodes bytes as lower-case hex, two digits per byte.
pub fn to_hex(bytes: &[u8]) -> (r: String)
    ensures
        r@ == spec_to_hex(bytes@),
        r@.len() == 2 * bytes@.len(),
{
    let digits = "0123456789abcdef";
    proof {
        reveal_strlit("0123456789abcdef");
        assert(digits@.len() == 16);
    }
    let mut out = String::new();
    let n = bytes.len();
    proof {
        assert(bytes@.skip(0) =~= bytes@);
        lemma_spec_to_hex_len(bytes@);
    }
    let mut i: usize = 0;
    while i < n
        invariant
            n == bytes@.len(),
            i <= n,
            digits@ == spec_hex_digits(),
            digits@.len() == 16,
            digits.is_ascii(),
            spec_to_hex(bytes@) =~= out@ + spec_to_hex(bytes@.skip(i as int)),
            out@.len() == 2 * i,
        decreases n - i,
    {
        let b = bytes[i];
        let hi = (b / 16) as usize;
        let lo = (b % 16) as usize;
        let hi_s = digits.substring_ascii(hi, hi + 1);
        let lo_s = digits.substring_ascii(lo, lo + 1);
        out.append(hi_s);
        out.append(lo_s);
        proof {
            assert(hi_s@ =~= seq![spec_hex_digits()[(b / 16) as int]]);
            assert(lo_s@ =~= seq![spec_hex_digits()[(b % 16) as int]]);
            assert(bytes@.skip(i as int).first() == b);
            assert(bytes@.skip(i as int).drop_first() =~= bytes@.skip(i + 1));
        }
        i = i + 1;
    }
    proof {
        assert(bytes@.skip(n as int) =~= Seq::<u8>::empty());
        assert(out@ =~= spec_to_hex(bytes@));
    }
    out
}

/// Hex doubles the length.
pub proof fn lemma_spec_to_hex_len(s: Seq<u8>)
    ensures
        spec_to_hex(s).len() == 2 * s.len(),
    decreases s.len(),
{
    if s.len() > 0 {
        lemma_spec_to_hex_len(s.drop_first());
    }
}

} // verus!
