//! Byte-level conversions shared by the signing specifications: little-endian
//! integer encodings, big-endian serialization of derivation-path indices, and
//! uppercase hex rendering.

use vstd::prelude::*;

verus! {

/// Value of a byte sequence read as a little-endian unsigned integer.
pub open spec fn le_val(s: Seq<u8>) -> nat
    decreases s.len(),
{
    if s.len() == 0 {
        0
    } else {
        s[0] as nat + 256 * le_val(s.skip(1))
    }
}

/// The `n`-byte little-endian encoding of `v` (low byte first).
pub open spec fn le_bytes(v: nat, n: nat) -> Seq<u8>
    decreases n,
{
    if n == 0 {
        Seq::empty()
    } else {
        seq![(v % 256) as u8] + le_bytes(v / 256, (n - 1) as nat)
    }
}

/// A byte sequence is the little-endian encoding of its own value.
pub proof fn lemma_le_bytes_of_le_val(s: Seq<u8>)
    ensures
        le_bytes(le_val(s), s.len()) == s,
    decreases s.len(),
{
    if s.len() > 0 {
        let v = le_val(s);
        let rest = le_val(s.skip(1));
        assert(v == s[0] + 256 * rest);
        assert(v % 256 == s[0] && v / 256 == rest) by (nonlinear_arith)
            requires
                v == s[0] + 256 * rest,
                0 <= s[0] < 256,
        {}
        lemma_le_bytes_of_le_val(s.skip(1));
        assert(le_bytes(v, s.len()) =~= s);
    } else {
        assert(le_bytes(le_val(s), s.len()) =~= s);
    }
}

/// The four big-endian bytes of a 32-bit derivation-path index.
pub open spec fn u32_be(x: u32) -> Seq<u8> {
    seq![(x >> 24) as u8, (x >> 16) as u8, (x >> 8) as u8, x as u8]
}

/// Big-endian serialization of a derivation path, index by index.
pub open spec fn path_bytes(path: Seq<u32>) -> Seq<u8>
    decreases path.len(),
{
    if path.len() == 0 {
        Seq::empty()
    } else {
        u32_be(path[0]) + path_bytes(path.skip(1))
    }
}

/// Serializing one more index appends its four bytes.
pub proof fn lemma_path_bytes_snoc(path: Seq<u32>, x: u32)
    ensures
        path_bytes(path.push(x)) == path_bytes(path) + u32_be(x),
    decreases path.len(),
{
    if path.len() == 0 {
        assert(path.push(x).skip(1) =~= Seq::<u32>::empty());
        assert(path.push(x)[0] == x);
        assert(path_bytes(path.push(x)) == u32_be(x) + path_bytes(path.push(x).skip(1)));
        assert(path_bytes(path.push(x)) =~= path_bytes(path) + u32_be(x));
    } else {
        assert(path.push(x).skip(1) =~= path.skip(1).push(x));
        lemma_path_bytes_snoc(path.skip(1), x);
        assert(path.push(x)[0] == path[0]);
        assert(path_bytes(path.push(x)) == u32_be(path[0]) + path_bytes(path.push(x).skip(1)));
        assert(path_bytes(path.push(x)) =~= path_bytes(path) + u32_be(x));
    }
}

/// The ASCII code of the uppercase hex digit for a nibble.
pub open spec fn hex_digit(n: u8) -> u8 {
    if n < 10 {
        (48 + n) as u8
    } else {
        (55 + n) as u8
    }
}

/// Uppercase hex rendering of a byte sequence, two digits per byte, no
/// separators.
pub open spec fn hex_of(s: Seq<u8>) -> Seq<u8>
    decreases s.len(),
{
    if s.len() == 0 {
        Seq::empty()
    } else {
        seq![hex_digit(s[0] / 16), hex_digit(s[0] % 16)] + hex_of(s.skip(1))
    }
}

/// Rendering one more byte appends its two digits.
pub proof fn lemma_hex_of_snoc(s: Seq<u8>, x: u8)
    ensures
        hex_of(s.push(x)) == hex_of(s) + seq![hex_digit(x / 16), hex_digit(x % 16)],
    decreases s.len(),
{
    if s.len() == 0 {
        assert(s.push(x).skip(1) =~= Seq::<u8>::empty());
        assert(s.push(x)[0] == x);
        assert(hex_of(s.push(x)) == seq![hex_digit(x / 16), hex_digit(x % 16)] + hex_of(
            s.push(x).skip(1),
        ));
        assert(hex_of(s.push(x)) =~= hex_of(s) + seq![hex_digit(x / 16), hex_digit(x % 16)]);
    } else {
        assert(s.push(x).skip(1) =~= s.skip(1).push(x));
        lemma_hex_of_snoc(s.skip(1), x);
        assert(s.push(x)[0] == s[0]);
        let a = seq![hex_digit(s[0] / 16), hex_digit(s[0] % 16)];
        let b = hex_of(s.skip(1));
        let c = seq![hex_digit(x / 16), hex_digit(x % 16)];
        assert(hex_of(s.push(x)) == a + (b + c));
        assert(hex_of(s) == a + b);
        assert(a + (b + c) =~= (a + b) + c);
    }
}

/// Hex output is twice as long as its input.
pub proof fn lemma_hex_of_len(s: Seq<u8>)
    ensures
        hex_of(s).len() == 2 * s.len(),
    decreases s.len(),
{
    if s.len() > 0 {
        lemma_hex_of_len(s.skip(1));
    }
}

/// Renders bytes as uppercase hex, two digits per byte.
pub fn to_hex_upper(bytes: &[u8]) -> (r: Vec<u8>)
    ensures
        r@ == hex_of(bytes@),
{
    let mut out: Vec<u8> = Vec::new();
    let mut i: usize = 0;
    while i < bytes.len()
        invariant
            i <= bytes@.len(),
            out@ == hex_of(bytes@.take(i as int)),
        decreases bytes@.len() - i,
    {
        let b = bytes[i];
        let hi = b / 16;
        let lo = b % 16;
        out.push(if hi < 10 { 48 + hi } else { 55 + hi });
        out.push(if lo < 10 { 48 + lo } else { 55 + lo });
        proof {
            lemma_hex_of_snoc(bytes@.take(i as int), b);
            assert(bytes@.take(i as int).push(b) =~= bytes@.take(i + 1));
        }
        i = i + 1;
    }
    proof {
        assert(bytes@.take(bytes@.len() as int) =~= bytes@);
    }
    out
}

} // verus!
