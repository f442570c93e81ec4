//! Big-endian (network byte order) integer encoding used by the PTP wire format.
use vstd::prelude::*;

verus! {

/// `256^n`.
pub open spec fn pow256(n: nat) -> nat
    decreases n,
{
    if n == 0 {
        1
    } else {
        256 * pow256((n - 1) as nat)
    }
}

/// The unsigned integer denoted by big-endian bytes `s`.
pub open spec fn be_value(s: Seq<u8>) -> nat
    decreases s.len(),
{
    if s.len() == 0 {
        0
    } else {
        be_value(s.drop_last()) * 256 + s.last() as nat
    }
}

/// The `n` low-order bytes of `v`, most significant first.
pub open spec fn be_bytes(v: nat, n: nat) -> Seq<u8>
    decreases n,
{
    if n == 0 {
        Seq::empty()
    } else {
        be_bytes(v / 256, (n - 1) as nat).push((v % 256) as u8)
    }
}

pub proof fn lemma_be_bytes_len(v: nat, n: nat)
    ensures
        be_bytes(v, n).len() == n,
    decreases n,
{
    if n > 0 {
        lemma_be_bytes_len(v / 256, (n - 1) as nat);
    }
}

pub proof fn lemma_pow256_positive(n: nat)
    ensures
        pow256(n) >= 1,
    decreases n,
{
    if n > 0 {
        lemma_pow256_positive((n - 1) as nat);
    }
}

/// Encoding a value that fits in `n` bytes and decoding it again gives the value back.
pub proof fn lemma_be_value_of_bytes(v: nat, n: nat)
    requires
        v < pow256(n),
    ensures
        be_value(be_bytes(v, n)) == v,
    decreases n,
{
    if n > 0 {
        vstd::arithmetic::div_mod::lemma_fundamental_div_mod(v as int, 256);
        assert(v / 256 < pow256((n - 1) as nat));
        lemma_be_value_of_bytes(v / 256, (n - 1) as nat);
        let s = be_bytes(v, n);
        assert(s.drop_last() =~= be_bytes(v / 256, (n - 1) as nat));
    }
}

/// Decoding bytes and encoding the value again gives the bytes back; the value fits.
pub proof fn lemma_be_bytes_of_value(s: Seq<u8>)
    ensures
        be_bytes(be_value(s), s.len()) =~= s,
        be_value(s) < pow256(s.len()),
    decreases s.len(),
{
    if s.len() > 0 {
        lemma_be_bytes_of_value(s.drop_last());
        let v = be_value(s);
        let p = be_value(s.drop_last());
        vstd::arithmetic::div_mod::lemma_fundamental_div_mod_converse_div(
            v as int,
            256,
            p as int,
            s.last() as int,
        );
        vstd::arithmetic::div_mod::lemma_fundamental_div_mod_converse_mod(
            v as int,
            256,
            p as int,
            s.last() as int,
        );
        assert(be_bytes(v, s.len()) =~= be_bytes(p, (s.len() - 1) as nat).push(s.last()));
    }
}

/// `a` comes before `b` in the lexicographic order of byte strings: at the first position where
/// they differ, `a` holds the smaller byte.
pub open spec fn lex_lt(a: Seq<u8>, b: Seq<u8>) -> bool {
    exists|i: int|
        #![trigger a[i], b[i]]
        0 <= i < a.len() && i < b.len() && a.subrange(0, i) == b.subrange(0, i) && a[i] < b[i]
}

/// On byte strings of one length, the order of their big-endian numbers is the lexicographic
/// order of the bytes.
pub proof fn lemma_be_value_order_is_lex(a: Seq<u8>, b: Seq<u8>)
    requires
        a.len() == b.len(),
    ensures
        (be_value(a) < be_value(b)) == lex_lt(a, b),
    decreases a.len(),
{
    if a.len() > 0 {
        let n = a.len() - 1;
        let a0 = a.drop_last();
        let b0 = b.drop_last();
        lemma_be_value_order_is_lex(a0, b0);
        lemma_be_bytes_of_value(a0);
        lemma_be_bytes_of_value(b0);
        let va = be_value(a0);
        let vb = be_value(b0);
        let la = a.last() as nat;
        let lb = b.last() as nat;
        assert(be_value(a) == va * 256 + la);
        assert(be_value(b) == vb * 256 + lb);
        assert((va * 256 + la < vb * 256 + lb) == (va < vb || (va == vb && la < lb))) by (nonlinear_arith)
            requires
                la < 256,
                lb < 256,
        ;
        assert((va == vb) == (a0 == b0)) by {
            if va == vb {
                assert(a0 =~= be_bytes(va, a0.len()));
                assert(b0 =~= be_bytes(vb, b0.len()));
            }
        }
        if lex_lt(a, b) {
            let i = choose|i: int|
                #![trigger a[i], b[i]]
                0 <= i < a.len() && i < b.len() && a.subrange(0, i) == b.subrange(0, i) && a[i] < b[i];
            if i < n {
                assert(a0.subrange(0, i) =~= a.subrange(0, i));
                assert(b0.subrange(0, i) =~= b.subrange(0, i));
                assert(a0[i] == a[i] && b0[i] == b[i]);
                assert(lex_lt(a0, b0));
            } else {
                assert(a0 =~= a.subrange(0, i));
                assert(b0 =~= b.subrange(0, i));
            }
        }
        if lex_lt(a0, b0) {
            let i = choose|i: int|
                #![trigger a0[i], b0[i]]
                0 <= i < a0.len() && i < b0.len() && a0.subrange(0, i) == b0.subrange(0, i) && a0[i] < b0[i];
            assert(a0.subrange(0, i) =~= a.subrange(0, i));
            assert(b0.subrange(0, i) =~= b.subrange(0, i));
            assert(a[i] == a0[i] && b[i] == b0[i]);
            assert(lex_lt(a, b));
        }
        if a0 == b0 && la < lb {
            assert(a.subrange(0, n) =~= a0);
            assert(b.subrange(0, n) =~= b0);
            assert(a[n] == a.last() && b[n] == b.last());
            assert(lex_lt(a, b));
        }
    } else {
        assert(!lex_lt(a, b));
    }
}

/// Decode a big-endian `u16`.
pub fn u16_from_be(b: [u8; 2]) -> (v: u16)
    ensures
        v == be_value(b@),
{
    proof {
        reveal_with_fuel(be_value, 3);
        assert(b@.drop_last().drop_last() =~= Seq::<u8>::empty());
        assert(b@.drop_last() =~= seq![b[0]]);
    }
    (b[0] as u16) * 256 + (b[1] as u16)
}

/// Encode a `u16` big-endian.
pub fn u16_to_be(v: u16) -> (b: [u8; 2])
    ensures
        b@ =~= be_bytes(v as nat, 2),
{
    let v1 = v / 256;
    proof {
        reveal_with_fuel(be_bytes, 3);
    }
    [(v1 % 256) as u8, (v % 256) as u8]
}

/// Decode a big-endian `u32`.
pub fn u32_from_be(b: [u8; 4]) -> (v: u32)
    ensures
        v == be_value(b@),
{
    proof {
        reveal_with_fuel(be_value, 5);
        assert(b@.drop_last().drop_last().drop_last().drop_last() =~= Seq::<u8>::empty());
        assert(b@.drop_last().drop_last().drop_last() =~= seq![b[0]]);
        assert(b@.drop_last().drop_last() =~= seq![b[0], b[1]]);
        assert(b@.drop_last() =~= seq![b[0], b[1], b[2]]);
    }
    (((b[0] as u32) * 256 + (b[1] as u32)) * 256 + (b[2] as u32)) * 256 + (b[3] as u32)
}

/// Encode a `u32` big-endian.
pub fn u32_to_be(v: u32) -> (b: [u8; 4])
    ensures
        b@ =~= be_bytes(v as nat, 4),
{
    let v1 = v / 256;
    let v2 = v1 / 256;
    let v3 = v2 / 256;
    proof {
        reveal_with_fuel(be_bytes, 5);
    }
    [(v3 % 256) as u8, (v2 % 256) as u8, (v1 % 256) as u8, (v % 256) as u8]
}

/// Decode a big-endian 48-bit unsigned integer.
pub fn u48_from_be(b: [u8; 6]) -> (v: u64)
    ensures
        v == be_value(b@),
        v < pow256(6),
{
    proof {
        reveal_with_fuel(be_value, 7);
        reveal_with_fuel(pow256, 7);
        assert(b@.drop_last().drop_last().drop_last().drop_last().drop_last().drop_last()
            =~= Seq::<u8>::empty());
        assert(b@.drop_last().drop_last().drop_last().drop_last().drop_last() =~= seq![b[0]]);
        assert(b@.drop_last().drop_last().drop_last().drop_last() =~= seq![b[0], b[1]]);
        assert(b@.drop_last().drop_last().drop_last() =~= seq![b[0], b[1], b[2]]);
        assert(b@.drop_last().drop_last() =~= seq![b[0], b[1], b[2], b[3]]);
        assert(b@.drop_last() =~= seq![b[0], b[1], b[2], b[3], b[4]]);
    }
    (((((b[0] as u64) * 256 + (b[1] as u64)) * 256 + (b[2] as u64)) * 256 + (b[3] as u64)) * 256
        + (b[4] as u64)) * 256 + (b[5] as u64)
}

/// Encode the low 48 bits of a `u64` big-endian.
pub fn u48_to_be(v: u64) -> (b: [u8; 6])
    ensures
        b@ =~= be_bytes(v as nat, 6),
{
    let v1 = v / 256;
    let v2 = v1 / 256;
    let v3 = v2 / 256;
    let v4 = v3 / 256;
    let v5 = v4 / 256;
    proof {
        reveal_with_fuel(be_bytes, 7);
    }
    [
        (v5 % 256) as u8,
        (v4 % 256) as u8,
        (v3 % 256) as u8,
        (v2 % 256) as u8,
        (v1 % 256) as u8,
        (v % 256) as u8,
    ]
}

/// Decode a big-endian `u64`.
pub fn u64_from_be(b: [u8; 8]) -> (v: u64)
    ensures
        v == be_value(b@),
{
    proof {
        reveal_with_fuel(be_value, 9);
        let s = b@;
        assert(s.drop_last().drop_last().drop_last().drop_last().drop_last().drop_last().drop_last().drop_last()
            =~= Seq::<u8>::empty());
        assert(s.drop_last().drop_last().drop_last().drop_last().drop_last().drop_last().drop_last()
            =~= seq![b[0]]);
        assert(s.drop_last().drop_last().drop_last().drop_last().drop_last().drop_last()
            =~= seq![b[0], b[1]]);
        assert(s.drop_last().drop_last().drop_last().drop_last().drop_last() =~= seq![b[0], b[1], b[2]]);
        assert(s.drop_last().drop_last().drop_last().drop_last() =~= seq![b[0], b[1], b[2], b[3]]);
        assert(s.drop_last().drop_last().drop_last() =~= seq![b[0], b[1], b[2], b[3], b[4]]);
        assert(s.drop_last().drop_last() =~= seq![b[0], b[1], b[2], b[3], b[4], b[5]]);
        assert(s.drop_last() =~= seq![b[0], b[1], b[2], b[3], b[4], b[5], b[6]]);
    }
    (((((((b[0] as u64) * 256 + (b[1] as u64)) * 256 + (b[2] as u64)) * 256 + (b[3] as u64)) * 256
        + (b[4] as u64)) * 256 + (b[5] as u64)) * 256 + (b[6] as u64)) * 256 + (b[7] as u64)
}

/// Encode a `u64` big-endian.
pub fn u64_to_be(v: u64) -> (b: [u8; 8])
    ensures
        b@ =~= be_bytes(v as nat, 8),
{
    let v1 = v / 256;
    let v2 = v1 / 256;
    let v3 = v2 / 256;
    let v4 = v3 / 256;
    let v5 = v4 / 256;
    let v6 = v5 / 256;
    let v7 = v6 / 256;
    proof {
        reveal_with_fuel(be_bytes, 9);
    }
    [
        (v7 % 256) as u8,
        (v6 % 256) as u8,
        (v5 % 256) as u8,
        (v4 % 256) as u8,
        (v3 % 256) as u8,
        (v2 % 256) as u8,
        (v1 % 256) as u8,
        (v % 256) as u8,
    ]
}

} // verus!
