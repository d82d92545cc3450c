//! Numeric value of a raw byte chunk: little-endian for the record's native
//! integer fields, big-endian for two-byte fields held in network order.
use vstd::prelude::*;

verus! {

/// The value of the bytes at `i..` read as a little-endian integer.
pub open spec fn le_val_from(b: Seq<u8>, i: int) -> nat
    decreases b.len() - i,
{
    if i < 0 || i >= b.len() {
        0
    } else {
        (b[i] + 256 * le_val_from(b, i + 1)) as nat
    }
}

/// The value of a whole byte chunk read as a little-endian integer.
pub open spec fn le_val(b: Seq<u8>) -> nat {
    le_val_from(b, 0)
}

/// The value of a two-byte chunk read in network order (big-endian).
pub open spec fn be16_val(b: Seq<u8>) -> nat
    recommends
        b.len() == 2,
{
    (256 * b[0] + b[1]) as nat
}

/// 256 raised to a small power.
pub open spec fn pow256(n: nat) -> nat
    decreases n,
{
    if n == 0 {
        1
    } else {
        256 * pow256((n - 1) as nat)
    }
}

/// A little-endian value of `n` remaining bytes is below 256^n.
proof fn lemma_le_val_from_bound(b: Seq<u8>, i: int)
    ensures
        le_val_from(b, i) < pow256(
            (if i < 0 || i >= b.len() {
                0
            } else {
                (b.len() - i) as nat
            }),
        ),
    decreases b.len() - i,
{
    if 0 <= i < b.len() {
        lemma_le_val_from_bound(b, i + 1);
        let rest = le_val_from(b, i + 1);
        let n = (b.len() - i - 1) as nat;
        assert(le_val_from(b, i) == b[i] + 256 * rest);
        assert(256 * rest <= 256 * (pow256(n) - 1)) by (nonlinear_arith)
            requires
                rest <= pow256(n) - 1,
        ;
        assert(pow256(n + 1) == 256 * pow256(n));
    }
}

/// 256^8 written out.
proof fn lemma_pow256_8()
    ensures
        pow256(8) == 0x1_0000_0000_0000_0000,
{
    assert(pow256(0) == 1);
    assert(pow256(1) == 256);
    assert(pow256(2) == 0x1_0000);
    assert(pow256(3) == 0x100_0000);
    assert(pow256(4) == 0x1_0000_0000);
    assert(pow256(5) == 0x100_0000_0000);
    assert(pow256(6) == 0x1_0000_0000_0000);
    assert(pow256(7) == 0x100_0000_0000_0000);
    assert(pow256(8) == 0x1_0000_0000_0000_0000);
}

/// 256^n grows with n.
proof fn lemma_pow256_increases(m: nat, n: nat)
    requires
        m <= n,
    ensures
        pow256(m) <= pow256(n),
    decreases n,
{
    if m < n {
        lemma_pow256_increases(m, (n - 1) as nat);
        assert(pow256(n) == 256 * pow256((n - 1) as nat));
        assert(pow256((n - 1) as nat) <= 256 * pow256((n - 1) as nat)) by (nonlinear_arith)
            requires
                pow256((n - 1) as nat) >= 0,
        ;
    }
}

/// The little-endian value of at most eight bytes fits in a machine word.
pub proof fn lemma_le_val_fits_u64(b: Seq<u8>)
    requires
        b.len() <= 8,
    ensures
        le_val(b) <= u64::MAX,
{
    lemma_le_val_from_bound(b, 0);
    lemma_pow256_8();
    if b.len() > 0 {
        lemma_pow256_increases(b.len(), 8);
    }
}

/// Reads a chunk of at most eight bytes as a little-endian integer.
pub fn read_le_u64(b: &[u8]) -> (r: u64)
    requires
        b@.len() <= 8,
    ensures
        r == le_val(b@),
{
    proof {
        lemma_le_val_from_bound(b@, 0);
    }
    let mut acc: u64 = 0;
    let mut i: usize = b.len();
    while i > 0
        invariant
            i <= b@.len() <= 8,
            acc == le_val_from(b@, i as int),
        decreases i,
    {
        proof {
            lemma_le_val_from_bound(b@, i - 1);
            lemma_pow256_8();
            lemma_pow256_increases((b@.len() - i + 1) as nat, 8);
        }
        i = i - 1;
        acc = acc * 256 + (b[i] as u64);
    }
    acc
}

/// Reads a two-byte chunk in network order (big-endian).
pub fn read_be_u16(b: &[u8]) -> (r: u16)
    requires
        b@.len() == 2,
    ensures
        r == be16_val(b@),
{
    (b[0] as u16) * 256 + (b[1] as u16)
}

/// Copies a byte vector.
pub fn copy_bytes(v: &Vec<u8>) -> (r: Vec<u8>)
    ensures
        r@ == v@,
{
    let mut r: Vec<u8> = Vec::new();
    let mut i: usize = 0;
    while i < v.len()
        invariant
            i <= v@.len(),
            r@ == v@.subrange(0, i as int),
        decreases v@.len() - i,
    {
        r.push(v[i]);
        proof {
            assert(r@ =~= v@.subrange(0, i + 1));
        }
        i = i + 1;
    }
    proof {
        assert(r@ =~= v@);
    }
    r
}

/// Compares two byte vectors for equality.
pub fn bytes_eq(a: &Vec<u8>, b: &Vec<u8>) -> (r: bool)
    ensures
        r == (a@ == b@),
{
    if a.len() != b.len() {
        proof {
            assert(a@ != b@);
        }
        return false;
    }
    let mut i: usize = 0;
    while i < a.len()
        invariant
            i <= a@.len(),
            a@.len() == b@.len(),
            forall|j: int| 0 <= j < i ==> a@[j] == b@[j],
        decreases a@.len() - i,
    {
        if a[i] != b[i] {
            return false;
        }
        i = i + 1;
    }
    proof {
        assert(a@ =~= b@);
    }
    true
}

} // verus!
