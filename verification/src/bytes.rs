//! Byte-string helpers shared by the fixed-size crypto value types: exact
//! copies between slices, arrays and vectors, bytewise equality, and the
//! bytewise lexicographic order with its algebraic laws.

use vstd::prelude::*;

verus! {

/// The all-zero byte string of length `n`.
pub open spec fn zero_bytes(n: nat) -> Seq<u8> {
    Seq::new(n, |i: int| 0u8)
}

/// Copy a slice of length `N` into a fresh array, byte for byte.
pub fn copy_to_array<const N: usize>(bytes: &[u8]) -> (r: [u8; N])
    requires
        bytes@.len() == N,
    ensures
        r@ == bytes@,
{
    let mut r: [u8; N] = [0u8; N];
    let mut i: usize = 0;
    while i < N
        invariant
            i <= N,
            bytes@.len() == N,
            forall|j: int| 0 <= j < i ==> r@[j] == bytes@[j],
        decreases N - i,
    {
        r[i] = bytes[i];
        i += 1;
    }
    proof {
        assert(r@ =~= bytes@);
    }
    r
}

/// Copy a slice into a fresh vector, byte for byte.
pub fn copy_to_vec(bytes: &[u8]) -> (r: Vec<u8>)
    ensures
        r@ == bytes@,
{
    let mut r: Vec<u8> = Vec::new();
    let mut i: usize = 0;
    while i < bytes.len()
        invariant
            i <= bytes@.len(),
            r@ == bytes@.take(i as int),
        decreases bytes@.len() - i,
    {
        r.push(bytes[i]);
        proof {
            assert(r@ =~= bytes@.take(i + 1 as int));
        }
        i += 1;
    }
    proof {
        assert(bytes@.take(bytes@.len() as int) =~= bytes@);
    }
    r
}

/// Whether two byte slices hold the same bytes.
pub fn bytes_eq(a: &[u8], b: &[u8]) -> (r: bool)
    ensures
        r == (a@ == b@),
{
    if a.len() != b.len() {
        return false;
    }
    let mut i: usize = 0;
    while i < a.len()
        invariant
            i <= a@.len(),
            a@.len() == b@.len(),
            forall|j: int| 0 <= j < i ==> a@[j] == b@[j],
        decreases a@.len() - i,
    {
        if a[i] != b[i] {
            return false;
        }
        i += 1;
    }
    proof {
        assert(a@ =~= b@);
    }
    true
}

/// The bytewise lexicographic order on byte strings: the first differing
/// byte decides; a proper prefix comes first.
pub open spec fn spec_bytes_cmp(a: Seq<u8>, b: Seq<u8>) -> core::cmp::Ordering
    decreases a.len(),
{
    if a.len() == 0 && b.len() == 0 {
        core::cmp::Ordering::Equal
    } else if a.len() == 0 {
        core::cmp::Ordering::Less
    } else if b.len() == 0 {
        core::cmp::Ordering::Greater
    } else if a[0] < b[0] {
        core::cmp::Ordering::Less
    } else if a[0] > b[0] {
        core::cmp::Ordering::Greater
    } else {
        spec_bytes_cmp(a.drop_first(), b.drop_first())
    }
}

/// Compare two byte slices of equal length in the bytewise lexicographic
/// order.
pub fn bytes_cmp(a: &[u8], b: &[u8]) -> (r: core::cmp::Ordering)
    requires
        a@.len() == b@.len(),
    ensures
        r == spec_bytes_cmp(a@, b@),
{
    proof {
        assert(a@.skip(0) =~= a@);
        assert(b@.skip(0) =~= b@);
    }
    let mut i: usize = 0;
    while i < a.len()
        invariant
            i <= a@.len(),
            a@.len() == b@.len(),
            spec_bytes_cmp(a@, b@) == spec_bytes_cmp(a@.skip(i as int), b@.skip(i as int)),
        decreases a@.len() - i,
    {
        let x = a[i];
        let y = b[i];
        proof {
            assert(a@.skip(i as int)[0] == a@[i as int]);
            assert(b@.skip(i as int)[0] == b@[i as int]);
            assert(a@.skip(i as int).drop_first() =~= a@.skip(i + 1 as int));
            assert(b@.skip(i as int).drop_first() =~= b@.skip(i + 1 as int));
        }
        if x < y {
            return core::cmp::Ordering::Less;
        }
        if x > y {
            return core::cmp::Ordering::Greater;
        }
        i += 1;
    }
    proof {
        assert(a@.skip(a@.len() as int) =~= Seq::<u8>::empty());
        assert(b@.skip(b@.len() as int) =~= Seq::<u8>::empty());
    }
    core::cmp::Ordering::Equal
}

/// Law: the lexicographic order compares equal exactly on equal byte
/// strings.
pub proof fn lemma_bytes_cmp_equal(a: Seq<u8>, b: Seq<u8>)
    ensures
        (spec_bytes_cmp(a, b) == core::cmp::Ordering::Equal) <==> (a == b),
    decreases a.len(),
{
    if a.len() == 0 && b.len() == 0 {
        assert(a =~= b);
    } else if a.len() != 0 && b.len() != 0 {
        lemma_bytes_cmp_equal(a.drop_first(), b.drop_first());
        if a[0] == b[0] && a.drop_first() == b.drop_first() {
            assert forall|i: int| 0 <= i < a.len() implies a[i] == b[i] by {
                if i > 0 {
                    assert(a.drop_first()[i - 1] == a[i]);
                    assert(b.drop_first()[i - 1] == b[i]);
                }
            }
            assert(a =~= b);
        }
        if a == b {
            assert(a.drop_first() =~= b.drop_first());
        }
    }
}

/// Law: the lexicographic order is antisymmetric — swapping the sides turns
/// `Less` into `Greater` and conversely, and keeps `Equal`.
pub proof fn lemma_bytes_cmp_antisymmetric(a: Seq<u8>, b: Seq<u8>)
    ensures
        (spec_bytes_cmp(a, b) == core::cmp::Ordering::Less) <==> (spec_bytes_cmp(b, a)
            == core::cmp::Ordering::Greater),
    decreases a.len(),
{
    if a.len() != 0 && b.len() != 0 {
        lemma_bytes_cmp_antisymmetric(a.drop_first(), b.drop_first());
    }
}

/// Law: the lexicographic order is transitive.
pub proof fn lemma_bytes_cmp_transitive(a: Seq<u8>, b: Seq<u8>, c: Seq<u8>)
    requires
        spec_bytes_cmp(a, b) == core::cmp::Ordering::Less,
        spec_bytes_cmp(b, c) == core::cmp::Ordering::Less,
    ensures
        spec_bytes_cmp(a, c) == core::cmp::Ordering::Less,
    decreases a.len(),
{
    if a.len() != 0 && b.len() != 0 && c.len() != 0 {
        if a[0] == b[0] && b[0] == c[0] {
            lemma_bytes_cmp_transitive(a.drop_first(), b.drop_first(), c.drop_first());
        }
    }
}

} // verus!
