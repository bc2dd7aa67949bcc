use vstd::prelude::*;

verus! {

/// The first `N` bytes of `bytes`, as an array.
pub fn leading<const N: usize>(bytes: &[u8]) -> (r: [u8; N])
    requires
        bytes@.len() >= N,
    ensures
        r@ == bytes@.subrange(0, N as int),
{
    let mut r: [u8; N] = [0u8; N];
    let mut i: usize = 0;
    while i < N
        invariant
            0 <= i <= N,
            r@.len() == N,
            bytes@.len() >= N,
            forall|j: int| 0 <= j < i ==> r@[j] == bytes@[j],
        decreases N - i,
    {
        r[i] = bytes[i];
        i = i + 1;
    }
    assert(r@ =~= bytes@.subrange(0, N as int));
    r
}

/// The bytes of an array, in a vector.
pub fn array_to_vec<const N: usize>(a: &[u8; N]) -> (r: Vec<u8>)
    ensures
        r@ == a@,
{
    let mut r: Vec<u8> = Vec::new();
    let mut i: usize = 0;
    while i < N
        invariant
            0 <= i <= N,
            a@.len() == N,
            r@ == a@.subrange(0, i as int),
        decreases N - i,
    {
        r.push(a[i]);
        assert(a@.subrange(0, i + 1) == a@.subrange(0, i as int).push(a@[i as int]));
        i = i + 1;
    }
    assert(r@ =~= a@);
    r
}

/// Whether two byte strings are equal.
pub fn bytes_equal(a: &[u8], b: &[u8]) -> (r: bool)
    ensures
        r == (a@ == b@),
{
    if a.len() != b.len() {
        return false;
    }
    let mut i: usize = 0;
    while i < a.len()
        invariant
            a@.len() == b@.len(),
            0 <= i <= a@.len(),
            forall|j: int| 0 <= j < i ==> a@[j] == b@[j],
        decreases a@.len() - i,
    {
        if a[i] != b[i] {
            return false;
        }
        i = i + 1;
    }
    assert(a@ =~= b@);
    true
}

} // verus!
