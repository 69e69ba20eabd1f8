//! Byte strings read as numbers, most significant byte first.
use vstd::prelude::*;

verus! {

/// The number that a byte string denotes, most significant byte first.
pub open spec fn be_nat(b: Seq<u8>) -> nat
    decreases b.len(),
{
    if b.len() == 0 {
        0
    } else {
        be_nat(b.drop_last()) * 256 + b.last() as nat
    }
}

/// Whether every byte of the string is zero.
pub open spec fn all_zero(b: Seq<u8>) -> bool {
    forall|i: int| 0 <= i < b.len() ==> b[i] == 0
}

/// Of two strings of one length, the one with the smaller byte at the first
/// place where they differ denotes the smaller number.
pub proof fn lemma_be_nat_first_difference(a: Seq<u8>, b: Seq<u8>, i: int)
    requires
        a.len() == b.len(),
        0 <= i < a.len(),
        forall|j: int| 0 <= j < i ==> a[j] == b[j],
        a[i] < b[i],
    ensures
        be_nat(a) < be_nat(b),
    decreases a.len(),
{
    let a0 = a.drop_last();
    let b0 = b.drop_last();
    if i == a.len() - 1 {
        assert(a0 =~= b0);
    } else {
        lemma_be_nat_first_difference(a0, b0, i);
    }
}

/// A string denotes zero exactly when all its bytes are zero.
pub proof fn lemma_be_nat_zero(b: Seq<u8>)
    ensures
        (be_nat(b) == 0) == all_zero(b),
    decreases b.len(),
{
    if b.len() > 0 {
        let b0 = b.drop_last();
        lemma_be_nat_zero(b0);
        if all_zero(b) {
            assert(all_zero(b0));
        } else if be_nat(b) == 0 {
            assert(b.last() == 0);
            assert forall|i: int| 0 <= i < b.len() implies b[i] == 0 by {
                if i < b.len() - 1 {
                    assert(b0[i] == b[i]);
                }
            }
        }
    }
}

/// Two strings of one length that denote the same number are the same string.
pub proof fn lemma_be_nat_injective(a: Seq<u8>, b: Seq<u8>)
    requires
        a.len() == b.len(),
        be_nat(a) == be_nat(b),
    ensures
        a == b,
    decreases a.len(),
{
    if a.len() > 0 {
        lemma_be_nat_injective(a.drop_last(), b.drop_last());
        assert(a =~= a.drop_last().push(a.last()));
        assert(b =~= b.drop_last().push(b.last()));
    } else {
        assert(a =~= b);
    }
}

/// Zero bytes in front of a string do not change the number it denotes.
pub proof fn lemma_be_nat_leading_zeros(z: Seq<u8>, b: Seq<u8>)
    requires
        all_zero(z),
    ensures
        be_nat(z + b) == be_nat(b),
    decreases b.len(),
{
    if b.len() == 0 {
        assert(z + b =~= z);
        lemma_be_nat_zero(z);
    } else {
        assert((z + b).drop_last() =~= z + b.drop_last());
        lemma_be_nat_leading_zeros(z, b.drop_last());
    }
}

/// Whether two byte strings are the same.
pub fn bytes_eq(a: &Vec<u8>, b: &Vec<u8>) -> (r: bool)
    ensures
        r == (a@ == b@),
{
    if a.len() != b.len() {
        return false;
    }
    let mut i: usize = 0;
    while i < a.len()
        invariant
            a.len() == b.len(),
            i <= a.len(),
            forall|j: int| 0 <= j < i ==> a@[j] == b@[j],
        decreases a.len() - i,
    {
        if a[i] != b[i] {
            return false;
        }
        i += 1;
    }
    assert(a@ =~= b@);
    true
}

/// Whether a byte string denotes zero.
pub fn is_zero_bytes(a: &Vec<u8>) -> (r: bool)
    ensures
        r == (be_nat(a@) == 0),
        r == all_zero(a@),
{
    proof {
        lemma_be_nat_zero(a@);
    }
    let mut i: usize = 0;
    while i < a.len()
        invariant
            i <= a.len(),
            forall|j: int| 0 <= j < i ==> a@[j] == 0,
        decreases a.len() - i,
    {
        if a[i] != 0 {
            proof {
                lemma_be_nat_zero(a@);
            }
            assert(a@[i as int] != 0);
            return false;
        }
        i += 1;
    }
    true
}

/// Whether the first of two strings of one length denotes the smaller number.
pub fn bytes_less(a: &Vec<u8>, b: &Vec<u8>) -> (r: bool)
    requires
        a.len() == b.len(),
    ensures
        r == (be_nat(a@) < be_nat(b@)),
{
    let mut i: usize = 0;
    while i < a.len()
        invariant
            a.len() == b.len(),
            i <= a.len(),
            forall|j: int| 0 <= j < i ==> a@[j] == b@[j],
        decreases a.len() - i,
    {
        if a[i] < b[i] {
            proof {
                lemma_be_nat_first_difference(a@, b@, i as int);
            }
            return true;
        }
        if a[i] > b[i] {
            proof {
                lemma_be_nat_first_difference(b@, a@, i as int);
            }
            return false;
        }
        i += 1;
    }
    assert(a@ =~= b@);
    false
}

/// A copy of a byte string.
pub fn copy_bytes(a: &Vec<u8>) -> (r: Vec<u8>)
    ensures
        r@ == a@,
{
    let mut r: Vec<u8> = Vec::new();
    let mut i: usize = 0;
    while i < a.len()
        invariant
            i <= a.len(),
            r@ == a@.subrange(0, i as int),
        decreases a.len() - i,
    {
        r.push(a[i]);
        assert(r@ =~= a@.subrange(0, i + 1));
        i += 1;
    }
    assert(r@ =~= a@);
    r
}

/// A string of zero bytes.
pub open spec fn zeros(n: nat) -> Seq<u8> {
    Seq::new(n, |i: int| 0u8)
}

/// Zero bytes, then the string, up to the given length.
pub open spec fn padded(b: Seq<u8>, len: nat) -> Seq<u8> {
    zeros((len - b.len()) as nat) + b
}

/// The part of a byte string between two places.
pub fn copy_range(a: &Vec<u8>, from: usize, to: usize) -> (r: Vec<u8>)
    requires
        from <= to <= a.len(),
    ensures
        r@ == a@.subrange(from as int, to as int),
{
    let mut r: Vec<u8> = Vec::new();
    let mut i: usize = from;
    while i < to
        invariant
            from <= i <= to <= a.len(),
            r@ == a@.subrange(from as int, i as int),
        decreases to - i,
    {
        r.push(a[i]);
        assert(r@ =~= a@.subrange(from as int, i + 1));
        i += 1;
    }
    r
}

/// The string with zero bytes put in front until it has the given length.
pub fn pad_left(a: &Vec<u8>, len: usize) -> (r: Vec<u8>)
    requires
        a.len() <= len,
    ensures
        r@.len() == len,
        r@ == padded(a@, len as nat),
        be_nat(r@) == be_nat(a@),
{
    let mut r: Vec<u8> = Vec::new();
    let k = len - a.len();
    while r.len() < k
        invariant
            r.len() <= k,
            all_zero(r@),
            r@ =~= zeros(r@.len()),
        decreases k - r.len(),
    {
        r.push(0u8);
    }
    let ghost z = r@;
    let mut i: usize = 0;
    while i < a.len()
        invariant
            i <= a.len(),
            k + a.len() == len,
            r@ == z + a@.subrange(0, i as int),
        decreases a.len() - i,
    {
        r.push(a[i]);
        assert(r@ =~= z + a@.subrange(0, i + 1));
        i += 1;
    }
    proof {
        assert(a@.subrange(0, a.len() as int) =~= a@);
        lemma_be_nat_leading_zeros(z, a@);
        assert(z =~= zeros((len - a.len()) as nat));
    }
    r
}

/// The string of the given length that denotes the same number, if there is
/// one: zero bytes are put in front of a shorter string and taken from the
/// front of a longer one.
pub open spec fn fitted(b: Seq<u8>, len: nat) -> Option<Seq<u8>> {
    if b.len() <= len {
        Some(padded(b, len))
    } else if all_zero(b.subrange(0, b.len() - len)) {
        Some(b.subrange(b.len() - len, b.len() as int))
    } else {
        None
    }
}

/// The string of the given length that denotes the same number, if there is
/// one.
pub fn fit(a: &Vec<u8>, len: usize) -> (r: Option<Vec<u8>>)
    ensures
        r.is_some() == fitted(a@, len as nat).is_some(),
        r.is_some() ==> r.unwrap()@ == fitted(a@, len as nat).unwrap() && r.unwrap()@.len() == len && be_nat(
            r.unwrap()@,
        ) == be_nat(a@),
{
    if a.len() <= len {
        return Some(pad_left(a, len));
    }
    let k = a.len() - len;
    let front = copy_range(a, 0, k);
    if !is_zero_bytes(&front) {
        return None;
    }
    let rest = copy_range(a, k, a.len());
    proof {
        assert(a@ =~= front@ + rest@);
        lemma_be_nat_leading_zeros(front@, rest@);
    }
    Some(rest)
}

/// Whether two byte strings denote the same number.
pub fn same_number(a: &Vec<u8>, b: &Vec<u8>) -> (r: bool)
    ensures
        r == (be_nat(a@) == be_nat(b@)),
{
    let len = if a.len() < b.len() { b.len() } else { a.len() };
    let pa = pad_left(a, len);
    let pb = pad_left(b, len);
    proof {
        if be_nat(pa@) == be_nat(pb@) {
            lemma_be_nat_injective(pa@, pb@);
        }
    }
    bytes_eq(&pa, &pb)
}

} // verus!
