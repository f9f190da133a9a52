//! Byte strings read as numbers, in the two byte orders the pipeline meets.

use vstd::prelude::*;

verus! {

/// The number spelled by `s` from index `i` on, least significant byte first.
pub open spec fn le_from(s: Seq<u8>, i: int) -> nat
    decreases s.len() - i,
{
    if 0 <= i < s.len() {
        s[i] as nat + 256 * le_from(s, i + 1)
    } else {
        0
    }
}

/// The number spelled by `s`, least significant byte first.
pub open spec fn le_nat(s: Seq<u8>) -> nat {
    le_from(s, 0)
}

/// The number spelled by the first `n` bytes of `s`, most significant byte first.
pub open spec fn be_upto(s: Seq<u8>, n: int) -> nat
    decreases n,
{
    if 0 < n <= s.len() {
        256 * be_upto(s, n - 1) + s[n - 1] as nat
    } else {
        0
    }
}

/// The number spelled by `s`, most significant byte first.
pub open spec fn be_nat(s: Seq<u8>) -> nat {
    be_upto(s, s.len() as int)
}

/// Reading the first `n` bytes of the reversed string big-endian gives what
/// the last `n` bytes of the string spell little-endian.
proof fn lemma_be_upto_of_reverse(s: Seq<u8>, n: int)
    requires
        0 <= n <= s.len(),
    ensures
        be_upto(s.reverse(), n) == le_from(s, s.len() - n),
    decreases n,
{
    if n > 0 {
        lemma_be_upto_of_reverse(s, n - 1);
        assert(s.reverse()[n - 1] == s[s.len() - n]);
    }
}

/// Reversing a byte string swaps its two readings.
pub proof fn lemma_reverse_swaps_readings(s: Seq<u8>)
    ensures
        be_nat(s.reverse()) == le_nat(s),
        le_nat(s.reverse()) == be_nat(s),
{
    let r = s.reverse();
    lemma_be_upto_of_reverse(s, s.len() as int);
    lemma_be_upto_of_reverse(r, r.len() as int);
    assert(r.reverse() =~= s);
}

/// Two strings that agree from `i` on spell the same number from `i` on.
proof fn lemma_le_from_same_tail(a: Seq<u8>, b: Seq<u8>, i: int)
    requires
        a.len() == b.len(),
        0 <= i,
        forall|j: int| i <= j < a.len() ==> a[j] == b[j],
    ensures
        le_from(a, i) == le_from(b, i),
    decreases a.len() - i,
{
    if i < a.len() {
        lemma_le_from_same_tail(a, b, i + 1);
    }
}

/// A strict order between the upper parts of two strings of one length
/// decides the order of the whole numbers.
proof fn lemma_le_from_order_extends(a: Seq<u8>, b: Seq<u8>, i: int)
    requires
        a.len() == b.len(),
        0 <= i <= a.len(),
        le_from(a, i) < le_from(b, i),
    ensures
        le_nat(a) < le_nat(b),
    decreases i,
{
    if i > 0 {
        assert(le_from(a, i - 1) == a[i - 1] as nat + 256 * le_from(a, i));
        assert(le_from(b, i - 1) == b[i - 1] as nat + 256 * le_from(b, i));
        lemma_le_from_order_extends(a, b, i - 1);
    }
}

/// Whether `a` spells a smaller number than `b`, both little-endian.
pub fn le_less(a: &[u8; 32], b: &[u8; 32]) -> (r: bool)
    ensures
        r == (le_nat(a@) < le_nat(b@)),
{
    let mut i: usize = 32;
    while i > 0
        invariant
            i <= 32,
            forall|j: int| i <= j < 32 ==> a@[j] == b@[j],
        decreases i,
    {
        i = i - 1;
        if a[i] != b[i] {
            proof {
                lemma_le_from_same_tail(a@, b@, i + 1);
                if a[i as int] < b[i as int] {
                    lemma_le_from_order_extends(a@, b@, i as int);
                } else {
                    lemma_le_from_order_extends(b@, a@, i as int);
                }
            }
            return a[i] < b[i];
        }
    }
    proof {
        lemma_le_from_same_tail(a@, b@, 0);
    }
    false
}

/// Whether every byte of `a` is zero, that is, whether it spells zero.
pub fn le_is_zero(a: &[u8; 32]) -> (r: bool)
    ensures
        r == (le_nat(a@) == 0),
{
    let mut i: usize = 32;
    while i > 0
        invariant
            i <= 32,
            le_from(a@, i as int) == 0,
        decreases i,
    {
        i = i - 1;
        if a[i] != 0 {
            proof {
                lemma_le_from_positive(a@, i as int);
            }
            return false;
        }
    }
    true
}

/// What `a` spells is positive once what it spells from `i` on is positive.
proof fn lemma_le_from_positive(a: Seq<u8>, i: int)
    requires
        0 <= i <= a.len(),
        le_from(a, i) > 0,
    ensures
        le_nat(a) > 0,
    decreases i,
{
    if i > 0 {
        assert(le_from(a, i - 1) == a[i - 1] as nat + 256 * le_from(a, i));
        lemma_le_from_positive(a, i - 1);
    }
}

/// The same bytes in the opposite order.
pub fn reversed(a: &[u8; 32]) -> (r: [u8; 32])
    ensures
        r@ == a@.reverse(),
{
    let mut r: [u8; 32] = [0u8; 32];
    let mut i: usize = 0;
    while i < 32
        invariant
            i <= 32,
            forall|j: int| 0 <= j < i ==> r@[j] == a@[31 - j],
        decreases 32 - i,
    {
        r[i] = a[31 - i];
        i = i + 1;
    }
    assert(r@ =~= a@.reverse());
    r
}

} // verus!
