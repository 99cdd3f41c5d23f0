//! The freestanding memory routines the compiler expects (`memset`,
//! `memcpy`, `memmove`, `memcmp`, `strlen`), on byte slices.

use vstd::prelude::*;

verus! {

/// Fills the first `n` bytes of `s` with the low byte of `c`; the rest of
/// `s` is unchanged.
pub fn memset(s: &mut [u8], c: i32, n: usize)
    requires
        n <= old(s).len(),
    ensures
        final(s).len() == old(s).len(),
        forall|i: int| 0 <= i < n ==> final(s)@[i] == c as u8,
        forall|i: int| n <= i < old(s).len() ==> final(s)@[i] == old(s)@[i],
{
    let b = c as u8;
    let mut i: usize = 0;
    while i < n
        invariant
            i <= n <= s.len(),
            s.len() == old(s).len(),
            b == c as u8,
            forall|j: int| 0 <= j < i ==> s@[j] == b,
            forall|j: int| i <= j < s.len() ==> s@[j] == old(s)@[j],
        decreases n - i,
    {
        s[i] = b;
        i = i + 1;
    }
}

/// Copies the first `n` bytes of `src` to the start of `dest`; the rest of
/// `dest` is unchanged.
pub fn memcpy(dest: &mut [u8], src: &[u8], n: usize)
    requires
        n <= old(dest).len(),
        n <= src.len(),
    ensures
        final(dest).len() == old(dest).len(),
        forall|i: int| 0 <= i < n ==> final(dest)@[i] == src@[i],
        forall|i: int| n <= i < old(dest).len() ==> final(dest)@[i] == old(dest)@[i],
{
    let mut i: usize = 0;
    while i < n
        invariant
            i <= n <= dest.len(),
            n <= src.len(),
            dest.len() == old(dest).len(),
            forall|j: int| 0 <= j < i ==> dest@[j] == src@[j],
            forall|j: int| i <= j < dest.len() ==> dest@[j] == old(dest)@[j],
        decreases n - i,
    {
        dest[i] = src[i];
        i = i + 1;
    }
}

/// Copies the `n` bytes at `src` to `dest` within the same buffer, the two
/// ranges possibly overlapping: afterwards the bytes at `dest` are the ones
/// that were at `src` before, and every byte outside `dest..dest + n` is
/// unchanged. When the source lies before the destination the copy runs
/// from the last byte down, otherwise from the first byte up.
pub fn memmove(buf: &mut [u8], dest: usize, src: usize, n: usize)
    requires
        dest + n <= old(buf).len(),
        src + n <= old(buf).len(),
    ensures
        final(buf).len() == old(buf).len(),
        forall|j: int| dest <= j < dest + n ==> #[trigger] final(buf)@[j] == old(buf)@[j - dest + src],
        forall|j: int|
            0 <= j < old(buf).len() && !(dest <= j < dest + n) ==> final(buf)@[j] == old(buf)@[j],
{
    if src < dest {
        let mut i: usize = n;
        while i > 0
            invariant
                i <= n,
                src < dest,
                dest + n <= buf.len(),
                buf.len() == old(buf).len(),
                forall|j: int| dest + i <= j < dest + n ==> #[trigger] buf@[j] == old(buf)@[j - dest + src],
                forall|j: int|
                    0 <= j < buf.len() && !(dest + i <= j < dest + n) ==> buf@[j] == old(buf)@[j],
            decreases i,
        {
            i = i - 1;
            let v = buf[src + i];
            buf[dest + i] = v;
        }
    } else {
        let mut i: usize = 0;
        while i < n
            invariant
                i <= n,
                src >= dest,
                dest + n <= buf.len(),
                src + n <= buf.len(),
                buf.len() == old(buf).len(),
                forall|j: int| dest <= j < dest + i ==> #[trigger] buf@[j] == old(buf)@[j - dest + src],
                forall|j: int|
                    0 <= j < buf.len() && !(dest <= j < dest + i) ==> buf@[j] == old(buf)@[j],
            decreases n - i,
        {
            let v = buf[src + i];
            buf[dest + i] = v;
            i = i + 1;
        }
    }
}

/// Index of the first position from `i` on, below `n`, where `a` and `b`
/// differ; `n` when they agree up to `n`.
pub open spec fn first_difference(a: Seq<u8>, b: Seq<u8>, n: nat, i: nat) -> nat
    decreases n - i,
{
    if i >= n {
        n
    } else if a[i as int] != b[i as int] {
        i
    } else {
        first_difference(a, b, n, i + 1)
    }
}

proof fn lemma_first_difference(a: Seq<u8>, b: Seq<u8>, n: nat, i: nat)
    requires
        i <= n,
    ensures
        i <= first_difference(a, b, n, i) <= n,
        first_difference(a, b, n, i) < n ==> a[first_difference(a, b, n, i) as int]
            != b[first_difference(a, b, n, i) as int],
        forall|j: int| i <= j < first_difference(a, b, n, i) ==> a[j] == b[j],
    decreases n - i,
{
    if i < n && a[i as int] == b[i as int] {
        lemma_first_difference(a, b, n, i + 1);
    }
}

/// The byte difference `a - b` that a comparison reports.
pub open spec fn byte_difference(a: u8, b: u8) -> i32 {
    (a as int - b as int) as i32
}

/// What comparing the first `n` bytes of `a` and `b` gives: zero when they
/// agree, otherwise the difference at the first position where they do not.
pub open spec fn compare_result(a: Seq<u8>, b: Seq<u8>, n: usize) -> i32 {
    let d = first_difference(a, b, n as nat, 0);
    if d < n {
        byte_difference(a[d as int], b[d as int])
    } else {
        0
    }
}

/// The first `n` bytes of `a` and `b` are the same.
pub open spec fn same_prefix(a: Seq<u8>, b: Seq<u8>, n: usize) -> bool {
    a.take(n as int) == b.take(n as int)
}

fn compare_bytes(s1: &[u8], s2: &[u8], n: usize) -> (r: i32)
    requires
        n <= s1.len(),
        n <= s2.len(),
    ensures
        r == compare_result(s1@, s2@, n),
        r == 0 <==> same_prefix(s1@, s2@, n),
{
    proof {
        lemma_first_difference(s1@, s2@, n as nat, 0);
    }
    let ghost d = first_difference(s1@, s2@, n as nat, 0);
    let mut i: usize = 0;
    while i < n
        invariant
            i <= n <= s1.len(),
            n <= s2.len(),
            d == first_difference(s1@, s2@, n as nat, 0),
            i <= d <= n,
            d < n ==> s1@[d as int] != s2@[d as int],
            forall|j: int| 0 <= j < d ==> s1@[j] == s2@[j],
        decreases n - i,
    {
        let a = s1[i];
        let b = s2[i];
        if a != b {
            assert(i == d);
            assert(s1@.take(n as int)[i as int] != s2@.take(n as int)[i as int]);
            return a as i32 - b as i32;
        }
        i = i + 1;
    }
    assert(s1@.take(n as int) =~= s2@.take(n as int));
    0
}

/// Compares the first `n` bytes of `s1` and `s2`: zero when they are equal,
/// otherwise the difference of the first pair of bytes that differ (the
/// byte of `s1` minus the byte of `s2`).
pub fn memcmp(s1: &[u8], s2: &[u8], n: usize) -> (r: i32)
    requires
        n <= s1.len(),
        n <= s2.len(),
    ensures
        r == compare_result(s1@, s2@, n),
        r == 0 <==> same_prefix(s1@, s2@, n),
{
    compare_bytes(s1, s2, n)
}

/// The length of the NUL-terminated string at the start of `s`: the index
/// of its first zero byte.
pub fn strlen(s: &[u8]) -> (n: usize)
    requires
        exists|i: int| 0 <= i < s.len() && s@[i] == 0,
    ensures
        n < s.len(),
        s@[n as int] == 0,
        forall|j: int| 0 <= j < n ==> s@[j] != 0,
{
    let mut n: usize = 0;
    while s[n] != 0
        invariant
            n < s.len(),
            forall|j: int| 0 <= j < n ==> s@[j] != 0,
            exists|i: int| n <= i < s.len() && s@[i] == 0,
        decreases s.len() - n,
    {
        n = n + 1;
    }
    n
}

proof fn lemma_first_difference_symmetric(a: Seq<u8>, b: Seq<u8>, n: nat, i: nat)
    ensures
        first_difference(a, b, n, i) == first_difference(b, a, n, i),
    decreases n - i,
{
    if i < n && a[i as int] == b[i as int] {
        lemma_first_difference_symmetric(a, b, n, i + 1);
    }
}

/// Comparing `b` with `a` gives the negation of comparing `a` with `b`.
pub proof fn lemma_compare_antisymmetric(a: Seq<u8>, b: Seq<u8>, n: usize)
    ensures
        compare_result(b, a, n) == -compare_result(a, b, n),
{
    lemma_first_difference_symmetric(a, b, n as nat, 0);
}

/// `memcmp` reports the difference of the first pair of bytes that differ:
/// when the first `n` bytes agree up to position `d` and differ there, the
/// result is `a[d] - b[d]` (negative exactly when `a[d] < b[d]`); when all `n`
/// agree it is zero.
pub proof fn lemma_compare_result_is_first_difference(a: Seq<u8>, b: Seq<u8>, n: usize, d: int)
    requires
        n <= a.len(),
        n <= b.len(),
    ensures
        0 <= d < n && a[d] != b[d] && (forall|j: int| 0 <= j < d ==> a[j] == b[j]) ==> {
            &&& compare_result(a, b, n) as int == a[d] as int - b[d] as int
            &&& (compare_result(a, b, n) < 0 <==> a[d] < b[d])
            &&& (compare_result(a, b, n) > 0 <==> a[d] > b[d])
        },
        (forall|j: int| 0 <= j < n ==> a[j] == b[j]) ==> compare_result(a, b, n) == 0,
{
    lemma_first_difference(a, b, n as nat, 0);
    let f = first_difference(a, b, n as nat, 0);
    if 0 <= d < n && a[d] != b[d] && (forall|j: int| 0 <= j < d ==> a[j] == b[j]) {
        if f < d {
            assert(a[f as int] == b[f as int]);
        }
        if f > d {
            assert(a[d] == b[d]);
        }
        assert(f == d);
    }
    if forall|j: int| 0 <= j < n ==> a[j] == b[j] {
        if f < n {
            assert(a[f as int] == b[f as int]);
        }
    }
}

} // verus!
