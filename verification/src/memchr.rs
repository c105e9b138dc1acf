//! Byte scanner: find the first occurrence of a byte in a slice.

use vstd::prelude::*;

verus! {

/// True when `needle` occurs nowhere in `s`.
pub open spec fn free_of(s: Seq<u8>, needle: u8) -> bool {
    forall|i: int| 0 <= i < s.len() ==> s[i] != needle
}

/// True when `s` contains no zero byte at all.
pub open spec fn nul_free(s: Seq<u8>) -> bool {
    free_of(s, 0)
}

/// Returns the index of the first occurrence of `needle` in `haystack`,
/// or `None` if `needle` does not occur.
pub fn memchr(needle: u8, haystack: &[u8]) -> (r: Option<usize>)
    ensures
        match r {
            Some(i) => i < haystack@.len() && haystack@[i as int] == needle && free_of(
                haystack@.subrange(0, i as int),
                needle,
            ),
            None => free_of(haystack@, needle),
        },
{
    let n = haystack.len();
    let mut i: usize = 0;
    while i < n
        invariant
            i <= n,
            n == haystack@.len(),
            free_of(haystack@.subrange(0, i as int), needle),
        decreases n - i,
    {
        if haystack[i] == needle {
            return Some(i);
        }
        assert(haystack@.subrange(0, i + 1) == haystack@.subrange(0, i as int).push(
            haystack@[i as int],
        ));
        i = i + 1;
    }
    assert(haystack@.subrange(0, n as int) == haystack@);
    None
}

/// Returns the index of the first zero byte in `bytes`, or `None` if `bytes`
/// holds no zero byte.
pub fn find_nul_byte(bytes: &[u8]) -> (r: Option<usize>)
    ensures
        match r {
            Some(i) => i < bytes@.len() && bytes@[i as int] == 0 && nul_free(
                bytes@.subrange(0, i as int),
            ),
            None => nul_free(bytes@),
        },
{
    memchr(0, bytes)
}

} // verus!
