//! Byte-wise equality of a `UnixString` against other string-like views.
//!
//! Equality is decided over the logical byte content: a `UnixString` equals a
//! text or path value exactly when its physical buffer is that value's bytes
//! followed by the one terminator.

use crate::interop::path_as_bytes;
use crate::interop::path_bytes;
use crate::unix_string::UnixString;
use std::path::Path;
use vstd::prelude::*;
use vstd::utf8::encode_utf8;

verus! {

/// Compares two byte slices for equality.
pub(crate) fn bytes_eq(a: &[u8], b: &[u8]) -> (r: bool)
    ensures
        r <==> a@ == b@,
{
    if a.len() != b.len() {
        return false;
    }
    let n = a.len();
    let mut i: usize = 0;
    while i < n
        invariant
            i <= n,
            n == a@.len(),
            n == b@.len(),
            forall|j: int| 0 <= j < i ==> a@[j] == b@[j],
        decreases n - i,
    {
        if a[i] != b[i] {
            return false;
        }
        i = i + 1;
    }
    proof {
        assert(a@ =~= b@);
    }
    true
}

// Compares a physical buffer against `content` followed by one terminator.
fn eq_logical(phys: &[u8], content: &[u8]) -> (r: bool)
    ensures
        r <==> phys@ == content@.push(0),
{
    let n = phys.len();
    if n == 0 {
        return false;
    }
    if n - 1 != content.len() {
        proof {
            if phys@ == content@.push(0) {
                assert(phys@.len() == content@.len() + 1);
            }
        }
        return false;
    }
    if phys[n - 1] != 0 {
        proof {
            if phys@ == content@.push(0) {
                assert(phys@[n - 1] == 0);
            }
        }
        return false;
    }
    let r = bytes_eq(vstd::slice::slice_subrange(phys, 0, n - 1), content);
    proof {
        if phys@.subrange(0, n - 1) == content@ {
            assert(phys@ =~= content@.push(0));
        }
        if phys@ == content@.push(0) {
            assert(phys@.subrange(0, n - 1) =~= content@);
        }
    }
    r
}

impl PartialEq for UnixString {
    /// Byte-level comparison of the two physical buffers.
    fn eq(&self, other: &UnixString) -> (r: bool)
        ensures
            r <==> self@ == other@,
    {
        bytes_eq(self.as_bytes_with_nul(), other.as_bytes_with_nul())
    }
}

impl vstd::std_specs::cmp::PartialEqSpecImpl for UnixString {
    open spec fn obeys_eq_spec() -> bool {
        true
    }

    open spec fn eq_spec(&self, other: &UnixString) -> bool {
        self@ == other@
    }
}

impl PartialEq<&str> for UnixString {
    /// Byte-level comparison against the text's UTF-8 bytes.  The buffer is
    /// not assumed to hold valid UTF-8 itself.
    fn eq(&self, other: &&str) -> (r: bool)
        ensures
            r <==> self@ == encode_utf8(other@).push(0),
    {
        eq_logical(self.as_bytes_with_nul(), other.as_bytes())
    }
}

impl vstd::std_specs::cmp::PartialEqSpecImpl<&str> for UnixString {
    open spec fn obeys_eq_spec() -> bool {
        true
    }

    open spec fn eq_spec(&self, other: &&str) -> bool {
        self@ == encode_utf8(other@).push(0)
    }
}

impl PartialEq<UnixString> for &str {
    /// Byte-level comparison against the text's UTF-8 bytes.
    fn eq(&self, other: &UnixString) -> (r: bool)
        ensures
            r <==> other@ == encode_utf8(self@).push(0),
    {
        eq_logical(other.as_bytes_with_nul(), self.as_bytes())
    }
}

impl vstd::std_specs::cmp::PartialEqSpecImpl<UnixString> for &str {
    open spec fn obeys_eq_spec() -> bool {
        true
    }

    open spec fn eq_spec(&self, other: &UnixString) -> bool {
        other@ == encode_utf8(self@).push(0)
    }
}

impl PartialEq<&Path> for UnixString {
    /// Byte-level comparison against the path's raw bytes.
    fn eq(&self, other: &&Path) -> (r: bool)
        ensures
            r <==> self@ == path_bytes(*other).push(0),
    {
        eq_logical(self.as_bytes_with_nul(), path_as_bytes(*other))
    }
}

impl vstd::std_specs::cmp::PartialEqSpecImpl<&Path> for UnixString {
    open spec fn obeys_eq_spec() -> bool {
        true
    }

    open spec fn eq_spec(&self, other: &&Path) -> bool {
        self@ == path_bytes(*other).push(0)
    }
}

impl PartialEq<UnixString> for &Path {
    /// Byte-level comparison against the path's raw bytes.
    fn eq(&self, other: &UnixString) -> (r: bool)
        ensures
            r <==> other@ == path_bytes(*self).push(0),
    {
        eq_logical(other.as_bytes_with_nul(), path_as_bytes(*self))
    }
}

impl vstd::std_specs::cmp::PartialEqSpecImpl<UnixString> for &Path {
    open spec fn obeys_eq_spec() -> bool {
        true
    }

    open spec fn eq_spec(&self, other: &UnixString) -> bool {
        other@ == path_bytes(*self).push(0)
    }
}

} // verus!
