//! The core buffer type and its invariant-maintenance engine.

use crate::error::Error;
use crate::interop::bytes_as_path;
use crate::interop::bytes_as_str;
use crate::interop::bytes_into_pathbuf;
use crate::interop::bytes_to_string_lossy;
use crate::interop::lossy_decode;
use crate::interop::path_bytes;
use crate::interop::pathbuf_bytes;
use crate::interop::pathbuf_into_bytes;
use crate::interop::vec_capacity;
use crate::interop::vec_into_string;
use crate::memchr::find_nul_byte;
use crate::memchr::nul_free;
use crate::partial_eq::bytes_eq;
use std::borrow::Cow;
use std::path::Path;
use std::path::PathBuf;
use vstd::prelude::*;
use vstd::string::StrSliceExecFns;
use vstd::utf8::decode_utf8;
use vstd::utf8::encode_utf8;
use vstd::utf8::encode_utf8_decode_utf8;
use vstd::utf8::valid_utf8;

verus! {

/// A byte sequence in proper form: nonempty, with a zero byte at the final
/// position and nowhere else.
pub open spec fn properly_terminated(s: Seq<u8>) -> bool {
    &&& s.len() >= 1
    &&& s[s.len() - 1] == 0
    &&& nul_free(s.drop_last())
}

/// The byte sequences accepted by construction and append: either free of
/// zero bytes (a terminator is added) or already properly terminated.
pub open spec fn accepts(s: Seq<u8>) -> bool {
    nul_free(s) || properly_terminated(s)
}

/// The physical buffer produced from an accepted input: the input itself when
/// it already carries its terminator, otherwise the input followed by one
/// zero byte.
pub open spec fn with_terminator(s: Seq<u8>) -> Seq<u8> {
    if properly_terminated(s) {
        s
    } else {
        s.push(0)
    }
}

/// Construction establishes the invariant: every accepted input yields a
/// properly terminated physical buffer.
pub proof fn lemma_with_terminator_wf(s: Seq<u8>)
    requires
        accepts(s),
    ensures
        properly_terminated(with_terminator(s)),
{
    if !properly_terminated(s) {
        assert(s.push(0).drop_last() =~= s);
    }
}

/// Append preserves the invariant: removing the terminator of a properly
/// terminated buffer and appending the physical form of an accepted suffix
/// yields a properly terminated buffer again.
pub proof fn lemma_append_preserves_invariant(phys: Seq<u8>, suffix: Seq<u8>)
    requires
        properly_terminated(phys),
        accepts(suffix),
    ensures
        properly_terminated(phys.drop_last() + with_terminator(suffix)),
{
    lemma_with_terminator_wf(suffix);
    let t = with_terminator(suffix);
    let joined = phys.drop_last() + t;
    assert(joined[joined.len() - 1] == t[t.len() - 1]);
    assert(joined.drop_last() =~= phys.drop_last() + t.drop_last());
}

/// Round trip: a zero-free byte sequence is accepted, the constructed
/// buffer's logical view is the sequence itself, and its physical view is the
/// sequence followed by one zero byte.
pub proof fn lemma_round_trip(s: Seq<u8>)
    requires
        nul_free(s),
    ensures
        accepts(s),
        with_terminator(s) == s.push(0),
        with_terminator(s).drop_last() == s,
{
    assert(!properly_terminated(s));
    assert(s.push(0).drop_last() =~= s);
}

/// Re-termination is idempotent: a zero-free sequence and the same sequence
/// with one zero byte appended construct buffers with identical physical (and
/// hence logical) views.
pub proof fn lemma_idempotent_retermination(s: Seq<u8>)
    requires
        nul_free(s),
    ensures
        accepts(s),
        accepts(s.push(0)),
        with_terminator(s.push(0)) == with_terminator(s),
{
    assert(s.push(0).drop_last() =~= s);
    assert(properly_terminated(s.push(0)));
    assert(!properly_terminated(s));
}

/// Classifies an arbitrary physical buffer against the invariant: `Ok`
/// exactly when one zero byte is present, at the final position;
/// [`Error::InteriorNulByte`] when a zero byte occurs before the final
/// position; [`Error::MissingNulTerminator`] when no zero byte is present at
/// all.
pub fn validate_bytes(bytes: &[u8]) -> (r: Result<(), Error>)
    ensures
        r is Ok <==> properly_terminated(bytes@),
        nul_free(bytes@) ==> (r matches Err(e) && e == Error::MissingNulTerminator),
        !nul_free(bytes@) && !properly_terminated(bytes@) ==> (r matches Err(e) && e
            == Error::InteriorNulByte),
{
    let n = bytes.len();
    match find_nul_byte(bytes) {
        Some(nul_pos) => {
            if nul_pos + 1 == n {
                proof {
                    assert(bytes@.drop_last() =~= bytes@.subrange(0, nul_pos as int));
                }
                Ok(())
            } else {
                proof {
                    if properly_terminated(bytes@) {
                        assert(bytes@.drop_last()[nul_pos as int] == 0);
                    }
                }
                Err(Error::InteriorNulByte)
            }
        },
        None => {
            proof {
                if properly_terminated(bytes@) {
                    assert(bytes@[bytes@.len() - 1] == 0);
                }
            }
            Err(Error::MissingNulTerminator)
        },
    }
}

/// An FFI-friendly null-terminated byte string.
///
/// The owned buffer always holds exactly one zero byte, located at its final
/// position ([`UnixString::wf`]).  Every constructor establishes the
/// invariant and every mutation preserves it, so the buffer can be handed to
/// a native API expecting a C-style string at any time, with no conversion
/// step.
#[derive(Debug, Clone, Eq, PartialOrd, Ord, Hash)]
pub struct UnixString {
    inner: Vec<u8>,
}

impl View for UnixString {
    type V = Seq<u8>;

    closed spec fn view(&self) -> Seq<u8> {
        self.inner@
    }
}

impl Default for UnixString {
    fn default() -> (r: Self)
        ensures
            r.wf(),
            r@ == seq![0u8],
    {
        let mut inner: Vec<u8> = Vec::with_capacity(1);
        inner.push(0);
        proof {
            assert(inner@ =~= seq![0u8]);
            assert(inner@.drop_last() =~= Seq::<u8>::empty());
        }
        UnixString { inner }
    }
}

impl UnixString {
    /// The buffer invariant: exactly one zero byte, at the final position.
    pub open spec fn wf(self) -> bool {
        properly_terminated(self@)
    }

    /// The logical bytes: the buffer's content excluding the terminator.
    pub open spec fn logical(self) -> Seq<u8>
        recommends
            self.wf(),
    {
        self@.drop_last()
    }

    /// Constructs a new, "empty" `UnixString`: one byte, the terminator.
    pub fn new() -> (r: Self)
        ensures
            r.wf(),
            r@ == seq![0u8],
            r.logical() == Seq::<u8>::empty(),
    {
        let r = Self::default();
        proof {
            assert(r@.drop_last() =~= Seq::<u8>::empty());
        }
        r
    }

    /// Constructs a new, empty `UnixString` whose buffer has room for
    /// `capacity` logical bytes plus the terminator before it reallocates.
    pub fn with_capacity(capacity: usize) -> (r: Self)
        requires
            capacity < usize::MAX,
        ensures
            r.wf(),
            r@ == seq![0u8],
            r.logical() == Seq::<u8>::empty(),
    {
        let mut inner: Vec<u8> = Vec::with_capacity(capacity + 1);
        inner.push(0);
        proof {
            assert(inner@ =~= seq![0u8]);
            assert(inner@.drop_last() =~= Seq::<u8>::empty());
        }
        UnixString { inner }
    }

    /// Reports whether the buffer currently satisfies the invariant: `Ok`
    /// exactly when one zero byte is present, at the final position;
    /// [`Error::InteriorNulByte`] when a zero byte occurs before the final
    /// position; [`Error::MissingNulTerminator`] when no zero byte is present
    /// at all.
    ///
    /// Every buffer reachable through this crate's safe operations validates
    /// successfully.
    pub fn validate(&self) -> (r: Result<(), Error>)
        ensures
            r is Ok <==> self.wf(),
            nul_free(self@) ==> (r matches Err(e) && e == Error::MissingNulTerminator),
            !nul_free(self@) && !self.wf() ==> (r matches Err(e) && e == Error::InteriorNulByte),
    {
        validate_bytes(self.inner.as_slice())
    }

    // Removes the existing terminator and then extends the buffer with the
    // given bytes, which are assumed to carry their own terminator.
    fn extend_slice(&mut self, slice: &[u8])
        requires
            old(self).wf(),
        ensures
            final(self)@ == old(self).logical() + slice@,
    {
        let _removed = self.inner.pop();
        proof {
            assert(self.inner@ =~= old(self).logical());
        }
        let n = slice.len();
        let mut i: usize = 0;
        while i < n
            invariant
                i <= n,
                n == slice@.len(),
                self.inner@ == old(self).logical() + slice@.subrange(0, i as int),
            decreases n - i,
        {
            self.inner.push(slice[i]);
            proof {
                assert(old(self).logical() + slice@.subrange(0, i + 1) =~= (old(self).logical()
                    + slice@.subrange(0, i as int)).push(slice@[i as int]));
            }
            i = i + 1;
        }
        proof {
            assert(slice@.subrange(0, n as int) =~= slice@);
        }
    }

    /// Extends the buffer with the given bytes.
    ///
    /// Fails with [`Error::InteriorNulByte`], leaving the buffer bit-for-bit
    /// unchanged, when the bytes contain a zero byte anywhere but at their
    /// final position; succeeds otherwise, re-establishing the invariant.
    pub fn push_bytes(&mut self, bytes: &[u8]) -> (r: Result<(), Error>)
        requires
            old(self).wf(),
        ensures
            final(self).wf(),
            r is Ok <==> accepts(bytes@),
            r is Ok ==> final(self)@ == old(self).logical() + with_terminator(bytes@),
            r matches Err(e) ==> e == Error::InteriorNulByte && final(self)@ == old(self)@,
    {
        let n = bytes.len();
        match find_nul_byte(bytes) {
            Some(nul_pos) => {
                if nul_pos + 1 == n {
                    proof {
                        assert(bytes@.drop_last() =~= bytes@.subrange(0, nul_pos as int));
                        assert(properly_terminated(bytes@));
                        lemma_append_preserves_invariant(old(self)@, bytes@);
                    }
                    self.extend_slice(bytes);
                    Ok(())
                } else {
                    proof {
                        if properly_terminated(bytes@) {
                            assert(bytes@.drop_last()[nul_pos as int] == 0);
                        }
                    }
                    Err(Error::InteriorNulByte)
                }
            },
            None => {
                proof {
                    assert(!properly_terminated(bytes@));
                    lemma_append_preserves_invariant(old(self)@, bytes@);
                }
                self.extend_slice(bytes);
                self.inner.push(0);
                proof {
                    assert(self.inner@ =~= old(self).logical() + with_terminator(bytes@));
                }
                Ok(())
            },
        }
    }

    /// Extends the buffer with the bytes of the given text, under the same
    /// contract as [`UnixString::push_bytes`].
    pub fn push(&mut self, value: &str) -> (r: Result<(), Error>)
        requires
            old(self).wf(),
        ensures
            final(self).wf(),
            r is Ok <==> accepts(encode_utf8(value@)),
            r is Ok ==> final(self)@ == old(self).logical() + with_terminator(encode_utf8(value@)),
            r matches Err(e) ==> e == Error::InteriorNulByte && final(self)@ == old(self)@,
    {
        self.push_bytes(value.as_bytes())
    }

    /// Creates a `UnixString` from a vector of bytes.
    ///
    /// Succeeds exactly when the bytes hold no zero byte, or hold one zero
    /// byte at the final position; fails with [`Error::InteriorNulByte`]
    /// otherwise.
    pub fn from_bytes(bytes: Vec<u8>) -> (r: Result<Self, Error>)
        ensures
            r is Ok <==> accepts(bytes@),
            r matches Ok(u) ==> u.wf() && u@ == with_terminator(bytes@),
            r matches Err(e) ==> e == Error::InteriorNulByte,
    {
        let n = bytes.len();
        match find_nul_byte(bytes.as_slice()) {
            Some(nul_pos) => {
                if nul_pos + 1 == n {
                    proof {
                        assert(bytes@.drop_last() =~= bytes@.subrange(0, nul_pos as int));
                        assert(properly_terminated(bytes@));
                    }
                    Ok(UnixString { inner: bytes })
                } else {
                    proof {
                        if properly_terminated(bytes@) {
                            assert(bytes@.drop_last()[nul_pos as int] == 0);
                        }
                    }
                    Err(Error::InteriorNulByte)
                }
            },
            None => {
                proof {
                    assert(!properly_terminated(bytes@));
                    lemma_with_terminator_wf(bytes@);
                }
                let mut owned = bytes;
                owned.push(0);
                Ok(UnixString { inner: owned })
            },
        }
    }

    // The logical bytes as a borrowed slice.
    fn inner_without_nul_terminator(&self) -> (r: &[u8])
        requires
            self.wf(),
        ensures
            r@ == self.logical(),
    {
        let r = vstd::slice::slice_subrange(self.inner.as_slice(), 0, self.inner.len() - 1);
        proof {
            assert(self@.subrange(0, self@.len() - 1) =~= self.logical());
        }
        r
    }

    /// The logical byte view: the buffer's bytes without the terminator.
    pub fn as_bytes(&self) -> (r: &[u8])
        requires
            self.wf(),
        ensures
            r@ == self.logical(),
    {
        self.inner_without_nul_terminator()
    }

    /// The physical byte view: the buffer's bytes including the terminator.
    pub fn as_bytes_with_nul(&self) -> (r: &[u8])
        ensures
            r@ == self@,
    {
        self.inner.as_slice()
    }

    /// Consumes the buffer and returns its bytes with the terminator removed.
    pub fn into_bytes(self) -> (r: Vec<u8>)
        requires
            self.wf(),
        ensures
            r@ == self.logical(),
    {
        let mut bytes = self.inner;
        let _removed = bytes.pop();
        proof {
            assert(bytes@ =~= self.logical());
        }
        bytes
    }

    /// Consumes the buffer and returns its bytes, terminator included.
    pub fn into_bytes_with_nul(self) -> (r: Vec<u8>)
        ensures
            r@ == self@,
    {
        self.inner
    }

    /// The number of logical bytes, the terminator not counted.
    pub fn len(&self) -> (r: usize)
        requires
            self.wf(),
        ensures
            r == self.logical().len(),
    {
        self.inner.len() - 1
    }

    /// The number of physical bytes, the terminator counted.
    pub fn len_with_nul(&self) -> (r: usize)
        ensures
            r == self@.len(),
    {
        self.inner.len()
    }

    /// The number of bytes the buffer can hold without reallocating, the
    /// terminator's byte counted.
    pub fn capacity(&self) -> (r: usize)
        ensures
            r >= self@.len(),
    {
        vec_capacity(&self.inner)
    }

    /// Whether the buffer holds no logical bytes: only the terminator.
    pub fn is_empty(&self) -> (r: bool)
        requires
            self.wf(),
        ensures
            r <==> self.logical().len() == 0,
    {
        self.inner.len() == 1
    }

    /// Views the logical bytes as text, when they are valid UTF-8; fails with
    /// [`Error::Utf8Decode`] exactly when they are not.
    pub fn to_str(&self) -> (r: Result<&str, Error>)
        requires
            self.wf(),
        ensures
            r is Ok <==> valid_utf8(self.logical()),
            r matches Ok(s) ==> encode_utf8(s@) == self.logical() && s@ == decode_utf8(
                self.logical(),
            ),
            r matches Err(e) ==> e == Error::Utf8Decode,
    {
        match bytes_as_str(self.inner_without_nul_terminator()) {
            Some(s) => {
                proof {
                    encode_utf8_decode_utf8(s@);
                }
                Ok(s)
            },
            None => Err(Error::Utf8Decode),
        }
    }

    /// Views the logical bytes as text, under the same contract as
    /// [`UnixString::to_str`].
    pub fn as_str(&self) -> (r: Result<&str, Error>)
        requires
            self.wf(),
        ensures
            r is Ok <==> valid_utf8(self.logical()),
            r matches Ok(s) ==> encode_utf8(s@) == self.logical() && s@ == decode_utf8(
                self.logical(),
            ),
            r matches Err(e) ==> e == Error::Utf8Decode,
    {
        self.to_str()
    }

    /// Consumes the buffer and returns its logical bytes as an owned text
    /// value, when they are valid UTF-8; fails with [`Error::Utf8Decode`]
    /// exactly when they are not.
    pub fn into_string(self) -> (r: Result<String, Error>)
        requires
            self.wf(),
        ensures
            r is Ok <==> valid_utf8(self.logical()),
            r matches Ok(s) ==> encode_utf8(s@) == self.logical() && s@ == decode_utf8(
                self.logical(),
            ),
            r matches Err(e) ==> e == Error::Utf8Decode,
    {
        match vec_into_string(self.into_bytes()) {
            Some(s) => {
                proof {
                    encode_utf8_decode_utf8(s@);
                }
                Ok(s)
            },
            None => Err(Error::Utf8Decode),
        }
    }

    /// Views the logical bytes as text, substituting the replacement
    /// character for invalid UTF-8 sequences.  Returns a borrowed view
    /// exactly when no substitution was needed.
    pub fn to_string_lossy(&self) -> (r: Cow<'_, str>)
        requires
            self.wf(),
        ensures
            r is Borrowed <==> valid_utf8(self.logical()),
            valid_utf8(self.logical()) ==> r@ == decode_utf8(self.logical()),
            !valid_utf8(self.logical()) ==> r@ == lossy_decode(self.logical()),
    {
        match bytes_as_str(self.inner_without_nul_terminator()) {
            Some(s) => {
                proof {
                    encode_utf8_decode_utf8(s@);
                }
                Cow::Borrowed(s)
            },
            None => Cow::Owned(bytes_to_string_lossy(self.inner_without_nul_terminator())),
        }
    }

    /// Consumes the buffer and returns its logical bytes as owned text,
    /// substituting the replacement character for invalid UTF-8 sequences.
    pub fn into_string_lossy(self) -> (r: String)
        requires
            self.wf(),
        ensures
            valid_utf8(self.logical()) ==> r@ == decode_utf8(self.logical()),
            !valid_utf8(self.logical()) ==> r@ == lossy_decode(self.logical()),
    {
        let bytes = self.into_bytes();
        match bytes_as_str(bytes.as_slice()) {
            Some(s) => {
                proof {
                    encode_utf8_decode_utf8(s@);
                }
                s.to_owned()
            },
            None => bytes_to_string_lossy(bytes.as_slice()),
        }
    }

    /// Checks whether the logical bytes start with the UTF-8 bytes of the
    /// given text.  The empty text is a prefix of every buffer.
    pub fn starts_with(&self, rhs: &str) -> (r: bool)
        requires
            self.wf(),
        ensures
            r <==> encode_utf8(rhs@).is_prefix_of(self.logical()),
            rhs@.len() == 0 ==> r,
    {
        let rb = rhs.as_bytes();
        let lb = self.inner_without_nul_terminator();
        if rb.len() > lb.len() {
            return false;
        }
        let r = bytes_eq(vstd::slice::slice_subrange(lb, 0, rb.len()), rb);
        proof {
            if r {
                assert(encode_utf8(rhs@) =~= self.logical().subrange(
                    0,
                    encode_utf8(rhs@).len() as int,
                ));
            }
            if encode_utf8(rhs@).is_prefix_of(self.logical()) {
                assert(lb@.subrange(0, rb@.len() as int) =~= rb@);
            }
        }
        r
    }

    /// Views the logical bytes as a borrowed path.
    pub fn as_path(&self) -> (r: &Path)
        requires
            self.wf(),
        ensures
            path_bytes(r) == self.logical(),
    {
        bytes_as_path(self.inner_without_nul_terminator())
    }

    /// Consumes the buffer and returns its logical bytes as an owned path.
    pub fn into_pathbuf(self) -> (r: PathBuf)
        requires
            self.wf(),
        ensures
            pathbuf_bytes(r) == self.logical(),
    {
        bytes_into_pathbuf(self.into_bytes())
    }

    /// Creates a `UnixString` from an owned path's raw bytes, under the same
    /// contract as [`UnixString::from_bytes`].
    pub fn from_pathbuf(pathbuf: PathBuf) -> (r: Result<Self, Error>)
        ensures
            r is Ok <==> accepts(pathbuf_bytes(pathbuf)),
            r matches Ok(u) ==> u.wf() && u@ == with_terminator(pathbuf_bytes(pathbuf)),
            r matches Err(e) ==> e == Error::InteriorNulByte,
    {
        Self::from_bytes(pathbuf_into_bytes(pathbuf))
    }

    /// Creates a `UnixString` from an owned text value's UTF-8 bytes, under
    /// the same contract as [`UnixString::from_bytes`].
    pub fn from_string(string: String) -> (r: Result<Self, Error>)
        ensures
            r is Ok <==> accepts(encode_utf8(string@)),
            r matches Ok(u) ==> u.wf() && u@ == with_terminator(encode_utf8(string@)),
            r matches Err(e) ==> e == Error::InteriorNulByte,
    {
        Self::from_bytes(string.as_str().as_bytes_vec())
    }
}

} // verus!
