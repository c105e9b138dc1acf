//! The trusted boundary: declarations and wrappers for the platform path
//! types and for the standard library's UTF-8 conversions, with contracts the
//! verifier believes.
//!
//! On POSIX-like hosts a path is an unrestricted byte sequence; the bstr
//! crate exposes that byte content without copying and without failure, which
//! is what the wrappers below rely on.

use bstr::ByteSlice;
use bstr::ByteVec;
use std::path::Path;
use std::path::PathBuf;
use vstd::prelude::*;
use vstd::utf8::decode_utf8;
use vstd::utf8::encode_utf8;
use vstd::utf8::valid_utf8;

verus! {

#[verifier::external_type_specification]
#[verifier::external_body]
pub struct ExPath(Path);

#[verifier::external_type_specification]
#[verifier::external_body]
pub struct ExPathBuf(PathBuf);

/// The raw byte content of a borrowed path.  A path's bytes are a fixed
/// function of the path value; this function names that byte sequence, and
/// the wrappers below say how the conversions relate to it.
pub uninterp spec fn path_bytes(p: &Path) -> Seq<u8>;

/// The raw byte content of an owned path.
pub uninterp spec fn pathbuf_bytes(p: PathBuf) -> Seq<u8>;

/// Relies on bstr's `ByteSlice::to_path`: on POSIX-like hosts the conversion
/// never fails and the resulting path views exactly the given bytes.
#[verifier::external_body]
pub(crate) fn bytes_as_path(b: &[u8]) -> (r: &Path)
    ensures
        path_bytes(r) == b@,
{
    b.to_path().unwrap()
}

/// Relies on bstr's `ByteSlice::from_path`: on POSIX-like hosts the path's
/// underlying bytes are exposed directly and the conversion never fails.
#[verifier::external_body]
pub(crate) fn path_as_bytes(p: &Path) -> (r: &[u8])
    ensures
        r@ == path_bytes(p),
{
    <[u8]>::from_path(p).unwrap()
}

/// Relies on bstr's `ByteVec::into_path_buf`: on POSIX-like hosts the
/// vector's bytes become the path's bytes, without failure or copying.
#[verifier::external_body]
pub(crate) fn bytes_into_pathbuf(v: Vec<u8>) -> (r: PathBuf)
    ensures
        pathbuf_bytes(r) == v@,
{
    v.into_path_buf().unwrap()
}

/// Relies on bstr's `ByteVec::from_path_buf`: on POSIX-like hosts the path's
/// bytes are returned unchanged, without failure or copying.
#[verifier::external_body]
pub(crate) fn pathbuf_into_bytes(p: PathBuf) -> (r: Vec<u8>)
    ensures
        r@ == pathbuf_bytes(p),
{
    Vec::from_path_buf(p).unwrap()
}

/// Relies on `core::str::from_utf8`: it succeeds exactly on valid UTF-8
/// input, and the returned string slice views the same bytes.
#[verifier::external_body]
pub(crate) fn bytes_as_str(b: &[u8]) -> (r: Option<&str>)
    ensures
        r is Some <==> valid_utf8(b@),
        r matches Some(s) ==> encode_utf8(s@) == b@,
{
    std::str::from_utf8(b).ok()
}

/// Relies on `String::from_utf8`: it succeeds exactly on valid UTF-8 input
/// and reuses the vector's bytes as the string's bytes.
#[verifier::external_body]
pub(crate) fn vec_into_string(v: Vec<u8>) -> (r: Option<String>)
    ensures
        r is Some <==> valid_utf8(v@),
        r matches Some(s) ==> encode_utf8(s@) == v@,
{
    String::from_utf8(v).ok()
}

/// What `String::from_utf8_lossy` decodes a byte sequence to: each invalid
/// sequence is replaced with the replacement character.  The result depends
/// on the bytes alone.
pub uninterp spec fn lossy_decode(bytes: Seq<u8>) -> Seq<char>;

/// Relies on `String::from_utf8_lossy`: the decoding depends only on the
/// input bytes, and input that already is valid UTF-8 is decoded exactly.
#[verifier::external_body]
pub(crate) fn bytes_to_string_lossy(b: &[u8]) -> (r: String)
    ensures
        r@ == lossy_decode(b@),
        valid_utf8(b@) ==> r@ == decode_utf8(b@),
{
    String::from_utf8_lossy(b).into_owned()
}

/// Relies on `Vec::capacity`: a vector's capacity is at least its length.
#[verifier::external_body]
pub(crate) fn vec_capacity(v: &Vec<u8>) -> (r: usize)
    ensures
        r >= v@.len(),
{
    v.capacity()
}

} // verus!
