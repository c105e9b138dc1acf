//! Fallible conversions into a `UnixString`, each reducing to the canonical
//! byte validator [`UnixString::from_bytes`].

use crate::error::Error;
use crate::interop::pathbuf_bytes;
use crate::unix_string::accepts;
use crate::unix_string::with_terminator;
use crate::unix_string::UnixString;
use std::path::PathBuf;
use vstd::pervasive::arbitrary;
use vstd::prelude::*;
use vstd::utf8::encode_utf8;

verus! {

impl TryFrom<Vec<u8>> for UnixString {
    type Error = Error;

    fn try_from(bytes: Vec<u8>) -> (r: Result<Self, Error>)
        ensures
            r is Ok <==> accepts(bytes@),
            r matches Ok(u) ==> u.wf() && u@ == with_terminator(bytes@),
            r matches Err(e) ==> e == Error::InteriorNulByte,
    {
        UnixString::from_bytes(bytes)
    }
}

impl vstd::std_specs::convert::TryFromSpecImpl<Vec<u8>> for UnixString {
    open spec fn obeys_try_from_spec() -> bool {
        false
    }

    open spec fn try_from_spec(v: Vec<u8>) -> Result<Self, Error> {
        arbitrary()
    }
}

impl TryFrom<String> for UnixString {
    type Error = Error;

    fn try_from(string: String) -> (r: Result<Self, Error>)
        ensures
            r is Ok <==> accepts(encode_utf8(string@)),
            r matches Ok(u) ==> u.wf() && u@ == with_terminator(encode_utf8(string@)),
            r matches Err(e) ==> e == Error::InteriorNulByte,
    {
        UnixString::from_string(string)
    }
}

impl vstd::std_specs::convert::TryFromSpecImpl<String> for UnixString {
    open spec fn obeys_try_from_spec() -> bool {
        false
    }

    open spec fn try_from_spec(v: String) -> Result<Self, Error> {
        arbitrary()
    }
}

impl TryFrom<PathBuf> for UnixString {
    type Error = Error;

    fn try_from(pathbuf: PathBuf) -> (r: Result<Self, Error>)
        ensures
            r is Ok <==> accepts(pathbuf_bytes(pathbuf)),
            r matches Ok(u) ==> u.wf() && u@ == with_terminator(pathbuf_bytes(pathbuf)),
            r matches Err(e) ==> e == Error::InteriorNulByte,
    {
        UnixString::from_pathbuf(pathbuf)
    }
}

impl vstd::std_specs::convert::TryFromSpecImpl<PathBuf> for UnixString {
    open spec fn obeys_try_from_spec() -> bool {
        false
    }

    open spec fn try_from_spec(v: PathBuf) -> Result<Self, Error> {
        arbitrary()
    }
}

} // verus!
