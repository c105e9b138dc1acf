//! Infallible conversions out of a `UnixString`.

use crate::interop::bytes_into_pathbuf;
use crate::interop::pathbuf_bytes;
use crate::unix_string::UnixString;
use std::path::PathBuf;
use vstd::pervasive::arbitrary;
use vstd::prelude::*;

verus! {

impl From<UnixString> for PathBuf {
    /// The path takes the buffer's logical bytes.
    fn from(unx: UnixString) -> (r: PathBuf)
        ensures
            unx.wf() ==> pathbuf_bytes(r) == unx.logical(),
    {
        let mut bytes = unx.into_bytes_with_nul();
        let _removed = bytes.pop();
        proof {
            if unx.wf() {
                assert(bytes@ =~= unx.logical());
            }
        }
        bytes_into_pathbuf(bytes)
    }
}

impl vstd::std_specs::convert::FromSpecImpl<UnixString> for PathBuf {
    open spec fn obeys_from_spec() -> bool {
        false
    }

    open spec fn from_spec(v: UnixString) -> PathBuf {
        arbitrary()
    }
}

} // verus!
