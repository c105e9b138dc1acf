use std::convert::TryFrom;
use std::path::PathBuf;

use unixstring::UnixString;

#[test]
fn into_pathbuf() {
    let home = "/home/user";

    let pathbuf = PathBuf::from(home);
    let unx = UnixString::try_from(pathbuf.clone()).unwrap();

    assert_eq!(pathbuf.as_path(), unx.as_path());

    assert_eq!(pathbuf, unx.into_pathbuf());
}

#[test]
fn into_pathbuf_through_from() {
    let home = "/home/user";

    let pathbuf = PathBuf::from(home);
    let unx = UnixString::try_from(pathbuf.clone()).unwrap();

    let roundtripped = PathBuf::from(unx);

    assert_eq!(pathbuf, roundtripped);
}
