use std::{convert::TryFrom, path::PathBuf};

use unixstring::UnixString;

#[test]
fn try_froms_pathbuf() {
    let home_dir = PathBuf::from("/home/user");
    let unix_string = UnixString::try_from(home_dir.clone()).unwrap();

    assert_eq!(&home_dir, unix_string.as_path())
}

#[test]
fn try_froms_empty_pathbuf() {
    let empty = PathBuf::from("");
    let unix_string = UnixString::try_from(empty.clone()).unwrap();

    assert_eq!(&empty, unix_string.as_path())
}
