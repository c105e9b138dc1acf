use std::path::Path;

use unixstring::UnixString;

#[test]
fn partial_eq_str() {
    let lipsum = "lorem ipsum";
    let lipsum_unx = UnixString::from_string(lipsum.into()).unwrap();

    assert!(lipsum == lipsum_unx);
    assert!(lipsum_unx == lipsum);
    assert!(lipsum_unx.eq(&lipsum));
    assert!((&lipsum).eq(&lipsum_unx));

    let empty = "";
    let empty_unx = UnixString::new();
    assert!(empty == empty_unx);
    assert!(empty_unx == empty);
    assert!(empty_unx.eq(&empty));
    assert!((&empty).eq(&empty_unx));

    let hello_world = "hello_world";
    let hello_worl_unx = UnixString::from_string("hello_worl".into()).unwrap();
    assert!(hello_world != hello_worl_unx);

    let hello_worldd_unx = UnixString::from_string("hello_worldd".into()).unwrap();
    assert!(hello_world != hello_worldd_unx);
}

#[test]
fn partial_eq_path() {
    let lipsum = Path::new("lorem ipsum");
    let lipsum_unx = UnixString::from_pathbuf(lipsum.into()).unwrap();

    assert!(lipsum == lipsum_unx);
    assert!(lipsum_unx == lipsum);
    assert!(lipsum_unx.eq(&lipsum));
    assert!((&lipsum).eq(&lipsum_unx));

    let empty = Path::new("");
    let empty_unx = UnixString::new();
    assert!(empty == empty_unx);
    assert!(empty_unx == empty);
    assert!(empty_unx.eq(&empty));
    assert!((&empty).eq(&empty_unx));

    let hello_world = Path::new("hello_world");
    let hello_worl_unx = UnixString::from_string("hello_worl".into()).unwrap();
    assert!(&*hello_world != hello_worl_unx);

    let hello_worldd_unx = UnixString::from_string("hello_worldd".into()).unwrap();
    assert!(&*hello_world != hello_worldd_unx);
}
