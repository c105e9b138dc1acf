use unixstring::memchr;

#[test]
fn memchr_() {
    let text = "textwithoutnulbytes";
    assert!(memchr(0, text.as_bytes()).is_none());

    let text = "textwithout\0nulbytes";
    assert!(matches!(memchr(0, text.as_bytes()), Some(11)));
}
