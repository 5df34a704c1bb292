use camera_ftp_companion::uri::{percent_decode, percent_decode_bytes};

#[test]
fn percent_escapes_are_decoded() {
    assert_eq!(percent_decode("%41%42"), "AB");
    assert_eq!(percent_decode("C:%2FPictures%2Fa.jpg"), "C:/Pictures/a.jpg");
    assert_eq!(percent_decode("%E4%BD%A0%E5%A5%BD.jpg"), "你好.jpg");
    assert_eq!(percent_decode("%20x"), " x");
}

#[test]
fn malformed_escapes_stay_as_they_are() {
    assert_eq!(percent_decode("%ZZ"), "%ZZ");
    assert_eq!(percent_decode("abc%4"), "abc%4");
    assert_eq!(percent_decode("%%41"), "%A");
    assert_eq!(percent_decode("%-1"), "%-1");
    assert_eq!(percent_decode("plain/path.jpg"), "plain/path.jpg");
}

#[test]
fn plus_sign_escapes_and_invalid_utf8() {
    assert_eq!(percent_decode("%+9"), "\u{9}");
    assert_eq!(percent_decode("%FF"), "\u{FFFD}");
    assert_eq!(percent_decode_bytes(b"%ff%00"), vec![0xFF, 0x00]);
}
