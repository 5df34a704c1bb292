use camera_ftp_companion::tls_policy::{must_regenerate_certificate, remaining_validity_days};

#[test]
fn remaining_days_count_whole_days() {
    assert_eq!(remaining_validity_days(0), 3650);
    assert_eq!(remaining_validity_days(86399), 3650);
    assert_eq!(remaining_validity_days(86400), 3649);
    assert_eq!(remaining_validity_days(3650 * 86400), 0);
    assert_eq!(remaining_validity_days(u64::MAX), 0);
}

#[test]
fn certificate_regeneration() {
    assert!(must_regenerate_certificate(false, true, Some(0)));
    assert!(must_regenerate_certificate(true, false, Some(0)));
    assert!(must_regenerate_certificate(true, true, None));
    assert!(!must_regenerate_certificate(true, true, Some(0)));
    assert!(!must_regenerate_certificate(true, true, Some(3620 * 86400)));
    assert!(must_regenerate_certificate(true, true, Some(3621 * 86400)));
}
