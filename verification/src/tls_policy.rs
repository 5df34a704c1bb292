//! When the self-signed certificate of the FTPS server is renewed.
use vstd::prelude::*;

verus! {

/// File name of the certificate.
pub const CERT_FILE: &'static str = "ftp.crt";
/// File name of the private key.
pub const KEY_FILE: &'static str = "ftp.key";
/// How long a certificate counts as valid: ten years.
pub const CERT_VALIDITY_DAYS: u64 = 3650;
/// A certificate this close to its end is renewed.
pub const ROTATION_BUFFER_DAYS: u64 = 30;
/// Seconds in a day.
pub const SECONDS_PER_DAY: u64 = 86400;

/// Where the certificate and its private key are stored.
#[derive(Debug, Clone)]
pub struct CertificatePaths {
    pub cert_path: String,
    pub key_path: String,
}

/// The days of validity left to a certificate made `elapsed_secs` seconds ago (whole days
/// elapsed count; never below zero).
pub open spec fn spec_remaining_days(elapsed_secs: u64) -> int {
    let days = elapsed_secs as int / SECONDS_PER_DAY as int;
    if days >= CERT_VALIDITY_DAYS as int { 0 } else { CERT_VALIDITY_DAYS as int - days }
}

/// The days of validity left to a certificate made `elapsed_secs` seconds ago (see
/// `spec_remaining_days`).
pub fn remaining_validity_days(elapsed_secs: u64) -> (r: u64)
    ensures
        r == spec_remaining_days(elapsed_secs),
{
    let days = elapsed_secs / SECONDS_PER_DAY;
    CERT_VALIDITY_DAYS.saturating_sub(days)
}

/// Whether a new certificate is made: when the certificate or its key is missing, when its
/// age is unknown, or when less than the rotation buffer of validity is left.
pub open spec fn spec_must_regenerate(cert_exists: bool, key_exists: bool, elapsed_secs: Option<u64>) -> bool {
    ||| !cert_exists
    ||| !key_exists
    ||| match elapsed_secs {
        Some(e) => spec_remaining_days(e) < ROTATION_BUFFER_DAYS as int,
        None => true,
    }
}

/// Whether a new certificate is made (see `spec_must_regenerate`); the age is that of the
/// certificate file, `None` when it cannot be read.
pub fn must_regenerate_certificate(cert_exists: bool, key_exists: bool, elapsed_secs: Option<u64>) -> (r: bool)
    ensures
        r == spec_must_regenerate(cert_exists, key_exists, elapsed_secs),
{
    if !cert_exists || !key_exists {
        return true;
    }
    match elapsed_secs {
        Some(e) => remaining_validity_days(e) < ROTATION_BUFFER_DAYS,
        None => true,
    }
}

/// A certificate is kept exactly while at most 3620 whole days have passed since it was
/// made, and the days left only shrink as it ages.
pub proof fn lemma_rotation_window(e1: u64, e2: u64)
    requires
        e1 <= e2,
    ensures
        spec_remaining_days(e2) <= spec_remaining_days(e1),
        !spec_must_regenerate(true, true, Some(e1)) <==> (e1 as int / SECONDS_PER_DAY as int) <= 3620,
{
    assert(e1 as int / 86400 <= e2 as int / 86400) by (nonlinear_arith)
        requires
            e1 <= e2,
    ;
}

} // verus!
