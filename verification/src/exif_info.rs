//! The EXIF summary shown for an image, built from the fields that could be read, and
//! the focal length as it is shown.
use vstd::prelude::*;
use crate::net::{decimal, decimal_digits};
use crate::text::join_strs;

verus! {

/// The EXIF summary of an image; the text fields are already formatted
/// (`f/2.8`, `1/125s`, `24mm`, `2024-02-27 14:30:00`).
#[derive(Debug, Clone)]
pub struct ExifInfo {
    pub iso: Option<u32>,
    pub aperture: Option<String>,
    pub shutter_speed: Option<String>,
    pub focal_length: Option<String>,
    pub datetime: Option<String>,
    /// EXIF orientation (1 to 8).
    pub orientation: Option<u8>,
}

/// Why EXIF data could not be read.
#[derive(Debug, Clone)]
pub enum ParseExifError {
    /// The media source could not be opened from the path.
    Source(String),
    /// The source looked EXIF-capable but its EXIF payload did not parse.
    Parse(String),
}

/// The summary of the fields that were read, or none when no field was.
pub fn exif_info_from_fields(
    iso: Option<u32>,
    aperture: Option<String>,
    shutter_speed: Option<String>,
    focal_length: Option<String>,
    datetime: Option<String>,
    orientation: Option<u8>,
) -> (r: Option<ExifInfo>)
    ensures
        (iso is None && aperture is None && shutter_speed is None && focal_length is None
            && datetime is None && orientation is None) <==> r is None,
        r matches Some(info) ==> info.iso == iso && info.aperture == aperture
            && info.shutter_speed == shutter_speed && info.focal_length == focal_length
            && info.datetime == datetime && info.orientation == orientation,
{
    if iso.is_none() && aperture.is_none() && shutter_speed.is_none() && focal_length.is_none()
        && datetime.is_none() && orientation.is_none() {
        return None;
    }
    Some(ExifInfo { iso, aperture, shutter_speed, focal_length, datetime, orientation })
}


/// The ratio `num / den` rounded to the nearest whole number, halves up, as a `u32`:
/// saturated at `u32::MAX`; a zero denominator gives `u32::MAX`, or 0 for `0 / 0`.
pub open spec fn rounded_ratio(num: u32, den: u32) -> nat {
    if den == 0 {
        if num == 0 { 0 } else { u32::MAX as nat }
    } else {
        let q = (2 * num + den) / (2 * den);
        if q > u32::MAX { u32::MAX as nat } else { q as nat }
    }
}

/// The focal length shown: the 35mm equivalent when known, else the focal length ratio
/// rounded (see `rounded_ratio`), in whole millimetres (`50mm`); none when neither is known.
pub open spec fn focal_length_text(focal_35mm: Option<u16>, focal_raw: Option<(u32, u32)>) -> Option<Seq<char>> {
    match focal_35mm {
        Some(v) => Some(decimal_digits(v as nat) + "mm"@),
        None => match focal_raw {
            Some((n, d)) => Some(decimal_digits(rounded_ratio(n, d)) + "mm"@),
            None => None,
        },
    }
}

fn rounded_ratio_of(num: u32, den: u32) -> (r: u32)
    ensures
        r == rounded_ratio(num, den),
{
    if den == 0 {
        if num == 0 { 0 } else { u32::MAX }
    } else {
        let q: u64 = (2 * (num as u64) + den as u64) / (2 * (den as u64));
        if q > u32::MAX as u64 { u32::MAX } else { q as u32 }
    }
}

/// The focal length shown (see `focal_length_text`).
pub fn format_focal_length(focal_35mm: Option<u16>, focal_raw: Option<(u32, u32)>) -> (r: Option<String>)
    ensures
        match focal_length_text(focal_35mm, focal_raw) {
            Some(t) => r matches Some(s) && s@ == t,
            None => r is None,
        },
{
    match focal_35mm {
        Some(v) => Some(join_strs(decimal(v as u64).as_str(), "mm")),
        None => match focal_raw {
            Some((n, d)) => Some(join_strs(decimal(rounded_ratio_of(n, d) as u64).as_str(), "mm")),
            None => None,
        },
    }
}

} // verus!
