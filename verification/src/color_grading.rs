//! Color grading: the results of the RAW processing library, the built-in presets, and
//! the names of graded images, and the preview sessions.
use vstd::prelude::*;
use crate::text::{chars_of, chars_eq, string_of, join_strs, lower_char};
use crate::paths::{file_stem, file_stem_of};
use crate::config::AutoColorGradingConfig;
use crate::image_utils::{is_raw_file, is_raw_path};

verus! {

/// A result code of the RAW processing library.
#[derive(Debug, Clone, Copy, PartialEq, Eq, Structural)]
pub enum RaResult {
    Success,
    ErrUnknown,
    ErrFileNotFound,
    ErrDecodeFailed,
    ErrInvalidParam,
    ErrLogUnsupported,
    ErrLutLoadFailed,
    ErrWriteFailed,
    ErrNoLensProfile,
    ErrOutOfMemory,
}

/// The library's numeric code of a result: 0 for success, -1 to -9 for the errors.
pub open spec fn result_code(r: RaResult) -> int {
    match r {
        RaResult::Success => 0,
        RaResult::ErrUnknown => -1,
        RaResult::ErrFileNotFound => -2,
        RaResult::ErrDecodeFailed => -3,
        RaResult::ErrInvalidParam => -4,
        RaResult::ErrLogUnsupported => -5,
        RaResult::ErrLutLoadFailed => -6,
        RaResult::ErrWriteFailed => -7,
        RaResult::ErrNoLensProfile => -8,
        RaResult::ErrOutOfMemory => -9,
    }
}

/// The result a code of the library stands for; an unknown code is `ErrUnknown`.
pub open spec fn result_of_code(c: int) -> RaResult {
    if c == 0 {
        RaResult::Success
    } else if c == -2 {
        RaResult::ErrFileNotFound
    } else if c == -3 {
        RaResult::ErrDecodeFailed
    } else if c == -4 {
        RaResult::ErrInvalidParam
    } else if c == -5 {
        RaResult::ErrLogUnsupported
    } else if c == -6 {
        RaResult::ErrLutLoadFailed
    } else if c == -7 {
        RaResult::ErrWriteFailed
    } else if c == -8 {
        RaResult::ErrNoLensProfile
    } else if c == -9 {
        RaResult::ErrOutOfMemory
    } else {
        RaResult::ErrUnknown
    }
}

/// The description of a result.
pub open spec fn result_description(r: RaResult) -> Seq<char> {
    match r {
        RaResult::Success => "Success"@,
        RaResult::ErrUnknown => "Unknown error"@,
        RaResult::ErrFileNotFound => "File not found"@,
        RaResult::ErrDecodeFailed => "RAW decode failed"@,
        RaResult::ErrInvalidParam => "Invalid parameter"@,
        RaResult::ErrLogUnsupported => "Log space unsupported"@,
        RaResult::ErrLutLoadFailed => "LUT load failed"@,
        RaResult::ErrWriteFailed => "Write failed"@,
        RaResult::ErrNoLensProfile => "No lens profile found"@,
        RaResult::ErrOutOfMemory => "Out of memory"@,
    }
}

impl RaResult {
    /// Whether the result is a success.
    pub fn is_ok(self) -> (r: bool)
        ensures
            r == (self == RaResult::Success),
    {
        self == RaResult::Success
    }

    /// The library's numeric code of the result.
    pub fn code(self) -> (r: i32)
        ensures
            r == result_code(self),
    {
        match self {
            RaResult::Success => 0,
            RaResult::ErrUnknown => -1,
            RaResult::ErrFileNotFound => -2,
            RaResult::ErrDecodeFailed => -3,
            RaResult::ErrInvalidParam => -4,
            RaResult::ErrLogUnsupported => -5,
            RaResult::ErrLutLoadFailed => -6,
            RaResult::ErrWriteFailed => -7,
            RaResult::ErrNoLensProfile => -8,
            RaResult::ErrOutOfMemory => -9,
        }
    }

    /// The result the library's code stands for (see `result_of_code`).
    pub fn from_code(code: i32) -> (r: RaResult)
        ensures
            r == result_of_code(code as int),
    {
        match code {
            0 => RaResult::Success,
            -1 => RaResult::ErrUnknown,
            -2 => RaResult::ErrFileNotFound,
            -3 => RaResult::ErrDecodeFailed,
            -4 => RaResult::ErrInvalidParam,
            -5 => RaResult::ErrLogUnsupported,
            -6 => RaResult::ErrLutLoadFailed,
            -7 => RaResult::ErrWriteFailed,
            -8 => RaResult::ErrNoLensProfile,
            -9 => RaResult::ErrOutOfMemory,
            _ => RaResult::ErrUnknown,
        }
    }

    /// A description of the result.
    pub fn description(self) -> (r: &'static str)
        ensures
            r@ == result_description(self),
    {
        match self {
            RaResult::Success => "Success",
            RaResult::ErrUnknown => "Unknown error",
            RaResult::ErrFileNotFound => "File not found",
            RaResult::ErrDecodeFailed => "RAW decode failed",
            RaResult::ErrInvalidParam => "Invalid parameter",
            RaResult::ErrLogUnsupported => "Log space unsupported",
            RaResult::ErrLutLoadFailed => "LUT load failed",
            RaResult::ErrWriteFailed => "Write failed",
            RaResult::ErrNoLensProfile => "No lens profile found",
            RaResult::ErrOutOfMemory => "Out of memory",
        }
    }
}

/// A result read back from its code is the same result, and the code of a result read
/// from a code in -9..=0 is that code.
pub proof fn lemma_code_round_trip(r: RaResult, c: int)
    ensures
        result_of_code(result_code(r)) == r,
        -9 <= c <= 0 ==> result_code(result_of_code(c)) == c,
{
}

/// Each result has a description of its own.
pub proof fn lemma_descriptions_distinct(a: RaResult, b: RaResult)
    requires
        a != b,
    ensures
        result_description(a) != result_description(b),
        result_description(a).len() > 0,
{
    reveal_strlit("Success");
    reveal_strlit("Unknown error");
    reveal_strlit("File not found");
    reveal_strlit("RAW decode failed");
    reveal_strlit("Invalid parameter");
    reveal_strlit("Log space unsupported");
    reveal_strlit("LUT load failed");
    reveal_strlit("Write failed");
    reveal_strlit("No lens profile found");
    reveal_strlit("Out of memory");
    let da = result_description(a);
    let db = result_description(b);
    assert(da.len() != db.len() || da[0] != db[0]);
}

/// A color grading preset: a LUT applied in a log space.
#[derive(Debug, Clone)]
pub struct ColorGradingPreset {
    pub id: String,
    pub display_name: String,
    pub log_space: String,
    pub cube_filename: String,
}

/// What a preset holds: (id, display name, log space, LUT file name).
pub type PresetView = (Seq<char>, Seq<char>, Seq<char>, Seq<char>);

pub open spec fn preset_view(p: ColorGradingPreset) -> PresetView {
    (p.id@, p.display_name@, p.log_space@, p.cube_filename@)
}

pub open spec fn preset_views(s: Seq<ColorGradingPreset>) -> Seq<PresetView> {
    s.map_values(|p: ColorGradingPreset| preset_view(p))
}

/// The built-in presets, in order.
pub open spec fn preset_table() -> Seq<PresetView> {
    seq![
        ("arri-alexa-classic-709"@, "ARRI ALEXA Classic 709"@, "V-Log"@, "ARRI_ALEXA_Classic-709_VLog.cube"@),
        ("fujifilm-acros"@, "Fujifilm ACROS"@, "V-Log"@, "Fujifilm_ACROS_VLog.cube"@),
        ("fujifilm-astia"@, "Fujifilm ASTIA"@, "V-Log"@, "Fujifilm_ASTIA_VLog.cube"@),
        ("fujifilm-classic-chrome"@, "Fujifilm CLASSIC CHROME"@, "V-Log"@, "Fujifilm_CLASSIC-CHROME_VLog.cube"@),
        ("fujifilm-classic-neg"@, "Fujifilm CLASSIC Neg"@, "V-Log"@, "Fujifilm_CLASSIC-Neg_VLog.cube"@),
        ("fujifilm-eterna-3513di"@, "Fujifilm ETERNA 3513DI"@, "V-Log"@, "Fujifilm_ETERNA-3513DI_VLog.cube"@),
        ("fujifilm-eterna-bb"@, "Fujifilm ETERNA BB"@, "V-Log"@, "Fujifilm_ETERNA-BB_VLog.cube"@),
        ("fujifilm-eterna"@, "Fujifilm ETERNA"@, "V-Log"@, "Fujifilm_ETERNA_VLog.cube"@),
        ("fujifilm-pro-neg-std"@, "Fujifilm PRO Neg. Std"@, "V-Log"@, "Fujifilm_PRO-Neg.-Std_VLog.cube"@),
        ("fujifilm-provia"@, "Fujifilm PROVIA"@, "V-Log"@, "Fujifilm_PROVIA_VLog.cube"@),
        ("fujifilm-reala-ace"@, "Fujifilm REALA ACE"@, "V-Log"@, "Fujifilm_REALA-ACE_VLog.cube"@),
        ("fujifilm-velvia"@, "Fujifilm Velvia"@, "V-Log"@, "Fujifilm_Velvia_VLog.cube"@),
        ("kodak-vision-2383"@, "Kodak VISION 2383"@, "V-Log"@, "Kodak_VISION-2383_VLog.cube"@),
        ("leica-classic"@, "Leica Classic"@, "V-Log"@, "Leica_Classic_VLog.cube"@),
        ("leica-natural"@, "Leica Natural"@, "V-Log"@, "Leica_Natural_VLog.cube"@),
        ("red-achromic"@, "RED Achromic"@, "V-Log"@, "RED_Achromic_VLog.cube"@),
        ("red-filmbias-bb"@, "RED FilmBias BB"@, "V-Log"@, "RED_FilmBias-BB_VLog.cube"@),
        ("red-filmbias-offset"@, "RED FilmBias Offset"@, "V-Log"@, "RED_FilmBias-Offset_VLog.cube"@),
        ("red-filmbias"@, "RED FilmBias"@, "V-Log"@, "RED_FilmBias_VLog.cube"@),
        ("red-rec-709"@, "RED Rec.709"@, "V-Log"@, "RED_Rec.709_VLog.cube"@)
    ]
}

fn preset(id: &str, display_name: &str, cube_filename: &str) -> (p: ColorGradingPreset)
    ensures
        preset_view(p) == (id@, display_name@, "V-Log"@, cube_filename@),
{
    ColorGradingPreset {
        id: id.to_string(),
        display_name: display_name.to_string(),
        log_space: "V-Log".to_string(),
        cube_filename: cube_filename.to_string(),
    }
}

/// The built-in presets.
pub fn all_presets() -> (v: Vec<ColorGradingPreset>)
    ensures
        preset_views(v@) == preset_table(),
{
    let mut v: Vec<ColorGradingPreset> = Vec::new();
    v.push(preset("arri-alexa-classic-709", "ARRI ALEXA Classic 709", "ARRI_ALEXA_Classic-709_VLog.cube"));
    v.push(preset("fujifilm-acros", "Fujifilm ACROS", "Fujifilm_ACROS_VLog.cube"));
    v.push(preset("fujifilm-astia", "Fujifilm ASTIA", "Fujifilm_ASTIA_VLog.cube"));
    v.push(preset("fujifilm-classic-chrome", "Fujifilm CLASSIC CHROME", "Fujifilm_CLASSIC-CHROME_VLog.cube"));
    v.push(preset("fujifilm-classic-neg", "Fujifilm CLASSIC Neg", "Fujifilm_CLASSIC-Neg_VLog.cube"));
    v.push(preset("fujifilm-eterna-3513di", "Fujifilm ETERNA 3513DI", "Fujifilm_ETERNA-3513DI_VLog.cube"));
    v.push(preset("fujifilm-eterna-bb", "Fujifilm ETERNA BB", "Fujifilm_ETERNA-BB_VLog.cube"));
    v.push(preset("fujifilm-eterna", "Fujifilm ETERNA", "Fujifilm_ETERNA_VLog.cube"));
    v.push(preset("fujifilm-pro-neg-std", "Fujifilm PRO Neg. Std", "Fujifilm_PRO-Neg.-Std_VLog.cube"));
    v.push(preset("fujifilm-provia", "Fujifilm PROVIA", "Fujifilm_PROVIA_VLog.cube"));
    v.push(preset("fujifilm-reala-ace", "Fujifilm REALA ACE", "Fujifilm_REALA-ACE_VLog.cube"));
    v.push(preset("fujifilm-velvia", "Fujifilm Velvia", "Fujifilm_Velvia_VLog.cube"));
    v.push(preset("kodak-vision-2383", "Kodak VISION 2383", "Kodak_VISION-2383_VLog.cube"));
    v.push(preset("leica-classic", "Leica Classic", "Leica_Classic_VLog.cube"));
    v.push(preset("leica-natural", "Leica Natural", "Leica_Natural_VLog.cube"));
    v.push(preset("red-achromic", "RED Achromic", "RED_Achromic_VLog.cube"));
    v.push(preset("red-filmbias-bb", "RED FilmBias BB", "RED_FilmBias-BB_VLog.cube"));
    v.push(preset("red-filmbias-offset", "RED FilmBias Offset", "RED_FilmBias-Offset_VLog.cube"));
    v.push(preset("red-filmbias", "RED FilmBias", "RED_FilmBias_VLog.cube"));
    v.push(preset("red-rec-709", "RED Rec.709", "RED_Rec.709_VLog.cube"));
    assert(preset_views(v@) =~= preset_table());
    v
}

/// No two built-in presets share an id, so each is found by its own id.
pub proof fn lemma_preset_ids_distinct()
    ensures
        forall|i: int, j: int| 0 <= i < preset_table().len() && 0 <= j < preset_table().len() && i != j
            ==> #[trigger] preset_table()[i].0 != #[trigger] preset_table()[j].0,
{
    let t = preset_table();
    assert(t.len() == 20);
    reveal_strlit("arri-alexa-classic-709");
    reveal_strlit("fujifilm-acros");
    reveal_strlit("fujifilm-astia");
    reveal_strlit("fujifilm-classic-chrome");
    reveal_strlit("fujifilm-classic-neg");
    reveal_strlit("fujifilm-eterna-3513di");
    reveal_strlit("fujifilm-eterna-bb");
    reveal_strlit("fujifilm-eterna");
    reveal_strlit("fujifilm-pro-neg-std");
    reveal_strlit("fujifilm-provia");
    reveal_strlit("fujifilm-reala-ace");
    reveal_strlit("fujifilm-velvia");
    reveal_strlit("kodak-vision-2383");
    reveal_strlit("leica-classic");
    reveal_strlit("leica-natural");
    reveal_strlit("red-achromic");
    reveal_strlit("red-filmbias-bb");
    reveal_strlit("red-filmbias-offset");
    reveal_strlit("red-filmbias");
    reveal_strlit("red-rec-709");
    assert(t[0].0 == "arri-alexa-classic-709"@);
    assert(t[1].0 == "fujifilm-acros"@);
    assert(t[2].0 == "fujifilm-astia"@);
    assert(t[3].0 == "fujifilm-classic-chrome"@);
    assert(t[4].0 == "fujifilm-classic-neg"@);
    assert(t[5].0 == "fujifilm-eterna-3513di"@);
    assert(t[6].0 == "fujifilm-eterna-bb"@);
    assert(t[7].0 == "fujifilm-eterna"@);
    assert(t[8].0 == "fujifilm-pro-neg-std"@);
    assert(t[9].0 == "fujifilm-provia"@);
    assert(t[10].0 == "fujifilm-reala-ace"@);
    assert(t[11].0 == "fujifilm-velvia"@);
    assert(t[12].0 == "kodak-vision-2383"@);
    assert(t[13].0 == "leica-classic"@);
    assert(t[14].0 == "leica-natural"@);
    assert(t[15].0 == "red-achromic"@);
    assert(t[16].0 == "red-filmbias-bb"@);
    assert(t[17].0 == "red-filmbias-offset"@);
    assert(t[18].0 == "red-filmbias"@);
    assert(t[19].0 == "red-rec-709"@);
    assert("arri-alexa-classic-709"@.len() != "fujifilm-acros"@.len());
    assert("arri-alexa-classic-709"@.len() != "fujifilm-astia"@.len());
    assert("arri-alexa-classic-709"@.len() != "fujifilm-classic-chrome"@.len());
    assert("arri-alexa-classic-709"@.len() != "fujifilm-classic-neg"@.len());
    assert("arri-alexa-classic-709"@[0] != "fujifilm-eterna-3513di"@[0]);
    assert("arri-alexa-classic-709"@.len() != "fujifilm-eterna-bb"@.len());
    assert("arri-alexa-classic-709"@.len() != "fujifilm-eterna"@.len());
    assert("arri-alexa-classic-709"@.len() != "fujifilm-pro-neg-std"@.len());
    assert("arri-alexa-classic-709"@.len() != "fujifilm-provia"@.len());
    assert("arri-alexa-classic-709"@.len() != "fujifilm-reala-ace"@.len());
    assert("arri-alexa-classic-709"@.len() != "fujifilm-velvia"@.len());
    assert("arri-alexa-classic-709"@.len() != "kodak-vision-2383"@.len());
    assert("arri-alexa-classic-709"@.len() != "leica-classic"@.len());
    assert("arri-alexa-classic-709"@.len() != "leica-natural"@.len());
    assert("arri-alexa-classic-709"@.len() != "red-achromic"@.len());
    assert("arri-alexa-classic-709"@.len() != "red-filmbias-bb"@.len());
    assert("arri-alexa-classic-709"@.len() != "red-filmbias-offset"@.len());
    assert("arri-alexa-classic-709"@.len() != "red-filmbias"@.len());
    assert("arri-alexa-classic-709"@.len() != "red-rec-709"@.len());
    assert("fujifilm-acros"@[10] != "fujifilm-astia"@[10]);
    assert("fujifilm-acros"@.len() != "fujifilm-classic-chrome"@.len());
    assert("fujifilm-acros"@.len() != "fujifilm-classic-neg"@.len());
    assert("fujifilm-acros"@.len() != "fujifilm-eterna-3513di"@.len());
    assert("fujifilm-acros"@.len() != "fujifilm-eterna-bb"@.len());
    assert("fujifilm-acros"@.len() != "fujifilm-eterna"@.len());
    assert("fujifilm-acros"@.len() != "fujifilm-pro-neg-std"@.len());
    assert("fujifilm-acros"@.len() != "fujifilm-provia"@.len());
    assert("fujifilm-acros"@.len() != "fujifilm-reala-ace"@.len());
    assert("fujifilm-acros"@.len() != "fujifilm-velvia"@.len());
    assert("fujifilm-acros"@.len() != "kodak-vision-2383"@.len());
    assert("fujifilm-acros"@.len() != "leica-classic"@.len());
    assert("fujifilm-acros"@.len() != "leica-natural"@.len());
    assert("fujifilm-acros"@.len() != "red-achromic"@.len());
    assert("fujifilm-acros"@.len() != "red-filmbias-bb"@.len());
    assert("fujifilm-acros"@.len() != "red-filmbias-offset"@.len());
    assert("fujifilm-acros"@.len() != "red-filmbias"@.len());
    assert("fujifilm-acros"@.len() != "red-rec-709"@.len());
    assert("fujifilm-astia"@.len() != "fujifilm-classic-chrome"@.len());
    assert("fujifilm-astia"@.len() != "fujifilm-classic-neg"@.len());
    assert("fujifilm-astia"@.len() != "fujifilm-eterna-3513di"@.len());
    assert("fujifilm-astia"@.len() != "fujifilm-eterna-bb"@.len());
    assert("fujifilm-astia"@.len() != "fujifilm-eterna"@.len());
    assert("fujifilm-astia"@.len() != "fujifilm-pro-neg-std"@.len());
    assert("fujifilm-astia"@.len() != "fujifilm-provia"@.len());
    assert("fujifilm-astia"@.len() != "fujifilm-reala-ace"@.len());
    assert("fujifilm-astia"@.len() != "fujifilm-velvia"@.len());
    assert("fujifilm-astia"@.len() != "kodak-vision-2383"@.len());
    assert("fujifilm-astia"@.len() != "leica-classic"@.len());
    assert("fujifilm-astia"@.len() != "leica-natural"@.len());
    assert("fujifilm-astia"@.len() != "red-achromic"@.len());
    assert("fujifilm-astia"@.len() != "red-filmbias-bb"@.len());
    assert("fujifilm-astia"@.len() != "red-filmbias-offset"@.len());
    assert("fujifilm-astia"@.len() != "red-filmbias"@.len());
    assert("fujifilm-astia"@.len() != "red-rec-709"@.len());
    assert("fujifilm-classic-chrome"@.len() != "fujifilm-classic-neg"@.len());
    assert("fujifilm-classic-chrome"@.len() != "fujifilm-eterna-3513di"@.len());
    assert("fujifilm-classic-chrome"@.len() != "fujifilm-eterna-bb"@.len());
    assert("fujifilm-classic-chrome"@.len() != "fujifilm-eterna"@.len());
    assert("fujifilm-classic-chrome"@.len() != "fujifilm-pro-neg-std"@.len());
    assert("fujifilm-classic-chrome"@.len() != "fujifilm-provia"@.len());
    assert("fujifilm-classic-chrome"@.len() != "fujifilm-reala-ace"@.len());
    assert("fujifilm-classic-chrome"@.len() != "fujifilm-velvia"@.len());
    assert("fujifilm-classic-chrome"@.len() != "kodak-vision-2383"@.len());
    assert("fujifilm-classic-chrome"@.len() != "leica-classic"@.len());
    assert("fujifilm-classic-chrome"@.len() != "leica-natural"@.len());
    assert("fujifilm-classic-chrome"@.len() != "red-achromic"@.len());
    assert("fujifilm-classic-chrome"@.len() != "red-filmbias-bb"@.len());
    assert("fujifilm-classic-chrome"@.len() != "red-filmbias-offset"@.len());
    assert("fujifilm-classic-chrome"@.len() != "red-filmbias"@.len());
    assert("fujifilm-classic-chrome"@.len() != "red-rec-709"@.len());
    assert("fujifilm-classic-neg"@.len() != "fujifilm-eterna-3513di"@.len());
    assert("fujifilm-classic-neg"@.len() != "fujifilm-eterna-bb"@.len());
    assert("fujifilm-classic-neg"@.len() != "fujifilm-eterna"@.len());
    assert("fujifilm-classic-neg"@[9] != "fujifilm-pro-neg-std"@[9]);
    assert("fujifilm-classic-neg"@.len() != "fujifilm-provia"@.len());
    assert("fujifilm-classic-neg"@.len() != "fujifilm-reala-ace"@.len());
    assert("fujifilm-classic-neg"@.len() != "fujifilm-velvia"@.len());
    assert("fujifilm-classic-neg"@.len() != "kodak-vision-2383"@.len());
    assert("fujifilm-classic-neg"@.len() != "leica-classic"@.len());
    assert("fujifilm-classic-neg"@.len() != "leica-natural"@.len());
    assert("fujifilm-classic-neg"@.len() != "red-achromic"@.len());
    assert("fujifilm-classic-neg"@.len() != "red-filmbias-bb"@.len());
    assert("fujifilm-classic-neg"@.len() != "red-filmbias-offset"@.len());
    assert("fujifilm-classic-neg"@.len() != "red-filmbias"@.len());
    assert("fujifilm-classic-neg"@.len() != "red-rec-709"@.len());
    assert("fujifilm-eterna-3513di"@.len() != "fujifilm-eterna-bb"@.len());
    assert("fujifilm-eterna-3513di"@.len() != "fujifilm-eterna"@.len());
    assert("fujifilm-eterna-3513di"@.len() != "fujifilm-pro-neg-std"@.len());
    assert("fujifilm-eterna-3513di"@.len() != "fujifilm-provia"@.len());
    assert("fujifilm-eterna-3513di"@.len() != "fujifilm-reala-ace"@.len());
    assert("fujifilm-eterna-3513di"@.len() != "fujifilm-velvia"@.len());
    assert("fujifilm-eterna-3513di"@.len() != "kodak-vision-2383"@.len());
    assert("fujifilm-eterna-3513di"@.len() != "leica-classic"@.len());
    assert("fujifilm-eterna-3513di"@.len() != "leica-natural"@.len());
    assert("fujifilm-eterna-3513di"@.len() != "red-achromic"@.len());
    assert("fujifilm-eterna-3513di"@.len() != "red-filmbias-bb"@.len());
    assert("fujifilm-eterna-3513di"@.len() != "red-filmbias-offset"@.len());
    assert("fujifilm-eterna-3513di"@.len() != "red-filmbias"@.len());
    assert("fujifilm-eterna-3513di"@.len() != "red-rec-709"@.len());
    assert("fujifilm-eterna-bb"@.len() != "fujifilm-eterna"@.len());
    assert("fujifilm-eterna-bb"@.len() != "fujifilm-pro-neg-std"@.len());
    assert("fujifilm-eterna-bb"@.len() != "fujifilm-provia"@.len());
    assert("fujifilm-eterna-bb"@[9] != "fujifilm-reala-ace"@[9]);
    assert("fujifilm-eterna-bb"@.len() != "fujifilm-velvia"@.len());
    assert("fujifilm-eterna-bb"@.len() != "kodak-vision-2383"@.len());
    assert("fujifilm-eterna-bb"@.len() != "leica-classic"@.len());
    assert("fujifilm-eterna-bb"@.len() != "leica-natural"@.len());
    assert("fujifilm-eterna-bb"@.len() != "red-achromic"@.len());
    assert("fujifilm-eterna-bb"@.len() != "red-filmbias-bb"@.len());
    assert("fujifilm-eterna-bb"@.len() != "red-filmbias-offset"@.len());
    assert("fujifilm-eterna-bb"@.len() != "red-filmbias"@.len());
    assert("fujifilm-eterna-bb"@.len() != "red-rec-709"@.len());
    assert("fujifilm-eterna"@.len() != "fujifilm-pro-neg-std"@.len());
    assert("fujifilm-eterna"@[9] != "fujifilm-provia"@[9]);
    assert("fujifilm-eterna"@.len() != "fujifilm-reala-ace"@.len());
    assert("fujifilm-eterna"@[9] != "fujifilm-velvia"@[9]);
    assert("fujifilm-eterna"@.len() != "kodak-vision-2383"@.len());
    assert("fujifilm-eterna"@.len() != "leica-classic"@.len());
    assert("fujifilm-eterna"@.len() != "leica-natural"@.len());
    assert("fujifilm-eterna"@.len() != "red-achromic"@.len());
    assert("fujifilm-eterna"@[0] != "red-filmbias-bb"@[0]);
    assert("fujifilm-eterna"@.len() != "red-filmbias-offset"@.len());
    assert("fujifilm-eterna"@.len() != "red-filmbias"@.len());
    assert("fujifilm-eterna"@.len() != "red-rec-709"@.len());
    assert("fujifilm-pro-neg-std"@.len() != "fujifilm-provia"@.len());
    assert("fujifilm-pro-neg-std"@.len() != "fujifilm-reala-ace"@.len());
    assert("fujifilm-pro-neg-std"@.len() != "fujifilm-velvia"@.len());
    assert("fujifilm-pro-neg-std"@.len() != "kodak-vision-2383"@.len());
    assert("fujifilm-pro-neg-std"@.len() != "leica-classic"@.len());
    assert("fujifilm-pro-neg-std"@.len() != "leica-natural"@.len());
    assert("fujifilm-pro-neg-std"@.len() != "red-achromic"@.len());
    assert("fujifilm-pro-neg-std"@.len() != "red-filmbias-bb"@.len());
    assert("fujifilm-pro-neg-std"@.len() != "red-filmbias-offset"@.len());
    assert("fujifilm-pro-neg-std"@.len() != "red-filmbias"@.len());
    assert("fujifilm-pro-neg-std"@.len() != "red-rec-709"@.len());
    assert("fujifilm-provia"@.len() != "fujifilm-reala-ace"@.len());
    assert("fujifilm-provia"@[9] != "fujifilm-velvia"@[9]);
    assert("fujifilm-provia"@.len() != "kodak-vision-2383"@.len());
    assert("fujifilm-provia"@.len() != "leica-classic"@.len());
    assert("fujifilm-provia"@.len() != "leica-natural"@.len());
    assert("fujifilm-provia"@.len() != "red-achromic"@.len());
    assert("fujifilm-provia"@[0] != "red-filmbias-bb"@[0]);
    assert("fujifilm-provia"@.len() != "red-filmbias-offset"@.len());
    assert("fujifilm-provia"@.len() != "red-filmbias"@.len());
    assert("fujifilm-provia"@.len() != "red-rec-709"@.len());
    assert("fujifilm-reala-ace"@.len() != "fujifilm-velvia"@.len());
    assert("fujifilm-reala-ace"@.len() != "kodak-vision-2383"@.len());
    assert("fujifilm-reala-ace"@.len() != "leica-classic"@.len());
    assert("fujifilm-reala-ace"@.len() != "leica-natural"@.len());
    assert("fujifilm-reala-ace"@.len() != "red-achromic"@.len());
    assert("fujifilm-reala-ace"@.len() != "red-filmbias-bb"@.len());
    assert("fujifilm-reala-ace"@.len() != "red-filmbias-offset"@.len());
    assert("fujifilm-reala-ace"@.len() != "red-filmbias"@.len());
    assert("fujifilm-reala-ace"@.len() != "red-rec-709"@.len());
    assert("fujifilm-velvia"@.len() != "kodak-vision-2383"@.len());
    assert("fujifilm-velvia"@.len() != "leica-classic"@.len());
    assert("fujifilm-velvia"@.len() != "leica-natural"@.len());
    assert("fujifilm-velvia"@.len() != "red-achromic"@.len());
    assert("fujifilm-velvia"@[0] != "red-filmbias-bb"@[0]);
    assert("fujifilm-velvia"@.len() != "red-filmbias-offset"@.len());
    assert("fujifilm-velvia"@.len() != "red-filmbias"@.len());
    assert("fujifilm-velvia"@.len() != "red-rec-709"@.len());
    assert("kodak-vision-2383"@.len() != "leica-classic"@.len());
    assert("kodak-vision-2383"@.len() != "leica-natural"@.len());
    assert("kodak-vision-2383"@.len() != "red-achromic"@.len());
    assert("kodak-vision-2383"@.len() != "red-filmbias-bb"@.len());
    assert("kodak-vision-2383"@.len() != "red-filmbias-offset"@.len());
    assert("kodak-vision-2383"@.len() != "red-filmbias"@.len());
    assert("kodak-vision-2383"@.len() != "red-rec-709"@.len());
    assert("leica-classic"@[6] != "leica-natural"@[6]);
    assert("leica-classic"@.len() != "red-achromic"@.len());
    assert("leica-classic"@.len() != "red-filmbias-bb"@.len());
    assert("leica-classic"@.len() != "red-filmbias-offset"@.len());
    assert("leica-classic"@.len() != "red-filmbias"@.len());
    assert("leica-classic"@.len() != "red-rec-709"@.len());
    assert("leica-natural"@.len() != "red-achromic"@.len());
    assert("leica-natural"@.len() != "red-filmbias-bb"@.len());
    assert("leica-natural"@.len() != "red-filmbias-offset"@.len());
    assert("leica-natural"@.len() != "red-filmbias"@.len());
    assert("leica-natural"@.len() != "red-rec-709"@.len());
    assert("red-achromic"@.len() != "red-filmbias-bb"@.len());
    assert("red-achromic"@.len() != "red-filmbias-offset"@.len());
    assert("red-achromic"@[4] != "red-filmbias"@[4]);
    assert("red-achromic"@.len() != "red-rec-709"@.len());
    assert("red-filmbias-bb"@.len() != "red-filmbias-offset"@.len());
    assert("red-filmbias-bb"@.len() != "red-filmbias"@.len());
    assert("red-filmbias-bb"@.len() != "red-rec-709"@.len());
    assert("red-filmbias-offset"@.len() != "red-filmbias"@.len());
    assert("red-filmbias-offset"@.len() != "red-rec-709"@.len());
    assert("red-filmbias"@.len() != "red-rec-709"@.len());
    assert forall|i: int, j: int| 0 <= i < t.len() && 0 <= j < t.len() && i != j implies t[i].0 != t[j].0 by {
        if i == 0 {
            if j == 1 { assert(t[0].0 != t[1].0); }
            if j == 2 { assert(t[0].0 != t[2].0); }
            if j == 3 { assert(t[0].0 != t[3].0); }
            if j == 4 { assert(t[0].0 != t[4].0); }
            if j == 5 { assert(t[0].0 != t[5].0); }
            if j == 6 { assert(t[0].0 != t[6].0); }
            if j == 7 { assert(t[0].0 != t[7].0); }
            if j == 8 { assert(t[0].0 != t[8].0); }
            if j == 9 { assert(t[0].0 != t[9].0); }
            if j == 10 { assert(t[0].0 != t[10].0); }
            if j == 11 { assert(t[0].0 != t[11].0); }
            if j == 12 { assert(t[0].0 != t[12].0); }
            if j == 13 { assert(t[0].0 != t[13].0); }
            if j == 14 { assert(t[0].0 != t[14].0); }
            if j == 15 { assert(t[0].0 != t[15].0); }
            if j == 16 { assert(t[0].0 != t[16].0); }
            if j == 17 { assert(t[0].0 != t[17].0); }
            if j == 18 { assert(t[0].0 != t[18].0); }
            if j == 19 { assert(t[0].0 != t[19].0); }
        } else if i == 1 {
            if j == 0 { assert(t[1].0 != t[0].0); }
            if j == 2 { assert(t[1].0 != t[2].0); }
            if j == 3 { assert(t[1].0 != t[3].0); }
            if j == 4 { assert(t[1].0 != t[4].0); }
            if j == 5 { assert(t[1].0 != t[5].0); }
            if j == 6 { assert(t[1].0 != t[6].0); }
            if j == 7 { assert(t[1].0 != t[7].0); }
            if j == 8 { assert(t[1].0 != t[8].0); }
            if j == 9 { assert(t[1].0 != t[9].0); }
            if j == 10 { assert(t[1].0 != t[10].0); }
            if j == 11 { assert(t[1].0 != t[11].0); }
            if j == 12 { assert(t[1].0 != t[12].0); }
            if j == 13 { assert(t[1].0 != t[13].0); }
            if j == 14 { assert(t[1].0 != t[14].0); }
            if j == 15 { assert(t[1].0 != t[15].0); }
            if j == 16 { assert(t[1].0 != t[16].0); }
            if j == 17 { assert(t[1].0 != t[17].0); }
            if j == 18 { assert(t[1].0 != t[18].0); }
            if j == 19 { assert(t[1].0 != t[19].0); }
        } else if i == 2 {
            if j == 0 { assert(t[2].0 != t[0].0); }
            if j == 1 { assert(t[2].0 != t[1].0); }
            if j == 3 { assert(t[2].0 != t[3].0); }
            if j == 4 { assert(t[2].0 != t[4].0); }
            if j == 5 { assert(t[2].0 != t[5].0); }
            if j == 6 { assert(t[2].0 != t[6].0); }
            if j == 7 { assert(t[2].0 != t[7].0); }
            if j == 8 { assert(t[2].0 != t[8].0); }
            if j == 9 { assert(t[2].0 != t[9].0); }
            if j == 10 { assert(t[2].0 != t[10].0); }
            if j == 11 { assert(t[2].0 != t[11].0); }
            if j == 12 { assert(t[2].0 != t[12].0); }
            if j == 13 { assert(t[2].0 != t[13].0); }
            if j == 14 { assert(t[2].0 != t[14].0); }
            if j == 15 { assert(t[2].0 != t[15].0); }
            if j == 16 { assert(t[2].0 != t[16].0); }
            if j == 17 { assert(t[2].0 != t[17].0); }
            if j == 18 { assert(t[2].0 != t[18].0); }
            if j == 19 { assert(t[2].0 != t[19].0); }
        } else if i == 3 {
            if j == 0 { assert(t[3].0 != t[0].0); }
            if j == 1 { assert(t[3].0 != t[1].0); }
            if j == 2 { assert(t[3].0 != t[2].0); }
            if j == 4 { assert(t[3].0 != t[4].0); }
            if j == 5 { assert(t[3].0 != t[5].0); }
            if j == 6 { assert(t[3].0 != t[6].0); }
            if j == 7 { assert(t[3].0 != t[7].0); }
            if j == 8 { assert(t[3].0 != t[8].0); }
            if j == 9 { assert(t[3].0 != t[9].0); }
            if j == 10 { assert(t[3].0 != t[10].0); }
            if j == 11 { assert(t[3].0 != t[11].0); }
            if j == 12 { assert(t[3].0 != t[12].0); }
            if j == 13 { assert(t[3].0 != t[13].0); }
            if j == 14 { assert(t[3].0 != t[14].0); }
            if j == 15 { assert(t[3].0 != t[15].0); }
            if j == 16 { assert(t[3].0 != t[16].0); }
            if j == 17 { assert(t[3].0 != t[17].0); }
            if j == 18 { assert(t[3].0 != t[18].0); }
            if j == 19 { assert(t[3].0 != t[19].0); }
        } else if i == 4 {
            if j == 0 { assert(t[4].0 != t[0].0); }
            if j == 1 { assert(t[4].0 != t[1].0); }
            if j == 2 { assert(t[4].0 != t[2].0); }
            if j == 3 { assert(t[4].0 != t[3].0); }
            if j == 5 { assert(t[4].0 != t[5].0); }
            if j == 6 { assert(t[4].0 != t[6].0); }
            if j == 7 { assert(t[4].0 != t[7].0); }
            if j == 8 { assert(t[4].0 != t[8].0); }
            if j == 9 { assert(t[4].0 != t[9].0); }
            if j == 10 { assert(t[4].0 != t[10].0); }
            if j == 11 { assert(t[4].0 != t[11].0); }
            if j == 12 { assert(t[4].0 != t[12].0); }
            if j == 13 { assert(t[4].0 != t[13].0); }
            if j == 14 { assert(t[4].0 != t[14].0); }
            if j == 15 { assert(t[4].0 != t[15].0); }
            if j == 16 { assert(t[4].0 != t[16].0); }
            if j == 17 { assert(t[4].0 != t[17].0); }
            if j == 18 { assert(t[4].0 != t[18].0); }
            if j == 19 { assert(t[4].0 != t[19].0); }
        } else if i == 5 {
            if j == 0 { assert(t[5].0 != t[0].0); }
            if j == 1 { assert(t[5].0 != t[1].0); }
            if j == 2 { assert(t[5].0 != t[2].0); }
            if j == 3 { assert(t[5].0 != t[3].0); }
            if j == 4 { assert(t[5].0 != t[4].0); }
            if j == 6 { assert(t[5].0 != t[6].0); }
            if j == 7 { assert(t[5].0 != t[7].0); }
            if j == 8 { assert(t[5].0 != t[8].0); }
            if j == 9 { assert(t[5].0 != t[9].0); }
            if j == 10 { assert(t[5].0 != t[10].0); }
            if j == 11 { assert(t[5].0 != t[11].0); }
            if j == 12 { assert(t[5].0 != t[12].0); }
            if j == 13 { assert(t[5].0 != t[13].0); }
            if j == 14 { assert(t[5].0 != t[14].0); }
            if j == 15 { assert(t[5].0 != t[15].0); }
            if j == 16 { assert(t[5].0 != t[16].0); }
            if j == 17 { assert(t[5].0 != t[17].0); }
            if j == 18 { assert(t[5].0 != t[18].0); }
            if j == 19 { assert(t[5].0 != t[19].0); }
        } else if i == 6 {
            if j == 0 { assert(t[6].0 != t[0].0); }
            if j == 1 { assert(t[6].0 != t[1].0); }
            if j == 2 { assert(t[6].0 != t[2].0); }
            if j == 3 { assert(t[6].0 != t[3].0); }
            if j == 4 { assert(t[6].0 != t[4].0); }
            if j == 5 { assert(t[6].0 != t[5].0); }
            if j == 7 { assert(t[6].0 != t[7].0); }
            if j == 8 { assert(t[6].0 != t[8].0); }
            if j == 9 { assert(t[6].0 != t[9].0); }
            if j == 10 { assert(t[6].0 != t[10].0); }
            if j == 11 { assert(t[6].0 != t[11].0); }
            if j == 12 { assert(t[6].0 != t[12].0); }
            if j == 13 { assert(t[6].0 != t[13].0); }
            if j == 14 { assert(t[6].0 != t[14].0); }
            if j == 15 { assert(t[6].0 != t[15].0); }
            if j == 16 { assert(t[6].0 != t[16].0); }
            if j == 17 { assert(t[6].0 != t[17].0); }
            if j == 18 { assert(t[6].0 != t[18].0); }
            if j == 19 { assert(t[6].0 != t[19].0); }
        } else if i == 7 {
            if j == 0 { assert(t[7].0 != t[0].0); }
            if j == 1 { assert(t[7].0 != t[1].0); }
            if j == 2 { assert(t[7].0 != t[2].0); }
            if j == 3 { assert(t[7].0 != t[3].0); }
            if j == 4 { assert(t[7].0 != t[4].0); }
            if j == 5 { assert(t[7].0 != t[5].0); }
            if j == 6 { assert(t[7].0 != t[6].0); }
            if j == 8 { assert(t[7].0 != t[8].0); }
            if j == 9 { assert(t[7].0 != t[9].0); }
            if j == 10 { assert(t[7].0 != t[10].0); }
            if j == 11 { assert(t[7].0 != t[11].0); }
            if j == 12 { assert(t[7].0 != t[12].0); }
            if j == 13 { assert(t[7].0 != t[13].0); }
            if j == 14 { assert(t[7].0 != t[14].0); }
            if j == 15 { assert(t[7].0 != t[15].0); }
            if j == 16 { assert(t[7].0 != t[16].0); }
            if j == 17 { assert(t[7].0 != t[17].0); }
            if j == 18 { assert(t[7].0 != t[18].0); }
            if j == 19 { assert(t[7].0 != t[19].0); }
        } else if i == 8 {
            if j == 0 { assert(t[8].0 != t[0].0); }
            if j == 1 { assert(t[8].0 != t[1].0); }
            if j == 2 { assert(t[8].0 != t[2].0); }
            if j == 3 { assert(t[8].0 != t[3].0); }
            if j == 4 { assert(t[8].0 != t[4].0); }
            if j == 5 { assert(t[8].0 != t[5].0); }
            if j == 6 { assert(t[8].0 != t[6].0); }
            if j == 7 { assert(t[8].0 != t[7].0); }
            if j == 9 { assert(t[8].0 != t[9].0); }
            if j == 10 { assert(t[8].0 != t[10].0); }
            if j == 11 { assert(t[8].0 != t[11].0); }
            if j == 12 { assert(t[8].0 != t[12].0); }
            if j == 13 { assert(t[8].0 != t[13].0); }
            if j == 14 { assert(t[8].0 != t[14].0); }
            if j == 15 { assert(t[8].0 != t[15].0); }
            if j == 16 { assert(t[8].0 != t[16].0); }
            if j == 17 { assert(t[8].0 != t[17].0); }
            if j == 18 { assert(t[8].0 != t[18].0); }
            if j == 19 { assert(t[8].0 != t[19].0); }
        } else if i == 9 {
            if j == 0 { assert(t[9].0 != t[0].0); }
            if j == 1 { assert(t[9].0 != t[1].0); }
            if j == 2 { assert(t[9].0 != t[2].0); }
            if j == 3 { assert(t[9].0 != t[3].0); }
            if j == 4 { assert(t[9].0 != t[4].0); }
            if j == 5 { assert(t[9].0 != t[5].0); }
            if j == 6 { assert(t[9].0 != t[6].0); }
            if j == 7 { assert(t[9].0 != t[7].0); }
            if j == 8 { assert(t[9].0 != t[8].0); }
            if j == 10 { assert(t[9].0 != t[10].0); }
            if j == 11 { assert(t[9].0 != t[11].0); }
            if j == 12 { assert(t[9].0 != t[12].0); }
            if j == 13 { assert(t[9].0 != t[13].0); }
            if j == 14 { assert(t[9].0 != t[14].0); }
            if j == 15 { assert(t[9].0 != t[15].0); }
            if j == 16 { assert(t[9].0 != t[16].0); }
            if j == 17 { assert(t[9].0 != t[17].0); }
            if j == 18 { assert(t[9].0 != t[18].0); }
            if j == 19 { assert(t[9].0 != t[19].0); }
        } else if i == 10 {
            if j == 0 { assert(t[10].0 != t[0].0); }
            if j == 1 { assert(t[10].0 != t[1].0); }
            if j == 2 { assert(t[10].0 != t[2].0); }
            if j == 3 { assert(t[10].0 != t[3].0); }
            if j == 4 { assert(t[10].0 != t[4].0); }
            if j == 5 { assert(t[10].0 != t[5].0); }
            if j == 6 { assert(t[10].0 != t[6].0); }
            if j == 7 { assert(t[10].0 != t[7].0); }
            if j == 8 { assert(t[10].0 != t[8].0); }
            if j == 9 { assert(t[10].0 != t[9].0); }
            if j == 11 { assert(t[10].0 != t[11].0); }
            if j == 12 { assert(t[10].0 != t[12].0); }
            if j == 13 { assert(t[10].0 != t[13].0); }
            if j == 14 { assert(t[10].0 != t[14].0); }
            if j == 15 { assert(t[10].0 != t[15].0); }
            if j == 16 { assert(t[10].0 != t[16].0); }
            if j == 17 { assert(t[10].0 != t[17].0); }
            if j == 18 { assert(t[10].0 != t[18].0); }
            if j == 19 { assert(t[10].0 != t[19].0); }
        } else if i == 11 {
            if j == 0 { assert(t[11].0 != t[0].0); }
            if j == 1 { assert(t[11].0 != t[1].0); }
            if j == 2 { assert(t[11].0 != t[2].0); }
            if j == 3 { assert(t[11].0 != t[3].0); }
            if j == 4 { assert(t[11].0 != t[4].0); }
            if j == 5 { assert(t[11].0 != t[5].0); }
            if j == 6 { assert(t[11].0 != t[6].0); }
            if j == 7 { assert(t[11].0 != t[7].0); }
            if j == 8 { assert(t[11].0 != t[8].0); }
            if j == 9 { assert(t[11].0 != t[9].0); }
            if j == 10 { assert(t[11].0 != t[10].0); }
            if j == 12 { assert(t[11].0 != t[12].0); }
            if j == 13 { assert(t[11].0 != t[13].0); }
            if j == 14 { assert(t[11].0 != t[14].0); }
            if j == 15 { assert(t[11].0 != t[15].0); }
            if j == 16 { assert(t[11].0 != t[16].0); }
            if j == 17 { assert(t[11].0 != t[17].0); }
            if j == 18 { assert(t[11].0 != t[18].0); }
            if j == 19 { assert(t[11].0 != t[19].0); }
        } else if i == 12 {
            if j == 0 { assert(t[12].0 != t[0].0); }
            if j == 1 { assert(t[12].0 != t[1].0); }
            if j == 2 { assert(t[12].0 != t[2].0); }
            if j == 3 { assert(t[12].0 != t[3].0); }
            if j == 4 { assert(t[12].0 != t[4].0); }
            if j == 5 { assert(t[12].0 != t[5].0); }
            if j == 6 { assert(t[12].0 != t[6].0); }
            if j == 7 { assert(t[12].0 != t[7].0); }
            if j == 8 { assert(t[12].0 != t[8].0); }
            if j == 9 { assert(t[12].0 != t[9].0); }
            if j == 10 { assert(t[12].0 != t[10].0); }
            if j == 11 { assert(t[12].0 != t[11].0); }
            if j == 13 { assert(t[12].0 != t[13].0); }
            if j == 14 { assert(t[12].0 != t[14].0); }
            if j == 15 { assert(t[12].0 != t[15].0); }
            if j == 16 { assert(t[12].0 != t[16].0); }
            if j == 17 { assert(t[12].0 != t[17].0); }
            if j == 18 { assert(t[12].0 != t[18].0); }
            if j == 19 { assert(t[12].0 != t[19].0); }
        } else if i == 13 {
            if j == 0 { assert(t[13].0 != t[0].0); }
            if j == 1 { assert(t[13].0 != t[1].0); }
            if j == 2 { assert(t[13].0 != t[2].0); }
            if j == 3 { assert(t[13].0 != t[3].0); }
            if j == 4 { assert(t[13].0 != t[4].0); }
            if j == 5 { assert(t[13].0 != t[5].0); }
            if j == 6 { assert(t[13].0 != t[6].0); }
            if j == 7 { assert(t[13].0 != t[7].0); }
            if j == 8 { assert(t[13].0 != t[8].0); }
            if j == 9 { assert(t[13].0 != t[9].0); }
            if j == 10 { assert(t[13].0 != t[10].0); }
            if j == 11 { assert(t[13].0 != t[11].0); }
            if j == 12 { assert(t[13].0 != t[12].0); }
            if j == 14 { assert(t[13].0 != t[14].0); }
            if j == 15 { assert(t[13].0 != t[15].0); }
            if j == 16 { assert(t[13].0 != t[16].0); }
            if j == 17 { assert(t[13].0 != t[17].0); }
            if j == 18 { assert(t[13].0 != t[18].0); }
            if j == 19 { assert(t[13].0 != t[19].0); }
        } else if i == 14 {
            if j == 0 { assert(t[14].0 != t[0].0); }
            if j == 1 { assert(t[14].0 != t[1].0); }
            if j == 2 { assert(t[14].0 != t[2].0); }
            if j == 3 { assert(t[14].0 != t[3].0); }
            if j == 4 { assert(t[14].0 != t[4].0); }
            if j == 5 { assert(t[14].0 != t[5].0); }
            if j == 6 { assert(t[14].0 != t[6].0); }
            if j == 7 { assert(t[14].0 != t[7].0); }
            if j == 8 { assert(t[14].0 != t[8].0); }
            if j == 9 { assert(t[14].0 != t[9].0); }
            if j == 10 { assert(t[14].0 != t[10].0); }
            if j == 11 { assert(t[14].0 != t[11].0); }
            if j == 12 { assert(t[14].0 != t[12].0); }
            if j == 13 { assert(t[14].0 != t[13].0); }
            if j == 15 { assert(t[14].0 != t[15].0); }
            if j == 16 { assert(t[14].0 != t[16].0); }
            if j == 17 { assert(t[14].0 != t[17].0); }
            if j == 18 { assert(t[14].0 != t[18].0); }
            if j == 19 { assert(t[14].0 != t[19].0); }
        } else if i == 15 {
            if j == 0 { assert(t[15].0 != t[0].0); }
            if j == 1 { assert(t[15].0 != t[1].0); }
            if j == 2 { assert(t[15].0 != t[2].0); }
            if j == 3 { assert(t[15].0 != t[3].0); }
            if j == 4 { assert(t[15].0 != t[4].0); }
            if j == 5 { assert(t[15].0 != t[5].0); }
            if j == 6 { assert(t[15].0 != t[6].0); }
            if j == 7 { assert(t[15].0 != t[7].0); }
            if j == 8 { assert(t[15].0 != t[8].0); }
            if j == 9 { assert(t[15].0 != t[9].0); }
            if j == 10 { assert(t[15].0 != t[10].0); }
            if j == 11 { assert(t[15].0 != t[11].0); }
            if j == 12 { assert(t[15].0 != t[12].0); }
            if j == 13 { assert(t[15].0 != t[13].0); }
            if j == 14 { assert(t[15].0 != t[14].0); }
            if j == 16 { assert(t[15].0 != t[16].0); }
            if j == 17 { assert(t[15].0 != t[17].0); }
            if j == 18 { assert(t[15].0 != t[18].0); }
            if j == 19 { assert(t[15].0 != t[19].0); }
        } else if i == 16 {
            if j == 0 { assert(t[16].0 != t[0].0); }
            if j == 1 { assert(t[16].0 != t[1].0); }
            if j == 2 { assert(t[16].0 != t[2].0); }
            if j == 3 { assert(t[16].0 != t[3].0); }
            if j == 4 { assert(t[16].0 != t[4].0); }
            if j == 5 { assert(t[16].0 != t[5].0); }
            if j == 6 { assert(t[16].0 != t[6].0); }
            if j == 7 { assert(t[16].0 != t[7].0); }
            if j == 8 { assert(t[16].0 != t[8].0); }
            if j == 9 { assert(t[16].0 != t[9].0); }
            if j == 10 { assert(t[16].0 != t[10].0); }
            if j == 11 { assert(t[16].0 != t[11].0); }
            if j == 12 { assert(t[16].0 != t[12].0); }
            if j == 13 { assert(t[16].0 != t[13].0); }
            if j == 14 { assert(t[16].0 != t[14].0); }
            if j == 15 { assert(t[16].0 != t[15].0); }
            if j == 17 { assert(t[16].0 != t[17].0); }
            if j == 18 { assert(t[16].0 != t[18].0); }
            if j == 19 { assert(t[16].0 != t[19].0); }
        } else if i == 17 {
            if j == 0 { assert(t[17].0 != t[0].0); }
            if j == 1 { assert(t[17].0 != t[1].0); }
            if j == 2 { assert(t[17].0 != t[2].0); }
            if j == 3 { assert(t[17].0 != t[3].0); }
            if j == 4 { assert(t[17].0 != t[4].0); }
            if j == 5 { assert(t[17].0 != t[5].0); }
            if j == 6 { assert(t[17].0 != t[6].0); }
            if j == 7 { assert(t[17].0 != t[7].0); }
            if j == 8 { assert(t[17].0 != t[8].0); }
            if j == 9 { assert(t[17].0 != t[9].0); }
            if j == 10 { assert(t[17].0 != t[10].0); }
            if j == 11 { assert(t[17].0 != t[11].0); }
            if j == 12 { assert(t[17].0 != t[12].0); }
            if j == 13 { assert(t[17].0 != t[13].0); }
            if j == 14 { assert(t[17].0 != t[14].0); }
            if j == 15 { assert(t[17].0 != t[15].0); }
            if j == 16 { assert(t[17].0 != t[16].0); }
            if j == 18 { assert(t[17].0 != t[18].0); }
            if j == 19 { assert(t[17].0 != t[19].0); }
        } else if i == 18 {
            if j == 0 { assert(t[18].0 != t[0].0); }
            if j == 1 { assert(t[18].0 != t[1].0); }
            if j == 2 { assert(t[18].0 != t[2].0); }
            if j == 3 { assert(t[18].0 != t[3].0); }
            if j == 4 { assert(t[18].0 != t[4].0); }
            if j == 5 { assert(t[18].0 != t[5].0); }
            if j == 6 { assert(t[18].0 != t[6].0); }
            if j == 7 { assert(t[18].0 != t[7].0); }
            if j == 8 { assert(t[18].0 != t[8].0); }
            if j == 9 { assert(t[18].0 != t[9].0); }
            if j == 10 { assert(t[18].0 != t[10].0); }
            if j == 11 { assert(t[18].0 != t[11].0); }
            if j == 12 { assert(t[18].0 != t[12].0); }
            if j == 13 { assert(t[18].0 != t[13].0); }
            if j == 14 { assert(t[18].0 != t[14].0); }
            if j == 15 { assert(t[18].0 != t[15].0); }
            if j == 16 { assert(t[18].0 != t[16].0); }
            if j == 17 { assert(t[18].0 != t[17].0); }
            if j == 19 { assert(t[18].0 != t[19].0); }
        } else if i == 19 {
            if j == 0 { assert(t[19].0 != t[0].0); }
            if j == 1 { assert(t[19].0 != t[1].0); }
            if j == 2 { assert(t[19].0 != t[2].0); }
            if j == 3 { assert(t[19].0 != t[3].0); }
            if j == 4 { assert(t[19].0 != t[4].0); }
            if j == 5 { assert(t[19].0 != t[5].0); }
            if j == 6 { assert(t[19].0 != t[6].0); }
            if j == 7 { assert(t[19].0 != t[7].0); }
            if j == 8 { assert(t[19].0 != t[8].0); }
            if j == 9 { assert(t[19].0 != t[9].0); }
            if j == 10 { assert(t[19].0 != t[10].0); }
            if j == 11 { assert(t[19].0 != t[11].0); }
            if j == 12 { assert(t[19].0 != t[12].0); }
            if j == 13 { assert(t[19].0 != t[13].0); }
            if j == 14 { assert(t[19].0 != t[14].0); }
            if j == 15 { assert(t[19].0 != t[15].0); }
            if j == 16 { assert(t[19].0 != t[16].0); }
            if j == 17 { assert(t[19].0 != t[17].0); }
            if j == 18 { assert(t[19].0 != t[18].0); }
        }
    }
}

/// The letters and digits of `s`, lowercased: spaces, dots and dashes dropped.
pub open spec fn name_letters(s: Seq<char>) -> Seq<char>
    decreases s.len(),
{
    if s.len() == 0 {
        s
    } else {
        let c = s.last();
        if c == ' ' || c == '.' || c == '-' {
            name_letters(s.drop_last())
        } else {
            name_letters(s.drop_last()).push(lower_char(c))
        }
    }
}

proof fn lemma_preset_id_follows_name_0()
    ensures
        name_letters(preset_table()[0].0) == name_letters(preset_table()[0].1),
{
    reveal_strlit("arri-alexa-classic-709");
    reveal_strlit("ARRI ALEXA Classic 709");
    assert(preset_table()[0].0 == "arri-alexa-classic-709"@ && preset_table()[0].1 == "ARRI ALEXA Classic 709"@);
    reveal_with_fuel(name_letters, 23);
    assert(name_letters("arri-alexa-classic-709"@) =~= name_letters("ARRI ALEXA Classic 709"@));
}

proof fn lemma_preset_id_follows_name_1()
    ensures
        name_letters(preset_table()[1].0) == name_letters(preset_table()[1].1),
{
    reveal_strlit("fujifilm-acros");
    reveal_strlit("Fujifilm ACROS");
    assert(preset_table()[1].0 == "fujifilm-acros"@ && preset_table()[1].1 == "Fujifilm ACROS"@);
    reveal_with_fuel(name_letters, 15);
    assert(name_letters("fujifilm-acros"@) =~= name_letters("Fujifilm ACROS"@));
}

proof fn lemma_preset_id_follows_name_2()
    ensures
        name_letters(preset_table()[2].0) == name_letters(preset_table()[2].1),
{
    reveal_strlit("fujifilm-astia");
    reveal_strlit("Fujifilm ASTIA");
    assert(preset_table()[2].0 == "fujifilm-astia"@ && preset_table()[2].1 == "Fujifilm ASTIA"@);
    reveal_with_fuel(name_letters, 15);
    assert(name_letters("fujifilm-astia"@) =~= name_letters("Fujifilm ASTIA"@));
}

proof fn lemma_preset_id_follows_name_3()
    ensures
        name_letters(preset_table()[3].0) == name_letters(preset_table()[3].1),
{
    reveal_strlit("fujifilm-classic-chrome");
    reveal_strlit("Fujifilm CLASSIC CHROME");
    assert(preset_table()[3].0 == "fujifilm-classic-chrome"@ && preset_table()[3].1 == "Fujifilm CLASSIC CHROME"@);
    reveal_with_fuel(name_letters, 24);
    assert(name_letters("fujifilm-classic-chrome"@) =~= name_letters("Fujifilm CLASSIC CHROME"@));
}

proof fn lemma_preset_id_follows_name_4()
    ensures
        name_letters(preset_table()[4].0) == name_letters(preset_table()[4].1),
{
    reveal_strlit("fujifilm-classic-neg");
    reveal_strlit("Fujifilm CLASSIC Neg");
    assert(preset_table()[4].0 == "fujifilm-classic-neg"@ && preset_table()[4].1 == "Fujifilm CLASSIC Neg"@);
    reveal_with_fuel(name_letters, 21);
    assert(name_letters("fujifilm-classic-neg"@) =~= name_letters("Fujifilm CLASSIC Neg"@));
}

proof fn lemma_preset_id_follows_name_5()
    ensures
        name_letters(preset_table()[5].0) == name_letters(preset_table()[5].1),
{
    reveal_strlit("fujifilm-eterna-3513di");
    reveal_strlit("Fujifilm ETERNA 3513DI");
    assert(preset_table()[5].0 == "fujifilm-eterna-3513di"@ && preset_table()[5].1 == "Fujifilm ETERNA 3513DI"@);
    reveal_with_fuel(name_letters, 23);
    assert(name_letters("fujifilm-eterna-3513di"@) =~= name_letters("Fujifilm ETERNA 3513DI"@));
}

proof fn lemma_preset_id_follows_name_6()
    ensures
        name_letters(preset_table()[6].0) == name_letters(preset_table()[6].1),
{
    reveal_strlit("fujifilm-eterna-bb");
    reveal_strlit("Fujifilm ETERNA BB");
    assert(preset_table()[6].0 == "fujifilm-eterna-bb"@ && preset_table()[6].1 == "Fujifilm ETERNA BB"@);
    reveal_with_fuel(name_letters, 19);
    assert(name_letters("fujifilm-eterna-bb"@) =~= name_letters("Fujifilm ETERNA BB"@));
}

proof fn lemma_preset_id_follows_name_7()
    ensures
        name_letters(preset_table()[7].0) == name_letters(preset_table()[7].1),
{
    reveal_strlit("fujifilm-eterna");
    reveal_strlit("Fujifilm ETERNA");
    assert(preset_table()[7].0 == "fujifilm-eterna"@ && preset_table()[7].1 == "Fujifilm ETERNA"@);
    reveal_with_fuel(name_letters, 16);
    assert(name_letters("fujifilm-eterna"@) =~= name_letters("Fujifilm ETERNA"@));
}

proof fn lemma_preset_id_follows_name_8()
    ensures
        name_letters(preset_table()[8].0) == name_letters(preset_table()[8].1),
{
    reveal_strlit("fujifilm-pro-neg-std");
    reveal_strlit("Fujifilm PRO Neg. Std");
    assert(preset_table()[8].0 == "fujifilm-pro-neg-std"@ && preset_table()[8].1 == "Fujifilm PRO Neg. Std"@);
    reveal_with_fuel(name_letters, 22);
    assert(name_letters("fujifilm-pro-neg-std"@) =~= name_letters("Fujifilm PRO Neg. Std"@));
}

proof fn lemma_preset_id_follows_name_9()
    ensures
        name_letters(preset_table()[9].0) == name_letters(preset_table()[9].1),
{
    reveal_strlit("fujifilm-provia");
    reveal_strlit("Fujifilm PROVIA");
    assert(preset_table()[9].0 == "fujifilm-provia"@ && preset_table()[9].1 == "Fujifilm PROVIA"@);
    reveal_with_fuel(name_letters, 16);
    assert(name_letters("fujifilm-provia"@) =~= name_letters("Fujifilm PROVIA"@));
}

proof fn lemma_preset_id_follows_name_10()
    ensures
        name_letters(preset_table()[10].0) == name_letters(preset_table()[10].1),
{
    reveal_strlit("fujifilm-reala-ace");
    reveal_strlit("Fujifilm REALA ACE");
    assert(preset_table()[10].0 == "fujifilm-reala-ace"@ && preset_table()[10].1 == "Fujifilm REALA ACE"@);
    reveal_with_fuel(name_letters, 19);
    assert(name_letters("fujifilm-reala-ace"@) =~= name_letters("Fujifilm REALA ACE"@));
}

proof fn lemma_preset_id_follows_name_11()
    ensures
        name_letters(preset_table()[11].0) == name_letters(preset_table()[11].1),
{
    reveal_strlit("fujifilm-velvia");
    reveal_strlit("Fujifilm Velvia");
    assert(preset_table()[11].0 == "fujifilm-velvia"@ && preset_table()[11].1 == "Fujifilm Velvia"@);
    reveal_with_fuel(name_letters, 16);
    assert(name_letters("fujifilm-velvia"@) =~= name_letters("Fujifilm Velvia"@));
}

proof fn lemma_preset_id_follows_name_12()
    ensures
        name_letters(preset_table()[12].0) == name_letters(preset_table()[12].1),
{
    reveal_strlit("kodak-vision-2383");
    reveal_strlit("Kodak VISION 2383");
    assert(preset_table()[12].0 == "kodak-vision-2383"@ && preset_table()[12].1 == "Kodak VISION 2383"@);
    reveal_with_fuel(name_letters, 18);
    assert(name_letters("kodak-vision-2383"@) =~= name_letters("Kodak VISION 2383"@));
}

proof fn lemma_preset_id_follows_name_13()
    ensures
        name_letters(preset_table()[13].0) == name_letters(preset_table()[13].1),
{
    reveal_strlit("leica-classic");
    reveal_strlit("Leica Classic");
    assert(preset_table()[13].0 == "leica-classic"@ && preset_table()[13].1 == "Leica Classic"@);
    reveal_with_fuel(name_letters, 14);
    assert(name_letters("leica-classic"@) =~= name_letters("Leica Classic"@));
}

proof fn lemma_preset_id_follows_name_14()
    ensures
        name_letters(preset_table()[14].0) == name_letters(preset_table()[14].1),
{
    reveal_strlit("leica-natural");
    reveal_strlit("Leica Natural");
    assert(preset_table()[14].0 == "leica-natural"@ && preset_table()[14].1 == "Leica Natural"@);
    reveal_with_fuel(name_letters, 14);
    assert(name_letters("leica-natural"@) =~= name_letters("Leica Natural"@));
}

proof fn lemma_preset_id_follows_name_15()
    ensures
        name_letters(preset_table()[15].0) == name_letters(preset_table()[15].1),
{
    reveal_strlit("red-achromic");
    reveal_strlit("RED Achromic");
    assert(preset_table()[15].0 == "red-achromic"@ && preset_table()[15].1 == "RED Achromic"@);
    reveal_with_fuel(name_letters, 13);
    assert(name_letters("red-achromic"@) =~= name_letters("RED Achromic"@));
}

proof fn lemma_preset_id_follows_name_16()
    ensures
        name_letters(preset_table()[16].0) == name_letters(preset_table()[16].1),
{
    reveal_strlit("red-filmbias-bb");
    reveal_strlit("RED FilmBias BB");
    assert(preset_table()[16].0 == "red-filmbias-bb"@ && preset_table()[16].1 == "RED FilmBias BB"@);
    reveal_with_fuel(name_letters, 16);
    assert(name_letters("red-filmbias-bb"@) =~= name_letters("RED FilmBias BB"@));
}

proof fn lemma_preset_id_follows_name_17()
    ensures
        name_letters(preset_table()[17].0) == name_letters(preset_table()[17].1),
{
    reveal_strlit("red-filmbias-offset");
    reveal_strlit("RED FilmBias Offset");
    assert(preset_table()[17].0 == "red-filmbias-offset"@ && preset_table()[17].1 == "RED FilmBias Offset"@);
    reveal_with_fuel(name_letters, 20);
    assert(name_letters("red-filmbias-offset"@) =~= name_letters("RED FilmBias Offset"@));
}

proof fn lemma_preset_id_follows_name_18()
    ensures
        name_letters(preset_table()[18].0) == name_letters(preset_table()[18].1),
{
    reveal_strlit("red-filmbias");
    reveal_strlit("RED FilmBias");
    assert(preset_table()[18].0 == "red-filmbias"@ && preset_table()[18].1 == "RED FilmBias"@);
    reveal_with_fuel(name_letters, 13);
    assert(name_letters("red-filmbias"@) =~= name_letters("RED FilmBias"@));
}

proof fn lemma_preset_id_follows_name_19()
    ensures
        name_letters(preset_table()[19].0) == name_letters(preset_table()[19].1),
{
    reveal_strlit("red-rec-709");
    reveal_strlit("RED Rec.709");
    assert(preset_table()[19].0 == "red-rec-709"@ && preset_table()[19].1 == "RED Rec.709"@);
    reveal_with_fuel(name_letters, 12);
    assert(name_letters("red-rec-709"@) =~= name_letters("RED Rec.709"@));
}

/// Each built-in preset's id names it: the id and the display name have the same letters
/// and digits, case aside (spaces, dots and dashes dropped).
pub proof fn lemma_preset_ids_follow_names()
    ensures
        forall|i: int| 0 <= i < preset_table().len() ==>
            name_letters(#[trigger] preset_table()[i].0) == name_letters(preset_table()[i].1),
{
    assert(preset_table().len() == 20);
    lemma_preset_id_follows_name_0();
    lemma_preset_id_follows_name_1();
    lemma_preset_id_follows_name_2();
    lemma_preset_id_follows_name_3();
    lemma_preset_id_follows_name_4();
    lemma_preset_id_follows_name_5();
    lemma_preset_id_follows_name_6();
    lemma_preset_id_follows_name_7();
    lemma_preset_id_follows_name_8();
    lemma_preset_id_follows_name_9();
    lemma_preset_id_follows_name_10();
    lemma_preset_id_follows_name_11();
    lemma_preset_id_follows_name_12();
    lemma_preset_id_follows_name_13();
    lemma_preset_id_follows_name_14();
    lemma_preset_id_follows_name_15();
    lemma_preset_id_follows_name_16();
    lemma_preset_id_follows_name_17();
    lemma_preset_id_follows_name_18();
    lemma_preset_id_follows_name_19();
    assert forall|i: int| 0 <= i < preset_table().len() implies
        name_letters(#[trigger] preset_table()[i].0) == name_letters(preset_table()[i].1) by {
        assert(0 <= i < 20);
    }
}

/// `s` with every `_` and `-` read as a space.
pub open spec fn dashes_as_spaces(s: Seq<char>) -> Seq<char> {
    s.map_values(|c: char| if c == '_' || c == '-' { ' ' } else { c })
}

/// Each built-in preset's LUT file is the one named for it: read with `_` and `-` as
/// spaces, the file name is the preset's own display name followed by ` VLog.cube`.
pub proof fn lemma_preset_lut_files_follow_names()
    ensures
        forall|i: int| 0 <= i < preset_table().len() ==>
            dashes_as_spaces(#[trigger] preset_table()[i].3) == preset_table()[i].1 + " VLog.cube"@,
{
    let t = preset_table();
    assert(t.len() == 20);
    reveal_strlit(" VLog.cube");
    reveal_strlit("ARRI ALEXA Classic 709");
    reveal_strlit("ARRI_ALEXA_Classic-709_VLog.cube");
    reveal_strlit("Fujifilm ACROS");
    reveal_strlit("Fujifilm_ACROS_VLog.cube");
    reveal_strlit("Fujifilm ASTIA");
    reveal_strlit("Fujifilm_ASTIA_VLog.cube");
    reveal_strlit("Fujifilm CLASSIC CHROME");
    reveal_strlit("Fujifilm_CLASSIC-CHROME_VLog.cube");
    reveal_strlit("Fujifilm CLASSIC Neg");
    reveal_strlit("Fujifilm_CLASSIC-Neg_VLog.cube");
    reveal_strlit("Fujifilm ETERNA 3513DI");
    reveal_strlit("Fujifilm_ETERNA-3513DI_VLog.cube");
    reveal_strlit("Fujifilm ETERNA BB");
    reveal_strlit("Fujifilm_ETERNA-BB_VLog.cube");
    reveal_strlit("Fujifilm ETERNA");
    reveal_strlit("Fujifilm_ETERNA_VLog.cube");
    reveal_strlit("Fujifilm PRO Neg. Std");
    reveal_strlit("Fujifilm_PRO-Neg.-Std_VLog.cube");
    reveal_strlit("Fujifilm PROVIA");
    reveal_strlit("Fujifilm_PROVIA_VLog.cube");
    reveal_strlit("Fujifilm REALA ACE");
    reveal_strlit("Fujifilm_REALA-ACE_VLog.cube");
    reveal_strlit("Fujifilm Velvia");
    reveal_strlit("Fujifilm_Velvia_VLog.cube");
    reveal_strlit("Kodak VISION 2383");
    reveal_strlit("Kodak_VISION-2383_VLog.cube");
    reveal_strlit("Leica Classic");
    reveal_strlit("Leica_Classic_VLog.cube");
    reveal_strlit("Leica Natural");
    reveal_strlit("Leica_Natural_VLog.cube");
    reveal_strlit("RED Achromic");
    reveal_strlit("RED_Achromic_VLog.cube");
    reveal_strlit("RED FilmBias BB");
    reveal_strlit("RED_FilmBias-BB_VLog.cube");
    reveal_strlit("RED FilmBias Offset");
    reveal_strlit("RED_FilmBias-Offset_VLog.cube");
    reveal_strlit("RED FilmBias");
    reveal_strlit("RED_FilmBias_VLog.cube");
    reveal_strlit("RED Rec.709");
    reveal_strlit("RED_Rec.709_VLog.cube");
    assert(t[0].1 == "ARRI ALEXA Classic 709"@ && t[0].3 == "ARRI_ALEXA_Classic-709_VLog.cube"@);
    assert(dashes_as_spaces("ARRI_ALEXA_Classic-709_VLog.cube"@) =~= "ARRI ALEXA Classic 709"@ + " VLog.cube"@);
    assert(t[1].1 == "Fujifilm ACROS"@ && t[1].3 == "Fujifilm_ACROS_VLog.cube"@);
    assert(dashes_as_spaces("Fujifilm_ACROS_VLog.cube"@) =~= "Fujifilm ACROS"@ + " VLog.cube"@);
    assert(t[2].1 == "Fujifilm ASTIA"@ && t[2].3 == "Fujifilm_ASTIA_VLog.cube"@);
    assert(dashes_as_spaces("Fujifilm_ASTIA_VLog.cube"@) =~= "Fujifilm ASTIA"@ + " VLog.cube"@);
    assert(t[3].1 == "Fujifilm CLASSIC CHROME"@ && t[3].3 == "Fujifilm_CLASSIC-CHROME_VLog.cube"@);
    assert(dashes_as_spaces("Fujifilm_CLASSIC-CHROME_VLog.cube"@) =~= "Fujifilm CLASSIC CHROME"@ + " VLog.cube"@);
    assert(t[4].1 == "Fujifilm CLASSIC Neg"@ && t[4].3 == "Fujifilm_CLASSIC-Neg_VLog.cube"@);
    assert(dashes_as_spaces("Fujifilm_CLASSIC-Neg_VLog.cube"@) =~= "Fujifilm CLASSIC Neg"@ + " VLog.cube"@);
    assert(t[5].1 == "Fujifilm ETERNA 3513DI"@ && t[5].3 == "Fujifilm_ETERNA-3513DI_VLog.cube"@);
    assert(dashes_as_spaces("Fujifilm_ETERNA-3513DI_VLog.cube"@) =~= "Fujifilm ETERNA 3513DI"@ + " VLog.cube"@);
    assert(t[6].1 == "Fujifilm ETERNA BB"@ && t[6].3 == "Fujifilm_ETERNA-BB_VLog.cube"@);
    assert(dashes_as_spaces("Fujifilm_ETERNA-BB_VLog.cube"@) =~= "Fujifilm ETERNA BB"@ + " VLog.cube"@);
    assert(t[7].1 == "Fujifilm ETERNA"@ && t[7].3 == "Fujifilm_ETERNA_VLog.cube"@);
    assert(dashes_as_spaces("Fujifilm_ETERNA_VLog.cube"@) =~= "Fujifilm ETERNA"@ + " VLog.cube"@);
    assert(t[8].1 == "Fujifilm PRO Neg. Std"@ && t[8].3 == "Fujifilm_PRO-Neg.-Std_VLog.cube"@);
    assert(dashes_as_spaces("Fujifilm_PRO-Neg.-Std_VLog.cube"@) =~= "Fujifilm PRO Neg. Std"@ + " VLog.cube"@);
    assert(t[9].1 == "Fujifilm PROVIA"@ && t[9].3 == "Fujifilm_PROVIA_VLog.cube"@);
    assert(dashes_as_spaces("Fujifilm_PROVIA_VLog.cube"@) =~= "Fujifilm PROVIA"@ + " VLog.cube"@);
    assert(t[10].1 == "Fujifilm REALA ACE"@ && t[10].3 == "Fujifilm_REALA-ACE_VLog.cube"@);
    assert(dashes_as_spaces("Fujifilm_REALA-ACE_VLog.cube"@) =~= "Fujifilm REALA ACE"@ + " VLog.cube"@);
    assert(t[11].1 == "Fujifilm Velvia"@ && t[11].3 == "Fujifilm_Velvia_VLog.cube"@);
    assert(dashes_as_spaces("Fujifilm_Velvia_VLog.cube"@) =~= "Fujifilm Velvia"@ + " VLog.cube"@);
    assert(t[12].1 == "Kodak VISION 2383"@ && t[12].3 == "Kodak_VISION-2383_VLog.cube"@);
    assert(dashes_as_spaces("Kodak_VISION-2383_VLog.cube"@) =~= "Kodak VISION 2383"@ + " VLog.cube"@);
    assert(t[13].1 == "Leica Classic"@ && t[13].3 == "Leica_Classic_VLog.cube"@);
    assert(dashes_as_spaces("Leica_Classic_VLog.cube"@) =~= "Leica Classic"@ + " VLog.cube"@);
    assert(t[14].1 == "Leica Natural"@ && t[14].3 == "Leica_Natural_VLog.cube"@);
    assert(dashes_as_spaces("Leica_Natural_VLog.cube"@) =~= "Leica Natural"@ + " VLog.cube"@);
    assert(t[15].1 == "RED Achromic"@ && t[15].3 == "RED_Achromic_VLog.cube"@);
    assert(dashes_as_spaces("RED_Achromic_VLog.cube"@) =~= "RED Achromic"@ + " VLog.cube"@);
    assert(t[16].1 == "RED FilmBias BB"@ && t[16].3 == "RED_FilmBias-BB_VLog.cube"@);
    assert(dashes_as_spaces("RED_FilmBias-BB_VLog.cube"@) =~= "RED FilmBias BB"@ + " VLog.cube"@);
    assert(t[17].1 == "RED FilmBias Offset"@ && t[17].3 == "RED_FilmBias-Offset_VLog.cube"@);
    assert(dashes_as_spaces("RED_FilmBias-Offset_VLog.cube"@) =~= "RED FilmBias Offset"@ + " VLog.cube"@);
    assert(t[18].1 == "RED FilmBias"@ && t[18].3 == "RED_FilmBias_VLog.cube"@);
    assert(dashes_as_spaces("RED_FilmBias_VLog.cube"@) =~= "RED FilmBias"@ + " VLog.cube"@);
    assert(t[19].1 == "RED Rec.709"@ && t[19].3 == "RED_Rec.709_VLog.cube"@);
    assert(dashes_as_spaces("RED_Rec.709_VLog.cube"@) =~= "RED Rec.709"@ + " VLog.cube"@);
}

/// No two built-in presets share a LUT file.
pub proof fn lemma_preset_lut_files_distinct()
    ensures
        forall|i: int, j: int| 0 <= i < preset_table().len() && 0 <= j < preset_table().len() && i != j
            ==> #[trigger] preset_table()[i].3 != #[trigger] preset_table()[j].3,
{
    let t = preset_table();
    assert(t.len() == 20);
    reveal_strlit("ARRI_ALEXA_Classic-709_VLog.cube");
    reveal_strlit("Fujifilm_ACROS_VLog.cube");
    reveal_strlit("Fujifilm_ASTIA_VLog.cube");
    reveal_strlit("Fujifilm_CLASSIC-CHROME_VLog.cube");
    reveal_strlit("Fujifilm_CLASSIC-Neg_VLog.cube");
    reveal_strlit("Fujifilm_ETERNA-3513DI_VLog.cube");
    reveal_strlit("Fujifilm_ETERNA-BB_VLog.cube");
    reveal_strlit("Fujifilm_ETERNA_VLog.cube");
    reveal_strlit("Fujifilm_PRO-Neg.-Std_VLog.cube");
    reveal_strlit("Fujifilm_PROVIA_VLog.cube");
    reveal_strlit("Fujifilm_REALA-ACE_VLog.cube");
    reveal_strlit("Fujifilm_Velvia_VLog.cube");
    reveal_strlit("Kodak_VISION-2383_VLog.cube");
    reveal_strlit("Leica_Classic_VLog.cube");
    reveal_strlit("Leica_Natural_VLog.cube");
    reveal_strlit("RED_Achromic_VLog.cube");
    reveal_strlit("RED_FilmBias-BB_VLog.cube");
    reveal_strlit("RED_FilmBias-Offset_VLog.cube");
    reveal_strlit("RED_FilmBias_VLog.cube");
    reveal_strlit("RED_Rec.709_VLog.cube");
    assert(t[0].3 == "ARRI_ALEXA_Classic-709_VLog.cube"@);
    assert(t[1].3 == "Fujifilm_ACROS_VLog.cube"@);
    assert(t[2].3 == "Fujifilm_ASTIA_VLog.cube"@);
    assert(t[3].3 == "Fujifilm_CLASSIC-CHROME_VLog.cube"@);
    assert(t[4].3 == "Fujifilm_CLASSIC-Neg_VLog.cube"@);
    assert(t[5].3 == "Fujifilm_ETERNA-3513DI_VLog.cube"@);
    assert(t[6].3 == "Fujifilm_ETERNA-BB_VLog.cube"@);
    assert(t[7].3 == "Fujifilm_ETERNA_VLog.cube"@);
    assert(t[8].3 == "Fujifilm_PRO-Neg.-Std_VLog.cube"@);
    assert(t[9].3 == "Fujifilm_PROVIA_VLog.cube"@);
    assert(t[10].3 == "Fujifilm_REALA-ACE_VLog.cube"@);
    assert(t[11].3 == "Fujifilm_Velvia_VLog.cube"@);
    assert(t[12].3 == "Kodak_VISION-2383_VLog.cube"@);
    assert(t[13].3 == "Leica_Classic_VLog.cube"@);
    assert(t[14].3 == "Leica_Natural_VLog.cube"@);
    assert(t[15].3 == "RED_Achromic_VLog.cube"@);
    assert(t[16].3 == "RED_FilmBias-BB_VLog.cube"@);
    assert(t[17].3 == "RED_FilmBias-Offset_VLog.cube"@);
    assert(t[18].3 == "RED_FilmBias_VLog.cube"@);
    assert(t[19].3 == "RED_Rec.709_VLog.cube"@);
    assert("ARRI_ALEXA_Classic-709_VLog.cube"@.len() != "Fujifilm_ACROS_VLog.cube"@.len());
    assert("ARRI_ALEXA_Classic-709_VLog.cube"@.len() != "Fujifilm_ASTIA_VLog.cube"@.len());
    assert("ARRI_ALEXA_Classic-709_VLog.cube"@.len() != "Fujifilm_CLASSIC-CHROME_VLog.cube"@.len());
    assert("ARRI_ALEXA_Classic-709_VLog.cube"@.len() != "Fujifilm_CLASSIC-Neg_VLog.cube"@.len());
    assert("ARRI_ALEXA_Classic-709_VLog.cube"@[0] != "Fujifilm_ETERNA-3513DI_VLog.cube"@[0]);
    assert("ARRI_ALEXA_Classic-709_VLog.cube"@.len() != "Fujifilm_ETERNA-BB_VLog.cube"@.len());
    assert("ARRI_ALEXA_Classic-709_VLog.cube"@.len() != "Fujifilm_ETERNA_VLog.cube"@.len());
    assert("ARRI_ALEXA_Classic-709_VLog.cube"@.len() != "Fujifilm_PRO-Neg.-Std_VLog.cube"@.len());
    assert("ARRI_ALEXA_Classic-709_VLog.cube"@.len() != "Fujifilm_PROVIA_VLog.cube"@.len());
    assert("ARRI_ALEXA_Classic-709_VLog.cube"@.len() != "Fujifilm_REALA-ACE_VLog.cube"@.len());
    assert("ARRI_ALEXA_Classic-709_VLog.cube"@.len() != "Fujifilm_Velvia_VLog.cube"@.len());
    assert("ARRI_ALEXA_Classic-709_VLog.cube"@.len() != "Kodak_VISION-2383_VLog.cube"@.len());
    assert("ARRI_ALEXA_Classic-709_VLog.cube"@.len() != "Leica_Classic_VLog.cube"@.len());
    assert("ARRI_ALEXA_Classic-709_VLog.cube"@.len() != "Leica_Natural_VLog.cube"@.len());
    assert("ARRI_ALEXA_Classic-709_VLog.cube"@.len() != "RED_Achromic_VLog.cube"@.len());
    assert("ARRI_ALEXA_Classic-709_VLog.cube"@.len() != "RED_FilmBias-BB_VLog.cube"@.len());
    assert("ARRI_ALEXA_Classic-709_VLog.cube"@.len() != "RED_FilmBias-Offset_VLog.cube"@.len());
    assert("ARRI_ALEXA_Classic-709_VLog.cube"@.len() != "RED_FilmBias_VLog.cube"@.len());
    assert("ARRI_ALEXA_Classic-709_VLog.cube"@.len() != "RED_Rec.709_VLog.cube"@.len());
    assert("Fujifilm_ACROS_VLog.cube"@[10] != "Fujifilm_ASTIA_VLog.cube"@[10]);
    assert("Fujifilm_ACROS_VLog.cube"@.len() != "Fujifilm_CLASSIC-CHROME_VLog.cube"@.len());
    assert("Fujifilm_ACROS_VLog.cube"@.len() != "Fujifilm_CLASSIC-Neg_VLog.cube"@.len());
    assert("Fujifilm_ACROS_VLog.cube"@.len() != "Fujifilm_ETERNA-3513DI_VLog.cube"@.len());
    assert("Fujifilm_ACROS_VLog.cube"@.len() != "Fujifilm_ETERNA-BB_VLog.cube"@.len());
    assert("Fujifilm_ACROS_VLog.cube"@.len() != "Fujifilm_ETERNA_VLog.cube"@.len());
    assert("Fujifilm_ACROS_VLog.cube"@.len() != "Fujifilm_PRO-Neg.-Std_VLog.cube"@.len());
    assert("Fujifilm_ACROS_VLog.cube"@.len() != "Fujifilm_PROVIA_VLog.cube"@.len());
    assert("Fujifilm_ACROS_VLog.cube"@.len() != "Fujifilm_REALA-ACE_VLog.cube"@.len());
    assert("Fujifilm_ACROS_VLog.cube"@.len() != "Fujifilm_Velvia_VLog.cube"@.len());
    assert("Fujifilm_ACROS_VLog.cube"@.len() != "Kodak_VISION-2383_VLog.cube"@.len());
    assert("Fujifilm_ACROS_VLog.cube"@.len() != "Leica_Classic_VLog.cube"@.len());
    assert("Fujifilm_ACROS_VLog.cube"@.len() != "Leica_Natural_VLog.cube"@.len());
    assert("Fujifilm_ACROS_VLog.cube"@.len() != "RED_Achromic_VLog.cube"@.len());
    assert("Fujifilm_ACROS_VLog.cube"@.len() != "RED_FilmBias-BB_VLog.cube"@.len());
    assert("Fujifilm_ACROS_VLog.cube"@.len() != "RED_FilmBias-Offset_VLog.cube"@.len());
    assert("Fujifilm_ACROS_VLog.cube"@.len() != "RED_FilmBias_VLog.cube"@.len());
    assert("Fujifilm_ACROS_VLog.cube"@.len() != "RED_Rec.709_VLog.cube"@.len());
    assert("Fujifilm_ASTIA_VLog.cube"@.len() != "Fujifilm_CLASSIC-CHROME_VLog.cube"@.len());
    assert("Fujifilm_ASTIA_VLog.cube"@.len() != "Fujifilm_CLASSIC-Neg_VLog.cube"@.len());
    assert("Fujifilm_ASTIA_VLog.cube"@.len() != "Fujifilm_ETERNA-3513DI_VLog.cube"@.len());
    assert("Fujifilm_ASTIA_VLog.cube"@.len() != "Fujifilm_ETERNA-BB_VLog.cube"@.len());
    assert("Fujifilm_ASTIA_VLog.cube"@.len() != "Fujifilm_ETERNA_VLog.cube"@.len());
    assert("Fujifilm_ASTIA_VLog.cube"@.len() != "Fujifilm_PRO-Neg.-Std_VLog.cube"@.len());
    assert("Fujifilm_ASTIA_VLog.cube"@.len() != "Fujifilm_PROVIA_VLog.cube"@.len());
    assert("Fujifilm_ASTIA_VLog.cube"@.len() != "Fujifilm_REALA-ACE_VLog.cube"@.len());
    assert("Fujifilm_ASTIA_VLog.cube"@.len() != "Fujifilm_Velvia_VLog.cube"@.len());
    assert("Fujifilm_ASTIA_VLog.cube"@.len() != "Kodak_VISION-2383_VLog.cube"@.len());
    assert("Fujifilm_ASTIA_VLog.cube"@.len() != "Leica_Classic_VLog.cube"@.len());
    assert("Fujifilm_ASTIA_VLog.cube"@.len() != "Leica_Natural_VLog.cube"@.len());
    assert("Fujifilm_ASTIA_VLog.cube"@.len() != "RED_Achromic_VLog.cube"@.len());
    assert("Fujifilm_ASTIA_VLog.cube"@.len() != "RED_FilmBias-BB_VLog.cube"@.len());
    assert("Fujifilm_ASTIA_VLog.cube"@.len() != "RED_FilmBias-Offset_VLog.cube"@.len());
    assert("Fujifilm_ASTIA_VLog.cube"@.len() != "RED_FilmBias_VLog.cube"@.len());
    assert("Fujifilm_ASTIA_VLog.cube"@.len() != "RED_Rec.709_VLog.cube"@.len());
    assert("Fujifilm_CLASSIC-CHROME_VLog.cube"@.len() != "Fujifilm_CLASSIC-Neg_VLog.cube"@.len());
    assert("Fujifilm_CLASSIC-CHROME_VLog.cube"@.len() != "Fujifilm_ETERNA-3513DI_VLog.cube"@.len());
    assert("Fujifilm_CLASSIC-CHROME_VLog.cube"@.len() != "Fujifilm_ETERNA-BB_VLog.cube"@.len());
    assert("Fujifilm_CLASSIC-CHROME_VLog.cube"@.len() != "Fujifilm_ETERNA_VLog.cube"@.len());
    assert("Fujifilm_CLASSIC-CHROME_VLog.cube"@.len() != "Fujifilm_PRO-Neg.-Std_VLog.cube"@.len());
    assert("Fujifilm_CLASSIC-CHROME_VLog.cube"@.len() != "Fujifilm_PROVIA_VLog.cube"@.len());
    assert("Fujifilm_CLASSIC-CHROME_VLog.cube"@.len() != "Fujifilm_REALA-ACE_VLog.cube"@.len());
    assert("Fujifilm_CLASSIC-CHROME_VLog.cube"@.len() != "Fujifilm_Velvia_VLog.cube"@.len());
    assert("Fujifilm_CLASSIC-CHROME_VLog.cube"@.len() != "Kodak_VISION-2383_VLog.cube"@.len());
    assert("Fujifilm_CLASSIC-CHROME_VLog.cube"@.len() != "Leica_Classic_VLog.cube"@.len());
    assert("Fujifilm_CLASSIC-CHROME_VLog.cube"@.len() != "Leica_Natural_VLog.cube"@.len());
    assert("Fujifilm_CLASSIC-CHROME_VLog.cube"@.len() != "RED_Achromic_VLog.cube"@.len());
    assert("Fujifilm_CLASSIC-CHROME_VLog.cube"@.len() != "RED_FilmBias-BB_VLog.cube"@.len());
    assert("Fujifilm_CLASSIC-CHROME_VLog.cube"@.len() != "RED_FilmBias-Offset_VLog.cube"@.len());
    assert("Fujifilm_CLASSIC-CHROME_VLog.cube"@.len() != "RED_FilmBias_VLog.cube"@.len());
    assert("Fujifilm_CLASSIC-CHROME_VLog.cube"@.len() != "RED_Rec.709_VLog.cube"@.len());
    assert("Fujifilm_CLASSIC-Neg_VLog.cube"@.len() != "Fujifilm_ETERNA-3513DI_VLog.cube"@.len());
    assert("Fujifilm_CLASSIC-Neg_VLog.cube"@.len() != "Fujifilm_ETERNA-BB_VLog.cube"@.len());
    assert("Fujifilm_CLASSIC-Neg_VLog.cube"@.len() != "Fujifilm_ETERNA_VLog.cube"@.len());
    assert("Fujifilm_CLASSIC-Neg_VLog.cube"@.len() != "Fujifilm_PRO-Neg.-Std_VLog.cube"@.len());
    assert("Fujifilm_CLASSIC-Neg_VLog.cube"@.len() != "Fujifilm_PROVIA_VLog.cube"@.len());
    assert("Fujifilm_CLASSIC-Neg_VLog.cube"@.len() != "Fujifilm_REALA-ACE_VLog.cube"@.len());
    assert("Fujifilm_CLASSIC-Neg_VLog.cube"@.len() != "Fujifilm_Velvia_VLog.cube"@.len());
    assert("Fujifilm_CLASSIC-Neg_VLog.cube"@.len() != "Kodak_VISION-2383_VLog.cube"@.len());
    assert("Fujifilm_CLASSIC-Neg_VLog.cube"@.len() != "Leica_Classic_VLog.cube"@.len());
    assert("Fujifilm_CLASSIC-Neg_VLog.cube"@.len() != "Leica_Natural_VLog.cube"@.len());
    assert("Fujifilm_CLASSIC-Neg_VLog.cube"@.len() != "RED_Achromic_VLog.cube"@.len());
    assert("Fujifilm_CLASSIC-Neg_VLog.cube"@.len() != "RED_FilmBias-BB_VLog.cube"@.len());
    assert("Fujifilm_CLASSIC-Neg_VLog.cube"@.len() != "RED_FilmBias-Offset_VLog.cube"@.len());
    assert("Fujifilm_CLASSIC-Neg_VLog.cube"@.len() != "RED_FilmBias_VLog.cube"@.len());
    assert("Fujifilm_CLASSIC-Neg_VLog.cube"@.len() != "RED_Rec.709_VLog.cube"@.len());
    assert("Fujifilm_ETERNA-3513DI_VLog.cube"@.len() != "Fujifilm_ETERNA-BB_VLog.cube"@.len());
    assert("Fujifilm_ETERNA-3513DI_VLog.cube"@.len() != "Fujifilm_ETERNA_VLog.cube"@.len());
    assert("Fujifilm_ETERNA-3513DI_VLog.cube"@.len() != "Fujifilm_PRO-Neg.-Std_VLog.cube"@.len());
    assert("Fujifilm_ETERNA-3513DI_VLog.cube"@.len() != "Fujifilm_PROVIA_VLog.cube"@.len());
    assert("Fujifilm_ETERNA-3513DI_VLog.cube"@.len() != "Fujifilm_REALA-ACE_VLog.cube"@.len());
    assert("Fujifilm_ETERNA-3513DI_VLog.cube"@.len() != "Fujifilm_Velvia_VLog.cube"@.len());
    assert("Fujifilm_ETERNA-3513DI_VLog.cube"@.len() != "Kodak_VISION-2383_VLog.cube"@.len());
    assert("Fujifilm_ETERNA-3513DI_VLog.cube"@.len() != "Leica_Classic_VLog.cube"@.len());
    assert("Fujifilm_ETERNA-3513DI_VLog.cube"@.len() != "Leica_Natural_VLog.cube"@.len());
    assert("Fujifilm_ETERNA-3513DI_VLog.cube"@.len() != "RED_Achromic_VLog.cube"@.len());
    assert("Fujifilm_ETERNA-3513DI_VLog.cube"@.len() != "RED_FilmBias-BB_VLog.cube"@.len());
    assert("Fujifilm_ETERNA-3513DI_VLog.cube"@.len() != "RED_FilmBias-Offset_VLog.cube"@.len());
    assert("Fujifilm_ETERNA-3513DI_VLog.cube"@.len() != "RED_FilmBias_VLog.cube"@.len());
    assert("Fujifilm_ETERNA-3513DI_VLog.cube"@.len() != "RED_Rec.709_VLog.cube"@.len());
    assert("Fujifilm_ETERNA-BB_VLog.cube"@.len() != "Fujifilm_ETERNA_VLog.cube"@.len());
    assert("Fujifilm_ETERNA-BB_VLog.cube"@.len() != "Fujifilm_PRO-Neg.-Std_VLog.cube"@.len());
    assert("Fujifilm_ETERNA-BB_VLog.cube"@.len() != "Fujifilm_PROVIA_VLog.cube"@.len());
    assert("Fujifilm_ETERNA-BB_VLog.cube"@[9] != "Fujifilm_REALA-ACE_VLog.cube"@[9]);
    assert("Fujifilm_ETERNA-BB_VLog.cube"@.len() != "Fujifilm_Velvia_VLog.cube"@.len());
    assert("Fujifilm_ETERNA-BB_VLog.cube"@.len() != "Kodak_VISION-2383_VLog.cube"@.len());
    assert("Fujifilm_ETERNA-BB_VLog.cube"@.len() != "Leica_Classic_VLog.cube"@.len());
    assert("Fujifilm_ETERNA-BB_VLog.cube"@.len() != "Leica_Natural_VLog.cube"@.len());
    assert("Fujifilm_ETERNA-BB_VLog.cube"@.len() != "RED_Achromic_VLog.cube"@.len());
    assert("Fujifilm_ETERNA-BB_VLog.cube"@.len() != "RED_FilmBias-BB_VLog.cube"@.len());
    assert("Fujifilm_ETERNA-BB_VLog.cube"@.len() != "RED_FilmBias-Offset_VLog.cube"@.len());
    assert("Fujifilm_ETERNA-BB_VLog.cube"@.len() != "RED_FilmBias_VLog.cube"@.len());
    assert("Fujifilm_ETERNA-BB_VLog.cube"@.len() != "RED_Rec.709_VLog.cube"@.len());
    assert("Fujifilm_ETERNA_VLog.cube"@.len() != "Fujifilm_PRO-Neg.-Std_VLog.cube"@.len());
    assert("Fujifilm_ETERNA_VLog.cube"@[9] != "Fujifilm_PROVIA_VLog.cube"@[9]);
    assert("Fujifilm_ETERNA_VLog.cube"@.len() != "Fujifilm_REALA-ACE_VLog.cube"@.len());
    assert("Fujifilm_ETERNA_VLog.cube"@[9] != "Fujifilm_Velvia_VLog.cube"@[9]);
    assert("Fujifilm_ETERNA_VLog.cube"@.len() != "Kodak_VISION-2383_VLog.cube"@.len());
    assert("Fujifilm_ETERNA_VLog.cube"@.len() != "Leica_Classic_VLog.cube"@.len());
    assert("Fujifilm_ETERNA_VLog.cube"@.len() != "Leica_Natural_VLog.cube"@.len());
    assert("Fujifilm_ETERNA_VLog.cube"@.len() != "RED_Achromic_VLog.cube"@.len());
    assert("Fujifilm_ETERNA_VLog.cube"@[0] != "RED_FilmBias-BB_VLog.cube"@[0]);
    assert("Fujifilm_ETERNA_VLog.cube"@.len() != "RED_FilmBias-Offset_VLog.cube"@.len());
    assert("Fujifilm_ETERNA_VLog.cube"@.len() != "RED_FilmBias_VLog.cube"@.len());
    assert("Fujifilm_ETERNA_VLog.cube"@.len() != "RED_Rec.709_VLog.cube"@.len());
    assert("Fujifilm_PRO-Neg.-Std_VLog.cube"@.len() != "Fujifilm_PROVIA_VLog.cube"@.len());
    assert("Fujifilm_PRO-Neg.-Std_VLog.cube"@.len() != "Fujifilm_REALA-ACE_VLog.cube"@.len());
    assert("Fujifilm_PRO-Neg.-Std_VLog.cube"@.len() != "Fujifilm_Velvia_VLog.cube"@.len());
    assert("Fujifilm_PRO-Neg.-Std_VLog.cube"@.len() != "Kodak_VISION-2383_VLog.cube"@.len());
    assert("Fujifilm_PRO-Neg.-Std_VLog.cube"@.len() != "Leica_Classic_VLog.cube"@.len());
    assert("Fujifilm_PRO-Neg.-Std_VLog.cube"@.len() != "Leica_Natural_VLog.cube"@.len());
    assert("Fujifilm_PRO-Neg.-Std_VLog.cube"@.len() != "RED_Achromic_VLog.cube"@.len());
    assert("Fujifilm_PRO-Neg.-Std_VLog.cube"@.len() != "RED_FilmBias-BB_VLog.cube"@.len());
    assert("Fujifilm_PRO-Neg.-Std_VLog.cube"@.len() != "RED_FilmBias-Offset_VLog.cube"@.len());
    assert("Fujifilm_PRO-Neg.-Std_VLog.cube"@.len() != "RED_FilmBias_VLog.cube"@.len());
    assert("Fujifilm_PRO-Neg.-Std_VLog.cube"@.len() != "RED_Rec.709_VLog.cube"@.len());
    assert("Fujifilm_PROVIA_VLog.cube"@.len() != "Fujifilm_REALA-ACE_VLog.cube"@.len());
    assert("Fujifilm_PROVIA_VLog.cube"@[9] != "Fujifilm_Velvia_VLog.cube"@[9]);
    assert("Fujifilm_PROVIA_VLog.cube"@.len() != "Kodak_VISION-2383_VLog.cube"@.len());
    assert("Fujifilm_PROVIA_VLog.cube"@.len() != "Leica_Classic_VLog.cube"@.len());
    assert("Fujifilm_PROVIA_VLog.cube"@.len() != "Leica_Natural_VLog.cube"@.len());
    assert("Fujifilm_PROVIA_VLog.cube"@.len() != "RED_Achromic_VLog.cube"@.len());
    assert("Fujifilm_PROVIA_VLog.cube"@[0] != "RED_FilmBias-BB_VLog.cube"@[0]);
    assert("Fujifilm_PROVIA_VLog.cube"@.len() != "RED_FilmBias-Offset_VLog.cube"@.len());
    assert("Fujifilm_PROVIA_VLog.cube"@.len() != "RED_FilmBias_VLog.cube"@.len());
    assert("Fujifilm_PROVIA_VLog.cube"@.len() != "RED_Rec.709_VLog.cube"@.len());
    assert("Fujifilm_REALA-ACE_VLog.cube"@.len() != "Fujifilm_Velvia_VLog.cube"@.len());
    assert("Fujifilm_REALA-ACE_VLog.cube"@.len() != "Kodak_VISION-2383_VLog.cube"@.len());
    assert("Fujifilm_REALA-ACE_VLog.cube"@.len() != "Leica_Classic_VLog.cube"@.len());
    assert("Fujifilm_REALA-ACE_VLog.cube"@.len() != "Leica_Natural_VLog.cube"@.len());
    assert("Fujifilm_REALA-ACE_VLog.cube"@.len() != "RED_Achromic_VLog.cube"@.len());
    assert("Fujifilm_REALA-ACE_VLog.cube"@.len() != "RED_FilmBias-BB_VLog.cube"@.len());
    assert("Fujifilm_REALA-ACE_VLog.cube"@.len() != "RED_FilmBias-Offset_VLog.cube"@.len());
    assert("Fujifilm_REALA-ACE_VLog.cube"@.len() != "RED_FilmBias_VLog.cube"@.len());
    assert("Fujifilm_REALA-ACE_VLog.cube"@.len() != "RED_Rec.709_VLog.cube"@.len());
    assert("Fujifilm_Velvia_VLog.cube"@.len() != "Kodak_VISION-2383_VLog.cube"@.len());
    assert("Fujifilm_Velvia_VLog.cube"@.len() != "Leica_Classic_VLog.cube"@.len());
    assert("Fujifilm_Velvia_VLog.cube"@.len() != "Leica_Natural_VLog.cube"@.len());
    assert("Fujifilm_Velvia_VLog.cube"@.len() != "RED_Achromic_VLog.cube"@.len());
    assert("Fujifilm_Velvia_VLog.cube"@[0] != "RED_FilmBias-BB_VLog.cube"@[0]);
    assert("Fujifilm_Velvia_VLog.cube"@.len() != "RED_FilmBias-Offset_VLog.cube"@.len());
    assert("Fujifilm_Velvia_VLog.cube"@.len() != "RED_FilmBias_VLog.cube"@.len());
    assert("Fujifilm_Velvia_VLog.cube"@.len() != "RED_Rec.709_VLog.cube"@.len());
    assert("Kodak_VISION-2383_VLog.cube"@.len() != "Leica_Classic_VLog.cube"@.len());
    assert("Kodak_VISION-2383_VLog.cube"@.len() != "Leica_Natural_VLog.cube"@.len());
    assert("Kodak_VISION-2383_VLog.cube"@.len() != "RED_Achromic_VLog.cube"@.len());
    assert("Kodak_VISION-2383_VLog.cube"@.len() != "RED_FilmBias-BB_VLog.cube"@.len());
    assert("Kodak_VISION-2383_VLog.cube"@.len() != "RED_FilmBias-Offset_VLog.cube"@.len());
    assert("Kodak_VISION-2383_VLog.cube"@.len() != "RED_FilmBias_VLog.cube"@.len());
    assert("Kodak_VISION-2383_VLog.cube"@.len() != "RED_Rec.709_VLog.cube"@.len());
    assert("Leica_Classic_VLog.cube"@[6] != "Leica_Natural_VLog.cube"@[6]);
    assert("Leica_Classic_VLog.cube"@.len() != "RED_Achromic_VLog.cube"@.len());
    assert("Leica_Classic_VLog.cube"@.len() != "RED_FilmBias-BB_VLog.cube"@.len());
    assert("Leica_Classic_VLog.cube"@.len() != "RED_FilmBias-Offset_VLog.cube"@.len());
    assert("Leica_Classic_VLog.cube"@.len() != "RED_FilmBias_VLog.cube"@.len());
    assert("Leica_Classic_VLog.cube"@.len() != "RED_Rec.709_VLog.cube"@.len());
    assert("Leica_Natural_VLog.cube"@.len() != "RED_Achromic_VLog.cube"@.len());
    assert("Leica_Natural_VLog.cube"@.len() != "RED_FilmBias-BB_VLog.cube"@.len());
    assert("Leica_Natural_VLog.cube"@.len() != "RED_FilmBias-Offset_VLog.cube"@.len());
    assert("Leica_Natural_VLog.cube"@.len() != "RED_FilmBias_VLog.cube"@.len());
    assert("Leica_Natural_VLog.cube"@.len() != "RED_Rec.709_VLog.cube"@.len());
    assert("RED_Achromic_VLog.cube"@.len() != "RED_FilmBias-BB_VLog.cube"@.len());
    assert("RED_Achromic_VLog.cube"@.len() != "RED_FilmBias-Offset_VLog.cube"@.len());
    assert("RED_Achromic_VLog.cube"@[4] != "RED_FilmBias_VLog.cube"@[4]);
    assert("RED_Achromic_VLog.cube"@.len() != "RED_Rec.709_VLog.cube"@.len());
    assert("RED_FilmBias-BB_VLog.cube"@.len() != "RED_FilmBias-Offset_VLog.cube"@.len());
    assert("RED_FilmBias-BB_VLog.cube"@.len() != "RED_FilmBias_VLog.cube"@.len());
    assert("RED_FilmBias-BB_VLog.cube"@.len() != "RED_Rec.709_VLog.cube"@.len());
    assert("RED_FilmBias-Offset_VLog.cube"@.len() != "RED_FilmBias_VLog.cube"@.len());
    assert("RED_FilmBias-Offset_VLog.cube"@.len() != "RED_Rec.709_VLog.cube"@.len());
    assert("RED_FilmBias_VLog.cube"@.len() != "RED_Rec.709_VLog.cube"@.len());
    assert forall|i: int, j: int| 0 <= i < t.len() && 0 <= j < t.len() && i != j implies t[i].3 != t[j].3 by {
        if i == 0 {
            if j == 1 { assert(t[0].3 != t[1].3); }
            if j == 2 { assert(t[0].3 != t[2].3); }
            if j == 3 { assert(t[0].3 != t[3].3); }
            if j == 4 { assert(t[0].3 != t[4].3); }
            if j == 5 { assert(t[0].3 != t[5].3); }
            if j == 6 { assert(t[0].3 != t[6].3); }
            if j == 7 { assert(t[0].3 != t[7].3); }
            if j == 8 { assert(t[0].3 != t[8].3); }
            if j == 9 { assert(t[0].3 != t[9].3); }
            if j == 10 { assert(t[0].3 != t[10].3); }
            if j == 11 { assert(t[0].3 != t[11].3); }
            if j == 12 { assert(t[0].3 != t[12].3); }
            if j == 13 { assert(t[0].3 != t[13].3); }
            if j == 14 { assert(t[0].3 != t[14].3); }
            if j == 15 { assert(t[0].3 != t[15].3); }
            if j == 16 { assert(t[0].3 != t[16].3); }
            if j == 17 { assert(t[0].3 != t[17].3); }
            if j == 18 { assert(t[0].3 != t[18].3); }
            if j == 19 { assert(t[0].3 != t[19].3); }
        } else if i == 1 {
            if j == 0 { assert(t[1].3 != t[0].3); }
            if j == 2 { assert(t[1].3 != t[2].3); }
            if j == 3 { assert(t[1].3 != t[3].3); }
            if j == 4 { assert(t[1].3 != t[4].3); }
            if j == 5 { assert(t[1].3 != t[5].3); }
            if j == 6 { assert(t[1].3 != t[6].3); }
            if j == 7 { assert(t[1].3 != t[7].3); }
            if j == 8 { assert(t[1].3 != t[8].3); }
            if j == 9 { assert(t[1].3 != t[9].3); }
            if j == 10 { assert(t[1].3 != t[10].3); }
            if j == 11 { assert(t[1].3 != t[11].3); }
            if j == 12 { assert(t[1].3 != t[12].3); }
            if j == 13 { assert(t[1].3 != t[13].3); }
            if j == 14 { assert(t[1].3 != t[14].3); }
            if j == 15 { assert(t[1].3 != t[15].3); }
            if j == 16 { assert(t[1].3 != t[16].3); }
            if j == 17 { assert(t[1].3 != t[17].3); }
            if j == 18 { assert(t[1].3 != t[18].3); }
            if j == 19 { assert(t[1].3 != t[19].3); }
        } else if i == 2 {
            if j == 0 { assert(t[2].3 != t[0].3); }
            if j == 1 { assert(t[2].3 != t[1].3); }
            if j == 3 { assert(t[2].3 != t[3].3); }
            if j == 4 { assert(t[2].3 != t[4].3); }
            if j == 5 { assert(t[2].3 != t[5].3); }
            if j == 6 { assert(t[2].3 != t[6].3); }
            if j == 7 { assert(t[2].3 != t[7].3); }
            if j == 8 { assert(t[2].3 != t[8].3); }
            if j == 9 { assert(t[2].3 != t[9].3); }
            if j == 10 { assert(t[2].3 != t[10].3); }
            if j == 11 { assert(t[2].3 != t[11].3); }
            if j == 12 { assert(t[2].3 != t[12].3); }
            if j == 13 { assert(t[2].3 != t[13].3); }
            if j == 14 { assert(t[2].3 != t[14].3); }
            if j == 15 { assert(t[2].3 != t[15].3); }
            if j == 16 { assert(t[2].3 != t[16].3); }
            if j == 17 { assert(t[2].3 != t[17].3); }
            if j == 18 { assert(t[2].3 != t[18].3); }
            if j == 19 { assert(t[2].3 != t[19].3); }
        } else if i == 3 {
            if j == 0 { assert(t[3].3 != t[0].3); }
            if j == 1 { assert(t[3].3 != t[1].3); }
            if j == 2 { assert(t[3].3 != t[2].3); }
            if j == 4 { assert(t[3].3 != t[4].3); }
            if j == 5 { assert(t[3].3 != t[5].3); }
            if j == 6 { assert(t[3].3 != t[6].3); }
            if j == 7 { assert(t[3].3 != t[7].3); }
            if j == 8 { assert(t[3].3 != t[8].3); }
            if j == 9 { assert(t[3].3 != t[9].3); }
            if j == 10 { assert(t[3].3 != t[10].3); }
            if j == 11 { assert(t[3].3 != t[11].3); }
            if j == 12 { assert(t[3].3 != t[12].3); }
            if j == 13 { assert(t[3].3 != t[13].3); }
            if j == 14 { assert(t[3].3 != t[14].3); }
            if j == 15 { assert(t[3].3 != t[15].3); }
            if j == 16 { assert(t[3].3 != t[16].3); }
            if j == 17 { assert(t[3].3 != t[17].3); }
            if j == 18 { assert(t[3].3 != t[18].3); }
            if j == 19 { assert(t[3].3 != t[19].3); }
        } else if i == 4 {
            if j == 0 { assert(t[4].3 != t[0].3); }
            if j == 1 { assert(t[4].3 != t[1].3); }
            if j == 2 { assert(t[4].3 != t[2].3); }
            if j == 3 { assert(t[4].3 != t[3].3); }
            if j == 5 { assert(t[4].3 != t[5].3); }
            if j == 6 { assert(t[4].3 != t[6].3); }
            if j == 7 { assert(t[4].3 != t[7].3); }
            if j == 8 { assert(t[4].3 != t[8].3); }
            if j == 9 { assert(t[4].3 != t[9].3); }
            if j == 10 { assert(t[4].3 != t[10].3); }
            if j == 11 { assert(t[4].3 != t[11].3); }
            if j == 12 { assert(t[4].3 != t[12].3); }
            if j == 13 { assert(t[4].3 != t[13].3); }
            if j == 14 { assert(t[4].3 != t[14].3); }
            if j == 15 { assert(t[4].3 != t[15].3); }
            if j == 16 { assert(t[4].3 != t[16].3); }
            if j == 17 { assert(t[4].3 != t[17].3); }
            if j == 18 { assert(t[4].3 != t[18].3); }
            if j == 19 { assert(t[4].3 != t[19].3); }
        } else if i == 5 {
            if j == 0 { assert(t[5].3 != t[0].3); }
            if j == 1 { assert(t[5].3 != t[1].3); }
            if j == 2 { assert(t[5].3 != t[2].3); }
            if j == 3 { assert(t[5].3 != t[3].3); }
            if j == 4 { assert(t[5].3 != t[4].3); }
            if j == 6 { assert(t[5].3 != t[6].3); }
            if j == 7 { assert(t[5].3 != t[7].3); }
            if j == 8 { assert(t[5].3 != t[8].3); }
            if j == 9 { assert(t[5].3 != t[9].3); }
            if j == 10 { assert(t[5].3 != t[10].3); }
            if j == 11 { assert(t[5].3 != t[11].3); }
            if j == 12 { assert(t[5].3 != t[12].3); }
            if j == 13 { assert(t[5].3 != t[13].3); }
            if j == 14 { assert(t[5].3 != t[14].3); }
            if j == 15 { assert(t[5].3 != t[15].3); }
            if j == 16 { assert(t[5].3 != t[16].3); }
            if j == 17 { assert(t[5].3 != t[17].3); }
            if j == 18 { assert(t[5].3 != t[18].3); }
            if j == 19 { assert(t[5].3 != t[19].3); }
        } else if i == 6 {
            if j == 0 { assert(t[6].3 != t[0].3); }
            if j == 1 { assert(t[6].3 != t[1].3); }
            if j == 2 { assert(t[6].3 != t[2].3); }
            if j == 3 { assert(t[6].3 != t[3].3); }
            if j == 4 { assert(t[6].3 != t[4].3); }
            if j == 5 { assert(t[6].3 != t[5].3); }
            if j == 7 { assert(t[6].3 != t[7].3); }
            if j == 8 { assert(t[6].3 != t[8].3); }
            if j == 9 { assert(t[6].3 != t[9].3); }
            if j == 10 { assert(t[6].3 != t[10].3); }
            if j == 11 { assert(t[6].3 != t[11].3); }
            if j == 12 { assert(t[6].3 != t[12].3); }
            if j == 13 { assert(t[6].3 != t[13].3); }
            if j == 14 { assert(t[6].3 != t[14].3); }
            if j == 15 { assert(t[6].3 != t[15].3); }
            if j == 16 { assert(t[6].3 != t[16].3); }
            if j == 17 { assert(t[6].3 != t[17].3); }
            if j == 18 { assert(t[6].3 != t[18].3); }
            if j == 19 { assert(t[6].3 != t[19].3); }
        } else if i == 7 {
            if j == 0 { assert(t[7].3 != t[0].3); }
            if j == 1 { assert(t[7].3 != t[1].3); }
            if j == 2 { assert(t[7].3 != t[2].3); }
            if j == 3 { assert(t[7].3 != t[3].3); }
            if j == 4 { assert(t[7].3 != t[4].3); }
            if j == 5 { assert(t[7].3 != t[5].3); }
            if j == 6 { assert(t[7].3 != t[6].3); }
            if j == 8 { assert(t[7].3 != t[8].3); }
            if j == 9 { assert(t[7].3 != t[9].3); }
            if j == 10 { assert(t[7].3 != t[10].3); }
            if j == 11 { assert(t[7].3 != t[11].3); }
            if j == 12 { assert(t[7].3 != t[12].3); }
            if j == 13 { assert(t[7].3 != t[13].3); }
            if j == 14 { assert(t[7].3 != t[14].3); }
            if j == 15 { assert(t[7].3 != t[15].3); }
            if j == 16 { assert(t[7].3 != t[16].3); }
            if j == 17 { assert(t[7].3 != t[17].3); }
            if j == 18 { assert(t[7].3 != t[18].3); }
            if j == 19 { assert(t[7].3 != t[19].3); }
        } else if i == 8 {
            if j == 0 { assert(t[8].3 != t[0].3); }
            if j == 1 { assert(t[8].3 != t[1].3); }
            if j == 2 { assert(t[8].3 != t[2].3); }
            if j == 3 { assert(t[8].3 != t[3].3); }
            if j == 4 { assert(t[8].3 != t[4].3); }
            if j == 5 { assert(t[8].3 != t[5].3); }
            if j == 6 { assert(t[8].3 != t[6].3); }
            if j == 7 { assert(t[8].3 != t[7].3); }
            if j == 9 { assert(t[8].3 != t[9].3); }
            if j == 10 { assert(t[8].3 != t[10].3); }
            if j == 11 { assert(t[8].3 != t[11].3); }
            if j == 12 { assert(t[8].3 != t[12].3); }
            if j == 13 { assert(t[8].3 != t[13].3); }
            if j == 14 { assert(t[8].3 != t[14].3); }
            if j == 15 { assert(t[8].3 != t[15].3); }
            if j == 16 { assert(t[8].3 != t[16].3); }
            if j == 17 { assert(t[8].3 != t[17].3); }
            if j == 18 { assert(t[8].3 != t[18].3); }
            if j == 19 { assert(t[8].3 != t[19].3); }
        } else if i == 9 {
            if j == 0 { assert(t[9].3 != t[0].3); }
            if j == 1 { assert(t[9].3 != t[1].3); }
            if j == 2 { assert(t[9].3 != t[2].3); }
            if j == 3 { assert(t[9].3 != t[3].3); }
            if j == 4 { assert(t[9].3 != t[4].3); }
            if j == 5 { assert(t[9].3 != t[5].3); }
            if j == 6 { assert(t[9].3 != t[6].3); }
            if j == 7 { assert(t[9].3 != t[7].3); }
            if j == 8 { assert(t[9].3 != t[8].3); }
            if j == 10 { assert(t[9].3 != t[10].3); }
            if j == 11 { assert(t[9].3 != t[11].3); }
            if j == 12 { assert(t[9].3 != t[12].3); }
            if j == 13 { assert(t[9].3 != t[13].3); }
            if j == 14 { assert(t[9].3 != t[14].3); }
            if j == 15 { assert(t[9].3 != t[15].3); }
            if j == 16 { assert(t[9].3 != t[16].3); }
            if j == 17 { assert(t[9].3 != t[17].3); }
            if j == 18 { assert(t[9].3 != t[18].3); }
            if j == 19 { assert(t[9].3 != t[19].3); }
        } else if i == 10 {
            if j == 0 { assert(t[10].3 != t[0].3); }
            if j == 1 { assert(t[10].3 != t[1].3); }
            if j == 2 { assert(t[10].3 != t[2].3); }
            if j == 3 { assert(t[10].3 != t[3].3); }
            if j == 4 { assert(t[10].3 != t[4].3); }
            if j == 5 { assert(t[10].3 != t[5].3); }
            if j == 6 { assert(t[10].3 != t[6].3); }
            if j == 7 { assert(t[10].3 != t[7].3); }
            if j == 8 { assert(t[10].3 != t[8].3); }
            if j == 9 { assert(t[10].3 != t[9].3); }
            if j == 11 { assert(t[10].3 != t[11].3); }
            if j == 12 { assert(t[10].3 != t[12].3); }
            if j == 13 { assert(t[10].3 != t[13].3); }
            if j == 14 { assert(t[10].3 != t[14].3); }
            if j == 15 { assert(t[10].3 != t[15].3); }
            if j == 16 { assert(t[10].3 != t[16].3); }
            if j == 17 { assert(t[10].3 != t[17].3); }
            if j == 18 { assert(t[10].3 != t[18].3); }
            if j == 19 { assert(t[10].3 != t[19].3); }
        } else if i == 11 {
            if j == 0 { assert(t[11].3 != t[0].3); }
            if j == 1 { assert(t[11].3 != t[1].3); }
            if j == 2 { assert(t[11].3 != t[2].3); }
            if j == 3 { assert(t[11].3 != t[3].3); }
            if j == 4 { assert(t[11].3 != t[4].3); }
            if j == 5 { assert(t[11].3 != t[5].3); }
            if j == 6 { assert(t[11].3 != t[6].3); }
            if j == 7 { assert(t[11].3 != t[7].3); }
            if j == 8 { assert(t[11].3 != t[8].3); }
            if j == 9 { assert(t[11].3 != t[9].3); }
            if j == 10 { assert(t[11].3 != t[10].3); }
            if j == 12 { assert(t[11].3 != t[12].3); }
            if j == 13 { assert(t[11].3 != t[13].3); }
            if j == 14 { assert(t[11].3 != t[14].3); }
            if j == 15 { assert(t[11].3 != t[15].3); }
            if j == 16 { assert(t[11].3 != t[16].3); }
            if j == 17 { assert(t[11].3 != t[17].3); }
            if j == 18 { assert(t[11].3 != t[18].3); }
            if j == 19 { assert(t[11].3 != t[19].3); }
        } else if i == 12 {
            if j == 0 { assert(t[12].3 != t[0].3); }
            if j == 1 { assert(t[12].3 != t[1].3); }
            if j == 2 { assert(t[12].3 != t[2].3); }
            if j == 3 { assert(t[12].3 != t[3].3); }
            if j == 4 { assert(t[12].3 != t[4].3); }
            if j == 5 { assert(t[12].3 != t[5].3); }
            if j == 6 { assert(t[12].3 != t[6].3); }
            if j == 7 { assert(t[12].3 != t[7].3); }
            if j == 8 { assert(t[12].3 != t[8].3); }
            if j == 9 { assert(t[12].3 != t[9].3); }
            if j == 10 { assert(t[12].3 != t[10].3); }
            if j == 11 { assert(t[12].3 != t[11].3); }
            if j == 13 { assert(t[12].3 != t[13].3); }
            if j == 14 { assert(t[12].3 != t[14].3); }
            if j == 15 { assert(t[12].3 != t[15].3); }
            if j == 16 { assert(t[12].3 != t[16].3); }
            if j == 17 { assert(t[12].3 != t[17].3); }
            if j == 18 { assert(t[12].3 != t[18].3); }
            if j == 19 { assert(t[12].3 != t[19].3); }
        } else if i == 13 {
            if j == 0 { assert(t[13].3 != t[0].3); }
            if j == 1 { assert(t[13].3 != t[1].3); }
            if j == 2 { assert(t[13].3 != t[2].3); }
            if j == 3 { assert(t[13].3 != t[3].3); }
            if j == 4 { assert(t[13].3 != t[4].3); }
            if j == 5 { assert(t[13].3 != t[5].3); }
            if j == 6 { assert(t[13].3 != t[6].3); }
            if j == 7 { assert(t[13].3 != t[7].3); }
            if j == 8 { assert(t[13].3 != t[8].3); }
            if j == 9 { assert(t[13].3 != t[9].3); }
            if j == 10 { assert(t[13].3 != t[10].3); }
            if j == 11 { assert(t[13].3 != t[11].3); }
            if j == 12 { assert(t[13].3 != t[12].3); }
            if j == 14 { assert(t[13].3 != t[14].3); }
            if j == 15 { assert(t[13].3 != t[15].3); }
            if j == 16 { assert(t[13].3 != t[16].3); }
            if j == 17 { assert(t[13].3 != t[17].3); }
            if j == 18 { assert(t[13].3 != t[18].3); }
            if j == 19 { assert(t[13].3 != t[19].3); }
        } else if i == 14 {
            if j == 0 { assert(t[14].3 != t[0].3); }
            if j == 1 { assert(t[14].3 != t[1].3); }
            if j == 2 { assert(t[14].3 != t[2].3); }
            if j == 3 { assert(t[14].3 != t[3].3); }
            if j == 4 { assert(t[14].3 != t[4].3); }
            if j == 5 { assert(t[14].3 != t[5].3); }
            if j == 6 { assert(t[14].3 != t[6].3); }
            if j == 7 { assert(t[14].3 != t[7].3); }
            if j == 8 { assert(t[14].3 != t[8].3); }
            if j == 9 { assert(t[14].3 != t[9].3); }
            if j == 10 { assert(t[14].3 != t[10].3); }
            if j == 11 { assert(t[14].3 != t[11].3); }
            if j == 12 { assert(t[14].3 != t[12].3); }
            if j == 13 { assert(t[14].3 != t[13].3); }
            if j == 15 { assert(t[14].3 != t[15].3); }
            if j == 16 { assert(t[14].3 != t[16].3); }
            if j == 17 { assert(t[14].3 != t[17].3); }
            if j == 18 { assert(t[14].3 != t[18].3); }
            if j == 19 { assert(t[14].3 != t[19].3); }
        } else if i == 15 {
            if j == 0 { assert(t[15].3 != t[0].3); }
            if j == 1 { assert(t[15].3 != t[1].3); }
            if j == 2 { assert(t[15].3 != t[2].3); }
            if j == 3 { assert(t[15].3 != t[3].3); }
            if j == 4 { assert(t[15].3 != t[4].3); }
            if j == 5 { assert(t[15].3 != t[5].3); }
            if j == 6 { assert(t[15].3 != t[6].3); }
            if j == 7 { assert(t[15].3 != t[7].3); }
            if j == 8 { assert(t[15].3 != t[8].3); }
            if j == 9 { assert(t[15].3 != t[9].3); }
            if j == 10 { assert(t[15].3 != t[10].3); }
            if j == 11 { assert(t[15].3 != t[11].3); }
            if j == 12 { assert(t[15].3 != t[12].3); }
            if j == 13 { assert(t[15].3 != t[13].3); }
            if j == 14 { assert(t[15].3 != t[14].3); }
            if j == 16 { assert(t[15].3 != t[16].3); }
            if j == 17 { assert(t[15].3 != t[17].3); }
            if j == 18 { assert(t[15].3 != t[18].3); }
            if j == 19 { assert(t[15].3 != t[19].3); }
        } else if i == 16 {
            if j == 0 { assert(t[16].3 != t[0].3); }
            if j == 1 { assert(t[16].3 != t[1].3); }
            if j == 2 { assert(t[16].3 != t[2].3); }
            if j == 3 { assert(t[16].3 != t[3].3); }
            if j == 4 { assert(t[16].3 != t[4].3); }
            if j == 5 { assert(t[16].3 != t[5].3); }
            if j == 6 { assert(t[16].3 != t[6].3); }
            if j == 7 { assert(t[16].3 != t[7].3); }
            if j == 8 { assert(t[16].3 != t[8].3); }
            if j == 9 { assert(t[16].3 != t[9].3); }
            if j == 10 { assert(t[16].3 != t[10].3); }
            if j == 11 { assert(t[16].3 != t[11].3); }
            if j == 12 { assert(t[16].3 != t[12].3); }
            if j == 13 { assert(t[16].3 != t[13].3); }
            if j == 14 { assert(t[16].3 != t[14].3); }
            if j == 15 { assert(t[16].3 != t[15].3); }
            if j == 17 { assert(t[16].3 != t[17].3); }
            if j == 18 { assert(t[16].3 != t[18].3); }
            if j == 19 { assert(t[16].3 != t[19].3); }
        } else if i == 17 {
            if j == 0 { assert(t[17].3 != t[0].3); }
            if j == 1 { assert(t[17].3 != t[1].3); }
            if j == 2 { assert(t[17].3 != t[2].3); }
            if j == 3 { assert(t[17].3 != t[3].3); }
            if j == 4 { assert(t[17].3 != t[4].3); }
            if j == 5 { assert(t[17].3 != t[5].3); }
            if j == 6 { assert(t[17].3 != t[6].3); }
            if j == 7 { assert(t[17].3 != t[7].3); }
            if j == 8 { assert(t[17].3 != t[8].3); }
            if j == 9 { assert(t[17].3 != t[9].3); }
            if j == 10 { assert(t[17].3 != t[10].3); }
            if j == 11 { assert(t[17].3 != t[11].3); }
            if j == 12 { assert(t[17].3 != t[12].3); }
            if j == 13 { assert(t[17].3 != t[13].3); }
            if j == 14 { assert(t[17].3 != t[14].3); }
            if j == 15 { assert(t[17].3 != t[15].3); }
            if j == 16 { assert(t[17].3 != t[16].3); }
            if j == 18 { assert(t[17].3 != t[18].3); }
            if j == 19 { assert(t[17].3 != t[19].3); }
        } else if i == 18 {
            if j == 0 { assert(t[18].3 != t[0].3); }
            if j == 1 { assert(t[18].3 != t[1].3); }
            if j == 2 { assert(t[18].3 != t[2].3); }
            if j == 3 { assert(t[18].3 != t[3].3); }
            if j == 4 { assert(t[18].3 != t[4].3); }
            if j == 5 { assert(t[18].3 != t[5].3); }
            if j == 6 { assert(t[18].3 != t[6].3); }
            if j == 7 { assert(t[18].3 != t[7].3); }
            if j == 8 { assert(t[18].3 != t[8].3); }
            if j == 9 { assert(t[18].3 != t[9].3); }
            if j == 10 { assert(t[18].3 != t[10].3); }
            if j == 11 { assert(t[18].3 != t[11].3); }
            if j == 12 { assert(t[18].3 != t[12].3); }
            if j == 13 { assert(t[18].3 != t[13].3); }
            if j == 14 { assert(t[18].3 != t[14].3); }
            if j == 15 { assert(t[18].3 != t[15].3); }
            if j == 16 { assert(t[18].3 != t[16].3); }
            if j == 17 { assert(t[18].3 != t[17].3); }
            if j == 19 { assert(t[18].3 != t[19].3); }
        } else if i == 19 {
            if j == 0 { assert(t[19].3 != t[0].3); }
            if j == 1 { assert(t[19].3 != t[1].3); }
            if j == 2 { assert(t[19].3 != t[2].3); }
            if j == 3 { assert(t[19].3 != t[3].3); }
            if j == 4 { assert(t[19].3 != t[4].3); }
            if j == 5 { assert(t[19].3 != t[5].3); }
            if j == 6 { assert(t[19].3 != t[6].3); }
            if j == 7 { assert(t[19].3 != t[7].3); }
            if j == 8 { assert(t[19].3 != t[8].3); }
            if j == 9 { assert(t[19].3 != t[9].3); }
            if j == 10 { assert(t[19].3 != t[10].3); }
            if j == 11 { assert(t[19].3 != t[11].3); }
            if j == 12 { assert(t[19].3 != t[12].3); }
            if j == 13 { assert(t[19].3 != t[13].3); }
            if j == 14 { assert(t[19].3 != t[14].3); }
            if j == 15 { assert(t[19].3 != t[15].3); }
            if j == 16 { assert(t[19].3 != t[16].3); }
            if j == 17 { assert(t[19].3 != t[17].3); }
            if j == 18 { assert(t[19].3 != t[18].3); }
        }
    }
}

/// The position of the first preset with id `id`.
pub open spec fn preset_pos(t: Seq<PresetView>, id: Seq<char>) -> Option<int>
    decreases t.len(),
{
    if t.len() == 0 {
        None
    } else {
        match preset_pos(t.drop_last(), id) {
            Some(i) => Some(i),
            None => if t.last().0 == id { Some(t.len() - 1) } else { None },
        }
    }
}

proof fn lemma_preset_pos_step(t: Seq<PresetView>, k: int, id: Seq<char>)
    requires
        0 <= k < t.len(),
    ensures
        preset_pos(t.take(k + 1), id) == match preset_pos(t.take(k), id) {
            Some(i) => Some(i),
            None => if t[k].0 == id { Some(k) } else { None },
        },
{
    assert(t.take(k + 1).drop_last() =~= t.take(k));
}

proof fn lemma_preset_pos_prefix(t: Seq<PresetView>, n: int, id: Seq<char>)
    requires
        0 <= n <= t.len(),
        preset_pos(t.take(n), id) is Some,
    ensures
        preset_pos(t, id) == preset_pos(t.take(n), id),
    decreases t.len() - n,
{
    if n < t.len() {
        lemma_preset_pos_step(t, n, id);
        lemma_preset_pos_prefix(t, n + 1, id);
    } else {
        assert(t.take(n) =~= t);
    }
}

proof fn lemma_preset_pos_bound(t: Seq<PresetView>, id: Seq<char>)
    ensures
        match preset_pos(t, id) {
            Some(i) => 0 <= i < t.len() && t[i].0 == id,
            None => true,
        },
    decreases t.len(),
{
    if t.len() > 0 {
        lemma_preset_pos_bound(t.drop_last(), id);
    }
}

/// The built-in preset with id `id`, if there is one (the first, should two share it).
pub fn find_preset(id: &str) -> (r: Option<ColorGradingPreset>)
    ensures
        match preset_pos(preset_table(), id@) {
            Some(i) => r matches Some(p) && preset_view(p) == preset_table()[i],
            None => r is None,
        },
{
    let mut presets = all_presets();
    let ghost t = preset_table();
    let key = chars_of(id);
    let mut k: usize = 0;
    assert(t.take(0) =~= Seq::<PresetView>::empty());
    while k < presets.len()
        invariant
            preset_views(presets@) == t,
            t == preset_table(),
            key@ == id@,
            k <= presets@.len(),
            preset_pos(t.take(k as int), id@) is None,
        decreases presets.len() - k,
    {
        proof {
            lemma_preset_pos_step(t, k as int, id@);
        }
        assert(t[k as int] == preset_view(presets@[k as int]));
        if chars_eq(chars_of(presets[k].id.as_str()).as_slice(), key.as_slice()) {
            proof {
                lemma_preset_pos_prefix(t, k as int + 1, id@);
            }
            let p = presets.swap_remove(k);
            return Some(p);
        }
        k = k + 1;
    }
    assert(t.take(t.len() as int) =~= t);
    None
}

/// The name of a graded image: `{stem}_{preset}_{timestamp}.jpg`, the stem being the
/// source file's (or `output`).
pub open spec fn graded_name(source: Seq<char>, preset_id: Seq<char>, timestamp: Seq<char>) -> Seq<char> {
    let stem = match file_stem(source) {
        Some(s) => s,
        None => "output"@,
    };
    stem + "_"@ + preset_id + "_"@ + timestamp + ".jpg"@
}

/// The file name of the image graded with `preset_id` from `input_path` at `timestamp`
/// (see `graded_name`); it goes to the `ColorGrading` directory beside the source.
pub fn color_grading_output_name(input_path: &str, preset_id: &str, timestamp: &str) -> (r: String)
    ensures
        r@ == graded_name(input_path@, preset_id@, timestamp@),
{
    let stem = match file_stem_of(chars_of(input_path).as_slice()) {
        Some(s) => string_of(s.as_slice()),
        None => "output".to_string(),
    };
    let a = join_strs(stem.as_str(), "_");
    let b = join_strs(a.as_str(), preset_id);
    let c = join_strs(b.as_str(), "_");
    let d = join_strs(c.as_str(), timestamp);
    join_strs(d.as_str(), ".jpg")
}


/// Progress of color grading, as reported to the frontend.
#[derive(Debug, Clone, PartialEq, Eq)]
pub enum ColorGradingEvent {
    Queued { queue_depth: u32 },
    Progress { current: u32, total: u32, file_name: String, failed_count: u32 },
    Completed { current: u32, total: u32, file_name: String, failed_count: u32, output_path: String },
    Failed { current: u32, total: u32, file_name: String, error: String, failed_count: u32 },
    Done { total: u32, failed_count: u32, failed_files: Vec<String>, output_files: Vec<String>, cancelled: bool },
}


/// The message for a preset id that names no built-in preset.
pub open spec fn unknown_preset_message(id: Seq<char>) -> Seq<char> {
    "Unknown LUT preset: "@ + id
}

/// The built-in preset `id`, or the error that names it unknown.
pub fn preset_or_error(id: &str) -> (r: Result<ColorGradingPreset, String>)
    ensures
        match preset_pos(preset_table(), id@) {
            Some(i) => r matches Ok(p) && preset_view(p) == preset_table()[i],
            None => r matches Err(m) && m@ == unknown_preset_message(id@),
        },
{
    match find_preset(id) {
        Some(p) => Ok(p),
        None => Err(join_strs("Unknown LUT preset: ", id)),
    }
}

/// The preset an uploaded file is graded with automatically: the configured one, when
/// automatic grading is on, a preset is named, and the file is a RAW image.
pub fn auto_color_grading_preset(config: &Option<AutoColorGradingConfig>, path: &str) -> (r: Option<String>)
    ensures
        r == match *config {
            Some(c) => if c.enabled && c.preset_id@.len() > 0 && is_raw_path(path@) {
                Some(c.preset_id)
            } else {
                None::<String>
            },
            None => None::<String>,
        },
{
    match config {
        Some(c) => {
            if c.enabled && chars_of(c.preset_id.as_str()).len() > 0 && is_raw_file(path) {
                Some(c.preset_id.clone())
            } else {
                None
            }
        },
        None => None,
    }
}

/// An open preview session: the image it decoded and whether lens correction is on.
#[derive(Debug, Clone, PartialEq, Eq)]
pub struct PreviewSession {
    pub image_path: String,
    pub lens_correction: bool,
}

/// What a preview render needs: the preset, and whether lens correction is to be switched
/// first.
#[derive(Debug, Clone)]
pub struct ApplyPlan {
    pub preset: ColorGradingPreset,
    pub toggle_lens: bool,
}

/// What a final render needs: the preset, the session it renders (which is then ended),
/// and whether lens correction is to be switched first.
#[derive(Debug, Clone)]
pub struct CommitPlan {
    pub preset: ColorGradingPreset,
    pub session: PreviewSession,
    pub toggle_lens: bool,
}

/// The message when no preview session is open.
pub open spec fn no_session_message() -> Seq<char> {
    "No active preview session"@
}

/// The color grading preview: at most one session is open at a time.
#[derive(Debug)]
pub struct PreviewState {
    pub active: Option<PreviewSession>,
}

impl PreviewState {
    /// No session open.
    pub fn new() -> (r: PreviewState)
        ensures
            r.active is None,
    {
        PreviewState { active: None }
    }

    /// Before a new session is decoded, the open one (returned) is ended.
    pub fn end_for_new_session(&mut self) -> (ended: Option<PreviewSession>)
        ensures
            ended == old(self).active,
            final(self).active is None,
    {
        self.active.take()
    }

    /// A session on `image_path` was opened; lens correction starts on.
    pub fn opened(&mut self, image_path: String)
        ensures
            final(self).active == Some(PreviewSession { image_path, lens_correction: true }),
    {
        self.active = Some(PreviewSession { image_path, lens_correction: true });
    }

    /// What a preview render with preset `lut_id` and lens correction `lens` needs: the
    /// preset must exist, then a session must be open; lens correction is switched when it
    /// differs from the session's.
    pub fn plan_apply(&self, lut_id: &str, lens: bool) -> (r: Result<ApplyPlan, String>)
        ensures
            match preset_pos(preset_table(), lut_id@) {
                None => r matches Err(m) && m@ == unknown_preset_message(lut_id@),
                Some(i) => match self.active {
                    None => r matches Err(m) && m@ == no_session_message(),
                    Some(s) => r matches Ok(plan) && preset_view(plan.preset) == preset_table()[i]
                        && plan.toggle_lens == (lens != s.lens_correction),
                },
            },
    {
        let preset = preset_or_error(lut_id)?;
        match &self.active {
            None => Err("No active preview session".to_string()),
            Some(s) => Ok(ApplyPlan { preset, toggle_lens: lens != s.lens_correction }),
        }
    }

    /// Lens correction of the open session was switched to `lens`.
    pub fn lens_switched(&mut self, lens: bool)
        ensures
            match old(self).active {
                Some(s) => final(self).active == Some(PreviewSession { image_path: s.image_path, lens_correction: lens }),
                None => final(self).active is None,
            },
    {
        match &mut self.active {
            Some(s) => {
                s.lens_correction = lens;
            },
            None => {},
        }
    }

    /// What a final render with preset `lut_id` and lens correction `lens` needs: the
    /// preset must exist (else nothing changes), then the open session is taken, and with it
    /// none is left open.
    pub fn plan_commit(&mut self, lut_id: &str, lens: bool) -> (r: Result<CommitPlan, String>)
        ensures
            match preset_pos(preset_table(), lut_id@) {
                None => r matches Err(m) && m@ == unknown_preset_message(lut_id@)
                    && final(self).active == old(self).active,
                Some(i) => final(self).active is None && match old(self).active {
                    None => r matches Err(m) && m@ == no_session_message(),
                    Some(s) => r matches Ok(plan) && preset_view(plan.preset) == preset_table()[i]
                        && plan.session == s
                        && plan.toggle_lens == (lens != s.lens_correction),
                },
            },
    {
        let preset = preset_or_error(lut_id)?;
        match self.active.take() {
            None => Err("No active preview session".to_string()),
            Some(s) => {
                let toggle_lens = lens != s.lens_correction;
                Ok(CommitPlan { preset, session: s, toggle_lens })
            },
        }
    }

    /// Ending the preview: the open session, if any, is returned to be ended.
    pub fn end(&mut self) -> (ended: Option<PreviewSession>)
        ensures
            ended == old(self).active,
            final(self).active is None,
    {
        self.active.take()
    }
}


/// What the color grading worker counts during a batch.
#[derive(Debug)]
pub struct BatchState {
    pub completed_count: u32,
    pub failed_count: u32,
    pub failed_files: Vec<String>,
    pub output_files: Vec<String>,
}

impl Default for BatchState {
    fn default() -> (r: Self)
        ensures
            r.completed_count == 0,
            r.failed_count == 0,
            r.failed_files@.len() == 0,
            r.output_files@.len() == 0,
    {
        BatchState { completed_count: 0, failed_count: 0, failed_files: Vec::new(), output_files: Vec::new() }
    }
}

impl BatchState {
    /// The number of files finished in this batch, graded or failed.
    pub open spec fn processed(&self) -> int {
        self.completed_count + self.failed_count
    }

    /// The number of files finished in this batch (see `processed`).
    pub fn processed_count(&self) -> (r: u32)
        requires
            self.processed() <= u32::MAX,
        ensures
            r == self.processed(),
    {
        self.completed_count + self.failed_count
    }

    /// The progress reported when a file starts, `remaining` files still queued after it.
    pub fn task_started(&self, file_name: String, remaining: u32) -> (e: ColorGradingEvent)
        requires
            self.processed() + 1 + remaining <= u32::MAX,
        ensures
            e matches ColorGradingEvent::Progress { current, total, file_name: n, failed_count }
                && current == self.processed() + 1
                && total == self.processed() + 1 + remaining
                && n == file_name
                && failed_count == self.failed_count,
    {
        let current = self.completed_count + self.failed_count + 1;
        ColorGradingEvent::Progress { current, total: current + remaining, file_name, failed_count: self.failed_count }
    }

    /// Counts a file graded into `output_path`, `remaining` files still queued, and returns
    /// the progress reported for it.
    pub fn record_completed(&mut self, file_name: String, output_path: String, remaining: u32) -> (e: ColorGradingEvent)
        requires
            old(self).processed() + 1 + remaining <= u32::MAX,
        ensures
            final(self).completed_count == old(self).completed_count + 1,
            final(self).failed_count == old(self).failed_count,
            final(self).failed_files@ == old(self).failed_files@,
            final(self).output_files@ == old(self).output_files@.push(output_path),
            e matches ColorGradingEvent::Completed { current, total, file_name: n, failed_count, output_path: o }
                && current == old(self).processed() + 1
                && total == old(self).processed() + 1 + remaining
                && n == file_name
                && failed_count == old(self).failed_count
                && o == output_path,
    {
        self.completed_count = self.completed_count + 1;
        self.output_files.push(output_path.clone());
        let current = self.completed_count + self.failed_count;
        ColorGradingEvent::Completed { current, total: current + remaining, file_name, failed_count: self.failed_count, output_path }
    }

    /// Counts a file that failed with `error`, `remaining` files still queued, and returns
    /// the progress reported for it.
    pub fn record_failed(&mut self, file_name: String, error: String, remaining: u32) -> (e: ColorGradingEvent)
        requires
            old(self).processed() + 1 + remaining <= u32::MAX,
        ensures
            final(self).completed_count == old(self).completed_count,
            final(self).failed_count == old(self).failed_count + 1,
            final(self).failed_files@ == old(self).failed_files@.push(file_name),
            final(self).output_files@ == old(self).output_files@,
            e matches ColorGradingEvent::Failed { current, total, file_name: n, error: er, failed_count }
                && current == old(self).processed() + 1
                && total == old(self).processed() + 1 + remaining
                && n == file_name
                && er == error
                && failed_count == old(self).failed_count + 1,
    {
        self.failed_count = self.failed_count + 1;
        self.failed_files.push(file_name.clone());
        let current = self.completed_count + self.failed_count;
        ColorGradingEvent::Failed { current, total: current + remaining, file_name, error, failed_count: self.failed_count }
    }

    /// Ends the batch, cancelled or not: returns its summary and starts a new one.
    pub fn finish_batch(&mut self, cancelled: bool) -> (e: ColorGradingEvent)
        requires
            old(self).processed() <= u32::MAX,
        ensures
            e matches ColorGradingEvent::Done { total, failed_count, failed_files, output_files, cancelled: c }
                && total == old(self).processed()
                && failed_count == old(self).failed_count
                && failed_files@ == old(self).failed_files@
                && output_files@ == old(self).output_files@
                && c == cancelled,
            final(self).completed_count == 0,
            final(self).failed_count == 0,
            final(self).failed_files@.len() == 0,
            final(self).output_files@.len() == 0,
    {
        let total = self.completed_count + self.failed_count;
        let failed_count = self.failed_count;
        let mut failed_files: Vec<String> = Vec::new();
        let mut output_files: Vec<String> = Vec::new();
        std::mem::swap(&mut failed_files, &mut self.failed_files);
        std::mem::swap(&mut output_files, &mut self.output_files);
        self.completed_count = 0;
        self.failed_count = 0;
        ColorGradingEvent::Done { total, failed_count, failed_files, output_files, cancelled }
    }

    /// Whether the batch is over: nothing is queued and something was processed.
    pub fn batch_complete(&self, queue_depth: u32) -> (r: bool)
        requires
            self.processed() <= u32::MAX,
        ensures
            r == (queue_depth == 0 && self.processed() > 0),
    {
        queue_depth == 0 && self.processed_count() > 0
    }
}

} // verus!
