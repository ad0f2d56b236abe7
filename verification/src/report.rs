//! Reports to applications, and formatting.
use vstd::prelude::*;
use vstd::string::*;

use crate::status::{from_result, Error, ResultCode};

verus! {

/// How a formatter writes the terminal's content.
#[derive(Clone, Copy, Debug, PartialEq, Eq, Structural)]
pub enum FormatterFormat {
    Plain,
    Vt,
    Html,
}

/// The content that a formatter wrote: nothing where the engine gave no memory or
/// no bytes.
pub fn format_to_vec(code: ResultCode, output: Option<Vec<u8>>) -> (r: Result<Vec<u8>, Error>)
    ensures
        match crate::status::error_of(code, 0) {
            Some(e) => r == Err::<Vec<u8>, Error>(e),
            None => r is Ok && r->Ok_0@ == match output {
                Some(bytes) => bytes@,
                None => Seq::empty(),
            },
        },
{
    match from_result(code) {
        Err(e) => Err(e),
        Ok(()) => match output {
            Some(bytes) => Ok(bytes),
            None => Ok(Vec::new()),
        },
    }
}

/// DECRPM report state values: the Ps2 parameter in `CSI ? Ps1 ; Ps2 $ y`.
#[derive(Clone, Copy, Debug, PartialEq, Eq, Hash, Structural)]
pub enum ModeReportState {
    /// Mode is not recognized.
    NotRecognized,
    /// Mode is set (enabled).
    ModeSet,
    /// Mode is reset (disabled).
    Reset,
    /// Mode is permanently set.
    PermanentlySet,
    /// Mode is permanently reset.
    PermanentlyReset,
}

/// Size report output format.
#[derive(Clone, Copy, Debug, PartialEq, Eq, Hash, Structural)]
pub enum SizeReportStyle {
    /// In-band size report (mode 2048).
    Mode2048,
    /// XTWINOPS text area size in pixels (CSI 14 t).
    Csi14T,
    /// XTWINOPS cell size in pixels (CSI 16 t).
    Csi16T,
    /// XTWINOPS text area size in characters (CSI 18 t).
    Csi18T,
}

/// Terminal size information for encoding size reports.
#[derive(Clone, Copy, Debug, PartialEq, Eq, Structural)]
pub struct SizeReportSize {
    /// Terminal row count in cells.
    pub rows: u16,
    /// Terminal column count in cells.
    pub columns: u16,
    /// Cell width in pixels.
    pub cell_width: u32,
    /// Cell height in pixels.
    pub cell_height: u32,
}

impl Default for SizeReportSize {
    fn default() -> (s: SizeReportSize)
        ensures
            s == (SizeReportSize { rows: 0, columns: 0, cell_width: 0, cell_height: 0 }),
    {
        SizeReportSize { rows: 0, columns: 0, cell_width: 0, cell_height: 0 }
    }
}

/// The end of handing parameters to an SGR parser, together with the separators
/// behind each of them where the caller gives any.
pub fn set_params(params: &[u16], separators: Option<&[u8]>, code: ResultCode) -> (r: Result<
    (),
    Error,
>)
    requires
        separators matches Some(s) ==> s@.len() == params@.len(),
    ensures
        r == crate::status::value_when(code, 0, ()),
{
    from_result(code)
}

/// Features that the primary device attributes can name.
#[derive(Clone, Copy, Debug, PartialEq, Eq, Structural)]
pub enum DeviceFeature {
    /// 132 columns.
    Columns132,
    /// Selective erase.
    SelectiveErase,
    /// ANSI color.
    AnsiColor,
}

/// The level or type of device that a terminal presents itself as.
#[derive(Clone, Copy, Debug, PartialEq, Eq, Structural)]
pub enum DeviceLevel {
    Vt220,
}

/// Number of features that are reported.
pub const FEATURE_COUNT: usize = 3;

/// Answers to the primary, secondary and tertiary device attributes queries.
#[derive(Clone, Copy, Debug, PartialEq, Eq)]
pub struct DeviceAttributes {
    /// Conformance level (DA1).
    pub conformance_level: DeviceLevel,
    /// Features (DA1).
    pub features: [DeviceFeature; 3],
    /// Device type (DA2).
    pub device_type: DeviceLevel,
    /// Firmware version (DA2).
    pub firmware_version: u16,
    /// ROM cartridge, zero for none (DA2).
    pub rom_cartridge: u16,
    /// Unit id (DA3).
    pub unit_id: u32,
}

/// A VT220 with a few common features, version one and no ROM cartridge.
pub fn get_device_attributes() -> (r: Option<DeviceAttributes>)
    ensures
        r is Some,
        r->0.conformance_level == DeviceLevel::Vt220,
        r->0.features@ == seq![
            DeviceFeature::Columns132,
            DeviceFeature::SelectiveErase,
            DeviceFeature::AnsiColor,
        ],
        r->0.device_type == DeviceLevel::Vt220,
        r->0.firmware_version == 1,
        r->0.rom_cartridge == 0,
        r->0.unit_id == 0,
{
    let features: [DeviceFeature; 3] = [
        DeviceFeature::Columns132,
        DeviceFeature::SelectiveErase,
        DeviceFeature::AnsiColor,
    ];
    assert(features@ =~= seq![
        DeviceFeature::Columns132,
        DeviceFeature::SelectiveErase,
        DeviceFeature::AnsiColor,
    ]);
    Some(
        DeviceAttributes {
            conformance_level: DeviceLevel::Vt220,
            features,
            device_type: DeviceLevel::Vt220,
            firmware_version: 1,
            rom_cartridge: 0,
            unit_id: 0,
        },
    )
}

/// The line about the engine's build; what the engine cannot tell counts as a
/// debug build without SIMD.
pub open spec fn build_info_text(simd: Option<bool>, optimize: Option<Seq<char>>) -> Seq<char> {
    "ghostty-vt: simd: "@ + (if simd == Some(true) {
        "enabled"@
    } else {
        "disabled"@
    }) + ", optimize: "@ + match optimize {
        Some(mode) => mode,
        None => "Debug"@,
    }
}

/// Writes the line about the engine's build.
pub fn build_info_line(simd: Option<bool>, optimize: Option<&str>) -> (s: String)
    ensures
        s@ == build_info_text(
            simd,
            match optimize {
                Some(mode) => Some(mode@),
                None => None,
            },
        ),
{
    let mut s: String = "ghostty-vt: simd: ".to_owned();
    let enabled: bool = match simd {
        Some(b) => b,
        None => false,
    };
    if enabled {
        s.append("enabled");
    } else {
        s.append("disabled");
    }
    s.append(", optimize: ");
    match optimize {
        Some(mode) => s.append(mode),
        None => s.append("Debug"),
    }
    s
}

/// A formatter's output comes out exactly where the engine reports success: the
/// bytes that it wrote, or none.
pub proof fn law_formatted_bytes_come_with_success(
    code: ResultCode,
    output: Option<Vec<u8>>,
    told: Result<(), Error>,
    r: Result<Vec<u8>, Error>,
)
    requires
        call_ensures(format_to_vec, (code, output), r),
        call_ensures(from_result, (code,), told),
    ensures
        r is Ok <==> code == ResultCode::Success,
        r matches Err(e) ==> told == Err::<(), Error>(e),
        r is Ok && output is Some ==> r->Ok_0@ == output->0@,
        r is Ok && output is None ==> r->Ok_0@.len() == 0,
{
}

/// Handing parameters over succeeds exactly where the engine says so.
pub proof fn law_parameters_are_set_where_the_engine_says_so(
    params: &[u16],
    separators: Option<&[u8]>,
    code: ResultCode,
    told: Result<(), Error>,
    r: Result<(), Error>,
)
    requires
        call_ensures(set_params, (params, separators, code), r),
        call_ensures(from_result, (code,), told),
    ensures
        r == told,
        r is Ok <==> code == ResultCode::Success,
{
}

/// The terminal presents itself as a VT220 of version one without a cartridge, with
/// 132 columns, selective erase and color.
pub proof fn law_the_terminal_is_a_vt220(r: Option<DeviceAttributes>)
    requires
        call_ensures(get_device_attributes, (), r),
    ensures
        r matches Some(d) && d.conformance_level == DeviceLevel::Vt220 && d.device_type
            == DeviceLevel::Vt220 && d.firmware_version == 1 && d.rom_cartridge == 0 && d.unit_id
            == 0 && d.features@.len() == 3 && d.features@[0] == DeviceFeature::Columns132
            && d.features@[1] == DeviceFeature::SelectiveErase && d.features@[2]
            == DeviceFeature::AnsiColor,
{
}

/// The line about the build says that SIMD is enabled exactly where the engine says
/// so, and names the engine's optimization mode, or `Debug` where that is unknown.
pub proof fn law_build_lines_say_what_the_engine_says(
    simd: Option<bool>,
    optimize: Option<&str>,
    s: String,
)
    requires
        call_ensures(build_info_line, (simd, optimize), s),
    ensures
        ({
            let mode = match optimize {
                Some(mode) => mode@,
                None => "Debug"@,
            };
            s@ == "ghostty-vt: simd: "@ + (match simd {
                Some(true) => "enabled"@,
                _ => "disabled"@,
            }) + ", optimize: "@ + mode
        }),
{
}

} // verus!
