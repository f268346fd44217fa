//! The values that the NGX SDK exchanges with its callers, held as plain values.
#![allow(non_camel_case_types)]
use vstd::prelude::*;

use crate::vk::{Format, Image, ImageSubresourceRange, ImageView};

verus! {

/// The version of the NGX API that this crate speaks.
pub const NVSDK_NGX_VERSION_API: u32 = 0x0000_0015;

/// `NVSDK_NGX_FeatureSupportResult_Supported`: nothing stands against the feature.
pub const NVSDK_NGX_FEATURE_SUPPORT_RESULT_SUPPORTED: u32 = 0;

/// One unit of NGX's wide path strings.
pub type WChar = i32;

/// The result code of an NGX call.
#[derive(Clone, Copy, Debug, PartialEq, Eq, Hash, Structural)]
pub struct NVSDK_NGX_Result(pub u32);

/// A value, or the code with which NGX refused.
pub type DlssResult<T> = Result<T, NVSDK_NGX_Result>;

/// The lower-case hexadecimal digit of a value below sixteen.
pub open spec fn hex_char(digit: int) -> char {
    if digit < 10 {
        ('0' as int + digit) as char
    } else {
        ('a' as int + (digit - 10)) as char
    }
}

/// The last `n` lower-case hexadecimal digits of `value`, zeros in front where it
/// has fewer.
pub open spec fn hex_text(value: int, n: nat) -> Seq<char>
    decreases n,
{
    if n == 0 {
        Seq::empty()
    } else {
        hex_text(value / 16, (n - 1) as nat).push(hex_char(value % 16))
    }
}

fn hex_digit(digit: u32) -> (text: &'static str)
    requires
        digit < 16,
    ensures
        text@ == seq![hex_char(digit as int)],
{
    proof {
        reveal_strlit("0");
        reveal_strlit("1");
        reveal_strlit("2");
        reveal_strlit("3");
        reveal_strlit("4");
        reveal_strlit("5");
        reveal_strlit("6");
        reveal_strlit("7");
        reveal_strlit("8");
        reveal_strlit("9");
        reveal_strlit("a");
        reveal_strlit("b");
        reveal_strlit("c");
        reveal_strlit("d");
        reveal_strlit("e");
        reveal_strlit("f");
    }
    let text = match digit {
        0 => "0",
        1 => "1",
        2 => "2",
        3 => "3",
        4 => "4",
        5 => "5",
        6 => "6",
        7 => "7",
        8 => "8",
        9 => "9",
        10 => "a",
        11 => "b",
        12 => "c",
        13 => "d",
        14 => "e",
        _ => "f",
    };
    assert(text@ =~= seq![hex_char(digit as int)]);
    text
}

fn append_hex(out: &mut String, value: u32, n: u32)
    ensures
        final(out)@ == old(out)@ + hex_text(value as int, n as nat),
    decreases n,
{
    if n > 0 {
        append_hex(out, value / 16, n - 1);
        out.append(hex_digit(value % 16));
        assert(out@ =~= old(out)@ + hex_text(value as int, n as nat));
    } else {
        assert(out@ =~= old(out)@ + hex_text(value as int, n as nat));
    }
}

impl NVSDK_NGX_Result {
    /// `NVSDK_NGX_Result_Success`.
    #[verifier::allow_in_spec]
    pub fn success() -> Self
        returns
            NVSDK_NGX_Result(0x0000_0001),
    {
        NVSDK_NGX_Result(0x0000_0001)
    }

    /// `NVSDK_NGX_Result_Fail`.
    #[verifier::allow_in_spec]
    pub fn fail() -> Self
        returns
            NVSDK_NGX_Result(0xbad0_0000),
    {
        NVSDK_NGX_Result(0xbad0_0000)
    }

    /// `NVSDK_NGX_Result_FAIL_FeatureNotSupported`.
    #[verifier::allow_in_spec]
    pub fn fail_feature_not_supported() -> Self
        returns
            NVSDK_NGX_Result(0xbad0_0001),
    {
        NVSDK_NGX_Result(0xbad0_0001)
    }

    /// `NVSDK_NGX_Result_FAIL_PlatformError`.
    #[verifier::allow_in_spec]
    pub fn fail_platform_error() -> Self
        returns
            NVSDK_NGX_Result(0xbad0_0002),
    {
        NVSDK_NGX_Result(0xbad0_0002)
    }

    /// `NVSDK_NGX_Result_FAIL_FeatureAlreadyExists`.
    #[verifier::allow_in_spec]
    pub fn fail_feature_already_exists() -> Self
        returns
            NVSDK_NGX_Result(0xbad0_0003),
    {
        NVSDK_NGX_Result(0xbad0_0003)
    }

    /// `NVSDK_NGX_Result_FAIL_FeatureNotFound`.
    #[verifier::allow_in_spec]
    pub fn fail_feature_not_found() -> Self
        returns
            NVSDK_NGX_Result(0xbad0_0004),
    {
        NVSDK_NGX_Result(0xbad0_0004)
    }

    /// `NVSDK_NGX_Result_FAIL_InvalidParameter`.
    #[verifier::allow_in_spec]
    pub fn fail_invalid_parameter() -> Self
        returns
            NVSDK_NGX_Result(0xbad0_0005),
    {
        NVSDK_NGX_Result(0xbad0_0005)
    }

    /// `NVSDK_NGX_Result_FAIL_ScratchBufferTooSmall`.
    #[verifier::allow_in_spec]
    pub fn fail_scratch_buffer_too_small() -> Self
        returns
            NVSDK_NGX_Result(0xbad0_0006),
    {
        NVSDK_NGX_Result(0xbad0_0006)
    }

    /// `NVSDK_NGX_Result_FAIL_NotInitialized`.
    #[verifier::allow_in_spec]
    pub fn fail_not_initialized() -> Self
        returns
            NVSDK_NGX_Result(0xbad0_0007),
    {
        NVSDK_NGX_Result(0xbad0_0007)
    }

    /// `NVSDK_NGX_Result_FAIL_UnsupportedInputFormat`.
    #[verifier::allow_in_spec]
    pub fn fail_unsupported_input_format() -> Self
        returns
            NVSDK_NGX_Result(0xbad0_0008),
    {
        NVSDK_NGX_Result(0xbad0_0008)
    }

    /// `NVSDK_NGX_Result_FAIL_RWFlagMissing`.
    #[verifier::allow_in_spec]
    pub fn fail_rw_flag_missing() -> Self
        returns
            NVSDK_NGX_Result(0xbad0_0009),
    {
        NVSDK_NGX_Result(0xbad0_0009)
    }

    /// `NVSDK_NGX_Result_FAIL_MissingInput`.
    #[verifier::allow_in_spec]
    pub fn fail_missing_input() -> Self
        returns
            NVSDK_NGX_Result(0xbad0_000a),
    {
        NVSDK_NGX_Result(0xbad0_000a)
    }

    /// `NVSDK_NGX_Result_FAIL_UnableToInitializeFeature`.
    #[verifier::allow_in_spec]
    pub fn fail_unable_to_initialize_feature() -> Self
        returns
            NVSDK_NGX_Result(0xbad0_000b),
    {
        NVSDK_NGX_Result(0xbad0_000b)
    }

    /// `NVSDK_NGX_Result_FAIL_OutOfDate`.
    #[verifier::allow_in_spec]
    pub fn fail_out_of_date() -> Self
        returns
            NVSDK_NGX_Result(0xbad0_000c),
    {
        NVSDK_NGX_Result(0xbad0_000c)
    }

    /// `NVSDK_NGX_Result_FAIL_OutOfGPUMemory`.
    #[verifier::allow_in_spec]
    pub fn fail_out_of_gpu_memory() -> Self
        returns
            NVSDK_NGX_Result(0xbad0_000d),
    {
        NVSDK_NGX_Result(0xbad0_000d)
    }

    /// `NVSDK_NGX_Result_FAIL_UnsupportedFormat`.
    #[verifier::allow_in_spec]
    pub fn fail_unsupported_format() -> Self
        returns
            NVSDK_NGX_Result(0xbad0_000e),
    {
        NVSDK_NGX_Result(0xbad0_000e)
    }

    /// `NVSDK_NGX_Result_FAIL_UnableToWriteToAppDataPath`.
    #[verifier::allow_in_spec]
    pub fn fail_unable_to_write_to_app_data_path() -> Self
        returns
            NVSDK_NGX_Result(0xbad0_000f),
    {
        NVSDK_NGX_Result(0xbad0_000f)
    }

    /// `NVSDK_NGX_Result_FAIL_UnsupportedParameter`.
    #[verifier::allow_in_spec]
    pub fn fail_unsupported_parameter() -> Self
        returns
            NVSDK_NGX_Result(0xbad0_0010),
    {
        NVSDK_NGX_Result(0xbad0_0010)
    }

    /// `NVSDK_NGX_Result_FAIL_Denied`.
    #[verifier::allow_in_spec]
    pub fn fail_denied() -> Self
        returns
            NVSDK_NGX_Result(0xbad0_0011),
    {
        NVSDK_NGX_Result(0xbad0_0011)
    }

    /// `NVSDK_NGX_Result_FAIL_NotImplemented`.
    #[verifier::allow_in_spec]
    pub fn fail_not_implemented() -> Self
        returns
            NVSDK_NGX_Result(0xbad0_0012),
    {
        NVSDK_NGX_Result(0xbad0_0012)
    }

    /// Whether this code has a symbolic name.
    pub open spec fn is_named(self) -> bool {
        ||| self == Self::success()
        ||| self == Self::fail()
        ||| self == Self::fail_feature_not_supported()
        ||| self == Self::fail_platform_error()
        ||| self == Self::fail_feature_already_exists()
        ||| self == Self::fail_feature_not_found()
        ||| self == Self::fail_invalid_parameter()
        ||| self == Self::fail_scratch_buffer_too_small()
        ||| self == Self::fail_not_initialized()
        ||| self == Self::fail_unsupported_input_format()
        ||| self == Self::fail_rw_flag_missing()
        ||| self == Self::fail_missing_input()
        ||| self == Self::fail_unable_to_initialize_feature()
        ||| self == Self::fail_out_of_date()
        ||| self == Self::fail_out_of_gpu_memory()
        ||| self == Self::fail_unsupported_format()
        ||| self == Self::fail_unable_to_write_to_app_data_path()
        ||| self == Self::fail_unsupported_parameter()
        ||| self == Self::fail_denied()
        ||| self == Self::fail_not_implemented()
    }

    /// The symbolic name of this code, or what messages say where it has none.
    pub open spec fn symbolic_name(self) -> Seq<char> {
        if self == Self::success() {
            "Success"@
        } else if self == Self::fail() {
            "Fail"@
        } else if self == Self::fail_feature_not_supported() {
            "FAIL_FeatureNotSupported"@
        } else if self == Self::fail_platform_error() {
            "FAIL_PlatformError"@
        } else if self == Self::fail_feature_already_exists() {
            "FAIL_FeatureAlreadyExists"@
        } else if self == Self::fail_feature_not_found() {
            "FAIL_FeatureNotFound"@
        } else if self == Self::fail_invalid_parameter() {
            "FAIL_InvalidParameter"@
        } else if self == Self::fail_scratch_buffer_too_small() {
            "FAIL_ScratchBufferTooSmall"@
        } else if self == Self::fail_not_initialized() {
            "FAIL_NotInitialized"@
        } else if self == Self::fail_unsupported_input_format() {
            "FAIL_UnsupportedInputFormat"@
        } else if self == Self::fail_rw_flag_missing() {
            "FAIL_RWFlagMissing"@
        } else if self == Self::fail_missing_input() {
            "FAIL_MissingInput"@
        } else if self == Self::fail_unable_to_initialize_feature() {
            "FAIL_UnableToInitializeFeature"@
        } else if self == Self::fail_out_of_date() {
            "FAIL_OutOfDate"@
        } else if self == Self::fail_out_of_gpu_memory() {
            "FAIL_OutOfGPUMemory"@
        } else if self == Self::fail_unsupported_format() {
            "FAIL_UnsupportedFormat"@
        } else if self == Self::fail_unable_to_write_to_app_data_path() {
            "FAIL_UnableToWriteToAppDataPath"@
        } else if self == Self::fail_unsupported_parameter() {
            "FAIL_UnsupportedParameter"@
        } else if self == Self::fail_denied() {
            "FAIL_Denied"@
        } else if self == Self::fail_not_implemented() {
            "FAIL_NotImplemented"@
        } else {
            "FAIL_Unknown"@
        }
    }

    /// How this code reads: its symbolic name, and its number in eight hexadecimal
    /// digits.
    pub open spec fn text(self) -> Seq<char> {
        "NVSDK_NGX_Result::"@ + self.symbolic_name() + "(0x"@ + hex_text(self.0 as int, 8) + ")"@
    }

    /// `Ok` for success, this code as the error otherwise.
    pub fn result(self) -> (r: DlssResult<()>)
        ensures
            r == (if self == Self::success() {
                Ok(())
            } else {
                Err(self)
            }),
    {
        self.result_with_success(())
    }

    /// `v` for success, this code as the error otherwise.
    pub fn result_with_success<T>(self, v: T) -> (r: DlssResult<T>)
        ensures
            r == (if self == Self::success() {
                Ok(v)
            } else {
                Err(self)
            }),
    {
        if self == Self::success() {
            Ok(v)
        } else {
            Err(self)
        }
    }

    /// Symbolic name from `nvsdk_ngx_defs.h`, or `None` for unrecognised codes.
    pub fn name(self) -> (r: Option<&'static str>)
        ensures
            r is Some <==> self.is_named(),
            r matches Some(text) ==> text@ == self.symbolic_name(),
    {
        if self == Self::success() {
            Some("Success")
        } else if self == Self::fail() {
            Some("Fail")
        } else if self == Self::fail_feature_not_supported() {
            Some("FAIL_FeatureNotSupported")
        } else if self == Self::fail_platform_error() {
            Some("FAIL_PlatformError")
        } else if self == Self::fail_feature_already_exists() {
            Some("FAIL_FeatureAlreadyExists")
        } else if self == Self::fail_feature_not_found() {
            Some("FAIL_FeatureNotFound")
        } else if self == Self::fail_invalid_parameter() {
            Some("FAIL_InvalidParameter")
        } else if self == Self::fail_scratch_buffer_too_small() {
            Some("FAIL_ScratchBufferTooSmall")
        } else if self == Self::fail_not_initialized() {
            Some("FAIL_NotInitialized")
        } else if self == Self::fail_unsupported_input_format() {
            Some("FAIL_UnsupportedInputFormat")
        } else if self == Self::fail_rw_flag_missing() {
            Some("FAIL_RWFlagMissing")
        } else if self == Self::fail_missing_input() {
            Some("FAIL_MissingInput")
        } else if self == Self::fail_unable_to_initialize_feature() {
            Some("FAIL_UnableToInitializeFeature")
        } else if self == Self::fail_out_of_date() {
            Some("FAIL_OutOfDate")
        } else if self == Self::fail_out_of_gpu_memory() {
            Some("FAIL_OutOfGPUMemory")
        } else if self == Self::fail_unsupported_format() {
            Some("FAIL_UnsupportedFormat")
        } else if self == Self::fail_unable_to_write_to_app_data_path() {
            Some("FAIL_UnableToWriteToAppDataPath")
        } else if self == Self::fail_unsupported_parameter() {
            Some("FAIL_UnsupportedParameter")
        } else if self == Self::fail_denied() {
            Some("FAIL_Denied")
        } else if self == Self::fail_not_implemented() {
            Some("FAIL_NotImplemented")
        } else {
            None
        }
    }

    /// The text that stands for this code in messages.
    pub fn message(self) -> (out: String)
        ensures
            out@ == self.text(),
    {
        let mut out = String::new();
        out.append("NVSDK_NGX_Result::");
        match self.name() {
            Some(name) => out.append(name),
            None => out.append("FAIL_Unknown"),
        }
        out.append("(0x");
        append_hex(&mut out, self.0, 8);
        out.append(")");
        assert(out@ =~= self.text());
        out
    }
}

proof fn lemma_hex_text_length(value: int, n: nat)
    ensures
        hex_text(value, n).len() == n,
    decreases n,
{
    if n > 0 {
        lemma_hex_text_length(value / 16, (n - 1) as nat);
    }
}

proof fn lemma_hex_text_is_faithful(a: int, b: int, n: nat)
    requires
        hex_text(a, n) == hex_text(b, n),
        0 <= a,
        0 <= b,
    ensures
        a % vstd::arithmetic::power::pow(16, n) == b % vstd::arithmetic::power::pow(16, n),
    decreases n,
{
    let p = vstd::arithmetic::power::pow(16, n);
    vstd::arithmetic::power::lemma_pow_positive(16, n);
    if n == 0 {
        vstd::arithmetic::power::lemma_pow0(16);
    } else {
        let k = (n - 1) as nat;
        let q = vstd::arithmetic::power::pow(16, k);
        vstd::arithmetic::power::lemma_pow_positive(16, k);
        assert(p == 16 * q) by {
            reveal(vstd::arithmetic::power::pow);
        }
        let (s, t) = (hex_text(a, n), hex_text(b, n));
        lemma_hex_text_length(a / 16, k);
        lemma_hex_text_length(b / 16, k);
        assert(s.drop_last() =~= hex_text(a / 16, k));
        assert(t.drop_last() =~= hex_text(b / 16, k));
        assert(s.last() == hex_char(a % 16) && t.last() == hex_char(b % 16));
        assert(a % 16 == b % 16);
        lemma_hex_text_is_faithful(a / 16, b / 16, k);
        vstd::arithmetic::div_mod::lemma_mod_breakdown(a, 16, q);
        vstd::arithmetic::div_mod::lemma_mod_breakdown(b, 16, q);
    }
}

/// A message tells the code: two codes with the same message are the same code.
pub proof fn law_message_tells_the_code(a: NVSDK_NGX_Result, b: NVSDK_NGX_Result)
    requires
        a.text() == b.text(),
    ensures
        a == b,
{
    reveal_strlit(")");
    lemma_hex_text_length(a.0 as int, 8);
    lemma_hex_text_length(b.0 as int, 8);
    let n = a.text().len() as int;
    assert(a.text().subrange(n - 9, n - 1) =~= hex_text(a.0 as int, 8));
    assert(b.text().subrange(n - 9, n - 1) =~= hex_text(b.0 as int, 8));
    lemma_hex_text_is_faithful(a.0 as int, b.0 as int, 8);
    assert(vstd::arithmetic::power::pow(16, 8) == 0x1_0000_0000) by {
        reveal_with_fuel(vstd::arithmetic::power::pow, 9);
    }
    vstd::arithmetic::div_mod::lemma_small_mod(a.0 as nat, 0x1_0000_0000);
    vstd::arithmetic::div_mod::lemma_small_mod(b.0 as nat, 0x1_0000_0000);
}

/// A symbolic name tells the code: no two codes share one, and none is what messages say
/// of a code without a name.
pub proof fn law_symbolic_names_are_distinct(a: NVSDK_NGX_Result, b: NVSDK_NGX_Result)
    requires
        a.symbolic_name() == b.symbolic_name(),
        a.is_named(),
    ensures
        a == b,
        a.symbolic_name() != "FAIL_Unknown"@,
{
    reveal_strlit("Success");
    reveal_strlit("Fail");
    reveal_strlit("FAIL_FeatureNotSupported");
    reveal_strlit("FAIL_PlatformError");
    reveal_strlit("FAIL_FeatureAlreadyExists");
    reveal_strlit("FAIL_FeatureNotFound");
    reveal_strlit("FAIL_InvalidParameter");
    reveal_strlit("FAIL_ScratchBufferTooSmall");
    reveal_strlit("FAIL_NotInitialized");
    reveal_strlit("FAIL_UnsupportedInputFormat");
    reveal_strlit("FAIL_RWFlagMissing");
    reveal_strlit("FAIL_MissingInput");
    reveal_strlit("FAIL_UnableToInitializeFeature");
    reveal_strlit("FAIL_OutOfDate");
    reveal_strlit("FAIL_OutOfGPUMemory");
    reveal_strlit("FAIL_UnsupportedFormat");
    reveal_strlit("FAIL_UnableToWriteToAppDataPath");
    reveal_strlit("FAIL_UnsupportedParameter");
    reveal_strlit("FAIL_Denied");
    reveal_strlit("FAIL_NotImplemented");
    reveal_strlit("FAIL_Unknown");
    // Length and tenth character together are different for every name.
    let (s, t) = (a.symbolic_name(), b.symbolic_name());
    assert(s.len() == t.len());
    assert(s.len() > 9 ==> s[9] == t[9]);
}

/// A feature of the NGX SDK.
#[derive(Clone, Copy, Debug, PartialEq, Eq, Hash, Structural)]
pub enum NVSDK_NGX_Feature {
    SuperSampling,
    RayReconstruction,
}

/// The engine that hosts NGX.
#[derive(Clone, Copy, Debug, PartialEq, Eq, Hash, Structural)]
pub enum NVSDK_NGX_EngineType {
    Custom,
    Unreal,
    Unity,
    Omniverse,
}

/// How an application identifies itself to NGX.
#[derive(Clone, Copy, Debug, PartialEq, Eq, Hash, Structural)]
pub enum NVSDK_NGX_Application_Identifier_Type {
    ApplicationId,
    ProjectId,
}

/// How much NGX logs.
#[derive(Clone, Copy, Debug, PartialEq, Eq, Hash, Structural)]
pub enum NVSDK_NGX_Logging_Level {
    Off,
    On,
    Verbose,
}

/// What an NGX resource is.
#[derive(Clone, Copy, Debug, PartialEq, Eq, Hash, Structural)]
pub enum NVSDK_NGX_Resource_VK_Type {
    ImageView,
    Buffer,
}

/// How far NGX trades quality for performance.
#[derive(Clone, Copy, Debug, PartialEq, Eq, Hash, Structural)]
pub enum NVSDK_NGX_PerfQuality_Value {
    MaxPerf,
    Balanced,
    MaxQuality,
    UltraPerformance,
    UltraQuality,
    DLAA,
}

/// How NGX denoises.
#[derive(Clone, Copy, Debug, PartialEq, Eq, Hash, Structural)]
pub enum NVSDK_NGX_DLSS_Denoise_Mode {
    Off,
    DLUnified,
}

/// Where NGX finds the roughness of a surface.
#[derive(Clone, Copy, Debug, PartialEq, Eq, Hash, Structural)]
pub enum NVSDK_NGX_DLSS_Roughness_Mode {
    /// In an image of its own.
    Unpacked,
    /// In the fourth channel of the normals.
    Packed,
}

/// What the depth image holds.
#[derive(Clone, Copy, Debug, PartialEq, Eq, Hash, Structural)]
pub enum NVSDK_NGX_DLSS_Depth_Type {
    Linear,
    HW,
}

/// The DLSS feature flags that this crate sets.
#[derive(Clone, Copy, Debug, PartialEq, Eq, Hash, Structural)]
pub struct NVSDK_NGX_DLSS_Feature_Flags {
    pub is_hdr: bool,
    pub mv_low_res: bool,
    pub mv_jittered: bool,
    pub depth_inverted: bool,
    pub auto_exposure: bool,
}

/// What a DLSS-RR feature is created from.
#[derive(Clone, Copy, Debug, PartialEq, Eq, Hash, Structural)]
pub struct NVSDK_NGX_DLSSD_Create_Params {
    pub in_denoise_mode: NVSDK_NGX_DLSS_Denoise_Mode,
    pub in_roughness_mode: NVSDK_NGX_DLSS_Roughness_Mode,
    pub in_use_hw_depth: NVSDK_NGX_DLSS_Depth_Type,
    pub in_width: u32,
    pub in_height: u32,
    pub in_target_width: u32,
    pub in_target_height: u32,
    pub in_perf_quality_value: NVSDK_NGX_PerfQuality_Value,
    pub in_feature_create_flags: NVSDK_NGX_DLSS_Feature_Flags,
    pub in_enable_output_subrects: bool,
}

/// An application, by its project.
#[derive(Debug)]
pub struct NVSDK_NGX_Application_Identifier {
    pub identifier_type: NVSDK_NGX_Application_Identifier_Type,
    pub project_id: Vec<u8>,
    pub engine_type: NVSDK_NGX_EngineType,
    pub engine_version: Vec<u8>,
}

/// Where NGX's log goes.
#[derive(Clone, Copy, Debug, PartialEq, Eq, Hash, Structural)]
pub struct NVSDK_NGX_LoggingInfo {
    /// Whether NGX hands its messages to this crate's callback.
    pub logging_callback: bool,
    pub minimum_logging_level: NVSDK_NGX_Logging_Level,
    pub disable_other_logging_sinks: bool,
}

/// What all of NGX's features share.
#[derive(Debug)]
pub struct NVSDK_NGX_FeatureCommonInfo {
    /// The directories, NUL-terminated, in which NGX looks for its libraries besides
    /// the application's own.
    pub path_list: Vec<Vec<WChar>>,
    pub logging_info: NVSDK_NGX_LoggingInfo,
}

/// What NGX is asked when a feature is discovered.
#[derive(Debug)]
pub struct NVSDK_NGX_FeatureDiscoveryInfo {
    pub sdk_version: u32,
    pub feature_id: NVSDK_NGX_Feature,
    pub identifier: NVSDK_NGX_Application_Identifier,
    /// NUL-terminated.
    pub application_data_path: Vec<WChar>,
    pub feature_info: Option<NVSDK_NGX_FeatureCommonInfo>,
}

/// An image view that NGX reads or writes.
#[derive(Clone, Copy, Debug, PartialEq, Eq, Hash, Structural)]
pub struct NVSDK_NGX_ImageViewInfo_VK {
    pub image_view: ImageView,
    pub image: Image,
    pub subresource_range: ImageSubresourceRange,
    pub format: Format,
    pub width: u32,
    pub height: u32,
}

/// A resource that NGX reads or writes.
#[derive(Clone, Copy, Debug, PartialEq, Eq, Hash, Structural)]
pub struct NVSDK_NGX_Resource_VK {
    pub resource: NVSDK_NGX_ImageViewInfo_VK,
    pub resource_type: NVSDK_NGX_Resource_VK_Type,
    pub read_write: bool,
}

/// A width and a height.
#[derive(Clone, Copy, Debug, PartialEq, Eq, Hash, Structural)]
pub struct NVSDK_NGX_Dimensions {
    pub width: u32,
    pub height: u32,
}

} // verus!
