//! The platform model: the supported operating-system variants,
//! architectures and subsystems, the alias tables that parse free-form
//! names, and the lookup tables mapping a (OS, architecture) pair to the
//! compatibility-library path, the shim object path and the minimum
//! OS version string.
//!
//! The lookup tables are total over the documented supported pairs and
//! fail closed — an unmapped pair yields `None`, never a nearby guess.

use vstd::prelude::*;
use vstd::string::StrSliceExecFns;
use vstd::string::StringExecFns;

use crate::error::{ThunkError, ThunkResult};
use crate::strutil::{
    eq_ignore_ascii_case, find_char, first_line, lower_seq, spec_first_line, spec_starts_with,
    spec_trim, str_eq, str_starts_with, str_trim, lemma_lower_seq_idempotent,
};

verus! {

/// A free-form name equals an alias up to ASCII case.
pub open spec fn matches_alias(s: Seq<char>, alias: Seq<char>) -> bool {
    lower_seq(s) == lower_seq(alias)
}

// ---------------------------------------------------------------------------
// Operating system variants
// ---------------------------------------------------------------------------

/// The closed set of legacy Windows versions a build can target.
#[derive(Debug, Clone, Copy, PartialEq, Eq, Structural)]
#[allow(non_camel_case_types)]
pub enum OS {
    WindowsXP,
    WindowsVista,
    Windows7,
    Windows8,
    Windows10,
    Windows10_20H1,
}

pub open spec fn is_xp_alias(s: Seq<char>) -> bool {
    matches_alias(s, "windows xp"@) || matches_alias(s, "winxp"@) || matches_alias(s, "xp"@)
        || matches_alias(s, "5.1"@) || matches_alias(s, "5.2"@) || matches_alias(s, "x"@)
        || matches_alias(s, "2600"@) || matches_alias(s, "3790"@) || matches_alias(s, "2003"@)
}

pub open spec fn is_vista_alias(s: Seq<char>) -> bool {
    matches_alias(s, "windows vista"@) || matches_alias(s, "winvista"@) || matches_alias(
        s,
        "vista"@,
    ) || matches_alias(s, "6.0"@) || matches_alias(s, "v"@) || matches_alias(s, "6000"@)
        || matches_alias(s, "2008"@)
}

pub open spec fn is_win7_alias(s: Seq<char>) -> bool {
    matches_alias(s, "windows 7"@) || matches_alias(s, "win7"@) || matches_alias(s, "7"@)
        || matches_alias(s, "6.1"@) || matches_alias(s, "7600"@) || matches_alias(s, "2008r2"@)
}

pub open spec fn is_win8_alias(s: Seq<char>) -> bool {
    matches_alias(s, "windows 8"@) || matches_alias(s, "win8"@) || matches_alias(s, "8"@)
        || matches_alias(s, "6.2"@) || matches_alias(s, "9200"@) || matches_alias(s, "2012"@)
}

pub open spec fn is_win10_alias(s: Seq<char>) -> bool {
    matches_alias(s, "windows 10"@) || matches_alias(s, "win10"@) || matches_alias(s, "10"@)
        || matches_alias(s, "10240"@) || matches_alias(s, "2016"@) || matches_alias(s, "2019"@)
}

pub open spec fn is_win10_20h1_alias(s: Seq<char>) -> bool {
    matches_alias(s, "windows 10 20h1"@) || matches_alias(s, "win10 20h1"@) || matches_alias(
        s,
        "20h1"@,
    ) || matches_alias(s, "19041"@) || matches_alias(s, "2020"@)
}

/// The name is an alias of some OS variant.
pub open spec fn is_known_os_alias(s: Seq<char>) -> bool {
    is_xp_alias(s) || is_vista_alias(s) || is_win7_alias(s) || is_win8_alias(s) || is_win10_alias(
        s,
    ) || is_win10_20h1_alias(s)
}

/// Which OS variant a free-form name denotes; an unrecognized name falls
/// back to the oldest supported variant as the safest legacy default.
pub open spec fn spec_os_from_str(s: Seq<char>) -> OS {
    if is_xp_alias(s) {
        OS::WindowsXP
    } else if is_vista_alias(s) {
        OS::WindowsVista
    } else if is_win7_alias(s) {
        OS::Windows7
    } else if is_win8_alias(s) {
        OS::Windows8
    } else if is_win10_alias(s) {
        OS::Windows10
    } else if is_win10_20h1_alias(s) {
        OS::Windows10_20H1
    } else {
        OS::WindowsXP
    }
}

fn xp_alias(text: &str) -> (r: bool)
    ensures
        r == is_xp_alias(text@),
{
    eq_ignore_ascii_case(text, "windows xp") || eq_ignore_ascii_case(text, "winxp")
        || eq_ignore_ascii_case(text, "xp") || eq_ignore_ascii_case(text, "5.1")
        || eq_ignore_ascii_case(text, "5.2") || eq_ignore_ascii_case(text, "x")
        || eq_ignore_ascii_case(text, "2600") || eq_ignore_ascii_case(text, "3790")
        || eq_ignore_ascii_case(text, "2003")
}

fn vista_alias(text: &str) -> (r: bool)
    ensures
        r == is_vista_alias(text@),
{
    eq_ignore_ascii_case(text, "windows vista") || eq_ignore_ascii_case(text, "winvista")
        || eq_ignore_ascii_case(text, "vista") || eq_ignore_ascii_case(text, "6.0")
        || eq_ignore_ascii_case(text, "v") || eq_ignore_ascii_case(text, "6000")
        || eq_ignore_ascii_case(text, "2008")
}

fn win7_alias(text: &str) -> (r: bool)
    ensures
        r == is_win7_alias(text@),
{
    eq_ignore_ascii_case(text, "windows 7") || eq_ignore_ascii_case(text, "win7")
        || eq_ignore_ascii_case(text, "7") || eq_ignore_ascii_case(text, "6.1")
        || eq_ignore_ascii_case(text, "7600") || eq_ignore_ascii_case(text, "2008r2")
}

fn win8_alias(text: &str) -> (r: bool)
    ensures
        r == is_win8_alias(text@),
{
    eq_ignore_ascii_case(text, "windows 8") || eq_ignore_ascii_case(text, "win8")
        || eq_ignore_ascii_case(text, "8") || eq_ignore_ascii_case(text, "6.2")
        || eq_ignore_ascii_case(text, "9200") || eq_ignore_ascii_case(text, "2012")
}

fn win10_alias(text: &str) -> (r: bool)
    ensures
        r == is_win10_alias(text@),
{
    eq_ignore_ascii_case(text, "windows 10") || eq_ignore_ascii_case(text, "win10")
        || eq_ignore_ascii_case(text, "10") || eq_ignore_ascii_case(text, "10240")
        || eq_ignore_ascii_case(text, "2016") || eq_ignore_ascii_case(text, "2019")
}

fn win10_20h1_alias(text: &str) -> (r: bool)
    ensures
        r == is_win10_20h1_alias(text@),
{
    eq_ignore_ascii_case(text, "windows 10 20h1") || eq_ignore_ascii_case(text, "win10 20h1")
        || eq_ignore_ascii_case(text, "20h1") || eq_ignore_ascii_case(text, "19041")
        || eq_ignore_ascii_case(text, "2020")
}

impl OS {
    /// Parse a free-form OS name, ignoring ASCII case; unrecognized names
    /// fall back to Windows XP, the oldest supported variant.
    pub fn from_str(text: &str) -> (r: OS)
        ensures
            r == spec_os_from_str(text@),
    {
        if xp_alias(text) {
            OS::WindowsXP
        } else if vista_alias(text) {
            OS::WindowsVista
        } else if win7_alias(text) {
            OS::Windows7
        } else if win8_alias(text) {
            OS::Windows8
        } else if win10_alias(text) {
            OS::Windows10
        } else if win10_20h1_alias(text) {
            OS::Windows10_20H1
        } else {
            OS::WindowsXP
        }
    }

    /// The variant's display name.
    pub open spec fn spec_name(self) -> Seq<char> {
        match self {
            OS::WindowsXP => "XP"@,
            OS::WindowsVista => "Vista"@,
            OS::Windows7 => "7"@,
            OS::Windows8 => "8"@,
            OS::Windows10 => "10"@,
            OS::Windows10_20H1 => "10_20h1"@,
        }
    }

    /// The variant's display name.
    pub fn to_string(&self) -> (r: String)
        ensures
            r@ == self.spec_name(),
    {
        match self {
            OS::WindowsXP => String::from_str("XP"),
            OS::WindowsVista => String::from_str("Vista"),
            OS::Windows7 => String::from_str("7"),
            OS::Windows8 => String::from_str("8"),
            OS::Windows10 => String::from_str("10"),
            OS::Windows10_20H1 => String::from_str("10_20h1"),
        }
    }
}

/// The variant's display name in lower case, as used in build directory
/// names.
pub(crate) fn os_build_tag(os: OS) -> (r: &'static str)
    ensures
        r@ == lower_seq(os.spec_name()),
{
    proof {
        reveal_strlit("XP");
        reveal_strlit("xp");
        reveal_strlit("Vista");
        reveal_strlit("vista");
        reveal_strlit("7");
        reveal_strlit("8");
        reveal_strlit("10");
        reveal_strlit("10_20h1");
    }
    match os {
        OS::WindowsXP => {
            proof {
                assert(lower_seq("XP"@) =~= "xp"@);
            }
            "xp"
        },
        OS::WindowsVista => {
            proof {
                assert(lower_seq("Vista"@) =~= "vista"@);
            }
            "vista"
        },
        OS::Windows7 => {
            proof {
                assert(lower_seq("7"@) =~= "7"@);
            }
            "7"
        },
        OS::Windows8 => {
            proof {
                assert(lower_seq("8"@) =~= "8"@);
            }
            "8"
        },
        OS::Windows10 => {
            proof {
                assert(lower_seq("10"@) =~= "10"@);
            }
            "10"
        },
        OS::Windows10_20H1 => {
            proof {
                assert(lower_seq("10_20h1"@) =~= "10_20h1"@);
            }
            "10_20h1"
        },
    }
}

// ---------------------------------------------------------------------------
// Architectures
// ---------------------------------------------------------------------------

/// The closed set of target architectures.
#[derive(Debug, Clone, Copy, PartialEq, Eq, Structural)]
pub enum Arch {
    Win32,
    X64,
    ARM,
    ARM64,
}

pub open spec fn is_win32_alias(s: Seq<char>) -> bool {
    matches_alias(s, "win32"@) || matches_alias(s, "32"@) || matches_alias(s, "x86"@)
        || matches_alias(s, "86"@) || matches_alias(s, "i686"@) || matches_alias(s, "x32"@)
        || matches_alias(s, "3"@) || matches_alias(s, "8"@)
}

pub open spec fn is_x64_alias(s: Seq<char>) -> bool {
    matches_alias(s, "6"@) || matches_alias(s, "64"@) || matches_alias(s, "x64"@)
        || matches_alias(s, "x86_64"@) || matches_alias(s, "x8664"@) || matches_alias(s, "amd64"@)
}

pub open spec fn is_arm_alias(s: Seq<char>) -> bool {
    matches_alias(s, "arm"@) || matches_alias(s, "a"@) || matches_alias(s, "ar"@)
}

pub open spec fn is_arm64_alias(s: Seq<char>) -> bool {
    matches_alias(s, "aarch64"@) || matches_alias(s, "arm64"@) || matches_alias(s, "a64"@)
        || matches_alias(s, "ar64"@)
}

/// The name is an alias of some architecture.
pub open spec fn is_known_arch_alias(s: Seq<char>) -> bool {
    is_win32_alias(s) || is_x64_alias(s) || is_arm_alias(s) || is_arm64_alias(s)
}

/// Which architecture a free-form name denotes; unrecognized names fall
/// back to 32-bit x86, the oldest supported architecture.
pub open spec fn spec_arch_from_str(s: Seq<char>) -> Arch {
    if is_win32_alias(s) {
        Arch::Win32
    } else if is_x64_alias(s) {
        Arch::X64
    } else if is_arm_alias(s) {
        Arch::ARM
    } else if is_arm64_alias(s) {
        Arch::ARM64
    } else {
        Arch::Win32
    }
}

/// Which architecture a compiler target triple denotes; only the three
/// MSVC triples are accepted, anything else is an error.
pub open spec fn spec_arch_from_rust_target(s: Seq<char>) -> ThunkResult<Arch> {
    if matches_alias(s, "i686-pc-windows-msvc"@) {
        Ok(Arch::Win32)
    } else if matches_alias(s, "x86_64-pc-windows-msvc"@) {
        Ok(Arch::X64)
    } else if matches_alias(s, "aarch64-pc-windows-msvc"@) {
        Ok(Arch::ARM64)
    } else {
        Err(ThunkError::UnsupportedArch)
    }
}

/// Which architecture a compiler-provided architecture name (as a build
/// script sees it) denotes; the set is closed and anything else is an
/// error, never a nearby substitute.
pub open spec fn spec_arch_from_target_arch(s: Seq<char>) -> ThunkResult<Arch> {
    if s == "x86"@ {
        Ok(Arch::Win32)
    } else if s == "x86_64"@ {
        Ok(Arch::X64)
    } else if s == "aarch64"@ {
        Ok(Arch::ARM64)
    } else {
        Err(ThunkError::UnsupportedArch)
    }
}

/// The target triple an architecture compiles for, when one exists.
pub open spec fn spec_rust_target(arch: Arch) -> Option<Seq<char>> {
    match arch {
        Arch::Win32 => Some("i686-pc-windows-msvc"@),
        Arch::X64 => Some("x86_64-pc-windows-msvc"@),
        Arch::ARM64 => Some("aarch64-pc-windows-msvc"@),
        Arch::ARM => None,
    }
}

impl Arch {
    /// Parse a free-form architecture name, ignoring ASCII case;
    /// unrecognized names fall back to 32-bit x86.
    pub fn from_str(text: &str) -> (r: Arch)
        ensures
            r == spec_arch_from_str(text@),
    {
        if eq_ignore_ascii_case(text, "win32") || eq_ignore_ascii_case(text, "32")
            || eq_ignore_ascii_case(text, "x86") || eq_ignore_ascii_case(text, "86")
            || eq_ignore_ascii_case(text, "i686") || eq_ignore_ascii_case(text, "x32")
            || eq_ignore_ascii_case(text, "3") || eq_ignore_ascii_case(text, "8") {
            Arch::Win32
        } else if eq_ignore_ascii_case(text, "6") || eq_ignore_ascii_case(text, "64")
            || eq_ignore_ascii_case(text, "x64") || eq_ignore_ascii_case(text, "x86_64")
            || eq_ignore_ascii_case(text, "x8664") || eq_ignore_ascii_case(text, "amd64") {
            Arch::X64
        } else if eq_ignore_ascii_case(text, "arm") || eq_ignore_ascii_case(text, "a")
            || eq_ignore_ascii_case(text, "ar") {
            Arch::ARM
        } else if eq_ignore_ascii_case(text, "aarch64") || eq_ignore_ascii_case(text, "arm64")
            || eq_ignore_ascii_case(text, "a64") || eq_ignore_ascii_case(text, "ar64") {
            Arch::ARM64
        } else {
            Arch::Win32
        }
    }

    /// Parse a compiler target triple, ignoring ASCII case.
    pub fn from_rust_target(host: &str) -> (r: ThunkResult<Arch>)
        ensures
            r == spec_arch_from_rust_target(host@),
    {
        if eq_ignore_ascii_case(host, "i686-pc-windows-msvc") {
            Ok(Arch::Win32)
        } else if eq_ignore_ascii_case(host, "x86_64-pc-windows-msvc") {
            Ok(Arch::X64)
        } else if eq_ignore_ascii_case(host, "aarch64-pc-windows-msvc") {
            Ok(Arch::ARM64)
        } else {
            Err(ThunkError::UnsupportedArch)
        }
    }

    /// Parse a compiler-provided architecture name, such as a build
    /// script reads from its environment.  Exact match against the
    /// closed set; anything else fails.
    pub fn from_target_arch(target_arch: &str) -> (r: ThunkResult<Arch>)
        ensures
            r == spec_arch_from_target_arch(target_arch@),
    {
        if str_eq(target_arch, "x86") {
            Ok(Arch::Win32)
        } else if str_eq(target_arch, "x86_64") {
            Ok(Arch::X64)
        } else if str_eq(target_arch, "aarch64") {
            Ok(Arch::ARM64)
        } else {
            Err(ThunkError::UnsupportedArch)
        }
    }

    /// The architecture's display name.
    pub open spec fn spec_name(self) -> Seq<char> {
        match self {
            Arch::Win32 => "Win32"@,
            Arch::X64 => "x64"@,
            Arch::ARM64 => "ARM64"@,
            Arch::ARM => "ARM"@,
        }
    }

    /// The architecture's display name.
    pub fn to_string(&self) -> (r: String)
        ensures
            r@ == self.spec_name(),
    {
        match self {
            Arch::Win32 => String::from_str("Win32"),
            Arch::X64 => String::from_str("x64"),
            Arch::ARM64 => String::from_str("ARM64"),
            Arch::ARM => String::from_str("ARM"),
        }
    }

    /// The target triple this architecture compiles for; 32-bit ARM has
    /// no supported toolchain target.
    pub fn to_rust_target(&self) -> (r: Option<String>)
        ensures
            match r {
                Some(t) => spec_rust_target(*self) == Some(t@),
                None => spec_rust_target(*self) is None,
            },
    {
        match self {
            Arch::Win32 => Some(String::from_str("i686-pc-windows-msvc")),
            Arch::X64 => Some(String::from_str("x86_64-pc-windows-msvc")),
            Arch::ARM64 => Some(String::from_str("aarch64-pc-windows-msvc")),
            Arch::ARM => None,
        }
    }
}

// ---------------------------------------------------------------------------
// Subsystems
// ---------------------------------------------------------------------------

/// The linked binary's execution context.
#[derive(Debug, Clone, Copy, PartialEq, Eq, Structural)]
pub enum Subsystem {
    Windows,
    Console,
}

pub open spec fn is_windows_subsystem_alias(s: Seq<char>) -> bool {
    matches_alias(s, "window"@) || matches_alias(s, "windows"@) || matches_alias(s, "win"@)
        || matches_alias(s, "w"@) || matches_alias(s, "gui"@) || matches_alias(s, "g"@)
        || matches_alias(s, "ui"@) || matches_alias(s, "u"@)
}

pub open spec fn is_console_subsystem_alias(s: Seq<char>) -> bool {
    matches_alias(s, "console"@) || matches_alias(s, "command"@) || matches_alias(s, "line"@)
        || matches_alias(s, "c"@)
}

/// The name is an alias of some subsystem.
pub open spec fn is_known_subsystem_alias(s: Seq<char>) -> bool {
    is_windows_subsystem_alias(s) || is_console_subsystem_alias(s)
}

/// Which subsystem a free-form name denotes; unrecognized names fall back
/// to the console subsystem.
pub open spec fn spec_subsystem_from_str(s: Seq<char>) -> Subsystem {
    if is_windows_subsystem_alias(s) {
        Subsystem::Windows
    } else if is_console_subsystem_alias(s) {
        Subsystem::Console
    } else {
        Subsystem::Console
    }
}

impl Subsystem {
    /// Parse a free-form subsystem name, ignoring ASCII case;
    /// unrecognized names fall back to the console subsystem.
    pub fn from_str(subsystem: &str) -> (r: Subsystem)
        ensures
            r == spec_subsystem_from_str(subsystem@),
    {
        if eq_ignore_ascii_case(subsystem, "window") || eq_ignore_ascii_case(subsystem, "windows")
            || eq_ignore_ascii_case(subsystem, "win") || eq_ignore_ascii_case(subsystem, "w")
            || eq_ignore_ascii_case(subsystem, "gui") || eq_ignore_ascii_case(subsystem, "g")
            || eq_ignore_ascii_case(subsystem, "ui") || eq_ignore_ascii_case(subsystem, "u") {
            Subsystem::Windows
        } else {
            Subsystem::Console
        }
    }

    /// The name the linker's subsystem switch expects.
    pub open spec fn spec_name(self) -> Seq<char> {
        match self {
            Subsystem::Windows => "WINDOWS"@,
            Subsystem::Console => "CONSOLE"@,
        }
    }

    /// The name the linker's subsystem switch expects.
    pub fn to_string(&self) -> (r: String)
        ensures
            r@ == self.spec_name(),
    {
        match self {
            Subsystem::Windows => String::from_str("WINDOWS"),
            Subsystem::Console => String::from_str("CONSOLE"),
        }
    }
}

// ---------------------------------------------------------------------------
// The platform tables
// ---------------------------------------------------------------------------

/// The compatibility library ships a snapshot for this (OS, architecture)
/// pair.
pub open spec fn vc_ltl_supported(os: OS, arch: Arch) -> bool {
    match (os, arch) {
        (OS::WindowsXP, Arch::Win32) => true,
        (OS::WindowsXP, Arch::X64) => true,
        (OS::WindowsVista, Arch::Win32) => true,
        (OS::WindowsVista, Arch::X64) => true,
        (OS::Windows7, Arch::Win32) => true,
        (OS::Windows7, Arch::X64) => true,
        (OS::Windows8, Arch::Win32) => true,
        (OS::Windows8, Arch::X64) => true,
        (OS::Windows8, Arch::ARM) => true,
        (OS::Windows10, _) => true,
        (OS::Windows10_20H1, _) => true,
        _ => false,
    }
}

/// The platform directory of the compatibility-library snapshot for the
/// pair.  Vista and Windows 7 deliberately share one snapshot.
pub open spec fn spec_vc_ltl_dir(os: OS, arch: Arch) -> Option<Seq<char>> {
    match (os, arch) {
        (OS::WindowsXP, Arch::Win32) => Some("5.1.2600.0"@),
        (OS::WindowsXP, Arch::X64) => Some("5.2.3790.0"@),
        (OS::WindowsVista, Arch::Win32) => Some("6.0.6000.0"@),
        (OS::WindowsVista, Arch::X64) => Some("6.0.6000.0"@),
        (OS::Windows7, Arch::Win32) => Some("6.0.6000.0"@),
        (OS::Windows7, Arch::X64) => Some("6.0.6000.0"@),
        (OS::Windows8, Arch::Win32) => Some("6.2.9200.0"@),
        (OS::Windows8, Arch::X64) => Some("6.2.9200.0"@),
        (OS::Windows8, Arch::ARM) => Some("6.2.9200.0"@),
        (OS::Windows10, _) => Some("10.0.10240.0"@),
        (OS::Windows10_20H1, _) => Some("10.0.19041.0"@),
        _ => None,
    }
}

/// The architecture directory inside a compatibility-library snapshot.
/// The newest snapshot names its x64 directory with a capital X, as the
/// upstream archive does.
pub open spec fn spec_vc_ltl_arch_dir(os: OS, arch: Arch) -> Seq<char> {
    if os == OS::Windows10_20H1 && arch == Arch::X64 {
        "X64"@
    } else {
        match arch {
            Arch::Win32 => "Win32"@,
            Arch::X64 => "x64"@,
            Arch::ARM => "ARM"@,
            Arch::ARM64 => "ARM64"@,
        }
    }
}

/// The library search path for the pair, relative to the
/// compatibility-library root.
pub open spec fn spec_vc_ltl_lib_path(os: OS, arch: Arch) -> Option<Seq<char>> {
    match spec_vc_ltl_dir(os, arch) {
        Some(dir) => Some("TargetPlatform/"@ + dir + "/lib/"@ + spec_vc_ltl_arch_dir(os, arch)),
        None => None,
    }
}

fn vc_ltl_version_dir(os: OS, arch: Arch) -> (r: Option<&'static str>)
    ensures
        match r {
            Some(d) => spec_vc_ltl_dir(os, arch) == Some(d@),
            None => spec_vc_ltl_dir(os, arch) is None,
        },
{
    match (os, arch) {
        (OS::WindowsXP, Arch::Win32) => Some("5.1.2600.0"),
        (OS::WindowsXP, Arch::X64) => Some("5.2.3790.0"),
        (OS::WindowsVista, Arch::Win32) => Some("6.0.6000.0"),
        (OS::WindowsVista, Arch::X64) => Some("6.0.6000.0"),
        (OS::Windows7, Arch::Win32) => Some("6.0.6000.0"),
        (OS::Windows7, Arch::X64) => Some("6.0.6000.0"),
        (OS::Windows8, Arch::Win32) => Some("6.2.9200.0"),
        (OS::Windows8, Arch::X64) => Some("6.2.9200.0"),
        (OS::Windows8, Arch::ARM) => Some("6.2.9200.0"),
        (OS::Windows10, _) => Some("10.0.10240.0"),
        (OS::Windows10_20H1, _) => Some("10.0.19041.0"),
        _ => None,
    }
}

fn vc_ltl_arch_dir(os: OS, arch: Arch) -> (r: &'static str)
    ensures
        r@ == spec_vc_ltl_arch_dir(os, arch),
{
    if os == OS::Windows10_20H1 && arch == Arch::X64 {
        "X64"
    } else {
        match arch {
            Arch::Win32 => "Win32",
            Arch::X64 => "x64",
            Arch::ARM => "ARM",
            Arch::ARM64 => "ARM64",
        }
    }
}

/// The compatibility-library search path for the pair, relative to the
/// library root, or `None` when the pair ships no snapshot.
pub fn get_vc_ltl_os_lib_path(os: OS, arch: Arch) -> (r: Option<String>)
    ensures
        match r {
            Some(p) => spec_vc_ltl_lib_path(os, arch) == Some(p@),
            None => spec_vc_ltl_lib_path(os, arch) is None,
        },
{
    match vc_ltl_version_dir(os, arch) {
        None => None,
        Some(dir) => Some(
            String::from_str("TargetPlatform/").concat(dir).concat("/lib/").concat(
                vc_ltl_arch_dir(os, arch),
            ),
        ),
    }
}

/// The legacy shim ships an object for this (OS, architecture) pair;
/// only x86 and x64 builds of XP and Vista are shimmed.
pub open spec fn yy_thunks_supported(os: OS, arch: Arch) -> bool {
    (os == OS::WindowsXP || os == OS::WindowsVista) && (arch == Arch::Win32 || arch == Arch::X64)
}

/// The architecture directory inside the shim object archive.
pub open spec fn spec_yy_arch_tag(arch: Arch) -> Seq<char> {
    match arch {
        Arch::Win32 => "x86"@,
        _ => "x64"@,
    }
}

/// The platform tag in a shim object's file name.
pub open spec fn spec_yy_os_tag(os: OS) -> Seq<char> {
    match os {
        OS::WindowsXP => "WinXP"@,
        _ => "Vista"@,
    }
}

/// The shim object path for the pair, relative to the shim archive root.
pub open spec fn spec_yy_obj_path(os: OS, arch: Arch) -> Option<Seq<char>> {
    if yy_thunks_supported(os, arch) {
        Some("objs/"@ + spec_yy_arch_tag(arch) + "/YY_Thunks_for_"@ + spec_yy_os_tag(os) + ".obj"@)
    } else {
        None
    }
}

/// The legacy-shim object path for the pair, relative to the shim archive
/// root, or `None` when the pair is not shimmed.
pub fn get_yy_thunks_obj_path(os: OS, arch: Arch) -> (r: Option<String>)
    ensures
        match r {
            Some(p) => spec_yy_obj_path(os, arch) == Some(p@),
            None => spec_yy_obj_path(os, arch) is None,
        },
{
    let os_tag = match os {
        OS::WindowsXP => "WinXP",
        OS::WindowsVista => "Vista",
        _ => {
            return None;
        },
    };
    let arch_tag = match arch {
        Arch::Win32 => "x86",
        Arch::X64 => "x64",
        _ => {
            return None;
        },
    };
    Some(
        String::from_str("objs/").concat(arch_tag).concat("/YY_Thunks_for_").concat(
            os_tag,
        ).concat(".obj"),
    )
}

/// The minimum OS version the linker should stamp for the pair.
pub open spec fn spec_os_version(os: OS, arch: Arch) -> Option<Seq<char>> {
    match (os, arch) {
        (OS::WindowsXP, Arch::Win32) => Some("5.01"@),
        (OS::WindowsXP, Arch::X64) => Some("5.02"@),
        (OS::WindowsVista, _) => Some("6.00"@),
        (OS::Windows7, _) => Some("6.01"@),
        (OS::Windows8, _) => Some("6.02"@),
        (OS::Windows10, _) => Some("10.0"@),
        (OS::Windows10_20H1, _) => Some("10.0"@),
        _ => None,
    }
}

/// The minimum OS version string for the pair, or `None` for an XP build
/// on an architecture XP never shipped.
pub fn get_os_version(os: OS, arch: Arch) -> (r: Option<String>)
    ensures
        match r {
            Some(v) => spec_os_version(os, arch) == Some(v@),
            None => spec_os_version(os, arch) is None,
        },
{
    match (os, arch) {
        (OS::WindowsXP, Arch::Win32) => Some(String::from_str("5.01")),
        (OS::WindowsXP, Arch::X64) => Some(String::from_str("5.02")),
        (OS::WindowsVista, _) => Some(String::from_str("6.00")),
        (OS::Windows7, _) => Some(String::from_str("6.01")),
        (OS::Windows8, _) => Some(String::from_str("6.02")),
        (OS::Windows10, _) => Some(String::from_str("10.0")),
        (OS::Windows10_20H1, _) => Some(String::from_str("10.0")),
        _ => None,
    }
}

// ---------------------------------------------------------------------------
// Reading the target from caller-supplied values
// ---------------------------------------------------------------------------

/// The value assigned in a `flag=value` argument: the characters between
/// the first `=` and the next `=` or the end.
pub open spec fn spec_assigned_value(s: Seq<char>) -> Seq<char> {
    match s.index_of_first('=') {
        Some(i) => {
            let rest = s.subrange(i + 1, s.len() as int);
            match rest.index_of_first('=') {
                Some(j) => rest.subrange(0, j),
                None => rest,
            }
        },
        None => Seq::empty(),
    }
}

/// The target triple named by a cargo argument list: the value of the
/// first `--target=...` argument, or the argument following a bare
/// `--target`-prefixed one.
pub open spec fn spec_target_host(args: Seq<Seq<char>>, has_target: bool) -> Option<Seq<char>>
    decreases args.len(),
{
    if args.len() == 0 {
        None
    } else {
        let a = args[0];
        if spec_starts_with(a, "--target"@) {
            if a.contains('=') {
                Some(spec_assigned_value(a))
            } else {
                spec_target_host(args.drop_first(), true)
            }
        } else if has_target {
            Some(a)
        } else {
            spec_target_host(args.drop_first(), false)
        }
    }
}

/// Which architecture a cargo argument list selects.
pub open spec fn spec_arch_from_args(args: Seq<Seq<char>>) -> ThunkResult<Arch> {
    match spec_target_host(args, false) {
        Some(h) => spec_arch_from_rust_target(h),
        None => Err(ThunkError::UnsupportedArch),
    }
}

/// The architecture selected by a cargo argument list through its
/// `--target` flag, or an error when the list names none.
pub fn get_arch_from_args(args: &Vec<String>) -> (r: ThunkResult<Arch>)
    ensures
        r == spec_arch_from_args(args.deep_view()),
{
    let ghost all: Seq<Seq<char>> = args.deep_view();
    let mut host: Option<String> = None;
    let mut has_target = false;
    let mut i: usize = 0;
    proof {
        assert(all.skip(0) =~= all);
    }
    while i < args.len() && host.is_none()
        invariant
            i <= args.len(),
            all == args.deep_view(),
            match host {
                Some(h) => spec_target_host(all, false) == Some(h@),
                None => spec_target_host(all.skip(i as int), has_target) == spec_target_host(
                    all,
                    false,
                ),
            },
        decreases args.len() - i,
    {
        let a: &str = args[i].as_str();
        proof {
            assert(all.skip(i as int)[0] == a@);
            assert(all.skip(i as int).drop_first() =~= all.skip(i + 1 as int));
        }
        if str_starts_with(a, "--target") {
            match find_char(a, '=') {
                Some(eq_pos) => {
                    proof {
                        assert(a@.contains('='));
                    }
                    let n = a.unicode_len();
                    let rest = a.substring_char(eq_pos + 1, n);
                    let value = match find_char(rest, '=') {
                        Some(j) => rest.substring_char(0, j),
                        None => rest,
                    };
                    host = Some(String::from_str(value));
                },
                None => {
                    has_target = true;
                },
            }
        } else if has_target {
            host = Some(String::from_str(a));
        }
        i += 1;
    }
    match host {
        Some(h) => Arch::from_rust_target(h.as_str()),
        None => {
            proof {
                assert(all.skip(args.len() as int) =~= Seq::<Seq<char>>::empty());
            }
            Err(ThunkError::UnsupportedArch)
        },
    }
}

/// Which architecture a pass uses, in order of authority: a valid
/// `--target` among the pass-through arguments wins, then the explicit
/// choice, then the host's default (itself already a parse result).
pub open spec fn spec_choose_arch(
    args: Seq<Seq<char>>,
    explicit: Option<Arch>,
    default_host: ThunkResult<Arch>,
) -> ThunkResult<Arch> {
    match spec_arch_from_args(args) {
        Ok(a) => Ok(a),
        Err(_) => match explicit {
            Some(a) => Ok(a),
            None => default_host,
        },
    }
}

/// Choose the architecture of a pass: the pass-through arguments first,
/// then the explicit choice, then the host's default.
pub fn choose_arch(args: &Vec<String>, explicit: Option<Arch>, default_host: ThunkResult<Arch>) -> (r:
    ThunkResult<Arch>)
    ensures
        r == spec_choose_arch(args.deep_view(), explicit, default_host),
{
    match get_arch_from_args(args) {
        Ok(a) => Ok(a),
        Err(_) => match explicit {
            Some(a) => Ok(a),
            None => default_host,
        },
    }
}

/// The argument list asks for a library build.
pub open spec fn spec_is_lib_from_args(args: Seq<Seq<char>>) -> bool {
    exists|k: int| 0 <= k < args.len() && args[k] == "--lib"@
}

/// Whether the cargo argument list contains the `--lib` flag.
pub fn get_is_lib_from_args(args: &Vec<String>) -> (r: bool)
    ensures
        r == spec_is_lib_from_args(args.deep_view()),
{
    let mut i: usize = 0;
    while i < args.len()
        invariant
            i <= args.len(),
            forall|j: int| 0 <= j < i ==> args.deep_view()[j] != "--lib"@,
        decreases args.len() - i,
    {
        if str_eq(args[i].as_str(), "--lib") {
            proof {
                assert(args.deep_view()[i as int] == "--lib"@);
            }
            return true;
        }
        i += 1;
    }
    false
}

/// The host architecture named by the first line of a toolchain query's
/// output: the trimmed text between the line's first colon and its next
/// colon or end, read as a target triple.
pub open spec fn spec_default_arch(output: Seq<char>) -> ThunkResult<Arch> {
    let line = spec_first_line(output);
    match line.index_of_first(':') {
        Some(i) => {
            let rest = line.subrange(i + 1, line.len() as int);
            let host = match rest.index_of_first(':') {
                Some(j) => rest.subrange(0, j),
                None => rest,
            };
            spec_arch_from_rust_target(spec_trim(host))
        },
        None => Err(ThunkError::UnsupportedArch),
    }
}

/// The default host architecture, parsed from the output of the
/// toolchain's `show` query (its first line reads `Default host: <triple>`).
pub fn get_default_arch(rustup_show: &str) -> (r: ThunkResult<Arch>)
    ensures
        r == spec_default_arch(rustup_show@),
{
    let line = first_line(rustup_show);
    match find_char(line, ':') {
        Some(i) => {
            let n = line.unicode_len();
            let rest = line.substring_char(i + 1, n);
            let host = match find_char(rest, ':') {
                Some(j) => rest.substring_char(0, j),
                None => rest,
            };
            Arch::from_rust_target(str_trim(host))
        },
        None => Err(ThunkError::UnsupportedArch),
    }
}

// ---------------------------------------------------------------------------
// Laws of the tables
// ---------------------------------------------------------------------------

/// Resolution is total over the supported pairs: every pair the
/// compatibility library ships resolves to a search path and a minimum
/// version, and every shimmed pair resolves to an object path.
pub proof fn lemma_supported_pairs_resolve()
    ensures
        forall|os: OS, arch: Arch|
            #[trigger] vc_ltl_supported(os, arch) <==> spec_vc_ltl_lib_path(os, arch) is Some,
        forall|os: OS, arch: Arch|
            #[trigger] yy_thunks_supported(os, arch) <==> spec_yy_obj_path(os, arch) is Some,
        forall|os: OS, arch: Arch|
            #[trigger] vc_ltl_supported(os, arch) ==> spec_os_version(os, arch) is Some,
{
}

/// Resolution fails closed: a pair outside the supported set resolves to
/// nothing — never to a nearby variant's path.
pub proof fn lemma_unsupported_pairs_fail_closed()
    ensures
        forall|os: OS, arch: Arch|
            !(#[trigger] vc_ltl_supported(os, arch)) ==> spec_vc_ltl_lib_path(os, arch) is None,
        forall|os: OS, arch: Arch|
            !(#[trigger] yy_thunks_supported(os, arch)) ==> spec_yy_obj_path(os, arch) is None,
{
}

/// A resolved library path names the platform version directory of its
/// pair right after the fixed `TargetPlatform/` prefix.
pub proof fn lemma_library_path_names_platform_version(os: OS, arch: Arch)
    requires
        vc_ltl_supported(os, arch),
    ensures
        spec_vc_ltl_lib_path(os, arch) matches Some(p) && spec_vc_ltl_dir(os, arch) matches Some(
            d,
        ) && p.len() >= 15 + d.len() && p.subrange(15, 15 + d.len() as int) == d,
{
    reveal_strlit("TargetPlatform/");
    let p = spec_vc_ltl_lib_path(os, arch)->Some_0;
    let d = spec_vc_ltl_dir(os, arch)->Some_0;
    assert(p.subrange(15, 15 + d.len() as int) =~= d);
}

/// Alias parsing ignores ASCII case: a name and its lower-cased form
/// denote the same OS, architecture and subsystem.
pub proof fn lemma_alias_parsing_case_insensitive(s: Seq<char>)
    ensures
        spec_os_from_str(lower_seq(s)) == spec_os_from_str(s),
        spec_arch_from_str(lower_seq(s)) == spec_arch_from_str(s),
        spec_subsystem_from_str(lower_seq(s)) == spec_subsystem_from_str(s),
{
    lemma_lower_seq_idempotent(s);
}

/// Parsing is deterministic and unknown names fall back to the oldest
/// variant: Windows XP, 32-bit x86, and the console subsystem.
pub proof fn lemma_unknown_alias_falls_back(s: Seq<char>)
    ensures
        !is_known_os_alias(s) ==> spec_os_from_str(s) == OS::WindowsXP,
        !is_known_arch_alias(s) ==> spec_arch_from_str(s) == Arch::Win32,
        !is_known_subsystem_alias(s) ==> spec_subsystem_from_str(s) == Subsystem::Console,
{
}

} // verus!
