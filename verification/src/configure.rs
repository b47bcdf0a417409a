//! The configuration pass that a consuming build script drives: gate on
//! the supported toolchain, parse the target architecture into the
//! closed set, choose the platform snapshots from the feature selection,
//! and phrase the directives the build system understands.  The pass
//! pauses twice for artifact acquisition (see [`crate::acquire`]);
//! everything decided between those pauses is here, and the caller only
//! reads environment values, fetches archives and prints the returned
//! directives.

use vstd::prelude::*;
use vstd::string::StringExecFns;

use crate::error::{ThunkError, ThunkResult};
use crate::strutil::{path_join, spec_path_join, str_eq};
use crate::sys::{
    get_os_version, get_vc_ltl_os_lib_path, spec_os_version, spec_vc_ltl_lib_path,
    spec_yy_arch_tag, Arch, OS,
};

verus! {

/// The compiler-provided description of the build target.
pub struct TargetConfig {
    /// The target operating system name.
    pub target_os: String,
    /// The target environment; only the MSVC toolchain is supported.
    pub target_env: String,
    /// The target architecture name, such as `x86` or `x86_64`; parsed
    /// into the closed architecture set before anything is resolved.
    pub target_arch: String,
}

/// The platform selection a consumer makes through feature switches.
/// When several are set the oldest platform wins.
pub struct FeatureConfig {
    pub xp: bool,
    pub vista: bool,
    pub win7: bool,
    pub win8: bool,
    pub win10_10240: bool,
    pub win10_19041: bool,
    /// Use the compatibility library without any shim objects; it takes
    /// the snapshot Vista and Windows 7 share.
    pub vc_ltl_only: bool,
    /// Build a library: no subsystem or entry-point directives apply.
    pub lib: bool,
    pub subsystem_windows: bool,
    pub subsystem_console: bool,
}

/// The whole pass applies only to Windows builds with the MSVC
/// environment; anything else is left untouched.
pub open spec fn spec_toolchain_supported(target_os: Seq<char>, target_env: Seq<char>) -> bool {
    target_os == "windows"@ && target_env == "msvc"@
}

/// Whether the target is one this pass configures at all.
pub fn toolchain_supported(t: &TargetConfig) -> (r: bool)
    ensures
        r == spec_toolchain_supported(t.target_os@, t.target_env@),
{
    str_eq(t.target_os.as_str(), "windows") && str_eq(t.target_env.as_str(), "msvc")
}

/// The OS variant the feature selection targets, oldest selected
/// platform first; the library-only switch maps to the Vista-level
/// snapshot, and `None` means no feature asks for the library.
pub open spec fn spec_selected_os(f: FeatureConfig) -> Option<OS> {
    if f.xp {
        Some(OS::WindowsXP)
    } else if f.vista {
        Some(OS::WindowsVista)
    } else if f.win7 {
        Some(OS::Windows7)
    } else if f.win8 {
        Some(OS::Windows8)
    } else if f.win10_10240 {
        Some(OS::Windows10)
    } else if f.win10_19041 {
        Some(OS::Windows10_20H1)
    } else if f.vc_ltl_only {
        Some(OS::WindowsVista)
    } else {
        None
    }
}

/// The OS variant the feature selection targets, if any.
pub fn selected_os(f: &FeatureConfig) -> (r: Option<OS>)
    ensures
        r == spec_selected_os(*f),
{
    if f.xp {
        Some(OS::WindowsXP)
    } else if f.vista {
        Some(OS::WindowsVista)
    } else if f.win7 {
        Some(OS::Windows7)
    } else if f.win8 {
        Some(OS::Windows8)
    } else if f.win10_10240 {
        Some(OS::Windows10)
    } else if f.win10_19041 {
        Some(OS::Windows10_20H1)
    } else if f.vc_ltl_only {
        Some(OS::WindowsVista)
    } else {
        None
    }
}

/// The library search directory, relative to the compatibility-library
/// root: `Ok(None)` when no feature asks for the library, the platform
/// table's path for a shipped (OS, architecture) pair, and the typed
/// unsupported-pair error — never a nearby snapshot — otherwise.
pub fn vc_ltl_subdir(f: &FeatureConfig, arch: Arch) -> (r: ThunkResult<Option<String>>)
    ensures
        spec_selected_os(*f) is None ==> r == Ok::<Option<String>, ThunkError>(None),
        spec_selected_os(*f) matches Some(os) ==> (spec_vc_ltl_lib_path(os, arch) matches Some(p)
            ==> (r matches Ok(Some(q)) && q@ == p)),
        spec_selected_os(*f) matches Some(os) ==> (spec_vc_ltl_lib_path(os, arch) is None ==> r
            == Err::<Option<String>, ThunkError>(ThunkError::UnsupportedByVCLTL(os, arch))),
{
    match selected_os(f) {
        None => Ok(None),
        Some(os) => match get_vc_ltl_os_lib_path(os, arch) {
            Some(p) => Ok(Some(p)),
            None => Err(ThunkError::UnsupportedByVCLTL(os, arch)),
        },
    }
}

/// The shim-object platform tag the feature selection asks for; `None`
/// when no feature asks for shims (`vc_ltl_only` deliberately skips
/// them).  The shim archive of this pass ships objects up to the
/// Windows 10 snapshots.
pub open spec fn spec_yy_thunks_platform(f: FeatureConfig) -> Option<Seq<char>> {
    if f.xp {
        Some("WinXP"@)
    } else if f.vista {
        Some("Vista"@)
    } else if f.win7 {
        Some("Win7"@)
    } else if f.win8 {
        Some("Win8"@)
    } else if f.win10_10240 {
        Some("Win10.0.10240"@)
    } else if f.win10_19041 {
        Some("Win10.0.19041"@)
    } else {
        None
    }
}

/// The shim object path, relative to the shim-archive root: `Ok(None)`
/// when no feature asks for shims, the object path for a shimmed
/// architecture, and the typed error for any other architecture — only
/// x86 and x64 are shimmed, an aarch64 build never receives an x64
/// object.
pub fn yy_thunks_subpath(f: &FeatureConfig, arch: Arch) -> (r: ThunkResult<Option<String>>)
    ensures
        spec_yy_thunks_platform(*f) is None ==> r == Ok::<Option<String>, ThunkError>(None),
        spec_yy_thunks_platform(*f) matches Some(platform) ==> ((arch == Arch::Win32 || arch
            == Arch::X64) ==> (r matches Ok(Some(q)) && q@ == "objs/"@ + spec_yy_arch_tag(arch)
            + "/YY_Thunks_for_"@ + platform + ".obj"@)),
        spec_yy_thunks_platform(*f) is Some && arch != Arch::Win32 && arch != Arch::X64 ==> r
            == Err::<Option<String>, ThunkError>(ThunkError::UnsupportedByYYThunks),
{
    let platform: &'static str = if f.xp {
        "WinXP"
    } else if f.vista {
        "Vista"
    } else if f.win7 {
        "Win7"
    } else if f.win8 {
        "Win8"
    } else if f.win10_10240 {
        "Win10.0.10240"
    } else if f.win10_19041 {
        "Win10.0.19041"
    } else {
        return Ok(None);
    };
    let arch_dir: &'static str = match arch {
        Arch::Win32 => "x86",
        Arch::X64 => "x64",
        _ => {
            return Err(ThunkError::UnsupportedByYYThunks);
        },
    };
    Ok(
        Some(
            String::from_str("objs/").concat(arch_dir).concat("/YY_Thunks_for_").concat(
                platform,
            ).concat(".obj"),
        ),
    )
}

/// The directive adding a library search path.
pub fn link_search_directive(root: &str, rel: &str) -> (r: String)
    ensures
        r@ == "cargo::rustc-link-search="@ + spec_path_join(root@, rel@),
{
    String::from_str("cargo::rustc-link-search=").concat(path_join(root, rel).as_str())
}

/// The directive linking one extra object or library.
pub fn link_arg_directive(root: &str, rel: &str) -> (r: String)
    ensures
        r@ == "cargo::rustc-link-arg="@ + spec_path_join(root@, rel@),
{
    String::from_str("cargo::rustc-link-arg=").concat(path_join(root, rel).as_str())
}

/// The minimum-version suffix of a subsystem directive: the selected
/// platform's minimum OS version, preceded by a comma; empty when no
/// platform is selected or the pair stamps no version.
pub open spec fn spec_version_suffix(f: FeatureConfig, arch: Arch) -> Seq<char> {
    match spec_selected_os(f) {
        Some(os) => match spec_os_version(os, arch) {
            Some(v) => ","@ + v,
            None => Seq::empty(),
        },
        None => Seq::empty(),
    }
}

fn version_suffix(f: &FeatureConfig, arch: Arch) -> (r: String)
    ensures
        r@ == spec_version_suffix(*f, arch),
{
    match selected_os(f) {
        Some(os) => match get_os_version(os, arch) {
            Some(v) => String::from_str(",").concat(v.as_str()),
            None => String::new(),
        },
        None => String::new(),
    }
}

/// The subsystem and entry-point directives that close the pass.  A
/// library build emits none.  A GUI build always forces the explicit
/// CRT entry point, because the linker's default entry symbol for the
/// GUI subsystem differs from the toolchain's implicit console-mode
/// choice; each directive carries the selected platform's minimum
/// version.
pub open spec fn spec_subsystem_directives(f: FeatureConfig, arch: Arch) -> Seq<Seq<char>> {
    if f.lib {
        Seq::empty()
    } else if f.subsystem_windows {
        seq![
            "cargo::rustc-link-arg=/SUBSYSTEM:WINDOWS"@ + spec_version_suffix(f, arch),
            "cargo::rustc-link-arg=/ENTRY:mainCRTStartup"@,
        ]
    } else if f.subsystem_console {
        seq!["cargo::rustc-link-arg=/SUBSYSTEM:CONSOLE"@ + spec_version_suffix(f, arch)]
    } else {
        Seq::empty()
    }
}

/// The subsystem and entry-point directives for the selection.
pub fn subsystem_directives(f: &FeatureConfig, arch: Arch) -> (r: Vec<String>)
    ensures
        r.deep_view() == spec_subsystem_directives(*f, arch),
{
    let mut out: Vec<String> = Vec::new();
    if f.lib {
        proof {
            assert(out.deep_view() =~= spec_subsystem_directives(*f, arch));
        }
        return out;
    }
    if f.subsystem_windows {
        out.push(
            String::from_str("cargo::rustc-link-arg=/SUBSYSTEM:WINDOWS").concat(
                version_suffix(f, arch).as_str(),
            ),
        );
        out.push(String::from_str("cargo::rustc-link-arg=/ENTRY:mainCRTStartup"));
    } else if f.subsystem_console {
        out.push(
            String::from_str("cargo::rustc-link-arg=/SUBSYSTEM:CONSOLE").concat(
                version_suffix(f, arch).as_str(),
            ),
        );
    }
    proof {
        assert(out.deep_view() =~= spec_subsystem_directives(*f, arch));
    }
    out
}

} // verus!
