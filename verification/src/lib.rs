//! Configure a Rust build so the produced binary runs on legacy Windows
//! versions.
//!
//! The crate resolves, for a chosen target OS, architecture and subsystem,
//! the compatibility-library search path and the legacy-shim object that the
//! linker needs, and assembles the rustc flags and cargo arguments for the
//! downstream build.  All decision logic lives here and is verified; the
//! surrounding process work (environment reads, downloads, spawning cargo)
//! stays outside the library and hands plain values in.
#![verifier::loop_isolation(false)]

use vstd::prelude::*;
use vstd::string::StringExecFns;

pub mod acquire;
pub mod configure;
pub mod error;
pub mod strutil;
pub mod sys;

pub use crate::error::{AcquisitionStage, EnvVarName, ThunkError, ThunkResult};
pub use crate::sys::{
    get_arch_from_args, get_default_arch, get_is_lib_from_args, get_os_version,
    get_vc_ltl_os_lib_path, get_yy_thunks_obj_path, Arch, Subsystem, OS,
};

use crate::strutil::{lower_seq, path_join, spec_path_join};
use crate::sys::{
    os_build_tag, spec_os_version, spec_rust_target, spec_vc_ltl_lib_path, spec_yy_obj_path,
};

verus! {

/// Chooses what to build and against which legacy platform.  Unset fields
/// fall back to defaults when the configuration is built.
#[derive(Debug)]
pub struct ThunkBuilder {
    /// Explicit compatibility-library root; when absent the `VC_LTL`
    /// environment value is used.
    pub vc_ltl_path: Option<String>,
    /// Link the legacy-shim object as well.
    pub enable_thunks: bool,
    /// Explicit shim-archive root; when absent the `YY_THUNKS`
    /// environment value is used.
    pub yy_thunks_path: Option<String>,
    /// Target OS variant; defaults to Windows Vista.
    pub os: Option<OS>,
    /// Target architecture; defaults to 32-bit x86.
    pub arch: Option<Arch>,
    /// Linker subsystem; defaults to the console subsystem.
    pub subsystem: Option<Subsystem>,
    /// Build a library: a library receives neither a subsystem
    /// directive nor an entry-point override.
    pub lib: bool,
    /// Build with optimizations.
    pub release: bool,
}

/// A fully resolved build invocation: the rustc flags, the cargo
/// arguments and the directory the build lands in.
#[derive(Debug)]
pub struct Thunk {
    rust_flags: Vec<String>,
    cargo_args: Vec<String>,
    os: OS,
    arch: Arch,
    target_dir: String,
}

/// The mathematical content of a [`Thunk`].
pub struct ThunkPlan {
    pub rust_flags: Seq<Seq<char>>,
    pub cargo_args: Seq<Seq<char>>,
    pub os: OS,
    pub arch: Arch,
    pub target_dir: Seq<char>,
}

impl View for Thunk {
    type V = ThunkPlan;

    closed spec fn view(&self) -> ThunkPlan {
        ThunkPlan {
            rust_flags: self.rust_flags.deep_view(),
            cargo_args: self.cargo_args.deep_view(),
            os: self.os,
            arch: self.arch,
            target_dir: self.target_dir@,
        }
    }
}

impl Thunk {
    /// The rustc flags of the invocation.
    pub fn rust_flags(&self) -> (r: &Vec<String>)
        ensures
            r.deep_view() == self@.rust_flags,
    {
        &self.rust_flags
    }

    /// The cargo arguments of the invocation.
    pub fn cargo_args(&self) -> (r: &Vec<String>)
        ensures
            r.deep_view() == self@.cargo_args,
    {
        &self.cargo_args
    }

    /// The OS variant the invocation targets.
    pub fn os(&self) -> (r: OS)
        ensures
            r == self@.os,
    {
        self.os
    }

    /// The architecture the invocation targets.
    pub fn arch(&self) -> (r: Arch)
        ensures
            r == self@.arch,
    {
        self.arch
    }

    /// The directory the build lands in.
    pub fn target_dir(&self) -> (r: &String)
        ensures
            r@ == self@.target_dir,
    {
        &self.target_dir
    }
}

/// The subsystem directive handed to the linker: subsystem name and
/// minimum OS version.
pub open spec fn spec_subsystem_flag(sub: Subsystem, version: Seq<char>) -> Seq<char> {
    "-Clink-args=/SUBSYSTEM:"@ + sub.spec_name() + ","@ + version
}

/// The build directory for an OS variant.
pub open spec fn spec_target_dir(os: OS) -> Seq<char> {
    "./target/win"@ + lower_seq(os.spec_name()) + "_build"@
}

/// The rustc flags before any shim is added: the library search path,
/// then — unless a library is built, which takes neither — the
/// subsystem directive, and for a GUI build the explicit entry-point
/// override, because only the console default entry symbol matches the
/// toolchain's implicit choice.
pub open spec fn spec_base_rust_flags(
    lib_dir: Seq<char>,
    sub: Subsystem,
    version: Seq<char>,
    lib_mode: bool,
) -> Seq<Seq<char>> {
    let base = seq!["-L"@, lib_dir];
    if lib_mode {
        base
    } else {
        let with_sub = base.push(spec_subsystem_flag(sub, version));
        if sub == Subsystem::Windows {
            with_sub.push("-Clink-args=/ENTRY:mainCRTStartup"@)
        } else {
            with_sub
        }
    }
}

/// The rustc flags that link the legacy-shim object.
pub open spec fn spec_thunk_flags(yy_root: Seq<char>, obj_rel: Seq<char>) -> Seq<Seq<char>> {
    seq!["-Clink-args=oldnames.lib"@, "-Clink-args="@ + spec_path_join(yy_root, obj_rel)]
}

/// The cargo invocation for a target triple and build directory.
pub open spec fn spec_cargo_args(target: Seq<char>, target_dir: Seq<char>, release: bool) -> Seq<
    Seq<char>,
> {
    let base = seq!["build"@, "--target"@, target, "--target-dir"@, target_dir];
    if release {
        base.push("--release"@)
    } else {
        base
    }
}

/// An explicit path wins over the environment value.
pub open spec fn spec_effective_root(explicit: Option<String>, env: Option<Seq<char>>) -> Option<
    Seq<char>,
> {
    match explicit {
        Some(p) => Some(p@),
        None => env,
    }
}

/// What building a configuration yields: the complete invocation, or the
/// first error the resolution sequence hits.
pub open spec fn spec_build(
    b: ThunkBuilder,
    vc_env: Option<Seq<char>>,
    yy_env: Option<Seq<char>>,
) -> ThunkResult<ThunkPlan> {
    match spec_effective_root(b.vc_ltl_path, vc_env) {
        None => Err(ThunkError::EnvNotFound(EnvVarName::VcLtl)),
        Some(vc_root) => {
            let os = match b.os {
                Some(o) => o,
                None => OS::WindowsVista,
            };
            let arch = match b.arch {
                Some(a) => a,
                None => Arch::Win32,
            };
            match spec_vc_ltl_lib_path(os, arch) {
                None => Err(ThunkError::UnsupportedByVCLTL(os, arch)),
                Some(rel) => {
                    let lib_dir = spec_path_join(vc_root, rel);
                    let sub = match b.subsystem {
                        Some(s) => s,
                        None => Subsystem::Console,
                    };
                    match spec_os_version(os, arch) {
                        None => Err(ThunkError::UnsupportedByVCLTL(os, arch)),
                        Some(version) => {
                            let base = spec_base_rust_flags(lib_dir, sub, version, b.lib);
                            match (if b.enable_thunks {
                                match spec_effective_root(b.yy_thunks_path, yy_env) {
                                    None => Err(ThunkError::EnvNotFound(EnvVarName::YyThunks)),
                                    Some(yy_root) => match spec_yy_obj_path(os, arch) {
                                        None => Err(ThunkError::UnsupportedByYYThunks),
                                        Some(obj_rel) => Ok(
                                            base + spec_thunk_flags(yy_root, obj_rel),
                                        ),
                                    },
                                }
                            } else {
                                Ok(base)
                            }) {
                                Err(e) => Err(e),
                                Ok(rust_flags) => match spec_rust_target(arch) {
                                    None => Err(ThunkError::UnsupportedArch),
                                    Some(target) => Ok(
                                        ThunkPlan {
                                            rust_flags,
                                            cargo_args: spec_cargo_args(
                                                target,
                                                spec_target_dir(os),
                                                b.release,
                                            ),
                                            os,
                                            arch,
                                            target_dir: spec_target_dir(os),
                                        },
                                    ),
                                },
                            }
                        },
                    }
                },
            }
        },
    }
}

impl ThunkBuilder {
    /// A configuration with every choice left to its default.
    pub fn new() -> (r: Self)
        ensures
            r.vc_ltl_path is None,
            r.enable_thunks == false,
            r.yy_thunks_path is None,
            r.os is None,
            r.arch is None,
            r.subsystem is None,
            r.lib == false,
            r.release == true,
    {
        Self {
            vc_ltl_path: None,
            enable_thunks: false,
            yy_thunks_path: None,
            os: None,
            arch: None,
            subsystem: None,
            lib: false,
            release: true,
        }
    }

    /// Name the compatibility-library root explicitly.
    pub fn vc_ltl(self, path: &str) -> (r: Self)
        ensures
            r.vc_ltl_path matches Some(p) && p@ == path@,
            r.enable_thunks == self.enable_thunks,
            r.yy_thunks_path == self.yy_thunks_path,
            r.os == self.os,
            r.arch == self.arch,
            r.subsystem == self.subsystem,
            r.lib == self.lib,
            r.release == self.release,
    {
        Self { vc_ltl_path: Some(String::from_str(path)), ..self }
    }

    /// Also link the legacy-shim object.
    pub fn enable_yy_thunks(self, enable: bool) -> (r: Self)
        ensures
            r.enable_thunks == enable,
            r.vc_ltl_path == self.vc_ltl_path,
            r.yy_thunks_path == self.yy_thunks_path,
            r.os == self.os,
            r.arch == self.arch,
            r.subsystem == self.subsystem,
            r.lib == self.lib,
            r.release == self.release,
    {
        Self { enable_thunks: enable, ..self }
    }

    /// Name the shim-archive root explicitly.
    pub fn yy_thunks(self, path: &str) -> (r: Self)
        ensures
            r.yy_thunks_path matches Some(p) && p@ == path@,
            r.vc_ltl_path == self.vc_ltl_path,
            r.enable_thunks == self.enable_thunks,
            r.os == self.os,
            r.arch == self.arch,
            r.subsystem == self.subsystem,
            r.lib == self.lib,
            r.release == self.release,
    {
        Self { yy_thunks_path: Some(String::from_str(path)), ..self }
    }

    /// Choose the target OS by a free-form name.
    pub fn os(self, os: &str) -> (r: Self)
        ensures
            r.os == Some(sys::spec_os_from_str(os@)),
            r.vc_ltl_path == self.vc_ltl_path,
            r.enable_thunks == self.enable_thunks,
            r.yy_thunks_path == self.yy_thunks_path,
            r.arch == self.arch,
            r.subsystem == self.subsystem,
            r.lib == self.lib,
            r.release == self.release,
    {
        Self { os: Some(OS::from_str(os)), ..self }
    }

    /// Choose the target architecture by a free-form name.
    pub fn arch(self, arch: &str) -> (r: Self)
        ensures
            r.arch == Some(sys::spec_arch_from_str(arch@)),
            r.vc_ltl_path == self.vc_ltl_path,
            r.enable_thunks == self.enable_thunks,
            r.yy_thunks_path == self.yy_thunks_path,
            r.os == self.os,
            r.subsystem == self.subsystem,
            r.lib == self.lib,
            r.release == self.release,
    {
        Self { arch: Some(Arch::from_str(arch)), ..self }
    }

    /// Choose the linker subsystem by a free-form name.
    pub fn subsystem(self, subsystem: &str) -> (r: Self)
        ensures
            r.subsystem == Some(sys::spec_subsystem_from_str(subsystem@)),
            r.vc_ltl_path == self.vc_ltl_path,
            r.enable_thunks == self.enable_thunks,
            r.yy_thunks_path == self.yy_thunks_path,
            r.os == self.os,
            r.arch == self.arch,
            r.lib == self.lib,
            r.release == self.release,
    {
        Self { subsystem: Some(Subsystem::from_str(subsystem)), ..self }
    }

    /// Build with or without optimizations.
    pub fn release(self, enable: bool) -> (r: Self)
        ensures
            r.release == enable,
            r.vc_ltl_path == self.vc_ltl_path,
            r.enable_thunks == self.enable_thunks,
            r.yy_thunks_path == self.yy_thunks_path,
            r.os == self.os,
            r.arch == self.arch,
            r.subsystem == self.subsystem,
            r.lib == self.lib,
    {
        Self { release: enable, ..self }
    }

    /// Build a library: no subsystem directive and no entry-point
    /// override are emitted for it.
    pub fn lib(self, enable: bool) -> (r: Self)
        ensures
            r.lib == enable,
            r.vc_ltl_path == self.vc_ltl_path,
            r.enable_thunks == self.enable_thunks,
            r.yy_thunks_path == self.yy_thunks_path,
            r.os == self.os,
            r.arch == self.arch,
            r.subsystem == self.subsystem,
            r.release == self.release,
    {
        Self { lib: enable, ..self }
    }

    /// Resolve the configuration into a complete build invocation.  The
    /// environment values of the two artifact-root variables are handed
    /// in by the caller; the first unresolved step aborts the pass with
    /// its typed error.  A library build receives no subsystem
    /// directive and no entry-point override.
    pub fn build(self, vc_ltl_env: Option<String>, yy_thunks_env: Option<String>) -> (r:
        ThunkResult<Thunk>)
        ensures
            match r {
                Ok(t) => spec_build(self, vc_ltl_env.deep_view(), yy_thunks_env.deep_view())
                    == Ok::<ThunkPlan, ThunkError>(t@),
                Err(e) => spec_build(self, vc_ltl_env.deep_view(), yy_thunks_env.deep_view())
                    == Err::<ThunkPlan, ThunkError>(e),
            },
    {
        let ThunkBuilder {
            vc_ltl_path,
            enable_thunks,
            yy_thunks_path,
            os: os_choice,
            arch: arch_choice,
            subsystem: subsystem_choice,
            lib,
            release,
        } = self;

        let vc_root: String = match vc_ltl_path {
            Some(p) => p,
            None => match vc_ltl_env {
                Some(p) => p,
                None => {
                    return Err(ThunkError::EnvNotFound(EnvVarName::VcLtl));
                },
            },
        };

        let os = match os_choice {
            Some(o) => o,
            None => OS::WindowsVista,
        };
        let arch = match arch_choice {
            Some(a) => a,
            None => Arch::Win32,
        };

        let os_lib = match get_vc_ltl_os_lib_path(os, arch) {
            Some(p) => p,
            None => {
                return Err(ThunkError::UnsupportedByVCLTL(os, arch));
            },
        };
        let vcltl_lib = path_join(vc_root.as_str(), os_lib.as_str());

        let sub = match subsystem_choice {
            Some(s) => s,
            None => Subsystem::Console,
        };
        let os_version = match get_os_version(os, arch) {
            Some(v) => v,
            None => {
                return Err(ThunkError::UnsupportedByVCLTL(os, arch));
            },
        };
        let mut rust_flags: Vec<String> = Vec::new();
        rust_flags.push(String::from_str("-L"));
        rust_flags.push(vcltl_lib);
        if !lib {
            let subsystem_args = String::from_str("-Clink-args=/SUBSYSTEM:").concat(
                sub.to_string().as_str(),
            ).concat(",").concat(os_version.as_str());
            rust_flags.push(subsystem_args);
            if sub == Subsystem::Windows {
                rust_flags.push(String::from_str("-Clink-args=/ENTRY:mainCRTStartup"));
            }
        }
        proof {
            assert(rust_flags.deep_view() =~= spec_base_rust_flags(
                spec_path_join(vc_root@, os_lib@),
                sub,
                os_version@,
                lib,
            ));
        }

        if enable_thunks {
            let yy_root: String = match yy_thunks_path {
                Some(p) => p,
                None => match yy_thunks_env {
                    Some(p) => p,
                    None => {
                        return Err(ThunkError::EnvNotFound(EnvVarName::YyThunks));
                    },
                },
            };
            let os_obj = match get_yy_thunks_obj_path(os, arch) {
                Some(p) => p,
                None => {
                    return Err(ThunkError::UnsupportedByYYThunks);
                },
            };
            let ghost flags_before = rust_flags.deep_view();
            rust_flags.push(String::from_str("-Clink-args=oldnames.lib"));
            rust_flags.push(
                String::from_str("-Clink-args=").concat(
                    path_join(yy_root.as_str(), os_obj.as_str()).as_str(),
                ),
            );
            proof {
                assert(rust_flags.deep_view() =~= flags_before + spec_thunk_flags(
                    yy_root@,
                    os_obj@,
                ));
            }
        }

        let target = match arch.to_rust_target() {
            Some(t) => t,
            None => {
                return Err(ThunkError::UnsupportedArch);
            },
        };

        let target_dir = String::from_str("./target/win").concat(os_build_tag(os)).concat("_build");

        let mut cargo_args: Vec<String> = Vec::new();
        cargo_args.push(String::from_str("build"));
        cargo_args.push(String::from_str("--target"));
        cargo_args.push(target);
        cargo_args.push(String::from_str("--target-dir"));
        cargo_args.push(target_dir.clone());
        if release {
            cargo_args.push(String::from_str("--release"));
        }
        proof {
            assert(cargo_args.deep_view() =~= spec_cargo_args(
                spec_rust_target(arch)->Some_0,
                spec_target_dir(os),
                release,
            ));
        }

        Ok(Thunk { rust_flags, cargo_args, os, arch, target_dir })
    }
}

} // verus!
