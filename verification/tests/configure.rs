use thunk::configure::{
    link_arg_directive, link_search_directive, selected_os, subsystem_directives,
    toolchain_supported, vc_ltl_subdir, yy_thunks_subpath, FeatureConfig, TargetConfig,
};
use thunk::{Arch, ThunkError, OS};

fn target(os: &str, env: &str, arch: &str) -> TargetConfig {
    TargetConfig {
        target_os: os.to_string(),
        target_env: env.to_string(),
        target_arch: arch.to_string(),
    }
}

fn no_features() -> FeatureConfig {
    FeatureConfig {
        xp: false,
        vista: false,
        win7: false,
        win8: false,
        win10_10240: false,
        win10_19041: false,
        vc_ltl_only: false,
        lib: false,
        subsystem_windows: false,
        subsystem_console: false,
    }
}

#[test]
fn only_windows_msvc_is_configured() {
    assert!(toolchain_supported(&target("windows", "msvc", "x86_64")));
    assert!(!toolchain_supported(&target("windows", "gnu", "x86_64")));
    assert!(!toolchain_supported(&target("linux", "msvc", "x86_64")));
    assert!(!toolchain_supported(&target("linux", "gnu", "x86_64")));
}

#[test]
fn target_arch_names_parse_into_the_closed_set() {
    assert_eq!(Arch::from_target_arch("x86"), Ok(Arch::Win32));
    assert_eq!(Arch::from_target_arch("x86_64"), Ok(Arch::X64));
    assert_eq!(Arch::from_target_arch("aarch64"), Ok(Arch::ARM64));
    assert_eq!(Arch::from_target_arch("arm"), Err(ThunkError::UnsupportedArch));
    assert_eq!(Arch::from_target_arch("powerpc"), Err(ThunkError::UnsupportedArch));
    assert_eq!(Arch::from_target_arch(""), Err(ThunkError::UnsupportedArch));
}

#[test]
fn oldest_selected_platform_wins() {
    let mut f = no_features();
    f.xp = true;
    f.win8 = true;
    assert_eq!(selected_os(&f), Some(OS::WindowsXP));

    let mut f = no_features();
    f.win10_19041 = true;
    assert_eq!(selected_os(&f), Some(OS::Windows10_20H1));

    let mut f = no_features();
    f.vc_ltl_only = true;
    assert_eq!(selected_os(&f), Some(OS::WindowsVista));

    assert_eq!(selected_os(&no_features()), None);
}

#[test]
fn library_subdir_follows_the_platform_table() {
    let mut f = no_features();
    f.xp = true;
    assert_eq!(
        vc_ltl_subdir(&f, Arch::Win32).unwrap().as_deref(),
        Some("TargetPlatform/5.1.2600.0/lib/Win32")
    );
    assert_eq!(
        vc_ltl_subdir(&f, Arch::X64).unwrap().as_deref(),
        Some("TargetPlatform/5.2.3790.0/lib/x64")
    );

    let mut f = no_features();
    f.win7 = true;
    assert_eq!(
        vc_ltl_subdir(&f, Arch::X64).unwrap().as_deref(),
        Some("TargetPlatform/6.0.6000.0/lib/x64")
    );

    let mut f = no_features();
    f.vc_ltl_only = true;
    assert_eq!(
        vc_ltl_subdir(&f, Arch::Win32).unwrap().as_deref(),
        Some("TargetPlatform/6.0.6000.0/lib/Win32")
    );

    let mut f = no_features();
    f.win10_19041 = true;
    assert_eq!(
        vc_ltl_subdir(&f, Arch::X64).unwrap().as_deref(),
        Some("TargetPlatform/10.0.19041.0/lib/X64")
    );

    assert_eq!(vc_ltl_subdir(&no_features(), Arch::Win32), Ok(None));
}

#[test]
fn library_subdir_fails_closed_on_unshipped_pairs() {
    let mut f = no_features();
    f.xp = true;
    assert_eq!(
        vc_ltl_subdir(&f, Arch::ARM64),
        Err(ThunkError::UnsupportedByVCLTL(OS::WindowsXP, Arch::ARM64))
    );

    let mut f = no_features();
    f.win10_10240 = true;
    assert_eq!(
        vc_ltl_subdir(&f, Arch::ARM64).unwrap().as_deref(),
        Some("TargetPlatform/10.0.10240.0/lib/ARM64")
    );
}

#[test]
fn shim_subpath_follows_the_selected_platform() {
    let mut f = no_features();
    f.win7 = true;
    assert_eq!(
        yy_thunks_subpath(&f, Arch::X64).unwrap().as_deref(),
        Some("objs/x64/YY_Thunks_for_Win7.obj")
    );

    let mut f = no_features();
    f.xp = true;
    assert_eq!(
        yy_thunks_subpath(&f, Arch::Win32).unwrap().as_deref(),
        Some("objs/x86/YY_Thunks_for_WinXP.obj")
    );

    let mut f = no_features();
    f.win10_19041 = true;
    assert_eq!(
        yy_thunks_subpath(&f, Arch::X64).unwrap().as_deref(),
        Some("objs/x64/YY_Thunks_for_Win10.0.19041.obj")
    );

    let mut f = no_features();
    f.vc_ltl_only = true;
    assert_eq!(yy_thunks_subpath(&f, Arch::Win32), Ok(None));

    assert_eq!(yy_thunks_subpath(&no_features(), Arch::X64), Ok(None));
}

#[test]
fn shim_fails_closed_on_unshimmed_architectures() {
    let mut f = no_features();
    f.win10_10240 = true;
    assert_eq!(
        yy_thunks_subpath(&f, Arch::ARM64),
        Err(ThunkError::UnsupportedByYYThunks)
    );

    let mut f = no_features();
    f.xp = true;
    assert_eq!(
        yy_thunks_subpath(&f, Arch::ARM),
        Err(ThunkError::UnsupportedByYYThunks)
    );
}

#[test]
fn directives_name_the_resolved_paths() {
    assert_eq!(
        link_search_directive("/root", "TargetPlatform/6.0.6000.0/lib/Win32"),
        "cargo::rustc-link-search=/root/TargetPlatform/6.0.6000.0/lib/Win32"
    );
    assert_eq!(
        link_arg_directive("/root", "objs/x86/YY_Thunks_for_Vista.obj"),
        "cargo::rustc-link-arg=/root/objs/x86/YY_Thunks_for_Vista.obj"
    );
}

#[test]
fn gui_build_always_forces_the_entry_point() {
    let mut f = no_features();
    f.xp = true;
    f.subsystem_windows = true;
    let got = subsystem_directives(&f, Arch::Win32);
    assert_eq!(
        got,
        vec![
            "cargo::rustc-link-arg=/SUBSYSTEM:WINDOWS,5.01".to_string(),
            "cargo::rustc-link-arg=/ENTRY:mainCRTStartup".to_string(),
        ]
    );
}

#[test]
fn every_platform_stamps_its_minimum_version() {
    let mut f = no_features();
    f.xp = true;
    f.subsystem_console = true;
    let got = subsystem_directives(&f, Arch::X64);
    assert_eq!(got, vec!["cargo::rustc-link-arg=/SUBSYSTEM:CONSOLE,5.02".to_string()]);

    let mut f = no_features();
    f.win7 = true;
    f.subsystem_console = true;
    let got = subsystem_directives(&f, Arch::Win32);
    assert_eq!(got, vec!["cargo::rustc-link-arg=/SUBSYSTEM:CONSOLE,6.01".to_string()]);

    let mut f = no_features();
    f.vista = true;
    f.subsystem_windows = true;
    let got = subsystem_directives(&f, Arch::X64);
    assert_eq!(
        got,
        vec![
            "cargo::rustc-link-arg=/SUBSYSTEM:WINDOWS,6.00".to_string(),
            "cargo::rustc-link-arg=/ENTRY:mainCRTStartup".to_string(),
        ]
    );

    let mut f = no_features();
    f.win10_10240 = true;
    f.subsystem_console = true;
    let got = subsystem_directives(&f, Arch::X64);
    assert_eq!(got, vec!["cargo::rustc-link-arg=/SUBSYSTEM:CONSOLE,10.0".to_string()]);
}

#[test]
fn no_subsystem_selection_emits_nothing() {
    let mut f = no_features();
    f.win7 = true;
    let got = subsystem_directives(&f, Arch::Win32);
    assert_eq!(got, Vec::<String>::new());
}

#[test]
fn library_build_emits_no_subsystem_directives() {
    let mut f = no_features();
    f.xp = true;
    f.lib = true;
    f.subsystem_windows = true;
    f.subsystem_console = true;
    let got = subsystem_directives(&f, Arch::Win32);
    assert_eq!(got, Vec::<String>::new());
}
