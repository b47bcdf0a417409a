use thunk::{Arch, EnvVarName, ThunkBuilder, ThunkError, OS};

#[test]
fn console_build_for_windows7_x86() {
    let thunk = ThunkBuilder::new()
        .vc_ltl("C:/VC-LTL")
        .os("win7")
        .arch("x86")
        .subsystem("console")
        .build(None, None)
        .unwrap();

    let flags: Vec<&str> = thunk.rust_flags().iter().map(|s| s.as_str()).collect();
    assert_eq!(
        flags,
        vec![
            "-L",
            "C:/VC-LTL/TargetPlatform/6.0.6000.0/lib/Win32",
            "-Clink-args=/SUBSYSTEM:CONSOLE,6.01",
        ]
    );
    assert_eq!(thunk.os(), OS::Windows7);
    assert_eq!(thunk.arch(), Arch::Win32);
    assert_eq!(thunk.target_dir(), "./target/win7_build");

    let cargo: Vec<&str> = thunk.cargo_args().iter().map(|s| s.as_str()).collect();
    assert_eq!(
        cargo,
        vec![
            "build",
            "--target",
            "i686-pc-windows-msvc",
            "--target-dir",
            "./target/win7_build",
            "--release",
        ]
    );
}

#[test]
fn gui_build_for_xp_forces_entry_point() {
    let thunk = ThunkBuilder::new()
        .vc_ltl("VC")
        .os("xp")
        .arch("x86")
        .subsystem("windows")
        .build(None, None)
        .unwrap();

    let flags: Vec<&str> = thunk.rust_flags().iter().map(|s| s.as_str()).collect();
    assert_eq!(
        flags,
        vec![
            "-L",
            "VC/TargetPlatform/5.1.2600.0/lib/Win32",
            "-Clink-args=/SUBSYSTEM:WINDOWS,5.01",
            "-Clink-args=/ENTRY:mainCRTStartup",
        ]
    );
}

#[test]
fn console_build_emits_no_entry_point() {
    let thunk = ThunkBuilder::new().vc_ltl("VC").os("vista").build(None, None).unwrap();
    for flag in thunk.rust_flags() {
        assert!(!flag.contains("ENTRY"));
    }
}

#[test]
fn thunks_add_oldnames_and_object() {
    let thunk = ThunkBuilder::new()
        .vc_ltl("VC")
        .yy_thunks("YY")
        .enable_yy_thunks(true)
        .os("xp")
        .arch("x86")
        .build(None, None)
        .unwrap();

    let flags: Vec<&str> = thunk.rust_flags().iter().map(|s| s.as_str()).collect();
    assert_eq!(
        flags,
        vec![
            "-L",
            "VC/TargetPlatform/5.1.2600.0/lib/Win32",
            "-Clink-args=/SUBSYSTEM:CONSOLE,5.01",
            "-Clink-args=oldnames.lib",
            "-Clink-args=YY/objs/x86/YY_Thunks_for_WinXP.obj",
        ]
    );
}

#[test]
fn defaults_are_vista_x86_console_release() {
    let thunk = ThunkBuilder::new().vc_ltl("VC").build(None, None).unwrap();
    assert_eq!(thunk.os(), OS::WindowsVista);
    assert_eq!(thunk.arch(), Arch::Win32);
    let flags: Vec<&str> = thunk.rust_flags().iter().map(|s| s.as_str()).collect();
    assert_eq!(
        flags,
        vec![
            "-L",
            "VC/TargetPlatform/6.0.6000.0/lib/Win32",
            "-Clink-args=/SUBSYSTEM:CONSOLE,6.00",
        ]
    );
    assert!(thunk.cargo_args().iter().any(|a| a == "--release"));
}

#[test]
fn debug_build_omits_release_flag() {
    let thunk = ThunkBuilder::new().vc_ltl("VC").release(false).build(None, None).unwrap();
    assert!(!thunk.cargo_args().iter().any(|a| a == "--release"));
}

#[test]
fn roots_fall_back_to_environment_values() {
    let thunk = ThunkBuilder::new()
        .enable_yy_thunks(true)
        .os("vista")
        .arch("x64")
        .build(Some("ENV_VC".to_string()), Some("ENV_YY".to_string()))
        .unwrap();
    let flags: Vec<&str> = thunk.rust_flags().iter().map(|s| s.as_str()).collect();
    assert_eq!(flags[1], "ENV_VC/TargetPlatform/6.0.6000.0/lib/x64");
    assert_eq!(flags[4], "-Clink-args=ENV_YY/objs/x64/YY_Thunks_for_Vista.obj");
}

#[test]
fn missing_vc_ltl_root_is_reported() {
    let err = ThunkBuilder::new().build(None, None).unwrap_err();
    assert_eq!(err, ThunkError::EnvNotFound(EnvVarName::VcLtl));
    assert_eq!(
        err.to_string(),
        "You need to set environment variable `VC_LTL` as default!"
    );
}

#[test]
fn missing_yy_thunks_root_is_reported() {
    let err = ThunkBuilder::new()
        .vc_ltl("VC")
        .enable_yy_thunks(true)
        .os("xp")
        .build(None, None)
        .unwrap_err();
    assert_eq!(err, ThunkError::EnvNotFound(EnvVarName::YyThunks));
    assert_eq!(
        err.to_string(),
        "You need to set environment variable `YY_THUNKS` as default!"
    );
}

#[test]
fn unsupported_library_pair_is_reported() {
    let err = ThunkBuilder::new().vc_ltl("VC").os("xp").arch("arm64").build(None, None).unwrap_err();
    assert_eq!(err, ThunkError::UnsupportedByVCLTL(OS::WindowsXP, Arch::ARM64));
    assert_eq!(
        err.to_string(),
        "`Windows XP(ARM64)` is unsupported by VC-LTL5!"
    );
}

#[test]
fn unsupported_shim_pair_is_reported() {
    let err = ThunkBuilder::new()
        .vc_ltl("VC")
        .yy_thunks("YY")
        .enable_yy_thunks(true)
        .os("win10")
        .arch("arm64")
        .build(None, None)
        .unwrap_err();
    assert_eq!(err, ThunkError::UnsupportedByYYThunks);
    assert_eq!(err.to_string(), "Only `x86` and `x86_64` are supported!");
}

#[test]
fn arm_has_no_toolchain_target() {
    let err = ThunkBuilder::new().vc_ltl("VC").os("win8").arch("arm").build(None, None).unwrap_err();
    assert_eq!(err, ThunkError::UnsupportedArch);
    assert_eq!(
        err.to_string(),
        "Only `x86`, `x86_64` and `aarch64` are supported!"
    );
}

#[test]
fn unsupported_platform_message() {
    assert_eq!(
        ThunkError::UnsupportedPlatform.to_string(),
        "Only `Windows(MSVC)` is supported!"
    );
}

#[test]
fn explicit_path_wins_over_environment() {
    let thunk = ThunkBuilder::new()
        .vc_ltl("EXPLICIT")
        .os("win7")
        .build(Some("ENV".to_string()), None)
        .unwrap();
    let flags: Vec<&str> = thunk.rust_flags().iter().map(|s| s.as_str()).collect();
    assert_eq!(flags[1], "EXPLICIT/TargetPlatform/6.0.6000.0/lib/Win32");
}

#[test]
fn target_dir_follows_os_name() {
    let thunk = ThunkBuilder::new().vc_ltl("VC").os("20h1").arch("x64").build(None, None).unwrap();
    assert_eq!(thunk.target_dir(), "./target/win10_20h1_build");
    assert_eq!(thunk.os(), OS::Windows10_20H1);
    let flags: Vec<&str> = thunk.rust_flags().iter().map(|s| s.as_str()).collect();
    assert_eq!(flags[1], "VC/TargetPlatform/10.0.19041.0/lib/X64");
}

#[test]
fn library_build_takes_no_subsystem_and_no_entry_point() {
    let thunk = ThunkBuilder::new()
        .vc_ltl("VC")
        .os("win7")
        .arch("x86")
        .subsystem("windows")
        .lib(true)
        .build(None, None)
        .unwrap();
    let flags: Vec<&str> = thunk.rust_flags().iter().map(|s| s.as_str()).collect();
    assert_eq!(flags, vec!["-L", "VC/TargetPlatform/6.0.6000.0/lib/Win32"]);
}

#[test]
fn library_build_keeps_the_shim_flags() {
    let thunk = ThunkBuilder::new()
        .vc_ltl("VC")
        .yy_thunks("YY")
        .enable_yy_thunks(true)
        .os("xp")
        .arch("x86")
        .lib(true)
        .build(None, None)
        .unwrap();
    let flags: Vec<&str> = thunk.rust_flags().iter().map(|s| s.as_str()).collect();
    assert_eq!(
        flags,
        vec![
            "-L",
            "VC/TargetPlatform/5.1.2600.0/lib/Win32",
            "-Clink-args=oldnames.lib",
            "-Clink-args=YY/objs/x86/YY_Thunks_for_WinXP.obj",
        ]
    );
}

#[test]
fn subsystem_parsing_feeds_the_flag() {
    let thunk = ThunkBuilder::new().vc_ltl("VC").os("win7").subsystem("GUI").build(None, None).unwrap();
    let flags: Vec<&str> = thunk.rust_flags().iter().map(|s| s.as_str()).collect();
    assert_eq!(flags[2], "-Clink-args=/SUBSYSTEM:WINDOWS,6.01");
    assert_eq!(flags[3], "-Clink-args=/ENTRY:mainCRTStartup");
    assert_eq!(thunk.rust_flags().len(), 4);
}
