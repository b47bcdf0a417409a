use thunk::sys::choose_arch;
use thunk::{get_arch_from_args, get_default_arch, get_is_lib_from_args, Arch, ThunkError};

fn strings(parts: &[&str]) -> Vec<String> {
    let mut v: Vec<String> = Vec::new();
    for p in parts {
        v.push((*p).to_string());
    }
    v
}

#[test]
fn test_get_arch_from_args() {
    let args = strings(&["--target", "i686-pc-windows-msvc"]);
    let result = get_arch_from_args(&args).unwrap();
    assert_eq!(Arch::Win32, result);

    let args = strings(&["--target=i686-pc-windows-msvc"]);
    let result = get_arch_from_args(&args).unwrap();
    assert_eq!(Arch::Win32, result);
}

#[test]
fn test_get_arch_from_wrong_args() {
    let args: Vec<String> = Vec::new();
    assert_eq!(get_arch_from_args(&args).is_ok(), false);

    let args = strings(&["target", "i686-pc-windows-msvc"]);
    assert_eq!(get_arch_from_args(&args).is_ok(), false);
}

#[test]
fn test_get_is_lib_from_args() {
    let args = strings(&["--lib"]);
    assert_eq!(get_is_lib_from_args(&args), true);

    let args = strings(&[""]);
    assert_eq!(get_is_lib_from_args(&args), false);
}

#[test]
fn arch_from_args_other_triples() {
    let args = strings(&["--target", "x86_64-pc-windows-msvc"]);
    assert_eq!(get_arch_from_args(&args).unwrap(), Arch::X64);

    let args = strings(&["--target=aarch64-pc-windows-msvc"]);
    assert_eq!(get_arch_from_args(&args).unwrap(), Arch::ARM64);

    let args = strings(&["--release", "--target=x86_64-pc-windows-msvc", "--lib"]);
    assert_eq!(get_arch_from_args(&args).unwrap(), Arch::X64);
}

#[test]
fn arch_from_args_unknown_triple_is_error() {
    let args = strings(&["--target", "i686-unknown-linux-gnu"]);
    assert_eq!(get_arch_from_args(&args), Err(ThunkError::UnsupportedArch));
}

#[test]
fn is_lib_needs_exact_flag() {
    let args = strings(&["--libs", "build", "--lib-dir"]);
    assert_eq!(get_is_lib_from_args(&args), false);

    let args = strings(&["build", "--lib", "more"]);
    assert_eq!(get_is_lib_from_args(&args), true);
}

#[test]
fn arch_choice_prefers_args_then_explicit_then_default() {
    let args = strings(&["--target", "x86_64-pc-windows-msvc"]);
    assert_eq!(
        choose_arch(&args, Some(Arch::Win32), Ok(Arch::ARM64)),
        Ok(Arch::X64)
    );

    let no_target = strings(&["--release"]);
    assert_eq!(
        choose_arch(&no_target, Some(Arch::Win32), Ok(Arch::ARM64)),
        Ok(Arch::Win32)
    );
    assert_eq!(choose_arch(&no_target, None, Ok(Arch::ARM64)), Ok(Arch::ARM64));
    assert_eq!(
        choose_arch(&no_target, None, Err(ThunkError::UnsupportedArch)),
        Err(ThunkError::UnsupportedArch)
    );
}

#[test]
fn default_arch_from_toolchain_output() {
    let output = "Default host: x86_64-pc-windows-msvc\r\nrustup home: /home/u/.rustup\n";
    assert_eq!(get_default_arch(output).unwrap(), Arch::X64);

    let output = "Default host: i686-pc-windows-msvc";
    assert_eq!(get_default_arch(output).unwrap(), Arch::Win32);
}

#[test]
fn default_arch_rejects_malformed_output() {
    assert_eq!(get_default_arch(""), Err(ThunkError::UnsupportedArch));
    assert_eq!(get_default_arch("no colon here"), Err(ThunkError::UnsupportedArch));
    assert_eq!(
        get_default_arch("Default host: powerpc-unknown-linux\n"),
        Err(ThunkError::UnsupportedArch)
    );
}
