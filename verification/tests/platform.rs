use resumeai_desktop::{get_platform_info, PlatformInfo};

#[test]
fn linux_on_x86_64() {
    let info = get_platform_info("linux", "x86_64", "unix");
    assert_eq!(info.os, "linux");
    assert_eq!(info.arch, "x86_64");
    assert_eq!(info.family, "unix");
    assert_eq!(
        info,
        PlatformInfo {
            os: String::from("linux"),
            arch: String::from("x86_64"),
            family: String::from("unix"),
        }
    );
}

#[test]
fn each_constant_lands_in_its_own_field() {
    let info = get_platform_info("windows", "aarch64", "windows");
    assert_eq!(info.os, "windows");
    assert_eq!(info.arch, "aarch64");
    assert_eq!(info.family, "windows");
    let info = get_platform_info("a", "b", "c");
    assert_eq!((info.os.as_str(), info.arch.as_str(), info.family.as_str()), ("a", "b", "c"));
    let info = get_platform_info("", "", "");
    assert_eq!((info.os.as_str(), info.arch.as_str(), info.family.as_str()), ("", "", ""));
}

#[test]
fn the_report_is_the_same_on_every_call() {
    let first = get_platform_info("macos", "aarch64", "unix");
    for _ in 0..100 {
        assert_eq!(get_platform_info("macos", "aarch64", "unix"), first);
    }
}

#[test]
fn reports_of_different_platforms_differ() {
    let linux = get_platform_info("linux", "x86_64", "unix");
    assert_ne!(get_platform_info("macos", "x86_64", "unix"), linux);
    assert_ne!(get_platform_info("linux", "aarch64", "unix"), linux);
    assert_ne!(get_platform_info("linux", "x86_64", "windows"), linux);
}
