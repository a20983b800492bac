use backend_supervisor::locator::{
    candidates, platform_binary_name, sidecar_name, FileCheck, StrategyKind, TargetArch, TargetOs,
};
use backend_supervisor::text::decimal_string;

fn check(path: &str, dir: &str, is_file: bool) -> Option<FileCheck> {
    Some(FileCheck { path: path.to_string(), dir: dir.to_string(), is_file })
}

#[test]
fn binary_name_has_exe_suffix_on_windows_only() {
    assert_eq!(platform_binary_name(TargetOs::Windows, TargetArch::X86_64), "wallet-backend.exe");
    assert_eq!(platform_binary_name(TargetOs::Windows, TargetArch::Aarch64), "wallet-backend.exe");
    assert_eq!(platform_binary_name(TargetOs::Linux, TargetArch::X86_64), "wallet-backend");
    assert_eq!(platform_binary_name(TargetOs::MacOs, TargetArch::Aarch64), "wallet-backend");
    assert_eq!(sidecar_name(), "wallet-backend");
}

#[test]
fn candidates_in_priority_order() {
    let c = candidates(true, check("/res/wb", "/res", true), check("/bin/wb", "/bin", true));
    assert_eq!(c.len(), 3);
    assert_eq!(c[0].kind, StrategyKind::Sidecar);
    assert_eq!(c[0].program, "wallet-backend");
    assert_eq!(c[0].working_dir, None);
    assert_eq!(c[1].kind, StrategyKind::ResourceDir);
    assert_eq!(c[1].program, "/res/wb");
    assert_eq!(c[1].working_dir, Some("/res".to_string()));
    assert_eq!(c[2].kind, StrategyKind::ExecutableDir);
    assert_eq!(c[2].program, "/bin/wb");
    assert_eq!(c[2].working_dir, Some("/bin".to_string()));
}

#[test]
fn candidates_exclude_missing_files() {
    let c = candidates(false, check("/res/wb", "/res", false), check("/bin/wb", "/bin", true));
    assert_eq!(c.len(), 1);
    assert_eq!(c[0].kind, StrategyKind::ExecutableDir);
    assert_eq!(c[0].program, "/bin/wb");
    let none = candidates(false, check("/res/wb", "/res", false), None);
    assert!(none.is_empty());
}

#[test]
fn decimal_rendering() {
    assert_eq!(decimal_string(0), "0");
    assert_eq!(decimal_string(7), "7");
    assert_eq!(decimal_string(10), "10");
    assert_eq!(decimal_string(55001), "55001");
    assert_eq!(decimal_string(u64::MAX), u64::MAX.to_string());
}
