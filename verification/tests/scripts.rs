use vodia_pbx_wizard::installer::{is_setup_exe_entry, safe_archive_relative_path, ArchiveError, PathComponent};
use vodia_pbx_wizard::manifest_installer::{
    check_staged_folder, install_launcher, install_launcher_file_name, install_script,
    install_script_file_name,
};
use vodia_pbx_wizard::uninstaller::{
    cmd_keep_open_args, escape_powershell_string, uninstall_launcher, uninstall_launcher_file_name,
    uninstall_script, uninstall_script_file_name,
};
use vodia_pbx_wizard::windows_admin::{shell_execute_outcome, ElevationError};

fn normal(s: &str) -> PathComponent {
    PathComponent::Normal(s.to_string())
}

#[test]
fn archive_paths_keep_normal_components() {
    let parts = safe_archive_relative_path(
        &vec![PathComponent::CurDir, normal("pkg"), PathComponent::CurDir, normal("setup.exe")],
        "./pkg/./setup.exe",
    )
    .unwrap();
    assert_eq!(parts, vec!["pkg".to_string(), "setup.exe".to_string()]);
}

#[test]
fn archive_paths_that_escape_are_refused() {
    for (cs, text) in [
        (vec![PathComponent::ParentDir, normal("x")], "../x"),
        (vec![PathComponent::RootDir, normal("etc")], "/etc"),
        (vec![normal("a"), PathComponent::ParentDir], "a/.."),
        (vec![PathComponent::Prefix, PathComponent::RootDir], "C:\\"),
    ] {
        let err = safe_archive_relative_path(&cs, text).unwrap_err();
        assert_eq!(err.message(), format!("Archive contains an unsafe path: {text}"));
    }
}

#[test]
fn empty_archive_paths_are_refused() {
    let err = safe_archive_relative_path(&vec![], "").unwrap_err();
    assert!(matches!(err, ArchiveError::EmptyPath));
    assert_eq!(err.message(), "Archive contains an empty path");
    let err = safe_archive_relative_path(&vec![PathComponent::CurDir], ".").unwrap_err();
    assert!(matches!(err, ArchiveError::EmptyPath));
}

#[test]
fn setup_exe_entries() {
    assert!(is_setup_exe_entry(true, Some("setup.exe")));
    assert!(is_setup_exe_entry(true, Some("SETUP.EXE")));
    assert!(!is_setup_exe_entry(false, Some("setup.exe")));
    assert!(!is_setup_exe_entry(true, Some("setup.exe.bak")));
    assert!(!is_setup_exe_entry(true, None));
}

#[test]
fn powershell_escaping() {
    assert_eq!(escape_powershell_string(r"C:\Program Files\Vodia\PBX"), r"C:\Program Files\Vodia\PBX");
    assert_eq!(escape_powershell_string("a\"b`c"), "a`\"b``c");
    assert_eq!(escape_powershell_string(""), "");
    assert_eq!(escape_powershell_string("``\"\""), "`````\"`\"");
}

#[test]
fn uninstall_script_holds_escaped_folder() {
    let s = uninstall_script("C:\\PBX \"x\"");
    assert!(s.starts_with("$ErrorActionPreference = \"Continue\"\n\n$InstallDir = \"C:\\PBX `\"x`\"\"\n$ServiceName = \"PBX\"\n"));
    assert!(s.ends_with("Read-Host \"Press Enter to continue\"\n"));
    assert!(s.contains("sc.exe delete $ServiceName | Out-Host"));
}

#[test]
fn uninstall_launcher_and_args() {
    assert_eq!(
        uninstall_launcher("C:\\Temp\\u.ps1"),
        "@echo off\n    powershell.exe -NoProfile -ExecutionPolicy Bypass -File \"C:\\Temp\\u.ps1\"\n    exit /b %ERRORLEVEL%\n    "
    );
    assert_eq!(cmd_keep_open_args("C:\\Temp\\r.cmd"), "/k \"C:\\Temp\\r.cmd\"");
    assert_eq!(uninstall_script_file_name(1700000000), "uninstall-vodia-pbx-1700000000.ps1");
    assert_eq!(uninstall_launcher_file_name(0), "run-uninstall-vodia-pbx-0.cmd");
    assert_eq!(uninstall_launcher_file_name(u64::MAX), "run-uninstall-vodia-pbx-18446744073709551615.cmd");
}

#[test]
fn staged_folder_checks() {
    assert!(check_staged_folder(true, true, true, "s", "e", "d").is_ok());
    assert_eq!(
        check_staged_folder(false, false, false, "s", "e", "d").unwrap_err().message(),
        "Staged folder does not exist: s"
    );
    assert_eq!(
        check_staged_folder(true, false, false, "s", "e", "d").unwrap_err().message(),
        "Staged folder is missing pbxctrl.exe: e"
    );
    assert_eq!(
        check_staged_folder(true, true, false, "s", "e", "d").unwrap_err().message(),
        "Staged folder is missing pbxctrl.dat: d"
    );
}

#[test]
fn install_script_text() {
    let s = install_script("C:\\Stage", "C:\\Program Files\\Vodia\\PBX");
    assert!(s.starts_with("$ErrorActionPreference = \"Stop\"\n\n$StagedDir = \"C:\\Stage\"\n$InstallDir = \"C:\\Program Files\\Vodia\\PBX\"\n"));
    assert!(s.contains("if ($service) {\n"));
    assert!(s.contains("ForEach-Object { [char]$_ }"));
    assert!(!s.contains("{{"));
    let l = install_launcher("C:\\T\\i.ps1");
    assert!(l.starts_with("@echo off\n        powershell.exe -NoProfile -ExecutionPolicy Bypass -File \"C:\\T\\i.ps1\"\n"));
    assert!(l.contains("pause"));
    assert_eq!(install_script_file_name(42), "install-vodia-pbx-42.ps1");
    assert_eq!(install_launcher_file_name(42), "run-install-vodia-pbx-42.cmd");
}

#[test]
fn shell_execute_results() {
    assert!(shell_execute_outcome(33).is_ok());
    assert!(shell_execute_outcome(42).is_ok());
    assert_eq!(shell_execute_outcome(32), Err(ElevationError::ShellExecuteFailed(32)));
    assert_eq!(
        shell_execute_outcome(0).unwrap_err().message(),
        "Failed to start elevated process. ShellExecuteW returned 0"
    );
    assert_eq!(
        shell_execute_outcome(-5).unwrap_err().message(),
        "Failed to start elevated process. ShellExecuteW returned -5"
    );
    assert_eq!(
        ElevationError::SetupNeedsWindows.message(),
        "Launching setup.exe with UAC elevation is only supported on Windows."
    );
    assert_eq!(
        ElevationError::ElevationNeedsWindows.message(),
        "Launching elevated processes is only supported on Windows."
    );
}
