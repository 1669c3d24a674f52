use vodia_pbx_wizard::credentials::generate_initial_credentials;
use vodia_pbx_wizard::releases::{
    candidate_manifest_urls, candidate_windows_setup_packages, manifest_url, PlatformError,
    SetupPackageKind, TargetPlatform,
};

#[test]
fn initial_credentials_are_admin_blank() {
    let c = generate_initial_credentials();
    assert_eq!(c.username, "admin");
    assert_eq!(c.password, "blank");
}

#[test]
fn platform_names_are_read_case_and_space_insensitively() {
    assert_eq!(TargetPlatform::from_user_value("windows").unwrap(), TargetPlatform::Windows64);
    assert_eq!(TargetPlatform::from_user_value("  WIN64 ").unwrap(), TargetPlatform::Windows64);
    assert_eq!(TargetPlatform::from_user_value("Win").unwrap(), TargetPlatform::Windows64);
    assert_eq!(TargetPlatform::from_user_value("Windows64").unwrap(), TargetPlatform::Windows64);
    assert_eq!(TargetPlatform::from_user_value("macOS").unwrap(), TargetPlatform::MacOS);
    assert_eq!(TargetPlatform::from_user_value("mac").unwrap(), TargetPlatform::MacOS);
    assert_eq!(TargetPlatform::from_user_value("\tDarwin\n").unwrap(), TargetPlatform::MacOS);
}

#[test]
fn unknown_platform_is_refused_with_its_normalized_name() {
    let err = TargetPlatform::from_user_value("  Linux ").unwrap_err();
    match &err {
        PlatformError::UnknownTargetPlatform(v) => assert_eq!(v, "linux"),
    }
    assert_eq!(err.message(), "Unknown target platform: linux. Use windows or macos.");
    assert!(TargetPlatform::from_user_value("").is_err());
    assert!(TargetPlatform::from_user_value("win 64").is_err());
}

#[test]
fn folder_label_reads_back_as_the_platform() {
    for t in [TargetPlatform::Windows64, TargetPlatform::MacOS] {
        assert_eq!(TargetPlatform::from_user_value(t.folder_label()).unwrap(), t);
    }
}

#[test]
fn platform_labels() {
    assert_eq!(TargetPlatform::Windows64.display_name(), "Windows 64-bit");
    assert_eq!(TargetPlatform::MacOS.display_name(), "MacOS");
    assert_eq!(TargetPlatform::Windows64.folder_label(), "windows");
    assert_eq!(TargetPlatform::MacOS.folder_label(), "macos");
    assert_eq!(TargetPlatform::Windows64.manifest_os(), "Win64");
    assert_eq!(TargetPlatform::MacOS.manifest_os(), "MacOS");
    assert_eq!(TargetPlatform::Windows64.required_files(), &["pbxctrl.exe", "pbxctrl.dat", "opus.dll"]);
    assert_eq!(TargetPlatform::MacOS.required_files(), &["pbxctrl", "pbxctrl.dat"]);
}

#[test]
fn package_kind_labels() {
    let kinds = [
        SetupPackageKind::Zip,
        SetupPackageKind::Tar,
        SetupPackageKind::TarGz,
        SetupPackageKind::Tgz,
        SetupPackageKind::Exe,
    ];
    let names: Vec<&str> = kinds.iter().map(|k| k.display_name()).collect();
    assert_eq!(names, vec!["ZIP", "TAR", "TAR.GZ", "TGZ", "EXE"]);
    let labels: Vec<&str> = kinds.iter().map(|k| k.temp_label()).collect();
    assert_eq!(labels, vec!["zip", "tar", "tar-gz", "tgz", "exe"]);
    let archives: Vec<bool> = kinds.iter().map(|k| k.is_archive()).collect();
    assert_eq!(archives, vec![true, true, true, true, false]);
}

#[test]
fn windows_setup_packages_for_a_version() {
    let c = candidate_windows_setup_packages("70.5");
    assert_eq!(c.len(), 5);
    let expected = [
        (SetupPackageKind::Zip, "zip"),
        (SetupPackageKind::Tar, "tar"),
        (SetupPackageKind::TarGz, "tar.gz"),
        (SetupPackageKind::Tgz, "tgz"),
        (SetupPackageKind::Exe, "exe"),
    ];
    for (candidate, (kind, ext)) in c.iter().zip(expected.iter()) {
        assert_eq!(candidate.kind, *kind);
        assert_eq!(candidate.filename, format!("pbxctrl-v70.5-64.{ext}"));
        assert_eq!(
            candidate.url,
            format!("https://portal.vodia.com/downloads/pbx/win64/pbxctrl-v70.5-64.{ext}")
        );
    }
}

#[test]
fn manifest_url_of_a_version() {
    assert_eq!(manifest_url("68.0.37"), "https://portal.vodia.com/downloads/pbx/version-68.0.37.xml");
    assert_eq!(manifest_url(""), "https://portal.vodia.com/downloads/pbx/version-.xml");
}

#[test]
fn manifest_urls_fall_back_to_major_minor_for_patch_versions() {
    assert_eq!(
        candidate_manifest_urls("68.0.37"),
        vec![
            "https://portal.vodia.com/downloads/pbx/version-68.0.37.xml".to_string(),
            "https://portal.vodia.com/downloads/pbx/version-68.0.xml".to_string(),
        ]
    );
    assert_eq!(
        candidate_manifest_urls("70.5"),
        vec!["https://portal.vodia.com/downloads/pbx/version-70.5.xml".to_string()]
    );
    assert_eq!(
        candidate_manifest_urls("1.2.3.4"),
        vec![
            "https://portal.vodia.com/downloads/pbx/version-1.2.3.4.xml".to_string(),
            "https://portal.vodia.com/downloads/pbx/version-1.2.xml".to_string(),
        ]
    );
    assert_eq!(
        candidate_manifest_urls(".."),
        vec![
            "https://portal.vodia.com/downloads/pbx/version-...xml".to_string(),
            "https://portal.vodia.com/downloads/pbx/version-..xml".to_string(),
        ]
    );
    assert_eq!(candidate_manifest_urls("70").len(), 1);
}
