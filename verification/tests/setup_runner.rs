use vodia_pbx_wizard::releases::{SetupPackageKind, TargetPlatform};
use vodia_pbx_wizard::setup_runner::{
    accept_manifest_body, collect_manifest_items, executable_mode, file_matches_target,
    no_manifest_error, normalize_vodia_download_url, package_work_dir_name, plan_from_nodes,
    plan_manifest_download, range_status_found, safe_relative_path, staging_folder_name,
    status_is_success, validate_required_files, version_has_patch, ManifestFallback, ProbeAction,
    ProbePhase, SetupError, SetupProbe, XmlAttribute, XmlNode,
};

#[test]
fn http_download_links_are_upgraded() {
    assert_eq!(
        normalize_vodia_download_url("http://portal.vodia.com/downloads/pbx/win64/pbxctrl.exe").unwrap(),
        "https://portal.vodia.com/downloads/pbx/win64/pbxctrl.exe"
    );
    assert_eq!(
        normalize_vodia_download_url("https://portal.vodia.com/downloads/pbx/x.dat").unwrap(),
        "https://portal.vodia.com/downloads/pbx/x.dat"
    );
}

#[test]
fn foreign_download_links_are_refused() {
    for link in [
        "https://evil.example.com/downloads/pbx/x",
        "http://portal.vodia.com/other/x",
        "ftp://portal.vodia.com/downloads/pbx/x",
        "",
        "HTTPS://portal.vodia.com/downloads/pbx/x",
    ] {
        let err = normalize_vodia_download_url(link).unwrap_err();
        assert_eq!(err.message(), format!("Manifest contained an unexpected download URL: {link}"));
    }
}

#[test]
fn normalized_links_normalize_to_themselves() {
    let once = normalize_vodia_download_url("http://portal.vodia.com/downloads/pbx/a").unwrap();
    let twice = normalize_vodia_download_url(&once).unwrap();
    assert_eq!(once, twice);
}

#[test]
fn manifest_files_match_target_by_os_attribute() {
    assert!(file_matches_target(None, TargetPlatform::Windows64));
    assert!(file_matches_target(None, TargetPlatform::MacOS));
    assert!(file_matches_target(Some("win64"), TargetPlatform::Windows64));
    assert!(file_matches_target(Some("WIN64"), TargetPlatform::Windows64));
    assert!(!file_matches_target(Some("Win64"), TargetPlatform::MacOS));
    assert!(file_matches_target(Some("macos"), TargetPlatform::MacOS));
    assert!(!file_matches_target(Some("Linux"), TargetPlatform::Windows64));
}

#[test]
fn safe_relative_paths_are_split_at_slashes() {
    assert_eq!(safe_relative_path("pbxctrl.exe").unwrap(), vec!["pbxctrl.exe".to_string()]);
    assert_eq!(
        safe_relative_path("lang/de/strings.xml").unwrap(),
        vec!["lang".to_string(), "de".to_string(), "strings.xml".to_string()]
    );
}

#[test]
fn unsafe_relative_paths_are_refused() {
    for name in ["", "../x", "a/../b", "./a", "a//b", "/a", "a/", "c:/x", "a\\b", "x/d:y", ".."] {
        let err = safe_relative_path(name).unwrap_err();
        assert_eq!(err.message(), format!("Unsafe path in manifest: {name}"));
    }
}

#[test]
fn safe_relative_path_round_trips() {
    let name = "a/b c/d.e";
    assert_eq!(safe_relative_path(name).unwrap().join("/"), name);
}

#[test]
fn versions_with_patch_have_two_dots() {
    assert!(version_has_patch("68.0.37"));
    assert!(version_has_patch("1.2.3.4"));
    assert!(version_has_patch(".."));
    assert!(!version_has_patch("70.5"));
    assert!(!version_has_patch("70"));
    assert!(!version_has_patch(""));
}

#[test]
fn fallback_manifest_must_mention_patch_version() {
    assert!(accept_manifest_body(0, "68.0.37", "<x/>"));
    assert!(!accept_manifest_body(1, "68.0.37", "<pbx version='68.0.36'/>"));
    assert!(accept_manifest_body(1, "68.0.37", "<pbx version='68.0.37'/>"));
    assert!(accept_manifest_body(1, "70.5", "<x/>"));
}

#[test]
fn no_manifest_error_text() {
    assert_eq!(
        no_manifest_error("70.5", "").message(),
        "Could not download a Vodia manifest for version 70.5."
    );
    assert_eq!(
        no_manifest_error("70.5", "x returned 404 Not Found").message(),
        "Could not download a Vodia manifest for version 70.5. Last error: x returned 404 Not Found"
    );
}

#[test]
fn folder_names() {
    assert_eq!(staging_folder_name("68.0.37", TargetPlatform::Windows64), "VodiaPBX-68.0.37-windows");
    assert_eq!(staging_folder_name("68.0.4", TargetPlatform::MacOS), "VodiaPBX-68.0.4-macos");
    assert_eq!(package_work_dir_name("70.5", SetupPackageKind::TarGz), "VodiaInstallerWizard-70.5-tar-gz");
}

#[test]
fn required_files_are_checked_in_order() {
    assert!(validate_required_files(TargetPlatform::Windows64, &vec![true, true, true]).is_ok());
    assert!(validate_required_files(TargetPlatform::MacOS, &vec![true, true]).is_ok());
    let err = validate_required_files(TargetPlatform::Windows64, &vec![true, false, false]).unwrap_err();
    assert_eq!(
        err.message(),
        "Manifest download finished, but required file was not found: pbxctrl.dat"
    );
    let err = validate_required_files(TargetPlatform::Windows64, &vec![true, true]).unwrap_err();
    assert_eq!(
        err.message(),
        "Manifest download finished, but required file was not found: opus.dll"
    );
    let err = validate_required_files(TargetPlatform::MacOS, &vec![]).unwrap_err();
    match err {
        SetupError::MissingRequiredFile(n) => assert_eq!(n, "pbxctrl"),
        other => panic!("unexpected {other:?}"),
    }
}

#[test]
fn status_codes() {
    assert!(status_is_success(200));
    assert!(status_is_success(299));
    assert!(!status_is_success(300));
    assert!(!status_is_success(404));
    assert!(range_status_found(206));
    assert!(range_status_found(200));
    assert!(!range_status_found(416));
    assert_eq!(executable_mode(0o644), 0o755);
    assert_eq!(executable_mode(0o100600), 0o100755);
}

const MANIFEST: &str = r#"<?xml version="1.0"?>
<pbx version="68.0.37">
  <file name="pbxctrl.exe" os="Win64" type="Executable" link="http://portal.vodia.com/downloads/pbx/win64/pbxctrl.exe"/>
  <file name="pbxctrl" os="macos" type="executable" link="https://portal.vodia.com/downloads/pbx/mac/pbxctrl"/>
  <file name="pbxctrl.dat" link="https://portal.vodia.com/downloads/pbx/pbxctrl.dat"/>
  <file name="opus.dll" os="WIN64" link="https://portal.vodia.com/downloads/pbx/win64/opus.dll"/>
  <file link="https://portal.vodia.com/downloads/pbx/nameless"/>
  <other name="x" link="https://evil.example.com/x"/>
</pbx>"#;

#[test]
fn manifest_plan_for_windows() {
    let plan = plan_manifest_download(MANIFEST, "68.0.37", TargetPlatform::Windows64).unwrap();
    assert_eq!(plan.staging_folder, "VodiaPBX-68.0.37-windows");
    let got: Vec<(String, String, bool)> =
        plan.items.iter().map(|i| (i.name.clone(), i.link.clone(), i.executable)).collect();
    assert_eq!(
        got,
        vec![
            (
                "pbxctrl.exe".to_string(),
                "https://portal.vodia.com/downloads/pbx/win64/pbxctrl.exe".to_string(),
                true
            ),
            ("pbxctrl.dat".to_string(), "https://portal.vodia.com/downloads/pbx/pbxctrl.dat".to_string(), false),
            ("opus.dll".to_string(), "https://portal.vodia.com/downloads/pbx/win64/opus.dll".to_string(), false),
        ]
    );
}

#[test]
fn manifest_plan_for_macos() {
    let plan = plan_manifest_download(MANIFEST, "68.0.4", TargetPlatform::MacOS).unwrap();
    assert_eq!(plan.staging_folder, "VodiaPBX-68.0.4-macos");
    let names: Vec<&str> = plan.items.iter().map(|i| i.name.as_str()).collect();
    assert_eq!(names, vec!["pbxctrl", "pbxctrl.dat"]);
    assert!(plan.items[0].executable);
}

#[test]
fn manifest_errors() {
    let err = plan_manifest_download("<pbx><file", "70.5", TargetPlatform::Windows64).unwrap_err();
    assert_eq!(err.message(), "Failed to parse Vodia XML manifest");
    let err = plan_manifest_download("<pbx/>", "70.5", TargetPlatform::Windows64).unwrap_err();
    assert_eq!(err.message(), "The manifest did not contain any shared files or Windows 64-bit files.");
    let err = plan_manifest_download(
        "<pbx><file name='a' os='MacOS' link='https://x/'/></pbx>",
        "70.5",
        TargetPlatform::MacOS,
    )
    .unwrap_err();
    assert_eq!(err.message(), "Manifest contained an unexpected download URL: https://x/");
    let err = plan_manifest_download(
        "<pbx><file name='a' os='MacOS' link='https://x/'/></pbx>",
        "70.5",
        TargetPlatform::Windows64,
    )
    .unwrap_err();
    assert_eq!(err.message(), "The manifest did not contain any shared files or Windows 64-bit files.");
}

fn attr(name: &str, value: &str) -> XmlAttribute {
    XmlAttribute { name: name.to_string(), value: value.to_string() }
}

#[test]
fn manifest_items_from_nodes() {
    let nodes = vec![
        XmlNode { is_element: false, tag_name: String::new(), attributes: vec![] },
        XmlNode {
            is_element: true,
            tag_name: "file".to_string(),
            attributes: vec![
                attr("name", "a"),
                attr("name", "shadowed"),
                attr("link", "https://portal.vodia.com/downloads/pbx/a"),
                attr("type", "EXECUTABLE"),
            ],
        },
        XmlNode {
            is_element: true,
            tag_name: "File".to_string(),
            attributes: vec![attr("name", "b"), attr("link", "https://portal.vodia.com/downloads/pbx/b")],
        },
    ];
    let items = collect_manifest_items(&nodes, TargetPlatform::MacOS).unwrap();
    assert_eq!(items.len(), 1);
    assert_eq!(items[0].name, "a");
    assert!(items[0].executable);
    let plan = plan_from_nodes(&nodes, "70.5", TargetPlatform::MacOS).unwrap();
    assert_eq!(plan.items.len(), 1);
    let none = plan_from_nodes(&vec![], "70.5", TargetPlatform::MacOS).unwrap_err();
    assert_eq!(none.message(), "The manifest did not contain any shared files or MacOS files.");
}

fn kinds() -> Vec<SetupPackageKind> {
    vec![
        SetupPackageKind::Zip,
        SetupPackageKind::Tar,
        SetupPackageKind::TarGz,
        SetupPackageKind::Tgz,
        SetupPackageKind::Exe,
    ]
}

#[test]
fn probe_is_skipped_for_macos_or_without_setup_preference() {
    let mut p = SetupProbe::new(TargetPlatform::MacOS, true, kinds());
    assert_eq!(p.start(), ProbeAction::UseManifest(ManifestFallback::ProbingDisabled));
    let mut p = SetupProbe::new(TargetPlatform::Windows64, false, kinds());
    assert_eq!(p.start(), ProbeAction::UseManifest(ManifestFallback::ProbingDisabled));
    assert_eq!(p.phase, ProbePhase::Done);
}

#[test]
fn probe_with_no_candidate_uses_manifest() {
    let mut p = SetupProbe::new(TargetPlatform::Windows64, true, kinds());
    let mut action = p.start();
    let mut checked = vec![];
    while let ProbeAction::CheckCandidate(i) = action {
        checked.push(i);
        action = p.on_candidate_checked(false);
    }
    assert_eq!(checked, vec![0, 1, 2, 3, 4]);
    assert_eq!(action, ProbeAction::UseManifest(ManifestFallback::NoSetupPackage { any_found: false }));
}

#[test]
fn probe_launches_setup_from_archive() {
    let mut p = SetupProbe::new(TargetPlatform::Windows64, true, kinds());
    assert_eq!(p.start(), ProbeAction::CheckCandidate(0));
    assert_eq!(p.on_candidate_checked(false), ProbeAction::CheckCandidate(1));
    assert_eq!(p.on_candidate_checked(true), ProbeAction::TryArchive(1));
    assert_eq!(p.on_archive_tried(true), ProbeAction::Finished);
    assert_eq!(p.phase, ProbePhase::Done);
}

#[test]
fn probe_archive_without_setup_moves_on() {
    let mut p = SetupProbe::new(TargetPlatform::Windows64, true, kinds());
    assert_eq!(p.start(), ProbeAction::CheckCandidate(0));
    assert_eq!(p.on_candidate_checked(true), ProbeAction::TryArchive(0));
    assert_eq!(p.on_archive_tried(false), ProbeAction::CheckCandidate(1));
    assert_eq!(p.on_candidate_checked(false), ProbeAction::CheckCandidate(2));
    assert_eq!(p.on_candidate_checked(false), ProbeAction::CheckCandidate(3));
    assert_eq!(p.on_candidate_checked(false), ProbeAction::CheckCandidate(4));
    assert_eq!(
        p.on_candidate_checked(false),
        ProbeAction::UseManifest(ManifestFallback::NoSetupPackage { any_found: true })
    );
}

#[test]
fn probe_exe_candidate_uses_manifest() {
    let mut p = SetupProbe::new(TargetPlatform::Windows64, true, kinds());
    let mut action = p.start();
    for _ in 0..4 {
        assert!(matches!(action, ProbeAction::CheckCandidate(_)));
        action = p.on_candidate_checked(false);
    }
    assert_eq!(action, ProbeAction::CheckCandidate(4));
    assert_eq!(p.on_candidate_checked(true), ProbeAction::UseManifest(ManifestFallback::ExeCandidate(4)));
    assert!(p.found_any);
}
