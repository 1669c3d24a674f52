use vodia_pbx_wizard::cli::{
    check_version_provided, confirmation_accepted, default_install_dir, parse_args, run_mode,
    CliCommand, RunMode,
};
use vodia_pbx_wizard::gui_state::{
    backend_command_args, extract_first_version, normalize_version, ActionEffect, GuiMessage,
    GuiState, LatestMessage, UserAction,
};
use vodia_pbx_wizard::releases::TargetPlatform;
use vodia_pbx_wizard::text::{decimal_string, split_char, trim};

fn args(a: &[&str]) -> Vec<String> {
    a.iter().map(|s| s.to_string()).collect()
}

#[test]
fn run_modes() {
    assert_eq!(run_mode(&args(&[])), RunMode::Gui);
    assert_eq!(run_mode(&args(&["70.5", "--gui"])), RunMode::Gui);
    assert_eq!(run_mode(&args(&["--gui", "--uninstall"])), RunMode::Uninstall);
    assert_eq!(run_mode(&args(&["70.5"])), RunMode::Cli);
}

#[test]
fn default_options() {
    match parse_args(&args(&["68.0.37"])).unwrap() {
        CliCommand::Run(o) => {
            assert_eq!(o.version.as_deref(), Some("68.0.37"));
            assert_eq!(o.target, TargetPlatform::Windows64);
            assert!(o.prefer_setup_package);
            assert!(!o.install_after_download);
            assert_eq!(o.install_dir, "C:\\Program Files\\Vodia\\PBX");
            assert_eq!(o.install_dir, default_install_dir());
            assert!(!o.assume_yes);
        }
        CliCommand::Help => panic!("help"),
    }
}

#[test]
fn all_options() {
    let cmd = parse_args(&args(&[
        "--target", "MacOS", "--no-setup", "--install", "-y", "--install-dir", "D:\\PBX", " 68.0.4 ", "--gui",
    ]))
    .unwrap();
    match cmd {
        CliCommand::Run(o) => {
            assert_eq!(o.version.as_deref(), Some("68.0.4"));
            assert_eq!(o.target, TargetPlatform::MacOS);
            assert!(!o.prefer_setup_package);
            assert!(o.install_after_download);
            assert_eq!(o.install_dir, "D:\\PBX");
            assert!(o.assume_yes);
        }
        CliCommand::Help => panic!("help"),
    }
    match parse_args(&args(&["--mac", "--windows", "--yes"])).unwrap() {
        CliCommand::Run(o) => {
            assert_eq!(o.version, None);
            assert_eq!(o.target, TargetPlatform::Windows64);
            assert!(o.assume_yes);
        }
        CliCommand::Help => panic!("help"),
    }
}

#[test]
fn help_wins() {
    assert!(matches!(parse_args(&args(&["--bogus", "-h"])).unwrap(), CliCommand::Help));
    assert!(matches!(parse_args(&args(&["--help"])).unwrap(), CliCommand::Help));
}

#[test]
fn argument_errors() {
    let msg = |a: &[&str]| parse_args(&args(a)).unwrap_err().message();
    assert_eq!(msg(&["--target"]), "Missing value after --target. Use windows or macos.");
    assert_eq!(msg(&["--install-dir"]), "Missing value after --install-dir.");
    assert_eq!(msg(&["--target", "Linux"]), "Unknown target platform: linux. Use windows or macos.");
    assert_eq!(msg(&["--verbose"]), "Unknown option: --verbose");
    assert_eq!(msg(&["70.5", "70.6"]), "Too many version values were provided.");
    assert_eq!(check_version_provided("  ").unwrap_err().message(), "No version was provided.");
    assert!(check_version_provided(" 70.5").is_ok());
}

#[test]
fn confirmation_answers() {
    assert!(confirmation_accepted("y\n"));
    assert!(confirmation_accepted(" YES "));
    assert!(!confirmation_accepted("no"));
    assert!(!confirmation_accepted(""));
    assert!(!confirmation_accepted("yess"));
}

#[test]
fn version_normalization() {
    assert_eq!(normalize_version("70.5").unwrap(), "70.5");
    assert_eq!(normalize_version(" v69.5.22\n").unwrap(), "69.5.22");
    assert_eq!(normalize_version("68.0.37").unwrap(), "68.0.37");
    for bad in ["7.5", "70", "70.5.1.2", "version 70.5", "", "v", "70.5-beta"] {
        assert_eq!(
            normalize_version(bad).unwrap_err(),
            "Invalid version. Use a version like 70.5, 69.5.22, or 68.0.37."
        );
    }
}

#[test]
fn first_version_in_text() {
    assert_eq!(extract_first_version("70.5.3\n").as_deref(), Some("70.5.3"));
    assert_eq!(extract_first_version("latest: v69.5.22 (stable)").as_deref(), Some("69.5.22"));
    assert_eq!(extract_first_version("build 1.2 then 70.1").as_deref(), Some("70.1"));
    assert_eq!(extract_first_version("nothing here"), None);
}

#[test]
fn backend_arguments() {
    assert_eq!(
        backend_command_args("70.5", true, "C:\\PBX"),
        args(&["70.5", "--yes", "--install", "--install-dir", "C:\\PBX"])
    );
    assert_eq!(backend_command_args("70.5", false, "C:\\PBX"), args(&["70.5", "--yes", "--install-dir", "C:\\PBX"]));
}

#[test]
fn gui_messages_fill_the_log_and_end_the_run() {
    let mut s = GuiState::new();
    assert_eq!(s.version_input, "68.0.37");
    assert_eq!(s.status_text(), "Status: Ready");
    let req = s.start_backend(true).unwrap();
    assert!(req.use_latest && req.install);
    assert!(s.install_running);
    assert_eq!(s.status_text(), "Status: Running...");
    assert!(!s.drain_messages(&vec![GuiMessage::Log("one".to_string())]));
    assert!(s.install_running);
    assert!(s.drain_messages(&vec![GuiMessage::Log("two".to_string()), GuiMessage::Done(3)]));
    assert!(!s.install_running);
    assert_eq!(s.log, "one\ntwo\n\nInstaller exited with error code 3.\n");
    s.clear_log();
    assert!(s.drain_messages(&vec![GuiMessage::Done(0), GuiMessage::Failed("boom".to_string())]));
    assert_eq!(s.log, "\nCompleted successfully.\n\nERROR: boom\n");
    assert!(!s.needs_repaint(false));
    assert!(s.needs_repaint(true));
}

#[test]
fn gui_refuses_bad_typed_version() {
    let mut s = GuiState::new();
    s.version_input = "abc".to_string();
    s.version_edited();
    assert!(s.start_backend(false).is_none());
    assert!(!s.install_running);
    assert_eq!(s.log, "Cannot start installer.\nInvalid version. Use a version like 70.5, 69.5.22, or 68.0.37.\n");
    s.version_input = "v70.5".to_string();
    let req = s.start_backend(false).unwrap();
    assert!(!req.use_latest);
    assert_eq!(req.requested_version, "v70.5");
}

#[test]
fn gui_latest_version_messages() {
    let mut s = GuiState::new();
    assert!(!s.drain_latest_messages(&vec![]));
    assert!(s.drain_latest_messages(&vec![LatestMessage::Loaded("70.5".to_string())]));
    assert_eq!(s.version_input, "70.5");
    assert_eq!(s.latest_version.as_deref(), Some("70.5"));
    s.version_input = "69.0".to_string();
    s.version_edited();
    assert!(s.drain_latest_messages(&vec![LatestMessage::Failed]));
    assert_eq!(s.version_input, "69.0");
    s.use_latest();
    assert!(!s.version_manually_edited);
    assert_eq!(s.version_input, "70.5");
    let mut fresh = GuiState::new();
    fresh.version_input = "x".to_string();
    assert!(fresh.drain_latest_messages(&vec![LatestMessage::Failed]));
    assert_eq!(fresh.version_input, "68.0.37");
}

#[test]
fn gui_uninstall() {
    let mut s = GuiState::new();
    assert!(s.start_uninstall());
    assert_eq!(s.log, "Starting Vodia PBX uninstaller...\n");
    assert!(!s.start_uninstall());
    s.uninstall_not_started("no path");
    assert!(!s.install_running);
    assert_eq!(s.log, "Starting Vodia PBX uninstaller...\nCould not locate current executable: no path\n");
}

#[test]
fn gui_frame_applies_actions_in_order() {
    let mut s = GuiState::new();
    s.log = "old".to_string();
    let (finished, effects) = s.frame(
        &vec![],
        vec![
            UserAction::ClearLog,
            UserAction::InstallDirChanged("D:\\PBX".to_string()),
            UserAction::VersionTyped("70.5".to_string()),
            UserAction::RunBackend(false),
            UserAction::Uninstall,
        ],
    );
    assert!(!finished);
    assert_eq!(effects.len(), 5);
    assert!(matches!(effects[0], ActionEffect::Updated));
    assert!(matches!(effects[1], ActionEffect::Updated));
    assert!(matches!(effects[2], ActionEffect::Updated));
    match &effects[3] {
        ActionEffect::RunBackend(r) => {
            assert!(!r.install);
            assert!(!r.use_latest);
            assert_eq!(r.requested_version, "70.5");
            assert_eq!(r.install_dir, "D:\\PBX");
        }
        other => panic!("unexpected effect {:?}", other),
    }
    assert!(matches!(effects[4], ActionEffect::Ignored));
    assert!(s.install_running);
    assert!(s.version_manually_edited);
    assert_eq!(s.log, "");

    // A finishing message ends the run before the actions apply.
    let (finished, effects) = s.frame(
        &vec![GuiMessage::Log("ok".to_string()), GuiMessage::Done(0)],
        vec![UserAction::UseLatest, UserAction::ClearLog],
    );
    assert!(finished);
    assert!(!s.install_running);
    assert!(matches!(effects[0], ActionEffect::RefreshLatest));
    assert!(matches!(effects[1], ActionEffect::Updated));
    assert!(!s.version_manually_edited);
    assert_eq!(s.version_input, "70.5");
    assert_eq!(s.log, "");
}

#[test]
fn gui_refused_start_through_an_action() {
    let mut s = GuiState::new();
    assert!(matches!(s.handle_action(UserAction::VersionTyped(" 7.5 ".to_string())), ActionEffect::Updated));
    assert!(matches!(s.handle_action(UserAction::RunBackend(true)), ActionEffect::Updated));
    assert!(!s.install_running);
    assert_eq!(s.log, "Cannot start installer.\nInvalid version. Use a version like 70.5, 69.5.22, or 68.0.37.\n");
    assert!(matches!(s.handle_action(UserAction::VersionTyped(" v69.5.22 ".to_string())), ActionEffect::Updated));
    match s.handle_action(UserAction::RunBackend(true)) {
        ActionEffect::RunBackend(r) => {
            assert!(r.install);
            assert_eq!(r.requested_version, " v69.5.22 ");
        }
        other => panic!("unexpected effect {:?}", other),
    }
    assert!(s.install_running);
    assert!(matches!(s.handle_action(UserAction::ClearLog), ActionEffect::Ignored));
}

#[test]
fn text_helpers() {
    assert_eq!(decimal_string(0), "0");
    assert_eq!(decimal_string(-1), "-1");
    assert_eq!(decimal_string(1234567890), "1234567890");
    assert_eq!(decimal_string(i64::MIN), "-9223372036854775808");
    assert_eq!(trim("\u{3000} a b \t\n"), "a b");
    assert_eq!(split_char("a..b", '.'), args(&["a", "", "b"]));
    assert_eq!(split_char("", '.'), args(&[""]));
}
