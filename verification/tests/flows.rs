use vodia_pbx_wizard::gui_state::{ActionEffect, GuiMessage, GuiState, UserAction};
use vodia_pbx_wizard::installer::{safe_archive_relative_path, PathComponent};
use vodia_pbx_wizard::releases::TargetPlatform;
use vodia_pbx_wizard::setup_runner::{
    post_download_step, FetchAction, FetchPhase, ManifestFetch, PostDownloadStep, SetupError,
};

#[test]
fn post_download_steps() {
    assert_eq!(post_download_step(TargetPlatform::Windows64, true), PostDownloadStep::InstallElevated);
    assert_eq!(post_download_step(TargetPlatform::Windows64, false), PostDownloadStep::ShowInstallHint);
    assert_eq!(post_download_step(TargetPlatform::MacOS, true), PostDownloadStep::ShowMacInstructions);
    assert_eq!(post_download_step(TargetPlatform::MacOS, false), PostDownloadStep::ShowMacInstructions);
}

fn urls() -> Vec<String> {
    vec!["u0".to_string(), "u1".to_string()]
}

#[test]
fn manifest_fetch_accepts_first_good_reply() {
    let mut f = ManifestFetch::new("68.0.37", urls());
    assert!(matches!(f.start(), FetchAction::Request(0)));
    assert!(matches!(f.on_status(200, "200 OK"), FetchAction::ReadBody(0)));
    assert!(matches!(f.on_body("<x/>"), FetchAction::Accept(0)));
    assert_eq!(f.phase, FetchPhase::Done);
}

#[test]
fn manifest_fetch_falls_back_and_fails_with_last_error() {
    let mut f = ManifestFetch::new("68.0.37", urls());
    assert!(matches!(f.start(), FetchAction::Request(0)));
    assert!(matches!(f.on_status(404, "404 Not Found"), FetchAction::Request(1)));
    assert_eq!(f.last_error, "u0 returned 404 Not Found");
    assert!(matches!(f.on_status(200, "200 OK"), FetchAction::ReadBody(1)));
    match f.on_body("<pbx version='68.0.36'/>") {
        FetchAction::Fail(e) => assert_eq!(
            e.message(),
            "Could not download a Vodia manifest for version 68.0.37. Last error: u1 downloaded successfully, but it did not appear to describe version 68.0.37"
        ),
        other => panic!("unexpected {other:?}"),
    }
}

#[test]
fn manifest_fetch_request_errors_and_unreadable_bodies() {
    let mut f = ManifestFetch::new("70.5", urls());
    f.start();
    assert!(matches!(f.on_request_failed("timeout"), FetchAction::Request(1)));
    assert_eq!(f.last_error, "u0 failed: timeout");
    assert!(matches!(f.on_status(206, "206 Partial Content"), FetchAction::ReadBody(1)));
    match f.on_body_unreadable() {
        FetchAction::Fail(SetupError::ManifestBodyUnreadable(u)) => assert_eq!(u, "u1"),
        other => panic!("unexpected {other:?}"),
    }
    let mut empty = ManifestFetch::new("70.5", vec![]);
    match empty.start() {
        FetchAction::Fail(e) => assert_eq!(e.message(), "Could not download a Vodia manifest for version 70.5."),
        other => panic!("unexpected {other:?}"),
    }
}

#[test]
fn archive_path_accepted_again_unchanged() {
    let parts = safe_archive_relative_path(
        &vec![PathComponent::CurDir, PathComponent::Normal("a".to_string()), PathComponent::Normal("b".to_string())],
        "./a/b",
    )
    .unwrap();
    let again: Vec<PathComponent> = parts.iter().map(|p| PathComponent::Normal(p.clone())).collect();
    assert_eq!(safe_archive_relative_path(&again, "a/b").unwrap(), parts);
}

#[test]
fn running_window_ignores_controls() {
    let mut s = GuiState::new();
    assert!(s.controls_enabled());
    let (finished, effects) = s.frame(&vec![], vec![UserAction::RunBackend(true)]);
    assert!(!finished);
    assert!(matches!(effects[0], ActionEffect::RunBackend(_)));
    assert!(!s.controls_enabled());
    let dir = s.install_dir.clone();
    let (finished, effects) = s.frame(
        &vec![GuiMessage::Log("line".to_string())],
        vec![
            UserAction::Uninstall,
            UserAction::ClearLog,
            UserAction::InstallDirChanged("D:\\x".to_string()),
            UserAction::VersionTyped("1".to_string()),
        ],
    );
    assert!(!finished);
    assert!(effects.iter().all(|e| matches!(e, ActionEffect::Ignored)));
    assert_eq!(s.install_dir, dir);
    assert_eq!(s.log, "line\n");
    let (finished, effects) = s.frame(&vec![GuiMessage::Done(0)], vec![UserAction::ClearLog]);
    assert!(finished);
    assert!(matches!(effects[0], ActionEffect::Updated));
    assert_eq!(s.log, "");
    assert!(s.controls_enabled());
}

#[test]
fn window_actions_when_idle() {
    let mut s = GuiState::new();
    assert!(matches!(s.handle_action(UserAction::VersionTyped("bad".to_string())), ActionEffect::Updated));
    assert!(s.version_manually_edited);
    assert!(matches!(s.handle_action(UserAction::RunBackend(false)), ActionEffect::Updated));
    assert!(!s.install_running);
    assert!(matches!(s.handle_action(UserAction::UseLatest), ActionEffect::RefreshLatest));
    assert!(!s.version_manually_edited);
    assert!(matches!(s.handle_action(UserAction::InstallDirChanged("E:\\p".to_string())), ActionEffect::Updated));
    assert_eq!(s.install_dir, "E:\\p");
    assert!(matches!(s.handle_action(UserAction::Uninstall), ActionEffect::RunUninstaller));
    assert!(s.install_running);
}
