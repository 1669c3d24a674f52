//! The state of the installer window and how it reacts to the user and to
//! the messages of the background work, and the reading of version numbers.

use vstd::prelude::*;
use crate::cli::{default_install_dir, DEFAULT_INSTALL_DIR};
use crate::text::{
    append_str, contains_spec, decimal_spec, decimal_string, to_owned_string, trim, trim_spec,
};

verus! {

// ---------------------------------------------------------------------------
// Version numbers

/// A version number anywhere in a text: two digits, a dot, digits, and
/// optionally another dot and digits, with an optional `v` in front.
pub const VERSION_SEARCH_PATTERN: &'static str = r"\bv?(\d{2}\.\d+(?:\.\d+)?)\b";

/// A text that is a version number and nothing else.
pub const VERSION_EXACT_PATTERN: &'static str = r"^v?(\d{2}\.\d+(?:\.\d+)?)$";

/// The version to offer while the latest one is unknown.
pub const FALLBACK_VERSION: &'static str = "68.0.37";

pub const INVALID_VERSION_MESSAGE: &'static str =
    "Invalid version. Use a version like 70.5, 69.5.22, or 68.0.37.";

/// The text of capture group `group` of the first match of the regular
/// expression `pattern` in `haystack`, as the `regex` crate finds it;
/// `None` when the pattern does not compile, nothing matches or the group
/// took no part in the match.
pub uninterp spec fn regex_capture(pattern: Seq<char>, haystack: Seq<char>, group: nat) -> Option<
    Seq<char>,
>;

/// Compiles `pattern` with `regex::Regex::new`, takes the first match in
/// `haystack` with `Regex::captures` and returns the text of capture group
/// `group` (`Captures::get`, `Match::as_str`). The contract claims that the
/// outcome is a function of the three arguments, named `regex_capture`, and
/// that a capture is a piece of the haystack, as `Match::as_str` documents.
#[verifier::external_body]
fn capture_group(pattern: &str, haystack: &str, group: usize) -> (res: Option<String>)
    ensures
        match res {
            Some(s) => regex_capture(pattern@, haystack@, group as nat) == Some(s@),
            None => regex_capture(pattern@, haystack@, group as nat) is None,
        },
        res matches Some(s) ==> contains_spec(haystack@, s@),
{
    let re = regex::Regex::new(pattern).ok()?;
    let caps = re.captures(haystack)?;
    Some(caps.get(group)?.as_str().to_string())
}

pub open spec fn option_string_view(o: Option<String>) -> Option<Seq<char>> {
    match o {
        Some(s) => Some(s@),
        None => None,
    }
}

/// The first version number in `text` (for example in the published
/// `latest.txt`), without a leading `v`.
pub fn extract_first_version(text: &str) -> (res: Option<String>)
    ensures
        option_string_view(res) == regex_capture(VERSION_SEARCH_PATTERN@, text@, 1),
        res matches Some(v) ==> contains_spec(text@, v@),
{
    capture_group(VERSION_SEARCH_PATTERN, text, 1)
}

/// The outcome of reading a version typed by the user, given what the exact
/// version pattern captured.
pub fn version_from_capture(captured: Option<String>) -> (res: Result<String, String>)
    ensures
        match captured {
            Some(v) => res matches Ok(r) && r@ == v@,
            None => res matches Err(m) && m@ == INVALID_VERSION_MESSAGE@,
        },
{
    match captured {
        Some(v) => Ok(v),
        None => Err(to_owned_string(INVALID_VERSION_MESSAGE)),
    }
}

/// Reads a version typed by the user: surrounding whitespace is ignored and
/// the rest must be a version number, optionally with a leading `v`, which
/// is dropped.
pub fn normalize_version(input: &str) -> (res: Result<String, String>)
    ensures
        match regex_capture(VERSION_EXACT_PATTERN@, trim_spec(input@), 1) {
            Some(v) => res matches Ok(r) && r@ == v,
            None => res matches Err(m) && m@ == INVALID_VERSION_MESSAGE@,
        },
        res matches Ok(r) ==> contains_spec(trim_spec(input@), r@),
{
    let trimmed = trim(input);
    version_from_capture(capture_group(VERSION_EXACT_PATTERN, trimmed.as_str(), 1))
}

// ---------------------------------------------------------------------------
// Messages from the background work

/// A message from the thread that runs the installer back end.
#[derive(Debug, Clone)]
pub enum GuiMessage {
    /// A line of output.
    Log(String),
    /// The back end exited with this code.
    Done(i32),
    /// The back end could not be run.
    Failed(String),
}

pub enum GuiMessageModel {
    Log(Seq<char>),
    Done(i32),
    Failed(Seq<char>),
}

impl View for GuiMessage {
    type V = GuiMessageModel;

    open spec fn view(&self) -> GuiMessageModel {
        match self {
            GuiMessage::Log(l) => GuiMessageModel::Log(l@),
            GuiMessage::Done(c) => GuiMessageModel::Done(*c),
            GuiMessage::Failed(e) => GuiMessageModel::Failed(e@),
        }
    }
}

/// A message from the thread that fetches the latest version.
#[derive(Debug, Clone)]
pub enum LatestMessage {
    Loaded(String),
    Failed,
}

/// What a message adds to the log.
pub open spec fn message_log_text(m: GuiMessageModel) -> Seq<char> {
    match m {
        GuiMessageModel::Log(l) => l + "\n"@,
        GuiMessageModel::Done(code) => if code == 0 {
            "\nCompleted successfully.\n"@
        } else {
            "\nInstaller exited with error code "@ + decimal_spec(code as int) + ".\n"@
        },
        GuiMessageModel::Failed(e) => "\nERROR: "@ + e + "\n"@,
    }
}

/// Whether a message ends the run.
pub open spec fn message_finishes(m: GuiMessageModel) -> bool {
    !(m is Log)
}

/// What a batch of messages adds to the log, in order.
pub open spec fn messages_log_text(ms: Seq<GuiMessageModel>) -> Seq<char>
    decreases ms.len(),
{
    if ms.len() == 0 {
        Seq::empty()
    } else {
        messages_log_text(ms.drop_last()) + message_log_text(ms.last())
    }
}

pub open spec fn messages_view(ms: Seq<GuiMessage>) -> Seq<GuiMessageModel> {
    ms.map_values(|m: GuiMessage| m@)
}

/// A request to run the installer back end.
#[derive(Debug, Clone)]
pub struct BackendRequest {
    /// Install after downloading, or download only.
    pub install: bool,
    /// Fetch the latest version first instead of using `requested_version`.
    pub use_latest: bool,
    pub requested_version: String,
    pub install_dir: String,
}

/// What the user did in the window.
#[derive(Debug, Clone)]
pub enum UserAction {
    /// Pressed "Install" (`true`) or "Download Only" (`false`).
    RunBackend(bool),
    /// Pressed "Uninstall".
    Uninstall,
    /// Pressed "Clear Log".
    ClearLog,
    /// Pressed "Use Latest".
    UseLatest,
    /// Typed in the version field, which now holds this text.
    VersionTyped(String),
    /// Changed the install folder, by typing or browsing, to this text.
    InstallDirChanged(String),
}

/// What the window must do after an action.
#[derive(Debug, Clone)]
pub enum ActionEffect {
    /// Nothing: the controls are disabled while something runs.
    Ignored,
    /// The state was updated; nothing else to do.
    Updated,
    /// Run the installer back end with this request.
    RunBackend(BackendRequest),
    /// Run the uninstaller.
    RunUninstaller,
    /// Fetch the latest version again.
    RefreshLatest,
}

/// The state of the installer window.
#[derive(Debug, Clone)]
pub struct GuiState {
    pub version_input: String,
    pub latest_version: Option<String>,
    pub version_manually_edited: bool,
    pub install_dir: String,
    pub install_running: bool,
    pub log: String,
}

/// A request to the back end, as plain values.
pub struct BackendRequestModel {
    pub install: bool,
    pub use_latest: bool,
    pub requested_version: Seq<char>,
    pub install_dir: Seq<char>,
}

impl View for BackendRequest {
    type V = BackendRequestModel;

    open spec fn view(&self) -> BackendRequestModel {
        BackendRequestModel {
            install: self.install,
            use_latest: self.use_latest,
            requested_version: self.requested_version@,
            install_dir: self.install_dir@,
        }
    }
}

/// What the user did, as plain values.
pub enum UserActionModel {
    RunBackend(bool),
    Uninstall,
    ClearLog,
    UseLatest,
    VersionTyped(Seq<char>),
    InstallDirChanged(Seq<char>),
}

impl View for UserAction {
    type V = UserActionModel;

    open spec fn view(&self) -> UserActionModel {
        match self {
            UserAction::RunBackend(install) => UserActionModel::RunBackend(*install),
            UserAction::Uninstall => UserActionModel::Uninstall,
            UserAction::ClearLog => UserActionModel::ClearLog,
            UserAction::UseLatest => UserActionModel::UseLatest,
            UserAction::VersionTyped(v) => UserActionModel::VersionTyped(v@),
            UserAction::InstallDirChanged(d) => UserActionModel::InstallDirChanged(d@),
        }
    }
}

/// What the window must do after an action, as plain values.
pub enum ActionEffectModel {
    Ignored,
    Updated,
    RunBackend(BackendRequestModel),
    RunUninstaller,
    RefreshLatest,
}

impl View for ActionEffect {
    type V = ActionEffectModel;

    open spec fn view(&self) -> ActionEffectModel {
        match self {
            ActionEffect::Ignored => ActionEffectModel::Ignored,
            ActionEffect::Updated => ActionEffectModel::Updated,
            ActionEffect::RunBackend(r) => ActionEffectModel::RunBackend(r@),
            ActionEffect::RunUninstaller => ActionEffectModel::RunUninstaller,
            ActionEffect::RefreshLatest => ActionEffectModel::RefreshLatest,
        }
    }
}

/// The state of the window, as plain values.
#[verifier::ext_equal]
pub struct GuiStateModel {
    pub version_input: Seq<char>,
    pub latest_version: Option<Seq<char>>,
    pub version_manually_edited: bool,
    pub install_dir: Seq<char>,
    pub install_running: bool,
    pub log: Seq<char>,
}

impl View for GuiState {
    type V = GuiStateModel;

    open spec fn view(&self) -> GuiStateModel {
        GuiStateModel {
            version_input: self.version_input@,
            latest_version: option_string_view(self.latest_version),
            version_manually_edited: self.version_manually_edited,
            install_dir: self.install_dir@,
            install_running: self.install_running,
            log: self.log@,
        }
    }
}

/// Whether "Install" or "Download Only" is refused: the version was typed
/// by hand and, without surrounding whitespace, is not a version number.
pub open spec fn version_refused(s: GuiStateModel) -> bool {
    s.version_manually_edited && regex_capture(VERSION_EXACT_PATTERN@, trim_spec(s.version_input), 1)
        is None
}

/// The log after a refused start.
pub open spec fn refusal_log() -> Seq<char> {
    "Cannot start installer.\n"@ + INVALID_VERSION_MESSAGE@ + "\n"@
}

/// The log when the uninstaller starts.
pub open spec fn uninstall_log() -> Seq<char> {
    "Starting Vodia PBX uninstaller...\n"@
}

/// One user action applied to the window: the new state and what the window
/// must do. While something runs every action is ignored.
pub open spec fn action_step(s: GuiStateModel, a: UserActionModel) -> (GuiStateModel, ActionEffectModel) {
    if s.install_running {
        (s, ActionEffectModel::Ignored)
    } else {
        match a {
            UserActionModel::RunBackend(install) => if version_refused(s) {
                (GuiStateModel { log: refusal_log(), ..s }, ActionEffectModel::Updated)
            } else {
                (
                    GuiStateModel { install_running: true, log: Seq::empty(), ..s },
                    ActionEffectModel::RunBackend(
                        BackendRequestModel {
                            install,
                            use_latest: !s.version_manually_edited,
                            requested_version: s.version_input,
                            install_dir: s.install_dir,
                        },
                    ),
                )
            },
            UserActionModel::Uninstall => (
                GuiStateModel { install_running: true, log: uninstall_log(), ..s },
                ActionEffectModel::RunUninstaller,
            ),
            UserActionModel::ClearLog => (
                GuiStateModel { log: Seq::empty(), ..s },
                ActionEffectModel::Updated,
            ),
            UserActionModel::UseLatest => (
                GuiStateModel {
                    version_manually_edited: false,
                    version_input: match s.latest_version {
                        Some(v) => v,
                        None => s.version_input,
                    },
                    ..s
                },
                ActionEffectModel::RefreshLatest,
            ),
            UserActionModel::VersionTyped(v) => (
                GuiStateModel { version_input: v, version_manually_edited: true, ..s },
                ActionEffectModel::Updated,
            ),
            UserActionModel::InstallDirChanged(d) => (
                GuiStateModel { install_dir: d, ..s },
                ActionEffectModel::Updated,
            ),
        }
    }
}

/// Actions applied in order: the final state and the effect of each.
pub open spec fn actions_steps(s: GuiStateModel, acts: Seq<UserActionModel>) -> (
    GuiStateModel,
    Seq<ActionEffectModel>,
)
    decreases acts.len(),
{
    if acts.len() == 0 {
        (s, Seq::empty())
    } else {
        let before = actions_steps(s, acts.drop_last());
        let step = action_step(before.0, acts.last());
        (step.0, before.1.push(step.1))
    }
}

/// Whether any of the messages ends the run.
pub open spec fn messages_finish(ms: Seq<GuiMessageModel>) -> bool {
    exists|i: int| 0 <= i < ms.len() && message_finishes(#[trigger] ms[i])
}

/// The state after the back end's messages are taken in: their text is
/// added to the log, and a finishing message ends the run.
pub open spec fn messages_step(s: GuiStateModel, ms: Seq<GuiMessageModel>) -> GuiStateModel {
    GuiStateModel {
        log: s.log + messages_log_text(ms),
        install_running: s.install_running && !messages_finish(ms),
        ..s
    }
}

pub open spec fn actions_view(acts: Seq<UserAction>) -> Seq<UserActionModel> {
    acts.map_values(|a: UserAction| a@)
}

pub open spec fn effects_view(effs: Seq<ActionEffect>) -> Seq<ActionEffectModel> {
    effs.map_values(|e: ActionEffect| e@)
}

/// The arguments of the back-end run for `version`: the version, `--yes`,
/// `--install` when installing, and the install folder.
pub open spec fn backend_args_spec(version: Seq<char>, install: bool, install_dir: Seq<char>) -> Seq<
    Seq<char>,
> {
    if install {
        seq![version, "--yes"@, "--install"@, "--install-dir"@, install_dir]
    } else {
        seq![version, "--yes"@, "--install-dir"@, install_dir]
    }
}

pub fn backend_command_args(version: &str, install: bool, install_dir: &str) -> (res: Vec<String>)
    ensures
        res@.map_values(|a: String| a@) == backend_args_spec(version@, install, install_dir@),
{
    let mut args: Vec<String> = Vec::new();
    args.push(to_owned_string(version));
    args.push(to_owned_string("--yes"));
    if install {
        args.push(to_owned_string("--install"));
    }
    args.push(to_owned_string("--install-dir"));
    args.push(to_owned_string(install_dir));
    assert(args@.map_values(|a: String| a@) =~= backend_args_spec(version@, install, install_dir@));
    args
}

impl GuiState {
    /// A fresh window: the fallback version, the default install folder, an
    /// empty log, nothing running.
    pub fn new() -> (res: GuiState)
        ensures
            res.version_input@ == FALLBACK_VERSION@,
            res.latest_version is None,
            !res.version_manually_edited,
            res.install_dir@ == DEFAULT_INSTALL_DIR@,
            !res.install_running,
            res.log@ == Seq::<char>::empty(),
    {
        GuiState {
            version_input: to_owned_string(FALLBACK_VERSION),
            latest_version: None,
            version_manually_edited: false,
            install_dir: default_install_dir(),
            install_running: false,
            log: String::new(),
        }
    }

    fn apply_message(&mut self, message: &GuiMessage) -> (finished: bool)
        ensures
            final(self).log@ == old(self).log@ + message_log_text(message@),
            finished == message_finishes(message@),
            final(self).install_running == old(self).install_running,
            final(self).version_input == old(self).version_input,
            final(self).latest_version == old(self).latest_version,
            final(self).version_manually_edited == old(self).version_manually_edited,
            final(self).install_dir == old(self).install_dir,
    {
        match message {
            GuiMessage::Log(line) => {
                append_str(&mut self.log, line.as_str());
                append_str(&mut self.log, "\n");
                false
            },
            GuiMessage::Done(code) => {
                if *code == 0 {
                    append_str(&mut self.log, "\nCompleted successfully.\n");
                } else {
                    append_str(&mut self.log, "\nInstaller exited with error code ");
                    let n = decimal_string(*code as i64);
                    append_str(&mut self.log, n.as_str());
                    append_str(&mut self.log, ".\n");
                }
                true
            },
            GuiMessage::Failed(error) => {
                append_str(&mut self.log, "\nERROR: ");
                append_str(&mut self.log, error.as_str());
                append_str(&mut self.log, "\n");
                true
            },
        }
    }

    /// Takes in the messages that arrived from the back end: each adds its
    /// text to the log; after a `Done` or `Failed` the run is over. Returns
    /// whether the run is over.
    pub fn drain_messages(&mut self, messages: &Vec<GuiMessage>) -> (finished: bool)
        ensures
            final(self).log@ == old(self).log@ + messages_log_text(messages_view(messages@)),
            finished == exists|i: int|
                0 <= i < messages@.len() && message_finishes(#[trigger] messages@[i]@),
            final(self).install_running == (old(self).install_running && !finished),
            final(self).version_input == old(self).version_input,
            final(self).latest_version == old(self).latest_version,
            final(self).version_manually_edited == old(self).version_manually_edited,
            final(self).install_dir == old(self).install_dir,
    {
        let ghost ms = messages_view(messages@);
        let ghost log0 = self.log@;
        let mut finished = false;
        let mut i: usize = 0;
        assert(ms.take(0) =~= Seq::<GuiMessageModel>::empty());
        assert(log0 + messages_log_text(ms.take(0)) =~= log0);
        while i < messages.len()
            invariant
                ms == messages_view(messages@),
                i <= messages@.len(),
                self.log@ == log0 + messages_log_text(ms.take(i as int)),
                finished == exists|k: int| 0 <= k < i && message_finishes(#[trigger] messages@[k]@),
                self.install_running == old(self).install_running,
                self.version_input == old(self).version_input,
                self.latest_version == old(self).latest_version,
                self.version_manually_edited == old(self).version_manually_edited,
                self.install_dir == old(self).install_dir,
            decreases messages@.len() - i,
        {
            let f = self.apply_message(&messages[i]);
            assert(ms.take(i + 1).drop_last() == ms.take(i as int));
            assert(ms.take(i + 1).last() == messages@[i as int]@);
            assert(log0 + messages_log_text(ms.take(i + 1)) =~= log0 + messages_log_text(
                ms.take(i as int),
            ) + message_log_text(messages@[i as int]@));
            finished = finished || f;
            i += 1;
        }
        assert(ms.take(messages@.len() as int) == ms);
        if finished {
            self.install_running = false;
        }
        finished
    }

    /// Takes in the messages about the latest version: a loaded version is
    /// remembered and, unless the user typed a version, shown; a failure
    /// shows the fallback version unless the user typed one. Returns whether
    /// any message arrived.
    pub fn drain_latest_messages(&mut self, messages: &Vec<LatestMessage>) -> (finished: bool)
        ensures
            finished == (messages@.len() > 0),
            messages@.len() == 0 ==> *final(self) == *old(self),
            messages@.len() > 0 ==> ({
                let last = messages@.last();
                &&& final(self).latest_version == (match last {
                    LatestMessage::Loaded(v) => Some(v),
                    LatestMessage::Failed => latest_loaded_before(old(self).latest_version, messages@.drop_last()),
                })
                &&& final(self).version_input@ == if old(self).version_manually_edited {
                    old(self).version_input@
                } else {
                    match last {
                        LatestMessage::Loaded(v) => v@,
                        LatestMessage::Failed => FALLBACK_VERSION@,
                    }
                }
            }),
            final(self).version_manually_edited == old(self).version_manually_edited,
            final(self).install_dir == old(self).install_dir,
            final(self).install_running == old(self).install_running,
            final(self).log == old(self).log,
    {
        let mut i: usize = 0;
        while i < messages.len()
            invariant
                i <= messages@.len(),
                self.latest_version == latest_loaded_before(old(self).latest_version, messages@.take(i as int)),
                i == 0 ==> self.version_input == old(self).version_input,
                i > 0 && !old(self).version_manually_edited ==> self.version_input@ == match messages@[i - 1] {
                    LatestMessage::Loaded(v) => v@,
                    LatestMessage::Failed => FALLBACK_VERSION@,
                },
                old(self).version_manually_edited ==> self.version_input == old(self).version_input,
                self.version_manually_edited == old(self).version_manually_edited,
                self.install_dir == old(self).install_dir,
                self.install_running == old(self).install_running,
                self.log == old(self).log,
            decreases messages@.len() - i,
        {
            assert(messages@.take(i + 1).drop_last() == messages@.take(i as int));
            match &messages[i] {
                LatestMessage::Loaded(version) => {
                    self.latest_version = Some(version.clone());
                    if !self.version_manually_edited {
                        self.version_input = version.clone();
                    }
                },
                LatestMessage::Failed => {
                    if !self.version_manually_edited {
                        self.version_input = to_owned_string(FALLBACK_VERSION);
                    }
                },
            }
            i += 1;
        }
        assert(messages@.take(messages@.len() as int) == messages@);
        messages.len() > 0
    }

    /// The user edited the version field.
    pub fn version_edited(&mut self)
        ensures
            final(self).version_manually_edited,
            final(self).version_input == old(self).version_input,
            final(self).latest_version == old(self).latest_version,
            final(self).install_dir == old(self).install_dir,
            final(self).install_running == old(self).install_running,
            final(self).log == old(self).log,
    {
        self.version_manually_edited = true;
    }

    /// The user pressed "Use Latest": the latest known version, if any, is
    /// shown and the field counts as not edited (the caller then fetches the
    /// latest version again).
    pub fn use_latest(&mut self)
        ensures
            !final(self).version_manually_edited,
            final(self).version_input == match old(self).latest_version {
                Some(v) => v,
                None => old(self).version_input,
            },
            final(self).latest_version == old(self).latest_version,
            final(self).install_dir == old(self).install_dir,
            final(self).install_running == old(self).install_running,
            final(self).log == old(self).log,
    {
        self.version_manually_edited = false;
        match &self.latest_version {
            Some(latest) => {
                self.version_input = latest.clone();
            },
            None => {},
        }
    }

    /// Whether the buttons and fields take input: only while nothing runs.
    pub fn controls_enabled(&self) -> (res: bool)
        ensures
            res == !self.install_running,
    {
        !self.install_running
    }

    /// Applies what the user did. While something runs every action is
    /// ignored and the state stays as it is; otherwise the action does what
    /// its button or field does (see `action_step`).
    pub fn handle_action(&mut self, action: UserAction) -> (res: ActionEffect)
        ensures
            final(self)@ == action_step(old(self)@, action@).0,
            res@ == action_step(old(self)@, action@).1,
    {
        if self.install_running {
            return ActionEffect::Ignored;
        }
        match action {
            UserAction::RunBackend(install) => match self.start_backend(install) {
                Some(request) => ActionEffect::RunBackend(request),
                None => ActionEffect::Updated,
            },
            UserAction::Uninstall => {
                self.start_uninstall();
                ActionEffect::RunUninstaller
            },
            UserAction::ClearLog => {
                self.clear_log();
                ActionEffect::Updated
            },
            UserAction::UseLatest => {
                self.use_latest();
                ActionEffect::RefreshLatest
            },
            UserAction::VersionTyped(v) => {
                self.version_input = v;
                self.version_edited();
                ActionEffect::Updated
            },
            UserAction::InstallDirChanged(d) => {
                self.install_dir = d;
                ActionEffect::Updated
            },
        }
    }

    /// One frame of the window: the back end's messages are taken in (a
    /// finishing message ends the run), then the user's actions are applied
    /// in order. Returns whether the run ended and the effect of each action.
    pub fn frame(&mut self, messages: &Vec<GuiMessage>, actions: Vec<UserAction>) -> (res: (
        bool,
        Vec<ActionEffect>,
    ))
        ensures
            res.0 == messages_finish(messages_view(messages@)),
            final(self)@ == actions_steps(
                messages_step(old(self)@, messages_view(messages@)),
                actions_view(actions@),
            ).0,
            effects_view(res.1@) == actions_steps(
                messages_step(old(self)@, messages_view(messages@)),
                actions_view(actions@),
            ).1,
    {
        let ghost ms = messages_view(messages@);
        let finished = self.drain_messages(messages);
        proof {
            if finished {
                let k = choose|k: int|
                    0 <= k < messages@.len() && message_finishes(#[trigger] messages@[k]@);
                assert(ms[k] == messages@[k]@);
            } else {
                assert forall|k: int| 0 <= k < ms.len() implies !message_finishes(#[trigger] ms[k]) by {
                    assert(ms[k] == messages@[k]@);
                }
            }
        }
        let ghost start = messages_step(old(self)@, ms);
        assert(self@ == start);
        let ghost acts = actions_view(actions@);
        let n = actions.len();
        let mut rest = actions;
        let mut effects: Vec<ActionEffect> = Vec::new();
        assert(acts.take(0) =~= Seq::<UserActionModel>::empty());
        assert(effects_view(effects@) =~= Seq::<ActionEffectModel>::empty());
        while rest.len() > 0
            invariant
                n == acts.len(),
                rest@.len() <= n,
                actions_view(rest@) == acts.skip(n - rest@.len()),
                self@ == actions_steps(start, acts.take(n - rest@.len())).0,
                effects_view(effects@) == actions_steps(start, acts.take(n - rest@.len())).1,
            decreases rest@.len(),
        {
            let ghost k: int = n - rest@.len();
            let ghost rest_before = rest@;
            let action = rest.remove(0);
            assert(action@ == actions_view(rest_before)[0]);
            assert(acts.skip(k)[0] == acts[k]);
            assert(acts.take(k + 1).drop_last() =~= acts.take(k));
            assert(acts.take(k + 1).last() == acts[k]);
            assert forall|j: int| 0 <= j < rest@.len() implies #[trigger] actions_view(rest@)[j]
                == acts.skip(k + 1)[j] by {
                assert(rest@[j] == rest_before[j + 1]);
                assert(actions_view(rest_before)[j + 1] == acts.skip(k)[j + 1]);
            }
            assert(actions_view(rest@) =~= acts.skip(k + 1));
            let effect = self.handle_action(action);
            effects.push(effect);
            assert(effects_view(effects@) =~= actions_steps(start, acts.take(k)).1.push(effect@));
        }
        assert(acts.take(n as int) =~= acts);
        (finished, effects)
    }

    /// The user pressed "Clear Log".
    pub fn clear_log(&mut self)
        ensures
            final(self).log@ == Seq::<char>::empty(),
            final(self).version_input == old(self).version_input,
            final(self).latest_version == old(self).latest_version,
            final(self).version_manually_edited == old(self).version_manually_edited,
            final(self).install_dir == old(self).install_dir,
            final(self).install_running == old(self).install_running,
    {
        self.log = String::new();
    }

    /// The user pressed "Install" (`install`) or "Download Only". The log is
    /// cleared. A typed version that is not a version number is reported in
    /// the log and nothing starts; otherwise the run starts and the request
    /// for the back end is returned.
    pub fn start_backend(&mut self, install: bool) -> (res: Option<BackendRequest>)
        ensures
            final(self).version_input == old(self).version_input,
            final(self).latest_version == old(self).latest_version,
            final(self).version_manually_edited == old(self).version_manually_edited,
            final(self).install_dir == old(self).install_dir,
            ({
                let refused = old(self).version_manually_edited && regex_capture(
                    VERSION_EXACT_PATTERN@,
                    trim_spec(old(self).version_input@),
                    1,
                ) is None;
                if refused {
                    &&& res is None
                    &&& final(self).install_running == old(self).install_running
                    &&& final(self).log@ == "Cannot start installer.\n"@ + INVALID_VERSION_MESSAGE@ + "\n"@
                } else {
                    &&& res matches Some(r) && r.install == install && r.use_latest
                        == !old(self).version_manually_edited && r.requested_version@ == old(
                        self,
                    ).version_input@ && r.install_dir@ == old(self).install_dir@
                    &&& final(self).install_running
                    &&& final(self).log@ == Seq::<char>::empty()
                }
            }),
    {
        self.log = String::new();
        let requested_version = self.version_input.clone();
        let use_latest = !self.version_manually_edited;
        let install_dir = self.install_dir.clone();
        if self.version_manually_edited {
            match normalize_version(requested_version.as_str()) {
                Err(error) => {
                    append_str(&mut self.log, "Cannot start installer.\n");
                    append_str(&mut self.log, error.as_str());
                    append_str(&mut self.log, "\n");
                    return None;
                },
                Ok(_) => {},
            }
        }
        self.install_running = true;
        Some(BackendRequest { install, use_latest, requested_version, install_dir })
    }

    /// The user pressed "Uninstall": ignored while something runs; otherwise
    /// the run starts with a fresh log. Returns whether it started.
    pub fn start_uninstall(&mut self) -> (started: bool)
        ensures
            started == !old(self).install_running,
            final(self).install_running,
            started ==> final(self).log@ == "Starting Vodia PBX uninstaller...\n"@,
            !started ==> final(self).log == old(self).log,
            final(self).version_input == old(self).version_input,
            final(self).latest_version == old(self).latest_version,
            final(self).version_manually_edited == old(self).version_manually_edited,
            final(self).install_dir == old(self).install_dir,
    {
        if self.install_running {
            return false;
        }
        self.install_running = true;
        self.log = to_owned_string("Starting Vodia PBX uninstaller...\n");
        true
    }

    /// The uninstaller could not be started because the program's own path
    /// is unknown: the run ends and the log says why.
    pub fn uninstall_not_started(&mut self, error: &str)
        ensures
            !final(self).install_running,
            final(self).log@ == old(self).log@ + "Could not locate current executable: "@ + error@
                + "\n"@,
            final(self).version_input == old(self).version_input,
            final(self).latest_version == old(self).latest_version,
            final(self).version_manually_edited == old(self).version_manually_edited,
            final(self).install_dir == old(self).install_dir,
    {
        self.install_running = false;
        append_str(&mut self.log, "Could not locate current executable: ");
        append_str(&mut self.log, error);
        append_str(&mut self.log, "\n");
    }

    /// The status line under the buttons.
    pub fn status_text(&self) -> (res: &'static str)
        ensures
            res@ == if self.install_running {
                "Status: Running..."@
            } else {
                "Status: Ready"@
            },
    {
        if self.install_running {
            "Status: Running..."
        } else {
            "Status: Ready"
        }
    }

    /// Whether the window must be drawn again soon: while something runs or
    /// the latest version is awaited.
    pub fn needs_repaint(&self, awaiting_latest: bool) -> (res: bool)
        ensures
            res == (self.install_running || awaiting_latest),
    {
        self.install_running || awaiting_latest
    }
}

/// The latest version known after the messages `ms`, starting from `start`.
pub open spec fn latest_loaded_before(start: Option<String>, ms: Seq<LatestMessage>) -> Option<String>
    decreases ms.len(),
{
    if ms.len() == 0 {
        start
    } else {
        match ms.last() {
            LatestMessage::Loaded(v) => Some(v),
            LatestMessage::Failed => latest_loaded_before(start, ms.drop_last()),
        }
    }
}

/// "Use Latest" while nothing runs: the version field shows the latest
/// known version (and keeps its text when none is known), no longer counts
/// as typed by hand, nothing else changes, and the latest version is
/// fetched again.
pub proof fn lemma_use_latest_shows_latest(s: GuiStateModel)
    requires
        !s.install_running,
    ensures
        ({
            let (next, effect) = action_step(s, UserActionModel::UseLatest);
            &&& effect == ActionEffectModel::RefreshLatest
            &&& !next.version_manually_edited
            &&& s.latest_version matches Some(v) ==> next.version_input == v
            &&& s.latest_version is None ==> next.version_input == s.version_input
            &&& next.latest_version == s.latest_version
            &&& next.install_dir == s.install_dir
            &&& next.log == s.log
            &&& !next.install_running
        }),
{
}

/// "Use Latest" followed by "Install" or "Download Only", when a latest
/// version is known and nothing runs: the run starts, asks the back end for
/// the latest version, and names the latest known version.
pub proof fn lemma_use_latest_then_start(s: GuiStateModel, install: bool)
    requires
        !s.install_running,
        s.latest_version is Some,
    ensures
        actions_steps(s, seq![UserActionModel::UseLatest, UserActionModel::RunBackend(install)]).1
            == seq![
            ActionEffectModel::RefreshLatest,
            ActionEffectModel::RunBackend(
                BackendRequestModel {
                    install,
                    use_latest: true,
                    requested_version: s.latest_version->0,
                    install_dir: s.install_dir,
                },
            ),
        ],
{
    let acts = seq![UserActionModel::UseLatest, UserActionModel::RunBackend(install)];
    assert(acts.drop_last() =~= seq![UserActionModel::UseLatest]);
    assert(acts.drop_last().drop_last() =~= Seq::<UserActionModel>::empty());
    reveal_with_fuel(actions_steps, 3);
    assert(actions_steps(s, acts).1 =~= seq![
        ActionEffectModel::RefreshLatest,
        ActionEffectModel::RunBackend(
            BackendRequestModel {
                install,
                use_latest: true,
                requested_version: s.latest_version->0,
                install_dir: s.install_dir,
            },
        ),
    ]);
}

/// "Install" or "Download Only" while nothing runs and the version is not
/// refused: the run starts with an empty log, and the request carries the
/// button's choice, the shown version, the install folder, and asks for the
/// latest version exactly when the version was not typed by hand.
pub proof fn lemma_start_request(s: GuiStateModel, install: bool)
    requires
        !s.install_running,
        !version_refused(s),
    ensures
        ({
            let (next, effect) = action_step(s, UserActionModel::RunBackend(install));
            &&& effect == ActionEffectModel::RunBackend(
                BackendRequestModel {
                    install,
                    use_latest: !s.version_manually_edited,
                    requested_version: s.version_input,
                    install_dir: s.install_dir,
                },
            )
            &&& next.install_running
            &&& next.log == Seq::<char>::empty()
        }),
{
}

/// A window whose version was not typed by hand never refuses to start, and
/// its request asks the back end for the latest version.
pub proof fn lemma_untyped_version_asks_latest(s: GuiStateModel, install: bool)
    requires
        !s.install_running,
        !s.version_manually_edited,
    ensures
        action_step(s, UserActionModel::RunBackend(install)).1 matches ActionEffectModel::RunBackend(r)
            && r.use_latest && r.install == install,
{
}

} // verus!
