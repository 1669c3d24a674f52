//! The command line: which mode to run, how the options are read, and the
//! confirmation prompt.

use vstd::prelude::*;
use crate::releases::{
    lemma_folder_label_round_trip, normalized_user_value, platform_named, PlatformError,
    TargetPlatform, MACOS_NAMES_0, WINDOWS_NAMES_0,
};
use crate::text::{
    ascii_lower, starts_with, starts_with_spec, str_eq, to_ascii_lowercase, to_owned_string, trim,
    trim_spec,
};

verus! {

/// Where the PBX is installed unless `--install-dir` says otherwise.
pub const DEFAULT_INSTALL_DIR: &'static str = "C:\\Program Files\\Vodia\\PBX";

pub fn default_install_dir() -> (res: String)
    ensures
        res@ == DEFAULT_INSTALL_DIR@,
{
    to_owned_string(DEFAULT_INSTALL_DIR)
}

/// What the program does with its arguments.
#[derive(Debug, Clone, Copy, PartialEq, Eq, Structural)]
pub enum RunMode {
    /// `--uninstall` was given.
    Uninstall,
    /// No argument, or `--gui`.
    Gui,
    /// The command-line download flow.
    Cli,
}

pub open spec fn has_arg(args: Seq<Seq<char>>, a: Seq<char>) -> bool {
    exists|i: int| 0 <= i < args.len() && #[trigger] args[i] == a
}

pub open spec fn args_view(args: Seq<String>) -> Seq<Seq<char>> {
    args.map_values(|a: String| a@)
}

fn has_any(args: &Vec<String>, a: &str, b: &str) -> (res: bool)
    ensures
        res == (has_arg(args_view(args@), a@) || has_arg(args_view(args@), b@)),
{
    let ghost v = args_view(args@);
    let mut i: usize = 0;
    while i < args.len()
        invariant
            v == args_view(args@),
            i <= args@.len(),
            forall|k: int| 0 <= k < i ==> #[trigger] v[k] != a@ && v[k] != b@,
        decreases args@.len() - i,
    {
        if str_eq(args[i].as_str(), a) || str_eq(args[i].as_str(), b) {
            assert(v[i as int] == args@[i as int]@);
            return true;
        }
        i += 1;
    }
    false
}

/// `--uninstall` anywhere wins; then no argument or `--gui` anywhere starts
/// the GUI; otherwise the command-line flow runs.
pub fn run_mode(args: &Vec<String>) -> (res: RunMode)
    ensures
        res == if has_arg(args_view(args@), "--uninstall"@) {
            RunMode::Uninstall
        } else if args@.len() == 0 || has_arg(args_view(args@), "--gui"@) {
            RunMode::Gui
        } else {
            RunMode::Cli
        },
{
    if has_any(args, "--uninstall", "--uninstall") {
        RunMode::Uninstall
    } else if args.len() == 0 || has_any(args, "--gui", "--gui") {
        RunMode::Gui
    } else {
        RunMode::Cli
    }
}

/// The options of the command-line flow.
#[derive(Debug, Clone)]
pub struct AppOptions {
    /// The version given on the command line, trimmed; `None` asks the user.
    pub version: Option<String>,
    pub target: TargetPlatform,
    pub prefer_setup_package: bool,
    pub install_after_download: bool,
    pub install_dir: String,
    pub assume_yes: bool,
}

pub struct OptionsModel {
    pub version: Option<Seq<char>>,
    pub target: TargetPlatform,
    pub prefer_setup_package: bool,
    pub install_after_download: bool,
    pub install_dir: Seq<char>,
    pub assume_yes: bool,
}

impl View for AppOptions {
    type V = OptionsModel;

    open spec fn view(&self) -> OptionsModel {
        OptionsModel {
            version: match self.version {
                Some(v) => Some(v@),
                None => None,
            },
            target: self.target,
            prefer_setup_package: self.prefer_setup_package,
            install_after_download: self.install_after_download,
            install_dir: self.install_dir@,
            assume_yes: self.assume_yes,
        }
    }
}

/// The options before any argument is read.
pub open spec fn default_options() -> OptionsModel {
    OptionsModel {
        version: None,
        target: TargetPlatform::Windows64,
        prefer_setup_package: true,
        install_after_download: false,
        install_dir: DEFAULT_INSTALL_DIR@,
        assume_yes: false,
    }
}

/// Why the arguments were refused.
#[derive(Debug, Clone)]
pub enum CliError {
    MissingTargetValue,
    MissingInstallDirValue,
    InvalidTarget(PlatformError),
    UnknownOption(String),
    TooManyVersions,
    NoVersion,
}

pub enum CliErrorModel {
    MissingTargetValue,
    MissingInstallDirValue,
    /// Holds the normalized value that names no platform.
    InvalidTarget(Seq<char>),
    UnknownOption(Seq<char>),
    TooManyVersions,
    NoVersion,
}

impl View for CliError {
    type V = CliErrorModel;

    open spec fn view(&self) -> CliErrorModel {
        match self {
            CliError::MissingTargetValue => CliErrorModel::MissingTargetValue,
            CliError::MissingInstallDirValue => CliErrorModel::MissingInstallDirValue,
            CliError::InvalidTarget(PlatformError::UnknownTargetPlatform(v)) => CliErrorModel::InvalidTarget(
                v@,
            ),
            CliError::UnknownOption(o) => CliErrorModel::UnknownOption(o@),
            CliError::TooManyVersions => CliErrorModel::TooManyVersions,
            CliError::NoVersion => CliErrorModel::NoVersion,
        }
    }
}

impl CliError {
    pub fn message(&self) -> (res: String)
        ensures
            res@ == match self@ {
                CliErrorModel::MissingTargetValue => "Missing value after --target. Use windows or macos."@,
                CliErrorModel::MissingInstallDirValue => "Missing value after --install-dir."@,
                CliErrorModel::InvalidTarget(v) => "Unknown target platform: "@ + v
                    + ". Use windows or macos."@,
                CliErrorModel::UnknownOption(o) => "Unknown option: "@ + o,
                CliErrorModel::TooManyVersions => "Too many version values were provided."@,
                CliErrorModel::NoVersion => "No version was provided."@,
            },
    {
        match self {
            CliError::MissingTargetValue => to_owned_string(
                "Missing value after --target. Use windows or macos.",
            ),
            CliError::MissingInstallDirValue => to_owned_string("Missing value after --install-dir."),
            CliError::InvalidTarget(e) => e.message(),
            CliError::UnknownOption(o) => {
                let mut s = to_owned_string("Unknown option: ");
                crate::text::append_str(&mut s, o.as_str());
                s
            },
            CliError::TooManyVersions => to_owned_string("Too many version values were provided."),
            CliError::NoVersion => to_owned_string("No version was provided."),
        }
    }
}

/// What the arguments ask for.
#[derive(Debug, Clone)]
pub enum CliCommand {
    /// `--help` or `-h`: print the usage and stop.
    Help,
    /// Run the download flow with these options.
    Run(AppOptions),
}

/// Reads the arguments from position `i` on, starting from the options `st`.
pub open spec fn parse_from(args: Seq<Seq<char>>, i: int, st: OptionsModel) -> Result<
    OptionsModel,
    CliErrorModel,
>
    decreases args.len() - i,
{
    if i < 0 || i >= args.len() {
        Ok(st)
    } else {
        let a = args[i];
        if a == "--target"@ {
            if i + 1 >= args.len() {
                Err(CliErrorModel::MissingTargetValue)
            } else {
                let v = normalized_user_value(args[i + 1]);
                match platform_named(v) {
                    Some(t) => parse_from(args, i + 2, OptionsModel { target: t, ..st }),
                    None => Err(CliErrorModel::InvalidTarget(v)),
                }
            }
        } else if a == "--install-dir"@ {
            if i + 1 >= args.len() {
                Err(CliErrorModel::MissingInstallDirValue)
            } else {
                parse_from(args, i + 2, OptionsModel { install_dir: args[i + 1], ..st })
            }
        } else if a == "--windows"@ || a == "--win64"@ {
            parse_from(args, i + 1, OptionsModel { target: TargetPlatform::Windows64, ..st })
        } else if a == "--macos"@ || a == "--mac"@ {
            parse_from(args, i + 1, OptionsModel { target: TargetPlatform::MacOS, ..st })
        } else if a == "--no-setup"@ {
            parse_from(args, i + 1, OptionsModel { prefer_setup_package: false, ..st })
        } else if a == "--install"@ {
            parse_from(args, i + 1, OptionsModel { install_after_download: true, ..st })
        } else if a == "--yes"@ || a == "-y"@ {
            parse_from(args, i + 1, OptionsModel { assume_yes: true, ..st })
        } else if a == "--gui"@ {
            parse_from(args, i + 1, st)
        } else if starts_with_spec(a, "-"@) {
            Err(CliErrorModel::UnknownOption(a))
        } else if st.version is Some {
            Err(CliErrorModel::TooManyVersions)
        } else {
            parse_from(args, i + 1, OptionsModel { version: Some(trim_spec(a)), ..st })
        }
    }
}

/// What the arguments mean: help when `--help` or `-h` is among them,
/// otherwise the options they set, read left to right.
pub open spec fn parse_args_spec(args: Seq<Seq<char>>) -> Option<Result<OptionsModel, CliErrorModel>> {
    if has_arg(args, "--help"@) || has_arg(args, "-h"@) {
        None
    } else {
        Some(parse_from(args, 0, default_options()))
    }
}

pub open spec fn command_view(res: Result<CliCommand, CliError>) -> Option<Result<OptionsModel, CliErrorModel>> {
    match res {
        Ok(CliCommand::Help) => None,
        Ok(CliCommand::Run(o)) => Some(Ok(o@)),
        Err(e) => Some(Err(e@)),
    }
}

/// Reads the command-line arguments (without the program name).
pub fn parse_args(args: &Vec<String>) -> (res: Result<CliCommand, CliError>)
    ensures
        command_view(res) == parse_args_spec(args_view(args@)),
{
    if has_any(args, "--help", "-h") {
        return Ok(CliCommand::Help);
    }
    let ghost av = args_view(args@);
    let mut opts = AppOptions {
        version: None,
        target: TargetPlatform::Windows64,
        prefer_setup_package: true,
        install_after_download: false,
        install_dir: default_install_dir(),
        assume_yes: false,
    };
    let mut i: usize = 0;
    assert(opts@ == default_options());
    while i < args.len()
        invariant
            av == args_view(args@),
            !(has_arg(av, "--help"@) || has_arg(av, "-h"@)),
            i <= args@.len(),
            parse_from(av, 0, default_options()) == parse_from(av, i as int, opts@),
        decreases args@.len() - i,
    {
        let arg = args[i].as_str();
        assert(av[i as int] == arg@);
        if str_eq(arg, "--target") {
            if i + 1 >= args.len() {
                return Err(CliError::MissingTargetValue);
            }
            assert(av[i + 1] == args@[i + 1]@);
            match TargetPlatform::from_user_value(args[i + 1].as_str()) {
                Ok(t) => {
                    opts.target = t;
                },
                Err(e) => {
                    return Err(CliError::InvalidTarget(e));
                },
            }
            i += 2;
        } else if str_eq(arg, "--install-dir") {
            if i + 1 >= args.len() {
                return Err(CliError::MissingInstallDirValue);
            }
            assert(av[i + 1] == args@[i + 1]@);
            opts.install_dir = args[i + 1].clone();
            i += 2;
        } else {
            if str_eq(arg, "--windows") || str_eq(arg, "--win64") {
                opts.target = TargetPlatform::Windows64;
            } else if str_eq(arg, "--macos") || str_eq(arg, "--mac") {
                opts.target = TargetPlatform::MacOS;
            } else if str_eq(arg, "--no-setup") {
                opts.prefer_setup_package = false;
            } else if str_eq(arg, "--install") {
                opts.install_after_download = true;
            } else if str_eq(arg, "--yes") || str_eq(arg, "-y") {
                opts.assume_yes = true;
            } else if str_eq(arg, "--gui") {
            } else if starts_with(arg, "-") {
                return Err(CliError::UnknownOption(to_owned_string(arg)));
            } else if opts.version.is_some() {
                return Err(CliError::TooManyVersions);
            } else {
                opts.version = Some(trim(arg));
            }
            i += 1;
        }
    }
    Ok(CliCommand::Run(opts))
}

/// Refuses a version that is empty after trimming.
pub fn check_version_provided(version: &str) -> (res: Result<(), CliError>)
    ensures
        res is Ok <==> trim_spec(version@).len() > 0,
        res matches Err(e) ==> e@ == CliErrorModel::NoVersion,
{
    let t = trim(version);
    if t.as_str().is_empty() {
        Err(CliError::NoVersion)
    } else {
        Ok(())
    }
}

/// Whether the answer to `Continue? [y/N]` agrees: `y` or `yes`, ignoring
/// surrounding whitespace and ASCII case.
pub fn confirmation_accepted(answer: &str) -> (res: bool)
    ensures
        res == (ascii_lower(trim_spec(answer@)) == "y"@ || ascii_lower(trim_spec(answer@)) == "yes"@),
{
    let t = trim(answer);
    let lower = to_ascii_lowercase(t.as_str());
    str_eq(lower.as_str(), "y") || str_eq(lower.as_str(), "yes")
}

/// Whether reading the arguments stopped at an option that still waits for
/// its value (`--target` or `--install-dir` as the last argument).
pub open spec fn awaits_option_value(r: Result<OptionsModel, CliErrorModel>) -> bool {
    match r {
        Err(CliErrorModel::MissingTargetValue) => true,
        Err(CliErrorModel::MissingInstallDirValue) => true,
        _ => false,
    }
}

/// Reading `s + q` from inside `q` is reading `q`.
proof fn lemma_parse_suffix(s: Seq<Seq<char>>, q: Seq<Seq<char>>, j: int, st: OptionsModel)
    requires
        0 <= j,
    ensures
        parse_from(s + q, s.len() + j, st) == parse_from(q, j, st),
    decreases q.len() - j,
{
    let a = s + q;
    let i = s.len() + j;
    if j < q.len() {
        assert(a[i] == q[j]);
        if j + 1 < q.len() {
            assert(a[i + 1] == q[j + 1]);
        }
        lemma_parse_suffix(s, q, j + 1, OptionsModel { target: TargetPlatform::Windows64, ..st });
        lemma_parse_suffix(s, q, j + 1, OptionsModel { target: TargetPlatform::MacOS, ..st });
        lemma_parse_suffix(s, q, j + 1, OptionsModel { prefer_setup_package: false, ..st });
        lemma_parse_suffix(s, q, j + 1, OptionsModel { install_after_download: true, ..st });
        lemma_parse_suffix(s, q, j + 1, OptionsModel { assume_yes: true, ..st });
        lemma_parse_suffix(s, q, j + 1, st);
        lemma_parse_suffix(s, q, j + 1, OptionsModel { version: Some(trim_spec(q[j])), ..st });
        if j + 1 < q.len() {
            lemma_parse_suffix(s, q, j + 2, OptionsModel { install_dir: q[j + 1], ..st });
            match platform_named(normalized_user_value(q[j + 1])) {
                Some(t) => lemma_parse_suffix(s, q, j + 2, OptionsModel { target: t, ..st }),
                None => {},
            }
        }
    }
}

/// Reading `p + x` up to the end of `p` is reading `p`, unless `p` ends with
/// an option waiting for its value.
proof fn lemma_parse_prefix(p: Seq<Seq<char>>, x: Seq<Seq<char>>, i: int, st: OptionsModel)
    requires
        0 <= i <= p.len(),
        !awaits_option_value(parse_from(p, i, st)),
    ensures
        match parse_from(p, i, st) {
            Ok(r) => parse_from(p + x, i, st) == parse_from(p + x, p.len() as int, r),
            Err(e) => parse_from(p + x, i, st) == Err::<OptionsModel, CliErrorModel>(e),
        },
    decreases p.len() - i,
{
    let a = p + x;
    if i < p.len() {
        assert(a[i] == p[i]);
        if i + 1 < p.len() {
            assert(a[i + 1] == p[i + 1]);
        }
        let arg = p[i];
        if arg == "--target"@ {
            if i + 1 < p.len() {
                match platform_named(normalized_user_value(p[i + 1])) {
                    Some(t) => lemma_parse_prefix(p, x, i + 2, OptionsModel { target: t, ..st }),
                    None => {},
                }
            }
        } else if arg == "--install-dir"@ {
            if i + 1 < p.len() {
                lemma_parse_prefix(p, x, i + 2, OptionsModel { install_dir: p[i + 1], ..st });
            }
        } else if arg == "--windows"@ || arg == "--win64"@ {
            lemma_parse_prefix(p, x, i + 1, OptionsModel { target: TargetPlatform::Windows64, ..st });
        } else if arg == "--macos"@ || arg == "--mac"@ {
            lemma_parse_prefix(p, x, i + 1, OptionsModel { target: TargetPlatform::MacOS, ..st });
        } else if arg == "--no-setup"@ {
            lemma_parse_prefix(p, x, i + 1, OptionsModel { prefer_setup_package: false, ..st });
        } else if arg == "--install"@ {
            lemma_parse_prefix(p, x, i + 1, OptionsModel { install_after_download: true, ..st });
        } else if arg == "--yes"@ || arg == "-y"@ {
            lemma_parse_prefix(p, x, i + 1, OptionsModel { assume_yes: true, ..st });
        } else if arg == "--gui"@ {
            lemma_parse_prefix(p, x, i + 1, st);
        } else if starts_with_spec(arg, "-"@) {
        } else if st.version is Some {
        } else {
            lemma_parse_prefix(p, x, i + 1, OptionsModel { version: Some(trim_spec(arg)), ..st });
        }
    }
}

/// An argument that is not `h` does not change whether `h` is among the
/// arguments.
proof fn lemma_has_arg_insert(p: Seq<Seq<char>>, m: Seq<Seq<char>>, q: Seq<Seq<char>>, h: Seq<char>)
    requires
        forall|k: int| 0 <= k < m.len() ==> m[k] != h,
    ensures
        has_arg(p + m + q, h) == has_arg(p + q, h),
{
    let a = p + m + q;
    let b = p + q;
    if has_arg(a, h) {
        let i = choose|i: int| 0 <= i < a.len() && #[trigger] a[i] == h;
        if i < p.len() {
            assert(b[i] == h);
        } else {
            assert(i >= p.len() + m.len());
            assert(b[i - m.len()] == h);
        }
    }
    if has_arg(b, h) {
        let i = choose|i: int| 0 <= i < b.len() && #[trigger] b[i] == h;
        if i < p.len() {
            assert(a[i] == h);
        } else {
            assert(a[i + m.len()] == h);
        }
    }
}

/// Two runs of arguments that read the same wherever the reading starts
/// make the same command when put between the same arguments, unless the
/// place follows an option that waits for its value.
proof fn lemma_same_reading_in_context(
    p: Seq<Seq<char>>,
    m1: Seq<Seq<char>>,
    m2: Seq<Seq<char>>,
    q: Seq<Seq<char>>,
)
    requires
        forall|k: int| 0 <= k < m1.len() ==> #[trigger] m1[k] != "--help"@ && m1[k] != "-h"@,
        forall|k: int| 0 <= k < m2.len() ==> #[trigger] m2[k] != "--help"@ && m2[k] != "-h"@,
        forall|r: OptionsModel| #[trigger] parse_from(m1 + q, 0, r) == parse_from(m2 + q, 0, r),
        has_arg(p + q, "--help"@) || has_arg(p + q, "-h"@) || !awaits_option_value(
            parse_from(p, 0, default_options()),
        ),
    ensures
        parse_args_spec(p + m1 + q) == parse_args_spec(p + m2 + q),
{
    lemma_has_arg_insert(p, m1, q, "--help"@);
    lemma_has_arg_insert(p, m1, q, "-h"@);
    lemma_has_arg_insert(p, m2, q, "--help"@);
    lemma_has_arg_insert(p, m2, q, "-h"@);
    if !(has_arg(p + q, "--help"@) || has_arg(p + q, "-h"@)) {
        assert(p + m1 + q =~= p + (m1 + q));
        assert(p + m2 + q =~= p + (m2 + q));
        lemma_parse_prefix(p, m1 + q, 0, default_options());
        lemma_parse_prefix(p, m2 + q, 0, default_options());
        match parse_from(p, 0, default_options()) {
            Ok(r) => {
                lemma_parse_suffix(p, m1 + q, 0, r);
                lemma_parse_suffix(p, m2 + q, 0, r);
                assert(parse_from(m1 + q, 0, r) == parse_from(m2 + q, 0, r));
            },
            Err(e) => {},
        }
    }
}

/// `--macos` and `--mac` mean `--target macos`: putting one anywhere
/// between the other arguments reads exactly as putting `--target macos`
/// there, so it selects MacOS and is never an unknown option. The one
/// exception is a place right after an option that waits for its value,
/// which takes the next argument as that value.
pub proof fn lemma_macos_flag_is_target_macos(p: Seq<Seq<char>>, q: Seq<Seq<char>>, flag: Seq<char>)
    requires
        flag == "--macos"@ || flag == "--mac"@,
        has_arg(p + q, "--help"@) || has_arg(p + q, "-h"@) || !awaits_option_value(
            parse_from(p, 0, default_options()),
        ),
    ensures
        parse_args_spec(p + seq![flag] + q) == parse_args_spec(p + seq!["--target"@, "macos"@] + q),
{
    reveal_strlit("--macos");
    reveal_strlit("--mac");
    reveal_strlit("--help");
    reveal_strlit("-h");
    reveal_strlit("--target");
    reveal_strlit("macos");
    reveal_strlit("--install-dir");
    reveal_strlit("--windows");
    reveal_strlit("--win64");
    let m1 = seq![flag];
    let m2 = seq!["--target"@, "macos"@];
    assert(flag.len() != "--help"@.len() && flag.len() != "-h"@.len());
    assert("--target"@.len() != "--help"@.len() && "--target"@.len() != "-h"@.len());
    assert("macos"@.len() != "--help"@.len() && "macos"@.len() != "-h"@.len());
    assert(flag != "--target"@ && flag != "--install-dir"@ && flag != "--windows"@);
    assert(flag[2] != "--win64"@[2]);
    assert(MACOS_NAMES_0@ == "macos"@);
    lemma_folder_label_round_trip(TargetPlatform::MacOS);
    assert forall|r: OptionsModel| #[trigger] parse_from(m1 + q, 0, r) == parse_from(m2 + q, 0, r) by {
        let st = OptionsModel { target: TargetPlatform::MacOS, ..r };
        assert((m1 + q)[0] == flag);
        assert((m2 + q)[0] == "--target"@ && (m2 + q)[1] == "macos"@);
        lemma_parse_suffix(m1, q, 0, st);
        lemma_parse_suffix(m2, q, 0, st);
    }
    lemma_same_reading_in_context(p, m1, m2, q);
}

/// `--windows` and `--win64` mean `--target windows`, in the same sense.
pub proof fn lemma_windows_flag_is_target_windows(
    p: Seq<Seq<char>>,
    q: Seq<Seq<char>>,
    flag: Seq<char>,
)
    requires
        flag == "--windows"@ || flag == "--win64"@,
        has_arg(p + q, "--help"@) || has_arg(p + q, "-h"@) || !awaits_option_value(
            parse_from(p, 0, default_options()),
        ),
    ensures
        parse_args_spec(p + seq![flag] + q) == parse_args_spec(p + seq!["--target"@, "windows"@] + q),
{
    reveal_strlit("--windows");
    reveal_strlit("--win64");
    reveal_strlit("--help");
    reveal_strlit("-h");
    reveal_strlit("--target");
    reveal_strlit("windows");
    reveal_strlit("--install-dir");
    let m1 = seq![flag];
    let m2 = seq!["--target"@, "windows"@];
    assert(flag.len() != "--help"@.len() && flag.len() != "-h"@.len());
    assert("--target"@.len() != "--help"@.len() && "--target"@.len() != "-h"@.len());
    assert("windows"@.len() != "--help"@.len() && "windows"@.len() != "-h"@.len());
    assert(flag != "--target"@ && flag != "--install-dir"@);
    assert(WINDOWS_NAMES_0@ == "windows"@);
    lemma_folder_label_round_trip(TargetPlatform::Windows64);
    assert forall|r: OptionsModel| #[trigger] parse_from(m1 + q, 0, r) == parse_from(m2 + q, 0, r) by {
        let st = OptionsModel { target: TargetPlatform::Windows64, ..r };
        assert((m1 + q)[0] == flag);
        assert((m2 + q)[0] == "--target"@ && (m2 + q)[1] == "windows"@);
        lemma_parse_suffix(m1, q, 0, st);
        lemma_parse_suffix(m2, q, 0, st);
    }
    lemma_same_reading_in_context(p, m1, m2, q);
}

/// `-y` means `--yes`: the one reads exactly as the other wherever it
/// stands, in the same sense.
pub proof fn lemma_short_yes_is_yes(p: Seq<Seq<char>>, q: Seq<Seq<char>>)
    requires
        has_arg(p + q, "--help"@) || has_arg(p + q, "-h"@) || !awaits_option_value(
            parse_from(p, 0, default_options()),
        ),
    ensures
        parse_args_spec(p + seq!["-y"@] + q) == parse_args_spec(p + seq!["--yes"@] + q),
{
    reveal_strlit("-y");
    reveal_strlit("--yes");
    reveal_strlit("--help");
    reveal_strlit("-h");
    reveal_strlit("--target");
    reveal_strlit("--install-dir");
    reveal_strlit("--windows");
    reveal_strlit("--win64");
    reveal_strlit("--macos");
    reveal_strlit("--mac");
    reveal_strlit("--no-setup");
    reveal_strlit("--install");
    let m1 = seq!["-y"@];
    let m2 = seq!["--yes"@];
    assert("-y"@[1] != "-h"@[1]);
    assert("--yes"@.len() != "--help"@.len() && "--yes"@.len() != "-h"@.len());
    assert("-y"@.len() != "--help"@.len());
    assert("-y"@ != "--target"@ && "-y"@ != "--install-dir"@ && "-y"@ != "--windows"@);
    assert("-y"@ != "--win64"@ && "-y"@ != "--macos"@ && "-y"@ != "--mac"@);
    assert("-y"@ != "--no-setup"@ && "-y"@ != "--install"@);
    assert("--yes"@ != "--target"@ && "--yes"@ != "--install-dir"@ && "--yes"@ != "--windows"@);
    assert("--yes"@ != "--win64"@ && "--yes"@ != "--macos"@);
    assert("--yes"@[2] != "--mac"@[2]);
    assert("--yes"@ != "--no-setup"@ && "--yes"@ != "--install"@);
    assert forall|r: OptionsModel| #[trigger] parse_from(m1 + q, 0, r) == parse_from(m2 + q, 0, r) by {
        let st = OptionsModel { assume_yes: true, ..r };
        assert((m1 + q)[0] == "-y"@);
        assert((m2 + q)[0] == "--yes"@);
        lemma_parse_suffix(m1, q, 0, st);
        lemma_parse_suffix(m2, q, 0, st);
    }
    lemma_same_reading_in_context(p, m1, m2, q);
}

} // verus!
