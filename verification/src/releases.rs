//! Target platforms, Windows setup packages and manifest URLs of Vodia PBX
//! releases.

use vstd::prelude::*;
use crate::text::{
    append_str, ascii_lower, count_char, lemma_count_char_concat, lemma_split_len,
    lemma_split_pieces_lack_sep, split_char, split_spec, str_eq, to_ascii_lowercase, to_owned_string,
    trim, trim_end_spec, trim_spec, trim_start_spec,
};

verus! {

/// The platform whose PBX files are downloaded.
#[derive(Debug, Clone, Copy, PartialEq, Eq, Structural)]
pub enum TargetPlatform {
    Windows64,
    MacOS,
}

/// Why a user-supplied platform name was refused.
#[derive(Debug, Clone)]
pub enum PlatformError {
    /// The trimmed, lower-cased value names no known platform.
    UnknownTargetPlatform(String),
}

pub const WINDOWS_NAMES_0: &'static str = "windows";
pub const WINDOWS_NAMES_1: &'static str = "win";
pub const WINDOWS_NAMES_2: &'static str = "win64";
pub const WINDOWS_NAMES_3: &'static str = "windows64";
pub const MACOS_NAMES_0: &'static str = "macos";
pub const MACOS_NAMES_1: &'static str = "mac";
pub const MACOS_NAMES_2: &'static str = "darwin";

/// The platform that a normalized (trimmed, lower-cased) user value names.
pub open spec fn platform_named(v: Seq<char>) -> Option<TargetPlatform> {
    if v == WINDOWS_NAMES_0@ || v == WINDOWS_NAMES_1@ || v == WINDOWS_NAMES_2@ || v
        == WINDOWS_NAMES_3@ {
        Some(TargetPlatform::Windows64)
    } else if v == MACOS_NAMES_0@ || v == MACOS_NAMES_1@ || v == MACOS_NAMES_2@ {
        Some(TargetPlatform::MacOS)
    } else {
        None
    }
}

/// A user value after `trim` and `to_ascii_lowercase`.
pub open spec fn normalized_user_value(value: Seq<char>) -> Seq<char> {
    ascii_lower(trim_spec(value))
}

impl PlatformError {
    /// The error text shown to the user.
    pub fn message(&self) -> (res: String)
        ensures
            match self {
                PlatformError::UnknownTargetPlatform(v) => res@ == "Unknown target platform: "@
                    + v@ + ". Use windows or macos."@,
            },
    {
        match self {
            PlatformError::UnknownTargetPlatform(v) => {
                let mut res = to_owned_string("Unknown target platform: ");
                append_str(&mut res, v.as_str());
                append_str(&mut res, ". Use windows or macos.");
                res
            },
        }
    }
}

impl TargetPlatform {
    /// Parses a platform name given on the command line, ignoring surrounding
    /// whitespace and ASCII case.
    pub fn from_user_value(value: &str) -> (res: Result<TargetPlatform, PlatformError>)
        ensures
            match res {
                Ok(t) => platform_named(normalized_user_value(value@)) == Some(t),
                Err(PlatformError::UnknownTargetPlatform(v)) => {
                    &&& platform_named(normalized_user_value(value@)) is None
                    &&& v@ == normalized_user_value(value@)
                },
            },
    {
        let trimmed = trim(value);
        let v = to_ascii_lowercase(trimmed.as_str());
        let s = v.as_str();
        if str_eq(s, WINDOWS_NAMES_0) || str_eq(s, WINDOWS_NAMES_1) || str_eq(s, WINDOWS_NAMES_2)
            || str_eq(s, WINDOWS_NAMES_3) {
            Ok(TargetPlatform::Windows64)
        } else if str_eq(s, MACOS_NAMES_0) || str_eq(s, MACOS_NAMES_1) || str_eq(s, MACOS_NAMES_2) {
            Ok(TargetPlatform::MacOS)
        } else {
            Err(PlatformError::UnknownTargetPlatform(v))
        }
    }

    /// The platform's name for people.
    pub fn display_name(self) -> (res: &'static str)
        ensures
            res@ == display_name_spec(self),
    {
        match self {
            TargetPlatform::Windows64 => "Windows 64-bit",
            TargetPlatform::MacOS => "MacOS",
        }
    }

    /// The label used in the staging folder's name.
    pub fn folder_label(self) -> (res: &'static str)
        ensures
            res@ == folder_label_spec(self),
    {
        match self {
            TargetPlatform::Windows64 => WINDOWS_NAMES_0,
            TargetPlatform::MacOS => MACOS_NAMES_0,
        }
    }

    /// The value of the `os` attribute that marks a manifest file as this
    /// platform's.
    pub fn manifest_os(self) -> (res: &'static str)
        ensures
            res@ == manifest_os_spec(self),
    {
        match self {
            TargetPlatform::Windows64 => "Win64",
            TargetPlatform::MacOS => "MacOS",
        }
    }

    /// The files that a complete download for this platform contains.
    pub fn required_files(self) -> (res: &'static [&'static str])
        ensures
            res@.len() == required_files_spec(self).len(),
            forall|i: int| 0 <= i < res@.len() ==> #[trigger] res@[i]@ == required_files_spec(self)[i],
    {
        match self {
            TargetPlatform::Windows64 => &["pbxctrl.exe", "pbxctrl.dat", "opus.dll"],
            TargetPlatform::MacOS => &["pbxctrl", "pbxctrl.dat"],
        }
    }
}

pub open spec fn display_name_spec(t: TargetPlatform) -> Seq<char> {
    match t {
        TargetPlatform::Windows64 => "Windows 64-bit"@,
        TargetPlatform::MacOS => "MacOS"@,
    }
}

pub open spec fn folder_label_spec(t: TargetPlatform) -> Seq<char> {
    match t {
        TargetPlatform::Windows64 => WINDOWS_NAMES_0@,
        TargetPlatform::MacOS => MACOS_NAMES_0@,
    }
}

pub open spec fn manifest_os_spec(t: TargetPlatform) -> Seq<char> {
    match t {
        TargetPlatform::Windows64 => "Win64"@,
        TargetPlatform::MacOS => "MacOS"@,
    }
}

pub open spec fn required_files_spec(t: TargetPlatform) -> Seq<Seq<char>> {
    match t {
        TargetPlatform::Windows64 => seq!["pbxctrl.exe"@, "pbxctrl.dat"@, "opus.dll"@],
        TargetPlatform::MacOS => seq!["pbxctrl"@, "pbxctrl.dat"@],
    }
}


/// The kinds of Windows setup package that may be published for a version.
#[derive(Debug, Clone, Copy, PartialEq, Eq, Structural)]
pub enum SetupPackageKind {
    Zip,
    Tar,
    TarGz,
    Tgz,
    Exe,
}

pub open spec fn package_display_name_spec(k: SetupPackageKind) -> Seq<char> {
    match k {
        SetupPackageKind::Zip => "ZIP"@,
        SetupPackageKind::Tar => "TAR"@,
        SetupPackageKind::TarGz => "TAR.GZ"@,
        SetupPackageKind::Tgz => "TGZ"@,
        SetupPackageKind::Exe => "EXE"@,
    }
}

pub open spec fn temp_label_spec(k: SetupPackageKind) -> Seq<char> {
    match k {
        SetupPackageKind::Zip => "zip"@,
        SetupPackageKind::Tar => "tar"@,
        SetupPackageKind::TarGz => "tar-gz"@,
        SetupPackageKind::Tgz => "tgz"@,
        SetupPackageKind::Exe => "exe"@,
    }
}

/// The file extension under which a package of this kind is published.
pub open spec fn extension_spec(k: SetupPackageKind) -> Seq<char> {
    match k {
        SetupPackageKind::Zip => "zip"@,
        SetupPackageKind::Tar => "tar"@,
        SetupPackageKind::TarGz => "tar.gz"@,
        SetupPackageKind::Tgz => "tgz"@,
        SetupPackageKind::Exe => "exe"@,
    }
}

pub open spec fn is_archive_spec(k: SetupPackageKind) -> bool {
    k != SetupPackageKind::Exe
}

impl SetupPackageKind {
    pub fn display_name(self) -> (res: &'static str)
        ensures
            res@ == package_display_name_spec(self),
    {
        match self {
            SetupPackageKind::Zip => "ZIP",
            SetupPackageKind::Tar => "TAR",
            SetupPackageKind::TarGz => "TAR.GZ",
            SetupPackageKind::Tgz => "TGZ",
            SetupPackageKind::Exe => "EXE",
        }
    }

    /// The label used in the name of the package's working folder.
    pub fn temp_label(self) -> (res: &'static str)
        ensures
            res@ == temp_label_spec(self),
    {
        match self {
            SetupPackageKind::Zip => "zip",
            SetupPackageKind::Tar => "tar",
            SetupPackageKind::TarGz => "tar-gz",
            SetupPackageKind::Tgz => "tgz",
            SetupPackageKind::Exe => "exe",
        }
    }

    /// Whether the package is an archive that may hold `setup.exe`.
    pub fn is_archive(self) -> (res: bool)
        ensures
            res == is_archive_spec(self),
    {
        match self {
            SetupPackageKind::Exe => false,
            _ => true,
        }
    }

    fn extension(self) -> (res: &'static str)
        ensures
            res@ == extension_spec(self),
    {
        match self {
            SetupPackageKind::Zip => "zip",
            SetupPackageKind::Tar => "tar",
            SetupPackageKind::TarGz => "tar.gz",
            SetupPackageKind::Tgz => "tgz",
            SetupPackageKind::Exe => "exe",
        }
    }
}

/// A Windows setup package that may exist for a version.
#[derive(Debug, Clone)]
pub struct SetupPackageCandidate {
    pub kind: SetupPackageKind,
    pub url: String,
    pub filename: String,
}

pub const WINDOWS_PACKAGE_DIR: &'static str = "https://portal.vodia.com/downloads/pbx/win64/";

pub const MANIFEST_URL_PREFIX: &'static str = "https://portal.vodia.com/downloads/pbx/version-";

/// The order in which package kinds are probed.
pub open spec fn probe_order() -> Seq<SetupPackageKind> {
    seq![
        SetupPackageKind::Zip,
        SetupPackageKind::Tar,
        SetupPackageKind::TarGz,
        SetupPackageKind::Tgz,
        SetupPackageKind::Exe,
    ]
}

/// The file name of the package of kind `k` for `version`.
pub open spec fn package_filename_spec(version: Seq<char>, k: SetupPackageKind) -> Seq<char> {
    "pbxctrl-v"@ + version + "-64."@ + extension_spec(k)
}

/// The URL of the package of kind `k` for `version`.
pub open spec fn package_url_spec(version: Seq<char>, k: SetupPackageKind) -> Seq<char> {
    WINDOWS_PACKAGE_DIR@ + package_filename_spec(version, k)
}

/// The manifest URL of `version`.
pub open spec fn manifest_url_spec(version: Seq<char>) -> Seq<char> {
    MANIFEST_URL_PREFIX@ + version + ".xml"@
}

fn package_candidate(version: &str, kind: SetupPackageKind) -> (res: SetupPackageCandidate)
    ensures
        res.kind == kind,
        res.filename@ == package_filename_spec(version@, kind),
        res.url@ == package_url_spec(version@, kind),
{
    let mut filename = to_owned_string("pbxctrl-v");
    append_str(&mut filename, version);
    append_str(&mut filename, "-64.");
    append_str(&mut filename, kind.extension());
    let mut url = to_owned_string(WINDOWS_PACKAGE_DIR);
    append_str(&mut url, filename.as_str());
    assert(url@ == package_url_spec(version@, kind));
    SetupPackageCandidate { kind, url, filename }
}

/// The Windows setup packages to probe for `version`: one of each kind, in
/// the order ZIP, TAR, TAR.GZ, TGZ, EXE.
pub fn candidate_windows_setup_packages(version: &str) -> (res: Vec<SetupPackageCandidate>)
    ensures
        res@.len() == probe_order().len(),
        forall|i: int|
            0 <= i < res@.len() ==> {
                &&& (#[trigger] res@[i]).kind == probe_order()[i]
                &&& res@[i].filename@ == package_filename_spec(version@, probe_order()[i])
                &&& res@[i].url@ == package_url_spec(version@, probe_order()[i])
            },
{
    let mut res: Vec<SetupPackageCandidate> = Vec::new();
    res.push(package_candidate(version, SetupPackageKind::Zip));
    res.push(package_candidate(version, SetupPackageKind::Tar));
    res.push(package_candidate(version, SetupPackageKind::TarGz));
    res.push(package_candidate(version, SetupPackageKind::Tgz));
    res.push(package_candidate(version, SetupPackageKind::Exe));
    res
}

/// The URL of the XML manifest of `version`.
pub fn manifest_url(version: &str) -> (res: String)
    ensures
        res@ == manifest_url_spec(version@),
{
    let mut url = to_owned_string(MANIFEST_URL_PREFIX);
    append_str(&mut url, version);
    append_str(&mut url, ".xml");
    url
}

/// `major.minor` of a version given as `major.minor.patch...`.
pub open spec fn major_minor_spec(version: Seq<char>) -> Seq<char> {
    let parts = split_spec(version, '.');
    parts[0] + seq!['.'] + parts[1]
}

/// The manifest URLs to try for `version`, in order.
pub open spec fn candidate_manifest_urls_spec(version: Seq<char>) -> Seq<Seq<char>> {
    let exact = manifest_url_spec(version);
    if split_spec(version, '.').len() >= 3 && manifest_url_spec(major_minor_spec(version)) != exact {
        seq![exact, manifest_url_spec(major_minor_spec(version))]
    } else {
        seq![exact]
    }
}

/// The manifest URLs to try for `version`: the exact version first, then, for
/// a version with a patch component, the manifest of its `major.minor`.
pub fn candidate_manifest_urls(version: &str) -> (res: Vec<String>)
    ensures
        res@.len() == candidate_manifest_urls_spec(version@).len(),
        forall|i: int|
            0 <= i < res@.len() ==> #[trigger] res@[i]@ == candidate_manifest_urls_spec(version@)[i],
{
    let mut urls: Vec<String> = Vec::new();
    let exact_url = manifest_url(version);
    let parts = split_char(version, '.');
    if parts.len() >= 3 {
        let mut major_minor = parts[0].clone();
        append_str(&mut major_minor, ".");
        append_str(&mut major_minor, parts[1].as_str());
        proof {
            assert(".".view() =~= seq!['.']) by {
                reveal_strlit(".");
            }
        }
        let major_minor_url = manifest_url(major_minor.as_str());
        let duplicate = major_minor_url == exact_url;
        urls.push(exact_url);
        if !duplicate {
            urls.push(major_minor_url);
        }
    } else {
        urls.push(exact_url);
    }
    urls
}

/// Manifest URLs of different versions differ.
pub proof fn lemma_manifest_url_injective(a: Seq<char>, b: Seq<char>)
    ensures
        manifest_url_spec(a) == manifest_url_spec(b) ==> a == b,
{
    if manifest_url_spec(a) == manifest_url_spec(b) {
        let p = MANIFEST_URL_PREFIX@;
        let x = manifest_url_spec(a);
        let y = manifest_url_spec(b);
        let t = ".xml"@;
        assert(x.len() == p.len() + a.len() + t.len());
        assert(y.len() == p.len() + b.len() + t.len());
        assert(a.len() == b.len());
        assert forall|i: int| 0 <= i < a.len() implies a[i] == b[i] by {
            assert((p + a)[p.len() + i] == a[i]);
            assert(x[p.len() + i] == (p + a)[p.len() + i]);
            assert((p + b)[p.len() + i] == b[i]);
            assert(y[p.len() + i] == (p + b)[p.len() + i]);
        }
        assert(a =~= b);
    }
}

/// A second manifest URL is tried exactly when the version has a patch
/// component (at least two dots), and it is then the manifest of the
/// version's `major.minor`.
pub proof fn lemma_manifest_fallback_iff_patch(version: Seq<char>)
    ensures
        candidate_manifest_urls_spec(version)[0] == manifest_url_spec(version),
        (candidate_manifest_urls_spec(version).len() == 2) == (count_char(version, '.') >= 2),
        candidate_manifest_urls_spec(version).len() == 2 ==> candidate_manifest_urls_spec(version)[1]
            == manifest_url_spec(major_minor_spec(version)),
        candidate_manifest_urls_spec(version).len() == 1 || candidate_manifest_urls_spec(version).len() == 2,
{
    lemma_split_len(version, '.');
    if count_char(version, '.') >= 2 {
        let parts = split_spec(version, '.');
        lemma_split_pieces_lack_sep(version, '.');
        assert(count_char(parts[0], '.') == 0);
        assert(count_char(parts[1], '.') == 0);
        lemma_count_char_concat(parts[0], seq!['.'], '.');
        lemma_count_char_concat(parts[0] + seq!['.'], parts[1], '.');
        let dot = seq!['.'];
        assert(dot.drop_last() =~= Seq::<char>::empty());
        assert(count_char(Seq::<char>::empty(), '.') == 0);
        assert(dot.last() == '.');
        assert(count_char(dot, '.') == 1);
        assert(count_char(major_minor_spec(version), '.') == 1);
        lemma_manifest_url_injective(major_minor_spec(version), version);
    }
}

/// A lower-case word without surrounding whitespace is its own normalized
/// user value.
proof fn lemma_normalized_plain_word(w: Seq<char>)
    requires
        w.len() > 0,
        forall|i: int| 0 <= i < w.len() ==> 'a' <= #[trigger] w[i] && w[i] <= 'z',
    ensures
        normalized_user_value(w) == w,
{
    assert(trim_start_spec(w) == w);
    assert(trim_end_spec(w) == w);
    assert(ascii_lower(w) =~= w);
}

/// The platform's folder label, given back as a user value, names the
/// platform again.
pub proof fn lemma_folder_label_round_trip(t: TargetPlatform)
    ensures
        platform_named(normalized_user_value(folder_label_spec(t))) == Some(t),
{
    reveal_strlit("windows");
    reveal_strlit("win");
    reveal_strlit("win64");
    reveal_strlit("windows64");
    reveal_strlit("macos");
    assert(folder_label_spec(t).len() > 0);
    lemma_normalized_plain_word(folder_label_spec(t));
    assert(WINDOWS_NAMES_0@.len() == 7 && WINDOWS_NAMES_1@.len() == 3);
    assert(WINDOWS_NAMES_2@.len() == 5 && WINDOWS_NAMES_3@.len() == 9);
    assert(WINDOWS_NAMES_0@ != WINDOWS_NAMES_1@);
    assert(MACOS_NAMES_0@[0] != WINDOWS_NAMES_2@[0]);
    assert(MACOS_NAMES_0@ != WINDOWS_NAMES_0@);
    assert(MACOS_NAMES_0@ != WINDOWS_NAMES_1@);
    assert(MACOS_NAMES_0@ != WINDOWS_NAMES_2@);
    assert(MACOS_NAMES_0@ != WINDOWS_NAMES_3@);
}

} // verus!
