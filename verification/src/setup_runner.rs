//! The decisions of the download flow: which manifest files to fetch, where
//! they go, which URLs are trusted, and in which order setup packages are
//! probed.

use vstd::prelude::*;
use crate::releases::{
    display_name_spec, folder_label_spec, is_archive_spec, manifest_os_spec, required_files_spec,
    temp_label_spec, SetupPackageKind, TargetPlatform,
};
use crate::text::{
    ascii_lower, ascii_lower_char, is_ascii_upper, occurs_at, append_str, chars_of, contains, contains_spec, count_char,
    eq_ignore_ascii_case, eq_ignore_ascii_case_spec, join_spec, lemma_join_split, lemma_split_len, split_char, split_spec,
    starts_with, starts_with_spec, str_eq, string_from_chars, to_owned_string,
};

verus! {

/// Why the download flow stopped.
#[derive(Debug, Clone)]
pub enum SetupError {
    /// The manifest is not well-formed XML.
    ManifestParse,
    /// A manifest file links outside the Vodia download area.
    UnexpectedDownloadUrl(String),
    /// The manifest lists no file for the target; holds the target's display name.
    NoManifestFiles(String),
    /// A manifest file name would leave the staging folder.
    UnsafeManifestPath(String),
    /// A file that the target needs is missing after the download.
    MissingRequiredFile(String),
    /// No candidate manifest could be downloaded.
    NoManifest { version: String, last_error: String },
    /// The body of the manifest at this URL could not be read.
    ManifestBodyUnreadable(String),
}

/// `SetupError` with its strings taken by their views.
pub enum SetupErrorModel {
    ManifestParse,
    UnexpectedDownloadUrl(Seq<char>),
    NoManifestFiles(Seq<char>),
    UnsafeManifestPath(Seq<char>),
    MissingRequiredFile(Seq<char>),
    NoManifest { version: Seq<char>, last_error: Seq<char> },
    ManifestBodyUnreadable(Seq<char>),
}

impl View for SetupError {
    type V = SetupErrorModel;

    open spec fn view(&self) -> SetupErrorModel {
        match self {
            SetupError::ManifestParse => SetupErrorModel::ManifestParse,
            SetupError::UnexpectedDownloadUrl(l) => SetupErrorModel::UnexpectedDownloadUrl(l@),
            SetupError::NoManifestFiles(t) => SetupErrorModel::NoManifestFiles(t@),
            SetupError::UnsafeManifestPath(n) => SetupErrorModel::UnsafeManifestPath(n@),
            SetupError::MissingRequiredFile(n) => SetupErrorModel::MissingRequiredFile(n@),
            SetupError::NoManifest { version, last_error } => SetupErrorModel::NoManifest {
                version: version@,
                last_error: last_error@,
            },
            SetupError::ManifestBodyUnreadable(u) => SetupErrorModel::ManifestBodyUnreadable(u@),
        }
    }
}

/// The text shown for an error.
pub open spec fn setup_error_message(e: SetupErrorModel) -> Seq<char> {
    match e {
        SetupErrorModel::ManifestParse => "Failed to parse Vodia XML manifest"@,
        SetupErrorModel::UnexpectedDownloadUrl(l) => "Manifest contained an unexpected download URL: "@
            + l,
        SetupErrorModel::NoManifestFiles(t) => "The manifest did not contain any shared files or "@
            + t + " files."@,
        SetupErrorModel::UnsafeManifestPath(n) => "Unsafe path in manifest: "@ + n,
        SetupErrorModel::MissingRequiredFile(n) => "Manifest download finished, but required file was not found: "@
            + n,
        SetupErrorModel::NoManifest { version, last_error } => if last_error.len() == 0 {
            "Could not download a Vodia manifest for version "@ + version + "."@
        } else {
            "Could not download a Vodia manifest for version "@ + version + ". Last error: "@
                + last_error
        },
        SetupErrorModel::ManifestBodyUnreadable(u) => "Failed to read manifest body: "@ + u,
    }
}

impl SetupError {
    pub fn message(&self) -> (res: String)
        ensures
            res@ == setup_error_message(self@),
    {
        match self {
            SetupError::ManifestParse => to_owned_string("Failed to parse Vodia XML manifest"),
            SetupError::UnexpectedDownloadUrl(l) => {
                let mut s = to_owned_string("Manifest contained an unexpected download URL: ");
                append_str(&mut s, l.as_str());
                s
            },
            SetupError::NoManifestFiles(t) => {
                let mut s = to_owned_string("The manifest did not contain any shared files or ");
                append_str(&mut s, t.as_str());
                append_str(&mut s, " files.");
                s
            },
            SetupError::UnsafeManifestPath(n) => {
                let mut s = to_owned_string("Unsafe path in manifest: ");
                append_str(&mut s, n.as_str());
                s
            },
            SetupError::MissingRequiredFile(n) => {
                let mut s = to_owned_string(
                    "Manifest download finished, but required file was not found: ",
                );
                append_str(&mut s, n.as_str());
                s
            },
            SetupError::NoManifest { version, last_error } => {
                let mut s = to_owned_string("Could not download a Vodia manifest for version ");
                append_str(&mut s, version.as_str());
                if last_error.as_str().is_empty() {
                    append_str(&mut s, ".");
                } else {
                    append_str(&mut s, ". Last error: ");
                    append_str(&mut s, last_error.as_str());
                }
                s
            },
            SetupError::ManifestBodyUnreadable(u) => {
                let mut s = to_owned_string("Failed to read manifest body: ");
                append_str(&mut s, u.as_str());
                s
            },
        }
    }
}

// ---------------------------------------------------------------------------
// Download URLs

pub const HTTP_DOWNLOAD_PREFIX: &'static str = "http://portal.vodia.com/downloads/pbx/";

pub const HTTPS_DOWNLOAD_PREFIX: &'static str = "https://portal.vodia.com/downloads/pbx/";

/// `link`, upgraded to HTTPS when it is an HTTP link into the Vodia download
/// area, if the result lies in that area; `None` otherwise.
pub open spec fn normalize_url_spec(link: Seq<char>) -> Option<Seq<char>> {
    let normalized = if starts_with_spec(link, HTTP_DOWNLOAD_PREFIX@) {
        "https://"@ + link.skip(7)
    } else {
        link
    };
    if starts_with_spec(normalized, HTTPS_DOWNLOAD_PREFIX@) {
        Some(normalized)
    } else {
        None
    }
}

/// Accepts only download links into `https://portal.vodia.com/downloads/pbx/`,
/// upgrading `http://` links into that area to `https://`.
pub fn normalize_vodia_download_url(link: &str) -> (res: Result<String, SetupError>)
    ensures
        match res {
            Ok(u) => normalize_url_spec(link@) == Some(u@),
            Err(e) => normalize_url_spec(link@) is None && e@ == SetupErrorModel::UnexpectedDownloadUrl(
                link@,
            ),
        },
{
    let normalized = if starts_with(link, HTTP_DOWNLOAD_PREFIX) {
        proof {
            reveal_strlit("http://portal.vodia.com/downloads/pbx/");
        }
        let cs = chars_of(link);
        let tail = string_from_chars(&cs, 7, cs.len());
        let mut s = to_owned_string("https://");
        append_str(&mut s, tail.as_str());
        s
    } else {
        to_owned_string(link)
    };
    if !starts_with(normalized.as_str(), HTTPS_DOWNLOAD_PREFIX) {
        return Err(SetupError::UnexpectedDownloadUrl(to_owned_string(link)));
    }
    Ok(normalized)
}

/// A normalized URL lies in the HTTPS download area and normalizes to itself.
pub proof fn lemma_normalize_url_idempotent(link: Seq<char>)
    ensures
        normalize_url_spec(link) matches Some(u) ==> {
            &&& starts_with_spec(u, HTTPS_DOWNLOAD_PREFIX@)
            &&& normalize_url_spec(u) == Some(u)
        },
{
    if let Some(u) = normalize_url_spec(link) {
        reveal_strlit("http://portal.vodia.com/downloads/pbx/");
        reveal_strlit("https://portal.vodia.com/downloads/pbx/");
        assert(starts_with_spec(u, HTTPS_DOWNLOAD_PREFIX@));
        assert(u.take(HTTPS_DOWNLOAD_PREFIX@.len() as int)[4] == HTTPS_DOWNLOAD_PREFIX@[4]);
        assert(u[4] == 's');
        assert(HTTP_DOWNLOAD_PREFIX@[4] == ':');
        assert(!starts_with_spec(u, HTTP_DOWNLOAD_PREFIX@)) by {
            if starts_with_spec(u, HTTP_DOWNLOAD_PREFIX@) {
                assert(u.take(HTTP_DOWNLOAD_PREFIX@.len() as int)[4] == u[4]);
            }
        }
    }
}

// ---------------------------------------------------------------------------
// Matching manifest files to the target

/// A manifest file with `os` belongs to `target` when it names no platform or
/// names the target's manifest platform, ignoring ASCII case.
pub open spec fn file_matches_target_spec(os: Option<Seq<char>>, target: TargetPlatform) -> bool {
    match os {
        None => true,
        Some(v) => eq_ignore_ascii_case_spec(v, manifest_os_spec(target)),
    }
}

pub fn file_matches_target(os: Option<&str>, target: TargetPlatform) -> (res: bool)
    ensures
        res == file_matches_target_spec(
            match os {
                Some(v) => Some(v@),
                None => None,
            },
            target,
        ),
{
    match os {
        None => true,
        Some(value) => eq_ignore_ascii_case(value, target.manifest_os()),
    }
}

// ---------------------------------------------------------------------------
// Paths of manifest files

/// A piece of a manifest file name that may not stand in a staged path.
pub open spec fn unsafe_path_part(part: Seq<char>) -> bool {
    ||| part.len() == 0
    ||| part == "."@
    ||| part == ".."@
    ||| contains_spec(part, seq![':'])
    ||| contains_spec(part, seq!['\\'])
}

/// The staged relative path of the manifest file `name`: its `/`-separated
/// parts, if none is empty, `.`, `..` or holds `:` or `\`.
pub open spec fn safe_relative_path_spec(name: Seq<char>) -> Option<Seq<Seq<char>>> {
    let parts = split_spec(name, '/');
    if exists|i: int| 0 <= i < parts.len() && unsafe_path_part(#[trigger] parts[i]) {
        None
    } else {
        Some(parts)
    }
}

fn is_unsafe_path_part(part: &str) -> (res: bool)
    ensures
        res == unsafe_path_part(part@),
{
    proof {
        reveal_strlit(":");
        reveal_strlit("\\");
        assert(":"@ =~= seq![':']);
        assert("\\"@ =~= seq!['\\']);
    }
    part.is_empty() || str_eq(part, ".") || str_eq(part, "..") || contains(part, ":") || contains(
        part,
        "\\",
    )
}

/// Splits a manifest file name into the parts of its staged relative path.
pub fn safe_relative_path(name: &str) -> (res: Result<Vec<String>, SetupError>)
    ensures
        match res {
            Ok(parts) => safe_relative_path_spec(name@) == Some(parts@.map_values(|p: String| p@)),
            Err(e) => safe_relative_path_spec(name@) is None && e@
                == SetupErrorModel::UnsafeManifestPath(name@),
        },
{
    let parts = split_char(name, '/');
    let ghost spec_parts = split_spec(name@, '/');
    let mut i: usize = 0;
    while i < parts.len()
        invariant
            spec_parts == split_spec(name@, '/'),
            parts@.len() == spec_parts.len(),
            forall|k: int| 0 <= k < parts@.len() ==> #[trigger] parts@[k]@ == spec_parts[k],
            i <= parts@.len(),
            forall|k: int| 0 <= k < i ==> !unsafe_path_part(#[trigger] spec_parts[k]),
        decreases parts@.len() - i,
    {
        if is_unsafe_path_part(parts[i].as_str()) {
            assert(unsafe_path_part(spec_parts[i as int]));
            assert(exists|k: int| 0 <= k < spec_parts.len() && unsafe_path_part(#[trigger] spec_parts[k]));
            assert(safe_relative_path_spec(name@) is None);
            return Err(SetupError::UnsafeManifestPath(to_owned_string(name)));
        }
        i += 1;
    }
    assert(parts@.map_values(|p: String| p@) =~= spec_parts);
    Ok(parts)
}


/// The staged path of a manifest file is its name cut at every `/`: the
/// parts, joined with `/`, give back the name, and none of them is empty,
/// `.`, `..` or holds `:` or `\`.
pub proof fn lemma_safe_relative_path_round_trip(name: Seq<char>)
    ensures
        safe_relative_path_spec(name) matches Some(parts) ==> {
            &&& join_spec(parts, '/') == name
            &&& parts.len() == count_char(name, '/') + 1
            &&& forall|i: int| 0 <= i < parts.len() ==> !unsafe_path_part(#[trigger] parts[i])
        },
{
    lemma_join_split(name, '/');
    lemma_split_len(name, '/');
}

/// A one-character needle occurs in `s` exactly when some character of `s`
/// is that character.
proof fn lemma_contains_char(s: Seq<char>, c: char)
    ensures
        contains_spec(s, seq![c]) == exists|j: int| 0 <= j < s.len() && s[j] == c,
{
    if contains_spec(s, seq![c]) {
        let j = choose|j: int| occurs_at(s, seq![c], j);
        assert(s.subrange(j, j + 1)[0] == s[j]);
    }
    if exists|j: int| 0 <= j < s.len() && s[j] == c {
        let j = choose|j: int| 0 <= j < s.len() && s[j] == c;
        assert(s.subrange(j, j + 1) =~= seq![c]);
        assert(occurs_at(s, seq![c], j));
    }
}

/// A manifest file name is accepted exactly when each of its `/`-separated
/// parts is non-empty, is neither `.` nor `..`, and holds neither `:` nor
/// `\`; the staged path is then those parts, in order.
pub proof fn lemma_safe_relative_path_accepts(name: Seq<char>)
    ensures
        ({
            let parts = split_spec(name, '/');
            &&& (safe_relative_path_spec(name) is Some) == forall|k: int| 0 <= k < parts.len() ==> {
                &&& (#[trigger] parts[k]).len() > 0
                &&& parts[k] != "."@
                &&& parts[k] != ".."@
                &&& forall|j: int| 0 <= j < parts[k].len() ==> parts[k][j] != ':' && parts[k][j] != '\\'
            }
            &&& safe_relative_path_spec(name) matches Some(ps) ==> ps == parts
        }),
{
    let parts = split_spec(name, '/');
    assert forall|k: int| 0 <= k < parts.len() implies unsafe_path_part(#[trigger] parts[k]) == !{
        &&& parts[k].len() > 0
        &&& parts[k] != "."@
        &&& parts[k] != ".."@
        &&& forall|j: int| 0 <= j < parts[k].len() ==> parts[k][j] != ':' && parts[k][j] != '\\'
    } by {
        lemma_contains_char(parts[k], ':');
        lemma_contains_char(parts[k], '\\');
    }
}

// ---------------------------------------------------------------------------
// Versions and manifest bodies

/// A version has a patch component when it has at least three `.`-separated parts.
pub open spec fn version_has_patch_spec(version: Seq<char>) -> bool {
    split_spec(version, '.').len() >= 3
}

pub fn version_has_patch(version: &str) -> (res: bool)
    ensures
        res == version_has_patch_spec(version@),
        res == (count_char(version@, '.') >= 2),
{
    proof {
        lemma_split_len(version@, '.');
    }
    split_char(version, '.').len() >= 3
}

/// Whether the body of the manifest fetched from the `index`-th candidate URL
/// is used: a fallback manifest of a patch version must mention the version.
pub open spec fn accept_manifest_body_spec(index: int, version: Seq<char>, xml: Seq<char>) -> bool {
    !(index > 0 && version_has_patch_spec(version) && !contains_spec(xml, version))
}

pub fn accept_manifest_body(index: usize, version: &str, xml: &str) -> (res: bool)
    ensures
        res == accept_manifest_body_spec(index as int, version@, xml@),
{
    !(index > 0 && version_has_patch(version) && !contains(xml, version))
}

/// The error after no candidate manifest was usable.
pub fn no_manifest_error(version: &str, last_error: &str) -> (res: SetupError)
    ensures
        res@ == (SetupErrorModel::NoManifest { version: version@, last_error: last_error@ }),
{
    SetupError::NoManifest { version: to_owned_string(version), last_error: to_owned_string(last_error) }
}

// ---------------------------------------------------------------------------
// Folder names and required files

/// The name of the folder into which manifest files are staged.
pub open spec fn staging_folder_spec(version: Seq<char>, target: TargetPlatform) -> Seq<char> {
    "VodiaPBX-"@ + version + "-"@ + folder_label_spec(target)
}

pub fn staging_folder_name(version: &str, target: TargetPlatform) -> (res: String)
    ensures
        res@ == staging_folder_spec(version@, target),
{
    let mut s = to_owned_string("VodiaPBX-");
    append_str(&mut s, version);
    append_str(&mut s, "-");
    append_str(&mut s, target.folder_label());
    s
}

/// The name of the working folder of a setup package.
pub open spec fn package_work_dir_spec(version: Seq<char>, kind: SetupPackageKind) -> Seq<char> {
    "VodiaInstallerWizard-"@ + version + "-"@ + temp_label_spec(kind)
}

pub fn package_work_dir_name(version: &str, kind: SetupPackageKind) -> (res: String)
    ensures
        res@ == package_work_dir_spec(version@, kind),
{
    let mut s = to_owned_string("VodiaInstallerWizard-");
    append_str(&mut s, version);
    append_str(&mut s, "-");
    append_str(&mut s, kind.temp_label());
    s
}

/// Checks that every required file of `target` was found after the download;
/// `present[i]` tells whether the `i`-th of `target.required_files()` exists.
/// The error names the first required file not marked present.
pub fn validate_required_files(target: TargetPlatform, present: &Vec<bool>) -> (res: Result<(), SetupError>)
    ensures
        res is Ok <==> (required_files_spec(target).len() <= present@.len() && forall|i: int|
            0 <= i < required_files_spec(target).len() ==> #[trigger] present@[i]),
        res matches Err(e) ==> exists|i: int|
            0 <= i < required_files_spec(target).len() && !(i < present@.len() && present@[i])
                && (forall|j: int| 0 <= j < i ==> #[trigger] present@[j]) && i <= present@.len()
                && e@ == SetupErrorModel::MissingRequiredFile(#[trigger] required_files_spec(target)[i]),
{
    let files = target.required_files();
    let mut i: usize = 0;
    while i < files.len()
        invariant
            files@.len() == required_files_spec(target).len(),
            forall|k: int| 0 <= k < files@.len() ==> #[trigger] files@[k]@ == required_files_spec(target)[k],
            i <= files@.len(),
            i <= present@.len(),
            forall|j: int| 0 <= j < i ==> #[trigger] present@[j],
        decreases files@.len() - i,
    {
        if !(i < present.len() && present[i]) {
            let name = to_owned_string(files[i]);
            let res = Err(SetupError::MissingRequiredFile(name));
            assert(!(i < present@.len() && present@[i as int]));
            assert(name@ == required_files_spec(target)[i as int]);
            return res;
        }
        i += 1;
    }
    Ok(())
}

// ---------------------------------------------------------------------------
// Probing URLs and file permissions

/// `StatusCode::is_success`: a status in 200..=299.
pub fn status_is_success(code: u16) -> (res: bool)
    ensures
        res == (200 <= code <= 299),
{
    200 <= code && code <= 299
}

/// Whether the reply to the one-byte range request shows that the file exists.
pub fn range_status_found(code: u16) -> (res: bool)
    ensures
        res == (200 <= code <= 299 || code == 206),
{
    status_is_success(code) || code == 206
}

/// The permission bits of a staged executable: the old bits with `0o755` added.
pub fn executable_mode(mode: u32) -> (res: u32)
    ensures
        res == mode | 0o755u32,
{
    mode | 0o755
}

// ---------------------------------------------------------------------------
// The XML manifest

/// An attribute of an XML node: its local name and its value.
#[derive(Debug, Clone)]
pub struct XmlAttribute {
    pub name: String,
    pub value: String,
}

impl View for XmlAttribute {
    type V = (Seq<char>, Seq<char>);

    open spec fn view(&self) -> (Seq<char>, Seq<char>) {
        (self.name@, self.value@)
    }
}

/// A node of a parsed XML document, as far as the manifest reader looks at it.
#[derive(Debug, Clone)]
pub struct XmlNode {
    /// Whether the node is an element.
    pub is_element: bool,
    /// The element's local name (empty for other nodes).
    pub tag_name: String,
    /// The element's attributes, in document order.
    pub attributes: Vec<XmlAttribute>,
}

pub struct XmlNodeModel {
    pub is_element: bool,
    pub tag_name: Seq<char>,
    pub attributes: Seq<(Seq<char>, Seq<char>)>,
}

impl View for XmlNode {
    type V = XmlNodeModel;

    open spec fn view(&self) -> XmlNodeModel {
        XmlNodeModel {
            is_element: self.is_element,
            tag_name: self.tag_name@,
            attributes: self.attributes@.map_values(|a: XmlAttribute| a@),
        }
    }
}

pub open spec fn nodes_view(nodes: Seq<XmlNode>) -> Seq<XmlNodeModel> {
    nodes.map_values(|n: XmlNode| n@)
}

/// The nodes that `roxmltree::Document::parse` finds in `xml`, in document
/// order (`Document::descendants`), or `None` where it refuses the text.
pub uninterp spec fn xml_document_nodes(xml: Seq<char>) -> Option<Seq<XmlNodeModel>>;

/// Parses `xml` with `roxmltree::Document::parse` and lists its
/// `descendants()`, each with `is_element()`, the local name of
/// `tag_name()` and its `attributes()` (local name and value). The contract
/// claims only that the outcome is a function of `xml`, named
/// `xml_document_nodes`.
#[verifier::external_body]
fn parse_xml_nodes(xml: &str) -> (res: Option<Vec<XmlNode>>)
    ensures
        match res {
            Some(nodes) => xml_document_nodes(xml@) == Some(nodes_view(nodes@)),
            None => xml_document_nodes(xml@) is None,
        },
{
    let doc = roxmltree::Document::parse(xml).ok()?;
    let nodes = doc.descendants().map(|n| XmlNode {
        is_element: n.is_element(),
        tag_name: n.tag_name().name().to_string(),
        attributes: n.attributes().map(|a| XmlAttribute {
            name: a.name().to_string(),
            value: a.value().to_string(),
        }).collect(),
    }).collect();
    Some(nodes)
}

/// `Node::attribute(key)`: the value of the first attribute whose local name
/// is `key`.
pub open spec fn attribute_spec(attrs: Seq<(Seq<char>, Seq<char>)>, key: Seq<char>) -> Option<
    Seq<char>,
>
    decreases attrs.len(),
{
    if attrs.len() == 0 {
        None
    } else if attrs[0].0 == key {
        Some(attrs[0].1)
    } else {
        attribute_spec(attrs.drop_first(), key)
    }
}

fn attribute<'a>(node: &'a XmlNode, key: &str) -> (res: Option<&'a str>)
    ensures
        match res {
            Some(v) => attribute_spec(node@.attributes, key@) == Some(v@),
            None => attribute_spec(node@.attributes, key@) is None,
        },
{
    let attrs = &node.attributes;
    let ghost all = node@.attributes;
    let mut i: usize = 0;
    assert(all.skip(0) == all);
    while i < attrs.len()
        invariant
            all == attrs@.map_values(|a: XmlAttribute| a@),
            all == node@.attributes,
            i <= attrs@.len(),
            attribute_spec(all, key@) == attribute_spec(all.skip(i as int), key@),
        decreases attrs@.len() - i,
    {
        assert(all.skip(i as int).drop_first() == all.skip(i + 1));
        assert(all.skip(i as int)[0] == attrs@[i as int]@);
        if str_eq(attrs[i].name.as_str(), key) {
            return Some(attrs[i].value.as_str());
        }
        i += 1;
    }
    None
}

/// A file that the manifest lists for download.
#[derive(Debug, Clone)]
pub struct ManifestItem {
    /// The file's name, a `/`-separated relative path.
    pub name: String,
    /// Its HTTPS download link.
    pub link: String,
    /// Whether the manifest marks it as executable.
    pub executable: bool,
}

pub struct ManifestItemModel {
    pub name: Seq<char>,
    pub link: Seq<char>,
    pub executable: bool,
}

impl View for ManifestItem {
    type V = ManifestItemModel;

    open spec fn view(&self) -> ManifestItemModel {
        ManifestItemModel { name: self.name@, link: self.link@, executable: self.executable }
    }
}

pub open spec fn items_view(items: Seq<ManifestItem>) -> Seq<ManifestItemModel> {
    items.map_values(|i: ManifestItem| i@)
}

/// What a node contributes to the download list: nothing (not a `file`
/// element, no `name` or `link`, or another platform's file), an item, or
/// the refused link.
pub open spec fn node_item_spec(n: XmlNodeModel, target: TargetPlatform) -> Option<
    Result<ManifestItemModel, Seq<char>>,
> {
    if !(n.is_element && n.tag_name == "file"@) {
        None
    } else {
        match (attribute_spec(n.attributes, "name"@), attribute_spec(n.attributes, "link"@)) {
            (Some(name), Some(link)) => if !file_matches_target_spec(
                attribute_spec(n.attributes, "os"@),
                target,
            ) {
                None
            } else {
                let executable = match attribute_spec(n.attributes, "type"@) {
                    Some(t) => eq_ignore_ascii_case_spec(t, "executable"@),
                    None => false,
                };
                match normalize_url_spec(link) {
                    Some(url) => Some(Ok(ManifestItemModel { name, link: url, executable })),
                    None => Some(Err(link)),
                }
            },
            _ => None,
        }
    }
}

/// The download list of the nodes, in order, or the first refused link.
pub open spec fn collect_items_spec(nodes: Seq<XmlNodeModel>, target: TargetPlatform) -> Result<
    Seq<ManifestItemModel>,
    Seq<char>,
>
    decreases nodes.len(),
{
    if nodes.len() == 0 {
        Ok(Seq::empty())
    } else {
        match collect_items_spec(nodes.drop_last(), target) {
            Err(link) => Err(link),
            Ok(items) => match node_item_spec(nodes.last(), target) {
                None => Ok(items),
                Some(Ok(item)) => Ok(items.push(item)),
                Some(Err(link)) => Err(link),
            },
        }
    }
}

/// A listed manifest file is executable exactly when its `type` attribute
/// is the word `executable` with any of its letters in upper case; a file
/// without a `type`, or with any other one, is not.
pub proof fn lemma_item_executable_iff_type(n: XmlNodeModel, target: TargetPlatform)
    ensures
        node_item_spec(n, target) matches Some(Ok(item)) ==> item.executable == match attribute_spec(
            n.attributes,
            "type"@,
        ) {
            Some(t) => t.len() == "executable"@.len() && forall|i: int|
                0 <= i < t.len() ==> (#[trigger] t[i] == "executable"@[i] || t[i] as u32 + 32
                    == "executable"@[i] as u32),
            None => false,
        },
{
    reveal_strlit("executable");
    let e = "executable"@;
    assert forall|i: int| 0 <= i < e.len() implies 'a' <= #[trigger] e[i] && e[i] <= 'z' by {}
    assert(ascii_lower(e) =~= e);
    match attribute_spec(n.attributes, "type"@) {
        Some(t) => {
            if t.len() == e.len() {
                assert forall|i: int| 0 <= i < t.len() implies (ascii_lower_char(#[trigger] t[i])
                    == e[i]) == (t[i] == e[i] || t[i] as u32 + 32 == e[i] as u32) by {
                    if is_ascii_upper(t[i]) {
                        assert(ascii_lower_char(t[i]) as u32 == t[i] as u32 + 32);
                    }
                }
                if ascii_lower(t) == e {
                    assert forall|i: int| 0 <= i < t.len() implies (#[trigger] t[i] == e[i] || t[i] as u32
                        + 32 == e[i] as u32) by {
                        assert(ascii_lower(t)[i] == ascii_lower_char(t[i]));
                    }
                }
                if forall|i: int| 0 <= i < t.len() ==> (#[trigger] t[i] == e[i] || t[i] as u32 + 32
                    == e[i] as u32) {
                    assert forall|i: int| 0 <= i < t.len() implies #[trigger] ascii_lower(t)[i] == e[i] by {
                        assert(t[i] == e[i] || t[i] as u32 + 32 == e[i] as u32);
                    }
                    assert(ascii_lower(t) =~= e);
                }
            } else {
                assert(ascii_lower(t).len() != e.len());
            }
        },
        None => {},
    }
}

fn node_item(node: &XmlNode, target: TargetPlatform) -> (res: Option<Result<ManifestItem, SetupError>>)
    ensures
        match node_item_spec(node@, target) {
            None => res is None,
            Some(Ok(item)) => res matches Some(Ok(i)) && i@ == item,
            Some(Err(link)) => res matches Some(Err(e)) && e@ == SetupErrorModel::UnexpectedDownloadUrl(
                link,
            ),
        },
{
    if !(node.is_element && str_eq(node.tag_name.as_str(), "file")) {
        return None;
    }
    let name = match attribute(node, "name") {
        Some(value) => value,
        None => return None,
    };
    let link = match attribute(node, "link") {
        Some(value) => value,
        None => return None,
    };
    let os = attribute(node, "os");
    if !file_matches_target(os, target) {
        return None;
    }
    let executable = match attribute(node, "type") {
        Some(value) => eq_ignore_ascii_case(value, "executable"),
        None => false,
    };
    match normalize_vodia_download_url(link) {
        Ok(safe_link) => Some(Ok(ManifestItem { name: to_owned_string(name), link: safe_link, executable })),
        Err(e) => Some(Err(e)),
    }
}

/// Lists the files that the manifest's `file` elements name for `target`,
/// in document order, skipping elements without `name` or `link` and those
/// of another platform; stops at the first link outside the Vodia download
/// area.
pub fn collect_manifest_items(nodes: &Vec<XmlNode>, target: TargetPlatform) -> (res: Result<
    Vec<ManifestItem>,
    SetupError,
>)
    ensures
        match collect_items_spec(nodes_view(nodes@), target) {
            Ok(items) => res matches Ok(v) && items_view(v@) == items,
            Err(link) => res matches Err(e) && e@ == SetupErrorModel::UnexpectedDownloadUrl(link),
        },
{
    let ghost all = nodes_view(nodes@);
    let mut items: Vec<ManifestItem> = Vec::new();
    let mut i: usize = 0;
    assert(all.take(0) =~= Seq::<XmlNodeModel>::empty());
    assert(items_view(items@) =~= Seq::<ManifestItemModel>::empty());
    while i < nodes.len()
        invariant
            all == nodes_view(nodes@),
            i <= nodes@.len(),
            collect_items_spec(all.take(i as int), target) == Ok::<Seq<ManifestItemModel>, Seq<char>>(
                items_view(items@),
            ),
        decreases nodes@.len() - i,
    {
        let ghost before = items@;
        assert(all.take(i + 1).drop_last() == all.take(i as int));
        assert(all.take(i + 1).last() == nodes@[i as int]@);
        match node_item(&nodes[i], target) {
            None => {},
            Some(Ok(item)) => {
                items.push(item);
                assert(items_view(items@) == items_view(before).push(items@.last()@));
            },
            Some(Err(e)) => {
                proof {
                    assert(collect_items_spec(all.take(i + 1), target) is Err);
                    lemma_collect_err_persists(all, (i + 1) as int, target);
                    assert(all.take(all.len() as int) == all);
                }
                return Err(e);
            },
        }
        i += 1;
    }
    assert(all.take(nodes@.len() as int) == all);
    Ok(items)
}

/// Once the collection has refused a link, longer prefixes refuse the same link.
proof fn lemma_collect_err_persists(nodes: Seq<XmlNodeModel>, k: int, target: TargetPlatform)
    requires
        0 <= k <= nodes.len(),
        collect_items_spec(nodes.take(k), target) is Err,
    ensures
        collect_items_spec(nodes, target) == collect_items_spec(nodes.take(k), target),
    decreases nodes.len() - k,
{
    if k < nodes.len() {
        assert(nodes.take(k + 1).drop_last() == nodes.take(k));
        lemma_collect_err_persists(nodes, k + 1, target);
    } else {
        assert(nodes.take(k) == nodes);
    }
}

/// What the download from a manifest will do: fetch `items` into the
/// staging folder `staging_folder`.
#[derive(Debug, Clone)]
pub struct ManifestPlan {
    pub items: Vec<ManifestItem>,
    pub staging_folder: String,
}

/// The plan for the parsed manifest `nodes` (`None`: not XML).
pub open spec fn plan_spec(
    nodes: Option<Seq<XmlNodeModel>>,
    version: Seq<char>,
    target: TargetPlatform,
) -> Result<(Seq<ManifestItemModel>, Seq<char>), SetupErrorModel> {
    match nodes {
        None => Err(SetupErrorModel::ManifestParse),
        Some(ns) => match collect_items_spec(ns, target) {
            Err(link) => Err(SetupErrorModel::UnexpectedDownloadUrl(link)),
            Ok(items) => if items.len() == 0 {
                Err(SetupErrorModel::NoManifestFiles(display_name_spec(target)))
            } else {
                Ok((items, staging_folder_spec(version, target)))
            },
        },
    }
}

pub open spec fn plan_result_view(res: Result<ManifestPlan, SetupError>) -> Result<
    (Seq<ManifestItemModel>, Seq<char>),
    SetupErrorModel,
> {
    match res {
        Ok(p) => Ok((items_view(p.items@), p.staging_folder@)),
        Err(e) => Err(e@),
    }
}

/// The plan for the nodes of a parsed manifest.
pub fn plan_from_nodes(nodes: &Vec<XmlNode>, version: &str, target: TargetPlatform) -> (res: Result<
    ManifestPlan,
    SetupError,
>)
    ensures
        plan_result_view(res) == plan_spec(Some(nodes_view(nodes@)), version@, target),
{
    let items = match collect_manifest_items(nodes, target) {
        Ok(items) => items,
        Err(e) => return Err(e),
    };
    if items.len() == 0 {
        return Err(SetupError::NoManifestFiles(to_owned_string(target.display_name())));
    }
    Ok(ManifestPlan { items, staging_folder: staging_folder_name(version, target) })
}

/// Reads the manifest `xml` of `version` and plans the download of the files
/// it lists for `target`.
pub fn plan_manifest_download(xml: &str, version: &str, target: TargetPlatform) -> (res: Result<
    ManifestPlan,
    SetupError,
>)
    ensures
        plan_result_view(res) == plan_spec(xml_document_nodes(xml@), version@, target),
{
    match parse_xml_nodes(xml) {
        None => Err(SetupError::ManifestParse),
        Some(nodes) => plan_from_nodes(&nodes, version, target),
    }
}

// ---------------------------------------------------------------------------
// Probing for a Windows setup package

/// Where the probe for a setup package stands.
#[derive(Debug, Clone, Copy, PartialEq, Eq, Structural)]
pub enum ProbePhase {
    /// Nothing was asked yet.
    Start,
    /// Waiting to hear whether the candidate at this index exists.
    AwaitingCheck(usize),
    /// Waiting to hear whether the archive at this index launched `setup.exe`.
    AwaitingArchive(usize),
    /// The probe has ended.
    Done,
}

/// Why the download falls back to the XML manifest.
#[derive(Debug, Clone, Copy, PartialEq, Eq, Structural)]
pub enum ManifestFallback {
    /// Probing is off: not Windows, or setup packages are not preferred.
    ProbingDisabled,
    /// The candidate at this index is a bare executable, which is no full
    /// setup package.
    ExeCandidate(usize),
    /// No archive launched `setup.exe`; `any_found` tells whether some
    /// candidate existed at all.
    NoSetupPackage { any_found: bool },
}

/// What the download flow does next.
#[derive(Debug, Clone, Copy, PartialEq, Eq, Structural)]
pub enum ProbeAction {
    /// Check whether the candidate at this index exists.
    CheckCandidate(usize),
    /// Download the archive candidate at this index and launch its `setup.exe`.
    TryArchive(usize),
    /// `setup.exe` was launched: the flow is complete.
    Finished,
    /// Download the files listed in the XML manifest.
    UseManifest(ManifestFallback),
}

/// The decisions of the setup-package probe: candidates are checked in
/// order; an existing archive is tried, and the flow ends when it launches
/// `setup.exe`; an existing bare executable ends the probe in favour of the
/// manifest; when the candidates run out, the manifest is used.
#[derive(Debug, Clone)]
pub struct SetupProbe {
    pub kinds: Vec<SetupPackageKind>,
    pub enabled: bool,
    pub phase: ProbePhase,
    pub found_any: bool,
}

/// The phase and action after moving on to candidate `next`.
pub open spec fn advance_spec(kinds: Seq<SetupPackageKind>, next: int, found_any: bool) -> (
    ProbePhase,
    ProbeAction,
) {
    if next < kinds.len() {
        (ProbePhase::AwaitingCheck(next as usize), ProbeAction::CheckCandidate(next as usize))
    } else {
        (
            ProbePhase::Done,
            ProbeAction::UseManifest(ManifestFallback::NoSetupPackage { any_found: found_any }),
        )
    }
}

/// How far the probe has come; every step that does not end it increases this.
pub open spec fn probe_progress(phase: ProbePhase) -> int {
    match phase {
        ProbePhase::Start => 0,
        ProbePhase::AwaitingCheck(i) => 2 * i + 1,
        ProbePhase::AwaitingArchive(i) => 2 * i + 2,
        ProbePhase::Done => -1,
    }
}

impl SetupProbe {
    /// A probe over the candidates `kinds`, enabled only for Windows with setup
    /// packages preferred.
    pub fn new(target: TargetPlatform, prefer_setup_package: bool, kinds: Vec<SetupPackageKind>) -> (res: SetupProbe)
        ensures
            res.kinds@ == kinds@,
            res.enabled == (target == TargetPlatform::Windows64 && prefer_setup_package),
            res.phase == ProbePhase::Start,
            !res.found_any,
    {
        SetupProbe {
            kinds,
            enabled: target == TargetPlatform::Windows64 && prefer_setup_package,
            phase: ProbePhase::Start,
            found_any: false,
        }
    }

    fn advance(&mut self, next: usize) -> (res: ProbeAction)
        requires
            next <= old(self).kinds@.len(),
        ensures
            final(self).kinds@ == old(self).kinds@,
            final(self).enabled == old(self).enabled,
            final(self).found_any == old(self).found_any,
            (final(self).phase, res) == advance_spec(old(self).kinds@, next as int, old(self).found_any),
    {
        if next < self.kinds.len() {
            self.phase = ProbePhase::AwaitingCheck(next);
            ProbeAction::CheckCandidate(next)
        } else {
            self.phase = ProbePhase::Done;
            ProbeAction::UseManifest(ManifestFallback::NoSetupPackage { any_found: self.found_any })
        }
    }

    /// The first decision: use the manifest at once when probing is off,
    /// otherwise check the first candidate.
    pub fn start(&mut self) -> (res: ProbeAction)
        requires
            old(self).phase == ProbePhase::Start,
        ensures
            final(self).kinds@ == old(self).kinds@,
            final(self).enabled == old(self).enabled,
            final(self).found_any == old(self).found_any,
            !old(self).enabled ==> final(self).phase == ProbePhase::Done && res == ProbeAction::UseManifest(
                ManifestFallback::ProbingDisabled,
            ),
            old(self).enabled ==> (final(self).phase, res) == advance_spec(old(self).kinds@, 0, old(self).found_any),
    {
        if !self.enabled {
            self.phase = ProbePhase::Done;
            return ProbeAction::UseManifest(ManifestFallback::ProbingDisabled);
        }
        self.advance(0)
    }

    /// The decision after hearing whether the candidate being checked exists.
    pub fn on_candidate_checked(&mut self, exists: bool) -> (res: ProbeAction)
        requires
            old(self).phase is AwaitingCheck,
            old(self).phase->AwaitingCheck_0 < old(self).kinds@.len(),
        ensures
            final(self).kinds@ == old(self).kinds@,
            final(self).enabled == old(self).enabled,
            ({
                let i = old(self).phase->AwaitingCheck_0;
                if !exists {
                    &&& final(self).found_any == old(self).found_any
                    &&& (final(self).phase, res) == advance_spec(old(self).kinds@, i + 1, old(self).found_any)
                } else if is_archive_spec(old(self).kinds@[i as int]) {
                    &&& final(self).found_any
                    &&& final(self).phase == ProbePhase::AwaitingArchive(i)
                    &&& res == ProbeAction::TryArchive(i)
                } else {
                    &&& final(self).found_any
                    &&& final(self).phase == ProbePhase::Done
                    &&& res == ProbeAction::UseManifest(ManifestFallback::ExeCandidate(i))
                }
            }),
    {
        let n = self.kinds.len();
        let i = match self.phase {
            ProbePhase::AwaitingCheck(i) => i,
            _ => 0,
        };
        assert(i < n);
        if !exists {
            return self.advance(i + 1);
        }
        self.found_any = true;
        if self.kinds[i].is_archive() {
            self.phase = ProbePhase::AwaitingArchive(i);
            ProbeAction::TryArchive(i)
        } else {
            self.phase = ProbePhase::Done;
            ProbeAction::UseManifest(ManifestFallback::ExeCandidate(i))
        }
    }

    /// The decision after hearing whether the archive being tried launched
    /// `setup.exe`.
    pub fn on_archive_tried(&mut self, launched: bool) -> (res: ProbeAction)
        requires
            old(self).phase is AwaitingArchive,
            old(self).phase->AwaitingArchive_0 < old(self).kinds@.len(),
        ensures
            final(self).kinds@ == old(self).kinds@,
            final(self).enabled == old(self).enabled,
            final(self).found_any == old(self).found_any,
            ({
                let i = old(self).phase->AwaitingArchive_0;
                if launched {
                    final(self).phase == ProbePhase::Done && res == ProbeAction::Finished
                } else {
                    (final(self).phase, res) == advance_spec(old(self).kinds@, i + 1, old(self).found_any)
                }
            }),
    {
        let n = self.kinds.len();
        let i = match self.phase {
            ProbePhase::AwaitingArchive(i) => i,
            _ => 0,
        };
        assert(i < n);
        if launched {
            self.phase = ProbePhase::Done;
            return ProbeAction::Finished;
        }
        self.advance(i + 1)
    }
}

/// Each step of the probe either ends it or moves it strictly forward, so
/// the probe ends after at most two steps per candidate.
pub proof fn lemma_probe_advances(kinds: Seq<SetupPackageKind>, phase: ProbePhase, found_any: bool)
    requires
        kinds.len() <= usize::MAX,
    ensures
        phase matches ProbePhase::AwaitingCheck(i) ==> ({
            let (p, _) = advance_spec(kinds, i + 1, found_any);
            p == ProbePhase::Done || probe_progress(p) > probe_progress(phase)
        }),
        phase matches ProbePhase::AwaitingArchive(i) ==> ({
            let (p, _) = advance_spec(kinds, i + 1, found_any);
            p == ProbePhase::Done || probe_progress(p) > probe_progress(phase)
        }),
        phase matches ProbePhase::AwaitingCheck(i) ==> probe_progress(ProbePhase::AwaitingArchive(i))
            > probe_progress(phase),
{
}

/// Every file that the manifest reading accepts is downloaded over HTTPS
/// from the Vodia download area.
pub proof fn lemma_collected_links_are_vodia_https(nodes: Seq<XmlNodeModel>, target: TargetPlatform)
    ensures
        collect_items_spec(nodes, target) matches Ok(items) ==> forall|i: int|
            0 <= i < items.len() ==> starts_with_spec(#[trigger] items[i].link, HTTPS_DOWNLOAD_PREFIX@),
    decreases nodes.len(),
{
    if nodes.len() > 0 {
        lemma_collected_links_are_vodia_https(nodes.drop_last(), target);
        let n = nodes.last();
        if n.is_element && n.tag_name == "file"@ {
            if let Some(link) = attribute_spec(n.attributes, "link"@) {
                lemma_normalize_url_idempotent(link);
            }
        }
    }
}

/// A planned download fetches only HTTPS links into the Vodia download area.
pub proof fn lemma_plan_links_are_vodia_https(
    nodes: Option<Seq<XmlNodeModel>>,
    version: Seq<char>,
    target: TargetPlatform,
)
    ensures
        plan_spec(nodes, version, target) matches Ok((items, _)) ==> items.len() > 0 && forall|i: int|
            0 <= i < items.len() ==> starts_with_spec(#[trigger] items[i].link, HTTPS_DOWNLOAD_PREFIX@),
{
    if let Some(ns) = nodes {
        lemma_collected_links_are_vodia_https(ns, target);
    }
}

// ---------------------------------------------------------------------------
// What follows a completed manifest download

/// What the flow does once the manifest files are staged.
#[derive(Debug, Clone, Copy, PartialEq, Eq, Structural)]
pub enum PostDownloadStep {
    /// Launch the elevated Windows install step.
    InstallElevated,
    /// Tell the user how to install in the same step next time.
    ShowInstallHint,
    /// Tell the user how to run the staged MacOS files.
    ShowMacInstructions,
}

/// Windows with `--install` installs; Windows without it shows how to
/// install; MacOS shows how to run the files.
pub fn post_download_step(target: TargetPlatform, install_after_download: bool) -> (res: PostDownloadStep)
    ensures
        res == match target {
            TargetPlatform::Windows64 => if install_after_download {
                PostDownloadStep::InstallElevated
            } else {
                PostDownloadStep::ShowInstallHint
            },
            TargetPlatform::MacOS => PostDownloadStep::ShowMacInstructions,
        },
{
    match target {
        TargetPlatform::Windows64 => if install_after_download {
            PostDownloadStep::InstallElevated
        } else {
            PostDownloadStep::ShowInstallHint
        },
        TargetPlatform::MacOS => PostDownloadStep::ShowMacInstructions,
    }
}

// ---------------------------------------------------------------------------
// Fetching the manifest

/// Where the manifest fetch stands.
#[derive(Debug, Clone, Copy, PartialEq, Eq, Structural)]
pub enum FetchPhase {
    Start,
    /// Waiting for the reply to the request for the candidate at this index.
    AwaitingResponse(usize),
    /// Waiting for the body of the successful reply for this candidate.
    AwaitingBody(usize),
    Done,
}

/// What the manifest fetch does next.
#[derive(Debug, Clone)]
pub enum FetchAction {
    /// Request the candidate URL at this index.
    Request(usize),
    /// Read the body of the reply for this candidate.
    ReadBody(usize),
    /// Use the body just read, from the candidate at this index.
    Accept(usize),
    /// Stop with this error.
    Fail(SetupError),
}

pub enum FetchActionModel {
    Request(usize),
    ReadBody(usize),
    Accept(usize),
    Fail(SetupErrorModel),
}

impl View for FetchAction {
    type V = FetchActionModel;

    open spec fn view(&self) -> FetchActionModel {
        match self {
            FetchAction::Request(i) => FetchActionModel::Request(*i),
            FetchAction::ReadBody(i) => FetchActionModel::ReadBody(*i),
            FetchAction::Accept(i) => FetchActionModel::Accept(*i),
            FetchAction::Fail(e) => FetchActionModel::Fail(e@),
        }
    }
}

/// The decisions of the manifest fetch: the candidate URLs are requested in
/// order; a failed request or an unsuccessful status is remembered as the
/// last error and the next candidate is tried; a successful reply's body is
/// read, and used unless it is a fallback manifest that does not mention a
/// patch version; an unreadable body stops the fetch; when the candidates
/// run out, the fetch fails with the last error.
#[derive(Debug, Clone)]
pub struct ManifestFetch {
    pub version: String,
    pub urls: Vec<String>,
    pub phase: FetchPhase,
    pub last_error: String,
}

pub open spec fn urls_view(urls: Seq<String>) -> Seq<Seq<char>> {
    urls.map_values(|u: String| u@)
}

/// The phase and action after moving on to candidate `next`.
pub open spec fn fetch_advance_spec(
    urls: Seq<Seq<char>>,
    next: int,
    version: Seq<char>,
    last_error: Seq<char>,
) -> (FetchPhase, FetchActionModel) {
    if next < urls.len() {
        (FetchPhase::AwaitingResponse(next as usize), FetchActionModel::Request(next as usize))
    } else {
        (
            FetchPhase::Done,
            FetchActionModel::Fail(SetupErrorModel::NoManifest { version, last_error }),
        )
    }
}

impl ManifestFetch {
    /// A fetch of the manifest of `version` from the candidates `urls`.
    pub fn new(version: &str, urls: Vec<String>) -> (res: ManifestFetch)
        ensures
            res.version@ == version@,
            res.urls@ == urls@,
            res.phase == FetchPhase::Start,
            res.last_error@ == Seq::<char>::empty(),
    {
        ManifestFetch {
            version: to_owned_string(version),
            urls,
            phase: FetchPhase::Start,
            last_error: String::new(),
        }
    }

    fn advance(&mut self, next: usize) -> (res: FetchAction)
        requires
            next <= old(self).urls@.len(),
        ensures
            final(self).urls@ == old(self).urls@,
            final(self).version@ == old(self).version@,
            final(self).last_error@ == old(self).last_error@,
            (final(self).phase, res@) == fetch_advance_spec(
                urls_view(old(self).urls@),
                next as int,
                old(self).version@,
                old(self).last_error@,
            ),
    {
        if next < self.urls.len() {
            self.phase = FetchPhase::AwaitingResponse(next);
            FetchAction::Request(next)
        } else {
            self.phase = FetchPhase::Done;
            FetchAction::Fail(no_manifest_error(self.version.as_str(), self.last_error.as_str()))
        }
    }

    /// The first request: the first candidate, or failure when there is none.
    pub fn start(&mut self) -> (res: FetchAction)
        requires
            old(self).phase == FetchPhase::Start,
        ensures
            final(self).urls@ == old(self).urls@,
            final(self).version@ == old(self).version@,
            final(self).last_error@ == old(self).last_error@,
            (final(self).phase, res@) == fetch_advance_spec(
                urls_view(old(self).urls@),
                0,
                old(self).version@,
                old(self).last_error@,
            ),
    {
        self.advance(0)
    }

    /// The request for the current candidate failed with `error`.
    pub fn on_request_failed(&mut self, error: &str) -> (res: FetchAction)
        requires
            old(self).phase is AwaitingResponse,
            old(self).phase->AwaitingResponse_0 < old(self).urls@.len(),
        ensures
            ({
                let i = old(self).phase->AwaitingResponse_0;
                let e = old(self).urls@[i as int]@ + " failed: "@ + error@;
                &&& final(self).last_error@ == e
                &&& (final(self).phase, res@) == fetch_advance_spec(
                    urls_view(old(self).urls@),
                    i + 1,
                    old(self).version@,
                    e,
                )
            }),
            final(self).urls@ == old(self).urls@,
            final(self).version@ == old(self).version@,
    {
        let n = self.urls.len();
        let i = match self.phase {
            FetchPhase::AwaitingResponse(i) => i,
            _ => 0,
        };
        assert(i < n);
        let mut e = self.urls[i].clone();
        append_str(&mut e, " failed: ");
        append_str(&mut e, error);
        self.last_error = e;
        self.advance(i + 1)
    }

    /// The reply for the current candidate came with status `code`, shown as
    /// `status_text`: a success status leads to reading the body, any other
    /// is remembered and the next candidate is tried.
    pub fn on_status(&mut self, code: u16, status_text: &str) -> (res: FetchAction)
        requires
            old(self).phase is AwaitingResponse,
            old(self).phase->AwaitingResponse_0 < old(self).urls@.len(),
        ensures
            final(self).urls@ == old(self).urls@,
            final(self).version@ == old(self).version@,
            ({
                let i = old(self).phase->AwaitingResponse_0;
                if 200 <= code <= 299 {
                    &&& final(self).phase == FetchPhase::AwaitingBody(i)
                    &&& res@ == FetchActionModel::ReadBody(i)
                    &&& final(self).last_error@ == old(self).last_error@
                } else {
                    let e = old(self).urls@[i as int]@ + " returned "@ + status_text@;
                    &&& final(self).last_error@ == e
                    &&& (final(self).phase, res@) == fetch_advance_spec(
                        urls_view(old(self).urls@),
                        i + 1,
                        old(self).version@,
                        e,
                    )
                }
            }),
    {
        let n = self.urls.len();
        let i = match self.phase {
            FetchPhase::AwaitingResponse(i) => i,
            _ => 0,
        };
        assert(i < n);
        if status_is_success(code) {
            self.phase = FetchPhase::AwaitingBody(i);
            return FetchAction::ReadBody(i);
        }
        let mut e = self.urls[i].clone();
        append_str(&mut e, " returned ");
        append_str(&mut e, status_text);
        self.last_error = e;
        self.advance(i + 1)
    }

    /// The body `xml` of the current candidate was read: it is used unless
    /// `accept_manifest_body` refuses it, in which case that is remembered
    /// and the next candidate is tried.
    pub fn on_body(&mut self, xml: &str) -> (res: FetchAction)
        requires
            old(self).phase is AwaitingBody,
            old(self).phase->AwaitingBody_0 < old(self).urls@.len(),
        ensures
            final(self).urls@ == old(self).urls@,
            final(self).version@ == old(self).version@,
            ({
                let i = old(self).phase->AwaitingBody_0;
                if accept_manifest_body_spec(i as int, old(self).version@, xml@) {
                    &&& final(self).phase == FetchPhase::Done
                    &&& res@ == FetchActionModel::Accept(i)
                    &&& final(self).last_error@ == old(self).last_error@
                } else {
                    let e = old(self).urls@[i as int]@
                        + " downloaded successfully, but it did not appear to describe version "@
                        + old(self).version@;
                    &&& final(self).last_error@ == e
                    &&& (final(self).phase, res@) == fetch_advance_spec(
                        urls_view(old(self).urls@),
                        i + 1,
                        old(self).version@,
                        e,
                    )
                }
            }),
    {
        let n = self.urls.len();
        let i = match self.phase {
            FetchPhase::AwaitingBody(i) => i,
            _ => 0,
        };
        assert(i < n);
        if accept_manifest_body(i, self.version.as_str(), xml) {
            self.phase = FetchPhase::Done;
            return FetchAction::Accept(i);
        }
        let mut e = self.urls[i].clone();
        append_str(&mut e, " downloaded successfully, but it did not appear to describe version ");
        append_str(&mut e, self.version.as_str());
        self.last_error = e;
        self.advance(i + 1)
    }

    /// The body of the current candidate could not be read: the fetch stops.
    pub fn on_body_unreadable(&mut self) -> (res: FetchAction)
        requires
            old(self).phase is AwaitingBody,
            old(self).phase->AwaitingBody_0 < old(self).urls@.len(),
        ensures
            final(self).urls@ == old(self).urls@,
            final(self).version@ == old(self).version@,
            final(self).last_error@ == old(self).last_error@,
            final(self).phase == FetchPhase::Done,
            res@ == FetchActionModel::Fail(
                SetupErrorModel::ManifestBodyUnreadable(old(self).urls@[old(self).phase->AwaitingBody_0 as int]@),
            ),
    {
        let n = self.urls.len();
        let i = match self.phase {
            FetchPhase::AwaitingBody(i) => i,
            _ => 0,
        };
        assert(i < n);
        self.phase = FetchPhase::Done;
        FetchAction::Fail(SetupError::ManifestBodyUnreadable(self.urls[i].clone()))
    }
}

/// Each step of the manifest fetch that moves on goes to a later candidate
/// or ends, so at most two replies per candidate are awaited.
pub proof fn lemma_fetch_advances(urls: Seq<Seq<char>>, i: int, version: Seq<char>, e: Seq<char>)
    requires
        0 <= i,
        urls.len() <= usize::MAX,
    ensures
        ({
            let (p, _) = fetch_advance_spec(urls, i + 1, version, e);
            p == FetchPhase::Done || p == FetchPhase::AwaitingResponse((i + 1) as usize)
        }),
        fetch_advance_spec(urls, urls.len() as int, version, e).1 matches FetchActionModel::Fail(
            SetupErrorModel::NoManifest { last_error, .. },
        ) && last_error == e,
{
}

} // verus!
