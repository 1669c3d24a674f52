//! Path safety for archive entries and recognising `setup.exe`.

use vstd::prelude::*;
use crate::text::{append_str, eq_ignore_ascii_case, eq_ignore_ascii_case_spec, to_owned_string};

verus! {

/// One component of an archive entry's path (`std::path::Component`), with a
/// normal component's text.
#[derive(Debug, Clone)]
pub enum PathComponent {
    Prefix,
    RootDir,
    CurDir,
    ParentDir,
    Normal(String),
}

pub enum PathComponentModel {
    Prefix,
    RootDir,
    CurDir,
    ParentDir,
    Normal(Seq<char>),
}

impl View for PathComponent {
    type V = PathComponentModel;

    open spec fn view(&self) -> PathComponentModel {
        match self {
            PathComponent::Prefix => PathComponentModel::Prefix,
            PathComponent::RootDir => PathComponentModel::RootDir,
            PathComponent::CurDir => PathComponentModel::CurDir,
            PathComponent::ParentDir => PathComponentModel::ParentDir,
            PathComponent::Normal(s) => PathComponentModel::Normal(s@),
        }
    }
}

pub open spec fn components_view(cs: Seq<PathComponent>) -> Seq<PathComponentModel> {
    cs.map_values(|c: PathComponent| c@)
}

/// Why an archive entry is not extracted.
#[derive(Debug, Clone)]
pub enum ArchiveError {
    /// The path has a root, a prefix or a `..`; holds the path as displayed.
    UnsafePath(String),
    /// The path names nothing.
    EmptyPath,
}

pub enum ArchiveErrorModel {
    UnsafePath(Seq<char>),
    EmptyPath,
}

impl View for ArchiveError {
    type V = ArchiveErrorModel;

    open spec fn view(&self) -> ArchiveErrorModel {
        match self {
            ArchiveError::UnsafePath(p) => ArchiveErrorModel::UnsafePath(p@),
            ArchiveError::EmptyPath => ArchiveErrorModel::EmptyPath,
        }
    }
}

impl ArchiveError {
    pub fn message(&self) -> (res: String)
        ensures
            res@ == match self@ {
                ArchiveErrorModel::UnsafePath(p) => "Archive contains an unsafe path: "@ + p,
                ArchiveErrorModel::EmptyPath => "Archive contains an empty path"@,
            },
    {
        match self {
            ArchiveError::UnsafePath(p) => {
                let mut s = to_owned_string("Archive contains an unsafe path: ");
                append_str(&mut s, p.as_str());
                s
            },
            ArchiveError::EmptyPath => to_owned_string("Archive contains an empty path"),
        }
    }
}

/// The normal components of `cs`, in order, skipping `.`; `None` if some
/// component is a prefix, a root or `..`.
pub open spec fn normal_parts_spec(cs: Seq<PathComponentModel>) -> Option<Seq<Seq<char>>>
    decreases cs.len(),
{
    if cs.len() == 0 {
        Some(Seq::empty())
    } else {
        match normal_parts_spec(cs.drop_last()) {
            None => None,
            Some(parts) => match cs.last() {
                PathComponentModel::Normal(p) => Some(parts.push(p)),
                PathComponentModel::CurDir => Some(parts),
                _ => None,
            },
        }
    }
}

/// The relative path, as its parts, under which an archive entry with the
/// path components `cs` is extracted.
pub open spec fn safe_archive_path_spec(cs: Seq<PathComponentModel>) -> Option<Seq<Seq<char>>> {
    match normal_parts_spec(cs) {
        Some(parts) => if parts.len() == 0 {
            None
        } else {
            Some(parts)
        },
        None => None,
    }
}

/// Once a component is refused, longer prefixes are refused too.
proof fn lemma_normal_parts_none_persists(cs: Seq<PathComponentModel>, k: int)
    requires
        0 <= k <= cs.len(),
        normal_parts_spec(cs.take(k)) is None,
    ensures
        normal_parts_spec(cs) is None,
    decreases cs.len() - k,
{
    if k < cs.len() {
        assert(cs.take(k + 1).drop_last() == cs.take(k));
        lemma_normal_parts_none_persists(cs, k + 1);
    } else {
        assert(cs.take(k) == cs);
    }
}

/// The parts of the relative path under which an archive entry is extracted:
/// its normal components, with `.` dropped. Refuses a path with a prefix, a
/// root or a `..` (`UnsafePath`, holding `path_text`, the path as displayed)
/// and a path that names nothing (`EmptyPath`).
pub fn safe_archive_relative_path(components: &Vec<PathComponent>, path_text: &str) -> (res: Result<
    Vec<String>,
    ArchiveError,
>)
    ensures
        match res {
            Ok(parts) => safe_archive_path_spec(components_view(components@)) == Some(
                parts@.map_values(|p: String| p@),
            ),
            Err(e) => {
                &&& safe_archive_path_spec(components_view(components@)) is None
                &&& e@ == if normal_parts_spec(components_view(components@)) is None {
                    ArchiveErrorModel::UnsafePath(path_text@)
                } else {
                    ArchiveErrorModel::EmptyPath
                }
            },
        },
{
    let ghost all = components_view(components@);
    let mut safe: Vec<String> = Vec::new();
    let mut i: usize = 0;
    assert(all.take(0) =~= Seq::<PathComponentModel>::empty());
    assert(safe@.map_values(|p: String| p@) =~= Seq::<Seq<char>>::empty());
    while i < components.len()
        invariant
            all == components_view(components@),
            i <= components@.len(),
            normal_parts_spec(all.take(i as int)) == Some(safe@.map_values(|p: String| p@)),
        decreases components@.len() - i,
    {
        let ghost before = safe@;
        assert(all.take(i + 1).drop_last() == all.take(i as int));
        assert(all.take(i + 1).last() == components@[i as int]@);
        match &components[i] {
            PathComponent::Normal(part) => {
                safe.push(part.clone());
                assert(safe@.map_values(|p: String| p@) =~= before.map_values(|p: String| p@).push(
                    part@,
                ));
            },
            PathComponent::CurDir => {},
            _ => {
                proof {
                    lemma_normal_parts_none_persists(all, i + 1);
                }
                return Err(ArchiveError::UnsafePath(to_owned_string(path_text)));
            },
        }
        i += 1;
    }
    assert(all.take(components@.len() as int) == all);
    if safe.len() == 0 {
        return Err(ArchiveError::EmptyPath);
    }
    Ok(safe)
}

/// Whether a component may stand in an extracted path (a plain name or `.`).
pub open spec fn allowed_component(c: PathComponentModel) -> bool {
    c is Normal || c is CurDir
}

/// The plain names among `cs`, in order.
pub open spec fn plain_names(cs: Seq<PathComponentModel>) -> Seq<Seq<char>>
    decreases cs.len(),
{
    if cs.len() == 0 {
        Seq::empty()
    } else {
        let rest = plain_names(cs.drop_last());
        match cs.last() {
            PathComponentModel::Normal(p) => rest.push(p),
            _ => rest,
        }
    }
}

/// The components of a path made of the plain names `parts`.
pub open spec fn as_normal_components(parts: Seq<Seq<char>>) -> Seq<PathComponentModel> {
    parts.map_values(|p: Seq<char>| PathComponentModel::Normal(p))
}

proof fn lemma_normal_parts_is_plain_names(cs: Seq<PathComponentModel>)
    ensures
        (forall|i: int| 0 <= i < cs.len() ==> allowed_component(#[trigger] cs[i])) ==> normal_parts_spec(cs)
            == Some(plain_names(cs)),
        (exists|i: int| 0 <= i < cs.len() && !allowed_component(#[trigger] cs[i])) ==> normal_parts_spec(cs)
            is None,
    decreases cs.len(),
{
    if cs.len() > 0 {
        let d = cs.drop_last();
        lemma_normal_parts_is_plain_names(d);
        if forall|i: int| 0 <= i < cs.len() ==> allowed_component(#[trigger] cs[i]) {
            assert forall|i: int| 0 <= i < d.len() implies allowed_component(#[trigger] d[i]) by {
                assert(d[i] == cs[i]);
            }
            assert(allowed_component(cs[cs.len() - 1]));
        }
        if exists|i: int| 0 <= i < cs.len() && !allowed_component(#[trigger] cs[i]) {
            let i = choose|i: int| 0 <= i < cs.len() && !allowed_component(#[trigger] cs[i]);
            if i < cs.len() - 1 {
                assert(!allowed_component(d[i]));
            }
        }
    }
}

proof fn lemma_plain_names_len(cs: Seq<PathComponentModel>)
    ensures
        (exists|i: int| 0 <= i < cs.len() && #[trigger] cs[i] is Normal) <==> plain_names(cs).len() > 0,
    decreases cs.len(),
{
    if cs.len() > 0 {
        let d = cs.drop_last();
        lemma_plain_names_len(d);
        if exists|i: int| 0 <= i < cs.len() && #[trigger] cs[i] is Normal {
            let i = choose|i: int| 0 <= i < cs.len() && #[trigger] cs[i] is Normal;
            if i < cs.len() - 1 {
                assert(d[i] is Normal);
            }
        }
        if exists|i: int| 0 <= i < d.len() && #[trigger] d[i] is Normal {
            let i = choose|i: int| 0 <= i < d.len() && #[trigger] d[i] is Normal;
            assert(cs[i] is Normal);
        }
    }
}

proof fn lemma_normal_components_read_back(parts: Seq<Seq<char>>)
    ensures
        normal_parts_spec(as_normal_components(parts)) == Some(parts),
    decreases parts.len(),
{
    if parts.len() > 0 {
        lemma_normal_components_read_back(parts.drop_last());
        assert(as_normal_components(parts).drop_last() =~= as_normal_components(parts.drop_last()));
        assert(parts.drop_last().push(parts.last()) =~= parts);
    } else {
        assert(as_normal_components(parts) =~= Seq::<PathComponentModel>::empty());
        assert(parts =~= Seq::<Seq<char>>::empty());
    }
}

/// An archive path is accepted exactly when every component is a plain name
/// or `.` and at least one is a plain name; the accepted path is its plain
/// names in order; and a path made of an accepted path's parts is accepted
/// again with the same parts.
pub proof fn lemma_archive_path_law(cs: Seq<PathComponentModel>)
    ensures
        safe_archive_path_spec(cs) is Some <==> ((forall|i: int| 0 <= i < cs.len() ==> allowed_component(#[trigger] cs[i]))
            && exists|i: int| 0 <= i < cs.len() && #[trigger] cs[i] is Normal),
        safe_archive_path_spec(cs) matches Some(parts) ==> {
            &&& parts == plain_names(cs)
            &&& safe_archive_path_spec(as_normal_components(parts)) == Some(parts)
        },
{
    lemma_normal_parts_is_plain_names(cs);
    lemma_plain_names_len(cs);
    if let Some(parts) = safe_archive_path_spec(cs) {
        lemma_normal_components_read_back(parts);
    }
}

/// Whether a directory entry is the setup program: a file named
/// `setup.exe`, ignoring ASCII case.
pub fn is_setup_exe_entry(is_file: bool, file_name: Option<&str>) -> (res: bool)
    ensures
        res == (is_file && match file_name {
            Some(n) => eq_ignore_ascii_case_spec(n@, "setup.exe"@),
            None => false,
        }),
{
    is_file && match file_name {
        Some(name) => eq_ignore_ascii_case(name, "setup.exe"),
        None => false,
    }
}

} // verus!
