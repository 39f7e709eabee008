use vstd::prelude::*;
use vstd::string::*;
use crate::error::UklientError;
use crate::strutil::eq_ignore_ascii_case_chars;
use crate::strutil::str_eq;
use crate::strutil::str_eq_ignore_ascii_case;

verus! {

/// One downloadable file of a published modpack version.
#[derive(Debug, Clone)]
pub struct ModpackFile {
    /// The download URL of the file.
    pub url: String,
    /// The file's declared name; the archive cache keys on it.
    pub file_name: String,
    /// Whether the host marks this file as the version's primary file.
    pub primary: bool,
    /// The declared size in bytes.
    pub size: u64,
}

/// One published version of a modpack, as the content host lists it.
#[derive(Debug, Clone)]
pub struct ModpackVersionInfo {
    pub name: String,
    /// The game versions this modpack version declares support for.
    pub game_versions: Vec<String>,
    /// The loaders this modpack version declares support for.
    pub loaders: Vec<String>,
    pub files: Vec<ModpackFile>,
}

/// Whether a version declares support for a game version (exact match).
pub open spec fn has_game_version(v: ModpackVersionInfo, game_version: Seq<char>) -> bool {
    exists|i: int| 0 <= i < v.game_versions@.len() && v.game_versions@[i]@ == game_version
}

/// Whether a version declares support for a loader (ASCII-case-insensitive
/// match).
pub open spec fn has_loader(v: ModpackVersionInfo, loader: Seq<char>) -> bool {
    exists|i: int|
        0 <= i < v.loaders@.len() && eq_ignore_ascii_case_chars(v.loaders@[i]@, loader)
}

/// Whether a version satisfies both filters of the metadata fetch.
pub open spec fn version_matches(
    v: ModpackVersionInfo,
    game_version: Seq<char>,
    loader: Seq<char>,
) -> bool {
    has_game_version(v, game_version) && has_loader(v, loader)
}

fn contains_string(list: &Vec<String>, needle: &str) -> (r: bool)
    ensures
        r == (exists|i: int| 0 <= i < list@.len() && list@[i]@ == needle@),
{
    let mut i: usize = 0;
    while i < list.len()
        invariant
            i <= list@.len(),
            forall|k: int| 0 <= k < i ==> list@[k]@ != needle@,
        decreases list@.len() - i,
    {
        let s: &String = &list[i];
        if str_eq(s.as_str(), needle) {
            proof {
                assert(list@[i as int]@ == needle@);
            }
            return true;
        }
        i += 1;
    }
    false
}

fn contains_ignore_ascii_case(list: &Vec<String>, needle: &str) -> (r: bool)
    ensures
        r == (exists|i: int|
            0 <= i < list@.len() && eq_ignore_ascii_case_chars(list@[i]@, needle@)),
{
    let mut i: usize = 0;
    while i < list.len()
        invariant
            i <= list@.len(),
            forall|k: int| 0 <= k < i ==> !eq_ignore_ascii_case_chars(list@[k]@, needle@),
        decreases list@.len() - i,
    {
        let s: &String = &list[i];
        if str_eq_ignore_ascii_case(s.as_str(), needle) {
            proof {
                assert(eq_ignore_ascii_case_chars(list@[i as int]@, needle@));
            }
            return true;
        }
        i += 1;
    }
    false
}

/// Selects the modpack version to install: the first (host-ordered) version
/// whose declared game versions contain `game_version` exactly and whose
/// declared loaders contain `loader` up to ASCII case. Fails with the
/// metadata-not-found kind for the modpack backend when no version
/// satisfies both filters.
pub fn select_version(
    versions: &Vec<ModpackVersionInfo>,
    game_version: &str,
    loader: &str,
) -> (r: Result<usize, UklientError>)
    ensures
        r matches Ok(i) ==> (i as nat) < versions@.len() && version_matches(
            versions@[i as int],
            game_version@,
            loader@,
        ) && (forall|j: int|
            0 <= j < i ==> !version_matches(versions@[j], game_version@, loader@)),
        r matches Err(e) ==> (e matches UklientError::MetaError(n) && n@ == "modpack"@) && (
        forall|j: int|
            0 <= j < versions@.len() ==> !version_matches(versions@[j], game_version@, loader@)),
{
    let mut i: usize = 0;
    while i < versions.len()
        invariant
            i <= versions@.len(),
            forall|k: int| 0 <= k < i ==> !version_matches(versions@[k], game_version@, loader@),
        decreases versions@.len() - i,
    {
        let v: &ModpackVersionInfo = &versions[i];
        let game_ok = contains_string(&v.game_versions, game_version);
        let loader_ok = contains_ignore_ascii_case(&v.loaders, loader);
        if game_ok && loader_ok {
            proof {
                assert(version_matches(versions@[i as int], game_version@, loader@));
            }
            return Ok(i);
        }
        proof {
            assert(!version_matches(versions@[i as int], game_version@, loader@));
        }
        i += 1;
    }
    Err(UklientError::MetaError(String::from_str("modpack")))
}

/// The version's primary file: the first file the host marks primary.
pub fn primary_file_index(files: &Vec<ModpackFile>) -> (r: Option<usize>)
    ensures
        r matches Some(i) ==> (i as nat) < files@.len() && files@[i as int].primary && (forall|
            j: int,
        |
            0 <= j < i ==> !files@[j].primary),
        r is None ==> (forall|j: int| 0 <= j < files@.len() ==> !files@[j].primary),
{
    let mut i: usize = 0;
    while i < files.len()
        invariant
            i <= files@.len(),
            forall|k: int| 0 <= k < i ==> !files@[k].primary,
        decreases files@.len() - i,
    {
        if files[i].primary {
            return Some(i);
        }
        i += 1;
    }
    None
}

} // verus!
