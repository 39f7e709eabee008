use vstd::prelude::*;
use vstd::string::*;

verus! {

/// The archive cache as the pipeline sees it: whether the entry for one
/// remote filename is already present in the cache directory.
pub struct CacheState {
    pub present: bool,
}

/// What one cache lookup tells the driver to do.
#[derive(Clone, Copy, Debug, PartialEq, Eq, Structural)]
pub enum CacheAction {
    /// The entry is already cached: use it as it is, with no freshness,
    /// size or hash check.
    UseExisting,
    /// The entry is absent: stream the remote file to the cache path.
    Download,
}

/// The local cache path of a remote file: the cache directory, a path
/// separator, and the file's declared name. The path depends on the name
/// alone, so the same remote file always lands on the same local path.
pub open spec fn cache_path_chars(dir: Seq<char>, file_name: Seq<char>) -> Seq<char> {
    dir + "/"@ + file_name
}

pub fn cache_file_path(cache_dir: &str, file_name: &str) -> (r: String)
    ensures
        r@ == cache_path_chars(cache_dir@, file_name@),
{
    let mut s = String::from_str(cache_dir);
    s.append("/");
    s.append(file_name);
    proof {
        assert(s@ =~= cache_path_chars(cache_dir@, file_name@));
    }
    s
}

/// The cache directory under the user's home directory.
pub open spec fn cache_dir_chars(home: Seq<char>) -> Seq<char> {
    home + "/.config/uklient/.cache"@
}

pub fn cache_dir(home: &str) -> (r: String)
    ensures
        r@ == cache_dir_chars(home@),
{
    let mut s = String::from_str(home);
    s.append("/.config/uklient/.cache");
    proof {
        assert(s@ =~= cache_dir_chars(home@));
    }
    s
}

/// The per-modpack scratch directory the archive is extracted into; it is
/// deleted and recreated on each extraction.
pub open spec fn scratch_dir_chars(home: Seq<char>, modpack_name: Seq<char>) -> Seq<char> {
    home + "/.config/uklient/.tmp/"@ + modpack_name
}

pub fn scratch_dir(home: &str, modpack_name: &str) -> (r: String)
    ensures
        r@ == scratch_dir_chars(home@, modpack_name@),
{
    let mut s = String::from_str(home);
    s.append("/.config/uklient/.tmp/");
    s.append(modpack_name);
    proof {
        assert(s@ =~= scratch_dir_chars(home@, modpack_name@));
    }
    s
}

/// The action one `ensure_cached` pass takes in a given state.
pub open spec fn spec_ensure_action(s: CacheState) -> CacheAction {
    if s.present {
        CacheAction::UseExisting
    } else {
        CacheAction::Download
    }
}

/// The state after one successful `ensure_cached` pass: the entry is
/// present, whether it was found or just downloaded.
pub open spec fn spec_ensure_next(s: CacheState) -> CacheState {
    CacheState { present: true }
}

/// How many downloads an action performs.
pub open spec fn downloads_of(a: CacheAction) -> nat {
    match a {
        CacheAction::UseExisting => 0,
        CacheAction::Download => 1,
    }
}

/// The decision of one `ensure_cached` pass, from whether the cache path
/// already exists.
pub fn ensure_cached_action(present: bool) -> (r: CacheAction)
    ensures
        r == spec_ensure_action(CacheState { present }),
{
    if present {
        CacheAction::UseExisting
    } else {
        CacheAction::Download
    }
}

/// Law: `ensure_cached` is idempotent. Whatever the starting state, a
/// second pass over the same remote filename is a pure cache hit, and the
/// two passes together download exactly once when the entry was absent and
/// never when it was present. The local path is a function of the cache
/// directory and filename alone, so both passes return the same path.
pub proof fn lemma_ensure_cached_idempotent(s: CacheState)
    ensures
        spec_ensure_action(spec_ensure_next(s)) == CacheAction::UseExisting,
        downloads_of(spec_ensure_action(s)) + downloads_of(
            spec_ensure_action(spec_ensure_next(s)),
        ) == (if s.present {
            0nat
        } else {
            1nat
        }),
{
}

} // verus!
