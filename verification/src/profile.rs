use vstd::prelude::*;
use vstd::string::*;
use crate::loader::Loader;
use crate::loader::LoaderVersion;
use crate::strutil::push_char;

verus! {

/// The local record describing one installed game instance. Constructed
/// once per run, before installation; the driver persists it through the
/// external profile registration call and launches from it afterwards.
#[derive(Debug, Clone)]
pub struct Profile {
    /// The directory all downloads and overrides target.
    pub path: String,
    /// The modpack's display name.
    pub name: String,
    pub loader: Loader,
    pub loader_version: LoaderVersion,
    pub game_version: String,
    /// The major Java version the game needs.
    pub java_version: u8,
    /// Maximum memory in megabytes.
    pub memory_max: u32,
    pub window_width: u32,
    pub window_height: u32,
}

/// A modpack name with every space replaced by an underscore, as the
/// profile directory requires.
pub open spec fn fixed_name_chars(name: Seq<char>) -> Seq<char> {
    name.map(
        |i: int, c: char|
            if c == ' ' {
                '_'
            } else {
                c
            },
    )
}

pub fn fix_name(name: &str) -> (r: String)
    ensures
        r@ == fixed_name_chars(name@),
{
    let len = name.unicode_len();
    let mut out = String::new();
    let mut i: usize = 0;
    while i < len
        invariant
            len == name@.len(),
            i <= len,
            out@.len() == i,
            forall|k: int|
                0 <= k < i ==> out@[k] == (if name@[k] == ' ' {
                    '_'
                } else {
                    name@[k]
                }),
        decreases len - i,
    {
        let c = name.get_char(i);
        if c == ' ' {
            push_char(&mut out, '_');
        } else {
            push_char(&mut out, c);
        }
        i += 1;
    }
    proof {
        assert(out@ =~= fixed_name_chars(name@));
    }
    out
}

/// The profile directory of a modpack: the home directory, the app
/// directory, and the modpack's fixed name.
pub open spec fn profile_dir_chars(home: Seq<char>, name: Seq<char>) -> Seq<char> {
    home + "/.uklient/"@ + fixed_name_chars(name)
}

pub fn profile_dir(home: &str, modpack_name: &str) -> (r: String)
    ensures
        r@ == profile_dir_chars(home@, modpack_name@),
{
    let fixed = fix_name(modpack_name);
    let mut s = String::from_str(home);
    s.append("/.uklient/");
    s.append(fixed.as_str());
    proof {
        assert(s@ =~= profile_dir_chars(home@, modpack_name@));
    }
    s
}

/// Pure construction of the profile record: the given paths and metadata,
/// 4096 megabytes of memory and a 1280 by 720 window.
pub fn build_profile(
    path: String,
    name: String,
    loader: Loader,
    loader_version: LoaderVersion,
    game_version: String,
    java_version: u8,
) -> (p: Profile)
    ensures
        p.path == path,
        p.name == name,
        p.loader == loader,
        p.loader_version == loader_version,
        p.game_version == game_version,
        p.java_version == java_version,
        p.memory_max == 4096u32,
        p.window_width == 1280u32,
        p.window_height == 720u32,
{
    Profile {
        path,
        name,
        loader,
        loader_version,
        game_version,
        java_version,
        memory_max: 4096,
        window_width: 1280,
        window_height: 720,
    }
}

} // verus!
