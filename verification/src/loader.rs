use vstd::prelude::*;
use vstd::string::*;
use crate::error::UklientError;

verus! {

/// The two supported mod-loader backends.
#[derive(Clone, Copy, Debug, PartialEq, Eq, Structural)]
pub enum Loader {
    Fabric,
    Quilt,
}

/// One loader build exactly as the metadata service lists it.
#[derive(Debug, Clone)]
pub struct MetaLoaderVersion {
    /// The separator used to derive the build number.
    pub separator: String,
    /// The build number.
    pub build: u32,
    /// The maven artifact.
    pub maven: String,
    /// The version number of the loader build.
    pub version: String,
    /// Whether the build is marked stable.
    pub stable: bool,
}

/// A resolved loader build: its id, stability flag and manifest URL.
#[derive(Debug, Clone)]
pub struct LoaderVersion {
    pub id: String,
    pub stable: bool,
    pub url: String,
}

/// The base URL of the metadata service of each backend.
pub open spec fn meta_base_chars(l: Loader) -> Seq<char> {
    match l {
        Loader::Fabric => "https://meta.fabricmc.net/v2"@,
        Loader::Quilt => "https://meta.quiltmc.org/v3"@,
    }
}

/// The lower-case name of each backend, as error messages report it.
pub open spec fn loader_name_chars(l: Loader) -> Seq<char> {
    match l {
        Loader::Fabric => "fabric"@,
        Loader::Quilt => "quilt"@,
    }
}

pub fn meta_base(l: Loader) -> (r: &'static str)
    ensures
        r@ == meta_base_chars(l),
{
    match l {
        Loader::Fabric => "https://meta.fabricmc.net/v2",
        Loader::Quilt => "https://meta.quiltmc.org/v3",
    }
}

pub fn loader_name(l: Loader) -> (r: &'static str)
    ensures
        r@ == loader_name_chars(l),
{
    match l {
        Loader::Fabric => "fabric",
        Loader::Quilt => "quilt",
    }
}

/// The URL under which the metadata service lists the loader builds for one
/// game version, newest first.
pub open spec fn version_list_url_chars(l: Loader, mc: Seq<char>) -> Seq<char> {
    meta_base_chars(l) + "/versions/loader/"@ + mc
}

pub fn version_list_url(l: Loader, mc_version: &str) -> (r: String)
    ensures
        r@ == version_list_url_chars(l, mc_version@),
{
    let mut s = String::from_str(meta_base(l));
    s.append("/versions/loader/");
    s.append(mc_version);
    proof {
        assert(s@ =~= version_list_url_chars(l, mc_version@));
    }
    s
}

/// The manifest URL of one loader build: backend base, game version and
/// build version interpolated into a fixed template.
pub open spec fn manifest_url_chars(l: Loader, mc: Seq<char>, ver: Seq<char>) -> Seq<char> {
    meta_base_chars(l) + "/versions/loader/"@ + mc + "/"@ + ver + "/profile/json"@
}

pub fn manifest_url(l: Loader, mc_version: &str, loader_version: &str) -> (r: String)
    ensures
        r@ == manifest_url_chars(l, mc_version@, loader_version@),
{
    let mut s = String::from_str(meta_base(l));
    s.append("/versions/loader/");
    s.append(mc_version);
    s.append("/");
    s.append(loader_version);
    s.append("/profile/json");
    proof {
        assert(s@ =~= manifest_url_chars(l, mc_version@, loader_version@));
    }
    s
}

/// Selects the newest loader build for a game version out of the list the
/// metadata service returned (the service orders it newest first), and
/// builds the manifest URL of the selected build. Fails with the
/// metadata-not-found kind when the service listed no build at all.
pub fn resolve_loader(l: Loader, mc_version: &str, versions: &Vec<MetaLoaderVersion>) -> (r: Result<
    LoaderVersion,
    UklientError,
>)
    ensures
        versions@.len() == 0 ==> (r matches Err(UklientError::MetaError(n)) && n@
            == loader_name_chars(l)),
        versions@.len() > 0 ==> (r matches Ok(v) && v.id@ == versions@[0].version@ && v.stable
            == versions@[0].stable && v.url@ == manifest_url_chars(
            l,
            mc_version@,
            versions@[0].version@,
        )),
{
    if versions.len() == 0 {
        return Err(UklientError::MetaError(String::from_str(loader_name(l))));
    }
    let latest = &versions[0];
    let url = manifest_url(l, mc_version, latest.version.as_str());
    Ok(LoaderVersion { id: latest.version.clone(), stable: latest.stable, url })
}

/// The fabric half of the resolver: the driver fetches the build list from
/// the fabric metadata service and hands it in as plain values.
pub fn get_latest_fabric(mc_version: &str, versions: &Vec<MetaLoaderVersion>) -> (r: Result<
    LoaderVersion,
    UklientError,
>)
    ensures
        versions@.len() == 0 ==> (r matches Err(UklientError::MetaError(n)) && n@ == "fabric"@),
        versions@.len() > 0 ==> (r matches Ok(v) && v.id@ == versions@[0].version@ && v.stable
            == versions@[0].stable && v.url@ == manifest_url_chars(
            Loader::Fabric,
            mc_version@,
            versions@[0].version@,
        )),
{
    resolve_loader(Loader::Fabric, mc_version, versions)
}

/// The quilt half of the resolver: the driver fetches the build list from
/// the quilt metadata service and hands it in as plain values.
pub fn get_latest_quilt(mc_version: &str, versions: &Vec<MetaLoaderVersion>) -> (r: Result<
    LoaderVersion,
    UklientError,
>)
    ensures
        versions@.len() == 0 ==> (r matches Err(UklientError::MetaError(n)) && n@ == "quilt"@),
        versions@.len() > 0 ==> (r matches Ok(v) && v.id@ == versions@[0].version@ && v.stable
            == versions@[0].stable && v.url@ == manifest_url_chars(
            Loader::Quilt,
            mc_version@,
            versions@[0].version@,
        )),
{
    resolve_loader(Loader::Quilt, mc_version, versions)
}

} // verus!
