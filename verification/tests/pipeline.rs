use uklient::auth::CredentialEvent;
use uklient::auth::CredentialState;
use uklient::auth::bootstrap_step;
use uklient::auth::initial_state;
use uklient::auth::must_persist;
use uklient::cache::CacheAction;
use uklient::cache::cache_dir;
use uklient::cache::cache_file_path;
use uklient::cache::ensure_cached_action;
use uklient::cache::scratch_dir;
use uklient::error::UklientError;
use uklient::install::FileEntry;
use uklient::install::InstallAction;
use uklient::install::InstallEvent;
use uklient::install::InstallPhase;
use uklient::install::OverrideEntry;
use uklient::install::OverrideKind;
use uklient::install::apply_event;
use uklient::install::init_phase;
use uklient::install::next_action;
use uklient::install::unknown_type_error;
use uklient::loader::Loader;
use uklient::loader::MetaLoaderVersion;
use uklient::loader::get_latest_fabric;
use uklient::loader::get_latest_quilt;
use uklient::loader::loader_name;
use uklient::loader::manifest_url;
use uklient::loader::meta_base;
use uklient::loader::resolve_loader;
use uklient::loader::version_list_url;
use uklient::modpack::ModpackFile;
use uklient::modpack::ModpackVersionInfo;
use uklient::modpack::primary_file_index;
use uklient::modpack::select_version;
use uklient::profile::build_profile;
use uklient::profile::fix_name;
use uklient::profile::profile_dir;
use uklient::strutil::str_eq;
use uklient::strutil::str_eq_ignore_ascii_case;
use uklient::strutil::u32_to_string;
use uklient::version::MinecraftVersion;
use uklient::version::java_major;
use uklient::version::parse_version;

fn mlv(version: &str, stable: bool) -> MetaLoaderVersion {
    MetaLoaderVersion {
        separator: String::from("."),
        build: 0,
        maven: String::from("maven"),
        version: String::from(version),
        stable,
    }
}

fn modpack_version(
    name: &str,
    game_versions: &[&str],
    loaders: &[&str],
    files: Vec<ModpackFile>,
) -> ModpackVersionInfo {
    ModpackVersionInfo {
        name: String::from(name),
        game_versions: game_versions.iter().map(|s| String::from(*s)).collect(),
        loaders: loaders.iter().map(|s| String::from(*s)).collect(),
        files,
    }
}

fn mfile(file_name: &str, primary: bool) -> ModpackFile {
    ModpackFile {
        url: format!("https://cdn.example/{file_name}"),
        file_name: String::from(file_name),
        primary,
        size: 1024,
    }
}

fn fentry(output_path: &str) -> FileEntry {
    FileEntry {
        output_path: String::from(output_path),
        download_url: format!("https://cdn.example/{output_path}"),
        size: 4096,
        hash: None,
    }
}

fn oentry(name: &str, kind: OverrideKind) -> OverrideEntry {
    OverrideEntry {
        name: String::from(name),
        source_path: format!("/tmp/scratch/overrides/{name}"),
        kind,
    }
}

// ---- Version Resolver ----

#[test]
fn fabric_manifest_url_template() {
    let versions = vec![mlv("0.17.2", true)];
    let r = get_latest_fabric("1.19.3", &versions).unwrap();
    assert_eq!(r.id, "0.17.2");
    assert!(r.stable);
    assert_eq!(
        r.url,
        "https://meta.fabricmc.net/v2/versions/loader/1.19.3/0.17.2/profile/json"
    );
}

#[test]
fn quilt_manifest_url_template() {
    let versions = vec![mlv("0.18.1", false)];
    let r = get_latest_quilt("1.19.3", &versions).unwrap();
    assert_eq!(r.id, "0.18.1");
    assert!(!r.stable);
    assert_eq!(
        r.url,
        "https://meta.quiltmc.org/v3/versions/loader/1.19.3/0.18.1/profile/json"
    );
}

#[test]
fn resolver_picks_first_listed_build() {
    let versions = vec![mlv("0.17.2", true), mlv("0.17.1", true), mlv("0.16.0", false)];
    let r = resolve_loader(Loader::Fabric, "1.19.3", &versions).unwrap();
    assert_eq!(r.id, "0.17.2");
}

#[test]
fn resolver_empty_list_fails_with_meta_error() {
    let versions: Vec<MetaLoaderVersion> = Vec::new();
    match get_latest_fabric("1.19.3", &versions) {
        Err(UklientError::MetaError(name)) => assert_eq!(name, "fabric"),
        other => panic!("expected MetaError, got {other:?}"),
    }
    match get_latest_quilt("1.19.3", &versions) {
        Err(UklientError::MetaError(name)) => assert_eq!(name, "quilt"),
        other => panic!("expected MetaError, got {other:?}"),
    }
}

#[test]
fn resolver_helper_urls() {
    assert_eq!(meta_base(Loader::Fabric), "https://meta.fabricmc.net/v2");
    assert_eq!(meta_base(Loader::Quilt), "https://meta.quiltmc.org/v3");
    assert_eq!(loader_name(Loader::Quilt), "quilt");
    assert_eq!(
        version_list_url(Loader::Quilt, "1.19.3"),
        "https://meta.quiltmc.org/v3/versions/loader/1.19.3"
    );
    assert_eq!(
        manifest_url(Loader::Fabric, "1.19.3", "0.17.2"),
        "https://meta.fabricmc.net/v2/versions/loader/1.19.3/0.17.2/profile/json"
    );
}

// ---- Modpack Metadata Fetcher ----

#[test]
fn select_version_filters_game_version_then_loader() {
    let versions = vec![
        modpack_version("v3", &["1.19.2"], &["quilt"], vec![]),
        modpack_version("v2", &["1.19.3"], &["forge"], vec![]),
        modpack_version("v1", &["1.19.3"], &["forge", "Quilt"], vec![]),
        modpack_version("v0", &["1.19.3"], &["quilt"], vec![]),
    ];
    let i = select_version(&versions, "1.19.3", "quilt").unwrap();
    assert_eq!(i, 2);
    assert_eq!(versions[i].name, "v1");
}

#[test]
fn select_version_loader_match_ignores_ascii_case() {
    let versions = vec![modpack_version("v", &["1.19.3"], &["QUILT"], vec![])];
    assert_eq!(select_version(&versions, "1.19.3", "quilt").unwrap(), 0);
    assert_eq!(select_version(&versions, "1.19.3", "Quilt").unwrap(), 0);
}

#[test]
fn select_version_no_match_fails_with_meta_error() {
    let versions = vec![
        modpack_version("v1", &["1.19.2"], &["quilt"], vec![]),
        modpack_version("v2", &["1.19.3"], &["fabric"], vec![]),
    ];
    match select_version(&versions, "1.19.3", "quilt") {
        Err(UklientError::MetaError(name)) => assert_eq!(name, "modpack"),
        other => panic!("expected MetaError, got {other:?}"),
    }
}

#[test]
fn primary_file_is_first_marked_primary() {
    let files = vec![mfile("extra.zip", false), mfile("pack.mrpack", true), mfile("b.mrpack", true)];
    assert_eq!(primary_file_index(&files), Some(1));
    let none = vec![mfile("extra.zip", false)];
    assert_eq!(primary_file_index(&none), None);
}

// ---- Archive Cache ----

#[test]
fn cache_paths() {
    assert_eq!(cache_file_path("/home/u/.config/uklient/.cache", "pack.mrpack"),
        "/home/u/.config/uklient/.cache/pack.mrpack");
    assert_eq!(cache_dir("/home/u"), "/home/u/.config/uklient/.cache");
    assert_eq!(scratch_dir("/home/u", "ukupvp"), "/home/u/.config/uklient/.tmp/ukupvp");
}

#[test]
fn ensure_cached_downloads_once_then_hits() {
    // first pass over an absent entry downloads; afterwards the entry is
    // present, so a second pass is a pure hit on the same path
    let first = ensure_cached_action(false);
    assert_eq!(first, CacheAction::Download);
    let second = ensure_cached_action(true);
    assert_eq!(second, CacheAction::UseExisting);
    let path_a = cache_file_path("/cache", "pack.mrpack");
    let path_b = cache_file_path("/cache", "pack.mrpack");
    assert_eq!(path_a, path_b);
}

// ---- Installer ----

fn run_installer(
    files: &[FileEntry],
    overrides: &[OverrideEntry],
    fail_on: Option<InstallAction>,
) -> (Vec<InstallAction>, InstallPhase) {
    let files: Vec<FileEntry> = files.to_vec();
    let overrides: Vec<OverrideEntry> = overrides.to_vec();
    let mut phase = init_phase(files.len(), overrides.len());
    let mut performed = Vec::new();
    loop {
        let action = next_action(files.len(), &overrides, phase);
        match action {
            InstallAction::Finish | InstallAction::Stop => return (performed, phase),
            InstallAction::RejectEntry(_) => {
                performed.push(action);
                let reason = String::from("unknown entry type");
                phase = apply_event(files.len(), overrides.len(), phase,
                    &InstallEvent::StepFailed(reason));
            }
            _ => {
                performed.push(action);
                let event = if fail_on == Some(action) {
                    InstallEvent::StepFailed(String::from("download failed"))
                } else {
                    InstallEvent::StepSucceeded
                };
                phase = apply_event(files.len(), overrides.len(), phase, &event);
            }
        }
    }
}

#[test]
fn installer_processes_files_then_overrides_in_order() {
    let files = [fentry("mods/a.jar"), fentry("mods/b.jar")];
    let overrides = [oentry("config", OverrideKind::Directory), oentry("options.txt", OverrideKind::File)];
    let (actions, phase) = run_installer(&files, &overrides, None);
    assert_eq!(actions, vec![
        InstallAction::DownloadFile(0),
        InstallAction::DownloadFile(1),
        InstallAction::CopyOverrideDir(0),
        InstallAction::CopyOverrideFile(1),
    ]);
    assert_eq!(phase, InstallPhase::Done);
}

#[test]
fn installer_aborts_on_first_failing_download() {
    let files = [fentry("mods/a.jar"), fentry("mods/b.jar"), fentry("mods/c.jar")];
    let (actions, phase) = run_installer(&files, &[], Some(InstallAction::DownloadFile(1)));
    // nothing beyond the failing entry is attempted; entry 0 stays done
    assert_eq!(actions, vec![InstallAction::DownloadFile(0), InstallAction::DownloadFile(1)]);
    assert_eq!(phase, InstallPhase::Failed);
    assert_eq!(next_action(files.len(), &Vec::new(), phase), InstallAction::Stop);
}

#[test]
fn installer_rejects_unknown_override_type() {
    let overrides = [oentry("good.txt", OverrideKind::File), oentry("weird", OverrideKind::Other),
        oentry("late.txt", OverrideKind::File)];
    let (actions, phase) = run_installer(&[], &overrides, None);
    assert_eq!(actions, vec![
        InstallAction::CopyOverrideFile(0),
        InstallAction::RejectEntry(1),
    ]);
    assert_eq!(phase, InstallPhase::Failed);
    match unknown_type_error(&overrides[1]) {
        UklientError::UnknownTypeError(name) => assert_eq!(name, "weird"),
        other => panic!("expected UnknownTypeError, got {other:?}"),
    }
}

#[test]
fn installer_empty_manifest_finishes_immediately() {
    let (actions, phase) = run_installer(&[], &[], None);
    assert!(actions.is_empty());
    assert_eq!(phase, InstallPhase::Done);
}

#[test]
fn directory_override_is_copied_recursively_with_overwrite() {
    // a directory-kind override is applied as a recursive overwriting
    // copy even when the output directory already holds that name
    let overrides = [oentry("config", OverrideKind::Directory)];
    let action = next_action(0, &overrides.to_vec(), InstallPhase::Overrides(0));
    assert_eq!(action, InstallAction::CopyOverrideDir(0));
}

// ---- Credential Bootstrap ----

#[test]
fn bootstrap_missing_file_goes_interactive() {
    let s0 = initial_state(false);
    assert_eq!(s0, CredentialState::NoCredentialFile);
    let s1 = bootstrap_step(s0, &CredentialEvent::RefreshSucceeded).unwrap();
    assert_eq!(s1, CredentialState::AwaitingInteractiveLogin);
}

#[test]
fn bootstrap_refresh_failure_falls_back_to_login() {
    let s0 = initial_state(true);
    assert_eq!(s0, CredentialState::StaleCredential);
    let e = CredentialEvent::RefreshFailed(String::from("token expired"));
    let s1 = bootstrap_step(s0, &e).unwrap();
    assert_eq!(s1, CredentialState::AwaitingInteractiveLogin);
    let s2 = bootstrap_step(s1, &CredentialEvent::LoginSucceeded).unwrap();
    assert_eq!(s2, CredentialState::ValidCredential);
    assert!(must_persist(s1, &CredentialEvent::LoginSucceeded));
}

#[test]
fn bootstrap_refresh_success_is_terminal_and_not_persisted() {
    let s0 = initial_state(true);
    let s1 = bootstrap_step(s0, &CredentialEvent::RefreshSucceeded).unwrap();
    assert_eq!(s1, CredentialState::ValidCredential);
    assert!(!must_persist(s0, &CredentialEvent::RefreshSucceeded));
    let s2 = bootstrap_step(s1, &CredentialEvent::RefreshFailed(String::from("x"))).unwrap();
    assert_eq!(s2, CredentialState::ValidCredential);
}

#[test]
fn bootstrap_login_failure_is_fatal() {
    let e = CredentialEvent::LoginFailed(String::from("user cancelled"));
    match bootstrap_step(CredentialState::AwaitingInteractiveLogin, &e) {
        Err(UklientError::LoginError(reason)) => assert_eq!(reason, "user cancelled"),
        other => panic!("expected LoginError, got {other:?}"),
    }
}

// ---- Versions and profile ----

#[test]
fn parse_version_accepts_well_formed() {
    assert_eq!(parse_version("1.19.3").unwrap(), MinecraftVersion { minor: 19, patch: 3 });
    assert_eq!(parse_version("1.8.9").unwrap(), MinecraftVersion { minor: 8, patch: 9 });
    assert_eq!(
        parse_version("1.999999999.999999999").unwrap(),
        MinecraftVersion { minor: 999999999, patch: 999999999 }
    );
}

#[test]
fn parse_version_rejects_malformed() {
    for bad in [
        "", "1", "1.", "1..", "1.19", "1.19.", "2.19.3", "1:19:3", "1.19.3.4",
        "1.x.3", "1.19.x", "x.19.3", "1.19.3 ", "1.1234567890.3", "1.3.1234567890",
    ] {
        match parse_version(bad) {
            Err(UklientError::VersionError(_)) => {}
            other => panic!("expected VersionError for {bad:?}, got {other:?}"),
        }
    }
}

#[test]
fn version_to_string_round_trips() {
    let v = MinecraftVersion { minor: 19, patch: 3 };
    assert_eq!(v.to_version_string(), "1.19.3");
    assert_eq!(parse_version(&v.to_version_string()).unwrap(), v);
    let w = MinecraftVersion { minor: 0, patch: 0 };
    assert_eq!(w.to_version_string(), "1.0.0");
    assert_eq!(parse_version(&w.to_version_string()).unwrap(), w);
}

#[test]
fn version_ordering_picks_java() {
    assert_eq!(java_major(MinecraftVersion { minor: 19, patch: 3 }), 17);
    assert_eq!(java_major(MinecraftVersion { minor: 17, patch: 0 }), 17);
    assert_eq!(java_major(MinecraftVersion { minor: 16, patch: 5 }), 8);
    let a = MinecraftVersion { minor: 17, patch: 0 };
    let b = MinecraftVersion { minor: 16, patch: 9 };
    assert!(a.at_least(b));
    assert!(!b.at_least(a));
}

#[test]
fn fix_name_replaces_spaces() {
    assert_eq!(fix_name("UK UPVP pack"), "UK_UPVP_pack");
    assert_eq!(fix_name("nospace"), "nospace");
    assert_eq!(profile_dir("/home/u", "UK UPVP"), "/home/u/.uklient/UK_UPVP");
}

#[test]
fn string_helpers() {
    assert!(str_eq("abc", "abc"));
    assert!(!str_eq("abc", "abd"));
    assert!(!str_eq("abc", "ab"));
    assert!(str_eq_ignore_ascii_case("Quilt", "qUILT"));
    assert!(!str_eq_ignore_ascii_case("fabric", "fabrik"));
    assert_eq!(u32_to_string(0), "0");
    assert_eq!(u32_to_string(1234), "1234");
}

// ---- End to end ----

#[test]
fn end_to_end_quilt_install() {
    // modpack id "ukupvp", game version 1.19.3, loader quilt
    let game_version = parse_version("1.19.3").unwrap();
    let gv = game_version.to_version_string();

    // the content host lists one matching version with two files
    let pack_files = vec![mfile("ukupvp-1.0.mrpack", true)];
    let versions = vec![modpack_version("UK UPVP", &["1.19.3"], &["Quilt"], pack_files)];
    let vi = select_version(&versions, &gv, "quilt").unwrap();
    let chosen = &versions[vi];
    let primary = primary_file_index(&chosen.files).unwrap();
    assert_eq!(chosen.files[primary].file_name, "ukupvp-1.0.mrpack");

    // the loader metadata fixture lists one quilt build
    let loader_builds = vec![mlv("0.18.1", true)];
    let loader_version = get_latest_quilt(&gv, &loader_builds).unwrap();

    // the profile record is built before installation
    let path = profile_dir("/home/u", &chosen.name);
    let profile = build_profile(
        path.clone(),
        chosen.name.clone(),
        Loader::Quilt,
        loader_version.clone(),
        gv.clone(),
        java_major(game_version),
    );
    assert_eq!(profile.loader_version.id, "0.18.1");
    assert_eq!(profile.path, "/home/u/.uklient/UK_UPVP");
    assert_eq!(profile.memory_max, 4096);
    assert_eq!(profile.window_width, 1280);
    assert_eq!(profile.window_height, 720);

    // the extracted manifest lists two files and one override directory
    let files = [fentry("mods/a.jar"), fentry("mods/b.jar")];
    let overrides = [oentry("config", OverrideKind::Directory)];
    let (actions, phase) = run_installer(&files, &overrides, None);
    assert_eq!(actions, vec![
        InstallAction::DownloadFile(0),
        InstallAction::DownloadFile(1),
        InstallAction::CopyOverrideDir(0),
    ]);
    assert_eq!(phase, InstallPhase::Done);
}
