use vstd::prelude::*;
use crate::error::UklientError;

verus! {

/// One file the extracted package's manifest lists for download.
#[derive(Debug, Clone)]
pub struct FileEntry {
    /// Path of the file relative to the output directory.
    pub output_path: String,
    /// Where to download the file from.
    pub download_url: String,
    /// The declared size in bytes.
    pub size: u64,
    /// The declared checksum, when the manifest carries one.
    pub hash: Option<String>,
}

/// The filesystem type of an override entry.
#[derive(Clone, Copy, Debug, PartialEq, Eq, Structural)]
pub enum OverrideKind {
    File,
    Directory,
    /// Anything else, e.g. a broken symlink.
    Other,
}

/// One entry of the extracted archive's overrides directory.
#[derive(Debug, Clone)]
pub struct OverrideEntry {
    /// The entry's name relative to the overrides root.
    pub name: String,
    /// The entry's absolute path inside the scratch directory.
    pub source_path: String,
    pub kind: OverrideKind,
}

/// Where the installation stands: downloading manifest files, applying
/// overrides, finished, or aborted.
#[derive(Clone, Copy, Debug, PartialEq, Eq, Structural)]
pub enum InstallPhase {
    Files(usize),
    Overrides(usize),
    Done,
    Failed,
}

/// The next piece of outside work the driver must perform. Every download
/// and copy targets the output directory and overwrites same-named content
/// already there.
#[derive(Clone, Copy, Debug, PartialEq, Eq, Structural)]
pub enum InstallAction {
    /// Download manifest file at this index into the output directory.
    DownloadFile(usize),
    /// Copy the file-kind override at this index into the output directory.
    CopyOverrideFile(usize),
    /// Recursively copy the directory-kind override at this index into the
    /// output directory.
    CopyOverrideDir(usize),
    /// The override at this index is neither file nor directory: abort.
    RejectEntry(usize),
    /// All entries are installed.
    Finish,
    /// The installation has already failed; nothing further is done.
    Stop,
}

/// The driver's report on the last download or copy.
#[derive(Debug, Clone)]
pub enum InstallEvent {
    StepSucceeded,
    StepFailed(String),
}

/// The phase installation starts in.
pub open spec fn spec_init_phase(files_len: nat, overrides_len: nat) -> InstallPhase {
    if files_len > 0 {
        InstallPhase::Files(0usize)
    } else if overrides_len > 0 {
        InstallPhase::Overrides(0usize)
    } else {
        InstallPhase::Done
    }
}

pub fn init_phase(files_len: usize, overrides_len: usize) -> (r: InstallPhase)
    ensures
        r == spec_init_phase(files_len as nat, overrides_len as nat),
{
    if files_len > 0 {
        InstallPhase::Files(0)
    } else if overrides_len > 0 {
        InstallPhase::Overrides(0)
    } else {
        InstallPhase::Done
    }
}

/// What the driver must do next in each phase. Manifest files are processed
/// strictly in order, then overrides strictly in order; a file-kind
/// override is copied, a directory-kind one is copied recursively, and any
/// other kind aborts the installation.
pub open spec fn spec_next_action(
    files_len: nat,
    overrides: Seq<OverrideEntry>,
    phase: InstallPhase,
) -> InstallAction {
    match phase {
        InstallPhase::Files(i) => if (i as nat) < files_len {
            InstallAction::DownloadFile(i)
        } else {
            InstallAction::Finish
        },
        InstallPhase::Overrides(j) => if (j as nat) < overrides.len() {
            match overrides[j as int].kind {
                OverrideKind::File => InstallAction::CopyOverrideFile(j),
                OverrideKind::Directory => InstallAction::CopyOverrideDir(j),
                OverrideKind::Other => InstallAction::RejectEntry(j),
            }
        } else {
            InstallAction::Finish
        },
        InstallPhase::Done => InstallAction::Finish,
        InstallPhase::Failed => InstallAction::Stop,
    }
}

pub fn next_action(files_len: usize, overrides: &Vec<OverrideEntry>, phase: InstallPhase) -> (r:
    InstallAction)
    ensures
        r == spec_next_action(files_len as nat, overrides@, phase),
{
    match phase {
        InstallPhase::Files(i) => {
            if i < files_len {
                InstallAction::DownloadFile(i)
            } else {
                InstallAction::Finish
            }
        },
        InstallPhase::Overrides(j) => {
            if j < overrides.len() {
                let entry = &overrides[j];
                match entry.kind {
                    OverrideKind::File => InstallAction::CopyOverrideFile(j),
                    OverrideKind::Directory => InstallAction::CopyOverrideDir(j),
                    OverrideKind::Other => InstallAction::RejectEntry(j),
                }
            } else {
                InstallAction::Finish
            }
        },
        InstallPhase::Done => InstallAction::Finish,
        InstallPhase::Failed => InstallAction::Stop,
    }
}

/// The phase after the driver's report. Success moves to the next entry (or
/// the next stage); any failure moves to the failed phase, which is
/// terminal: nothing past the failing entry is processed and nothing
/// already written is rolled back.
pub open spec fn spec_apply_event(
    files_len: nat,
    overrides_len: nat,
    phase: InstallPhase,
    e: InstallEvent,
) -> InstallPhase {
    match phase {
        InstallPhase::Files(i) => match e {
            InstallEvent::StepSucceeded => if i + 1 < files_len {
                InstallPhase::Files((i + 1) as usize)
            } else if overrides_len > 0 {
                InstallPhase::Overrides(0usize)
            } else {
                InstallPhase::Done
            },
            InstallEvent::StepFailed(_) => InstallPhase::Failed,
        },
        InstallPhase::Overrides(j) => match e {
            InstallEvent::StepSucceeded => if j + 1 < overrides_len {
                InstallPhase::Overrides((j + 1) as usize)
            } else {
                InstallPhase::Done
            },
            InstallEvent::StepFailed(_) => InstallPhase::Failed,
        },
        InstallPhase::Done => InstallPhase::Done,
        InstallPhase::Failed => InstallPhase::Failed,
    }
}

pub fn apply_event(files_len: usize, overrides_len: usize, phase: InstallPhase, e: &InstallEvent) -> (r:
    InstallPhase)
    ensures
        r == spec_apply_event(files_len as nat, overrides_len as nat, phase, *e),
{
    match phase {
        InstallPhase::Files(i) => match e {
            InstallEvent::StepSucceeded => {
                if i < files_len {
                    let next = i + 1;
                    if next < files_len {
                        InstallPhase::Files(next)
                    } else if overrides_len > 0 {
                        InstallPhase::Overrides(0)
                    } else {
                        InstallPhase::Done
                    }
                } else {
                    if overrides_len > 0 {
                        InstallPhase::Overrides(0)
                    } else {
                        InstallPhase::Done
                    }
                }
            },
            InstallEvent::StepFailed(_) => InstallPhase::Failed,
        },
        InstallPhase::Overrides(j) => match e {
            InstallEvent::StepSucceeded => {
                if j < overrides_len {
                    let next = j + 1;
                    if next < overrides_len {
                        InstallPhase::Overrides(next)
                    } else {
                        InstallPhase::Done
                    }
                } else {
                    InstallPhase::Done
                }
            },
            InstallEvent::StepFailed(_) => InstallPhase::Failed,
        },
        InstallPhase::Done => InstallPhase::Done,
        InstallPhase::Failed => InstallPhase::Failed,
    }
}

/// The error reported for an override entry of unknown filesystem type.
pub fn unknown_type_error(entry: &OverrideEntry) -> (r: UklientError)
    ensures
        r matches UklientError::UnknownTypeError(n) && n@ == entry.name@,
{
    UklientError::UnknownTypeError(entry.name.clone())
}

/// Where a top-level name in the output directory last came from.
#[derive(Clone, Copy, Debug, PartialEq, Eq, Structural)]
pub enum InstalledFrom {
    ManifestFile(usize),
    Override(usize),
}

/// The model of the output directory: for each top-level name, which entry
/// last wrote it. Downloads and override copies insert their name, so a
/// later write to the same name replaces the earlier one.
pub open spec fn spec_apply_effect(
    dir: Map<Seq<char>, InstalledFrom>,
    files: Seq<FileEntry>,
    overrides: Seq<OverrideEntry>,
    a: InstallAction,
) -> Map<Seq<char>, InstalledFrom> {
    match a {
        InstallAction::DownloadFile(i) => if (i as nat) < files.len() {
            dir.insert(files[i as int].output_path@, InstalledFrom::ManifestFile(i))
        } else {
            dir
        },
        InstallAction::CopyOverrideFile(j) => if (j as nat) < overrides.len() {
            dir.insert(overrides[j as int].name@, InstalledFrom::Override(j))
        } else {
            dir
        },
        InstallAction::CopyOverrideDir(j) => if (j as nat) < overrides.len() {
            dir.insert(overrides[j as int].name@, InstalledFrom::Override(j))
        } else {
            dir
        },
        InstallAction::RejectEntry(_) => dir,
        InstallAction::Finish => dir,
        InstallAction::Stop => dir,
    }
}

/// Law: one failing step fails the whole installation. After any failure
/// report the machine is in the failed phase, the failed phase issues no
/// further download or copy action, and no later report leaves it.
pub proof fn lemma_failure_aborts(
    files_len: nat,
    overrides: Seq<OverrideEntry>,
    overrides_len: nat,
    phase: InstallPhase,
    reason: String,
    e: InstallEvent,
)
    ensures
        !(phase is Done) ==> spec_apply_event(
            files_len,
            overrides_len,
            phase,
            InstallEvent::StepFailed(reason),
        ) == InstallPhase::Failed,
        spec_next_action(files_len, overrides, InstallPhase::Failed) == InstallAction::Stop,
        spec_apply_event(files_len, overrides_len, InstallPhase::Failed, e)
            == InstallPhase::Failed,
{
}

/// Law: copying a directory-kind override into an output directory that
/// already holds a same-named entry overwrites it: afterwards the name maps
/// to the override, whatever it held before.
pub proof fn lemma_override_copy_overwrites(
    dir: Map<Seq<char>, InstalledFrom>,
    files: Seq<FileEntry>,
    overrides: Seq<OverrideEntry>,
    j: usize,
)
    requires
        (j as nat) < overrides.len(),
    ensures
        ({
            let d2 = spec_apply_effect(dir, files, overrides, InstallAction::CopyOverrideDir(j));
            d2.contains_key(overrides[j as int].name@) && d2[overrides[j as int].name@]
                == InstalledFrom::Override(j)
        }),
{
}

} // verus!
