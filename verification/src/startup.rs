//! Startup: validating the configuration against what the filesystem
//! holds, and planning provisioning and workers. The filesystem probes
//! themselves happen outside the library; they are handed in as one
//! observation per configured pipe path. Validation failures are fatal and
//! abort startup before any pipe is created or any worker starts — a
//! structurally broken configuration cannot self-heal at runtime.

use vstd::prelude::*;
use crate::config::{ConfigModel, is_absolute_path, joined_path, paths_distinct, root_is_absolute,
    has_duplicate_path, join_path};

verus! {

/// What a probe of one configured pipe path found on disk.
#[derive(Clone, Copy, PartialEq, Eq, Structural, Debug)]
pub enum FsEntryKind {
    /// No entry exists at the path: a pipe must be created there.
    Missing,
    /// A named pipe already exists at the path: it is kept as it is.
    Fifo,
    /// Something else occupies the path (a regular file, a directory, a
    /// device): startup must abort rather than touch it.
    OtherEntry,
}

/// Why startup validation rejected a configuration.
#[derive(Clone, Copy, PartialEq, Eq, Structural, Debug)]
pub enum ConfigError {
    RootNotAbsolute,
    RootNotDirectory,
    DuplicatePipePath,
    /// The mapping at this index names a path occupied by something that
    /// is not a named pipe.
    NotAPipe { index: usize },
}

/// Why provisioning a missing pipe failed. Produced by the caller when the
/// underlying create call fails; never by a verified function.
#[derive(Clone, Copy, PartialEq, Eq, Structural, Debug)]
pub enum ProvisionError {
    CreateFailed,
}

/// One pipe bound to one channel, with its absolute path: everything a
/// dispatch worker owns.
pub struct PipeMapping {
    pub label: String,
    pub pipe_path: String,
    pub channel_id: u64,
}

/// The startup plan produced once validation passed: one worker per
/// mapping, and for each whether its pipe must first be created.
pub struct StartupPlan {
    pub workers: Vec<PipeMapping>,
    pub create: Vec<bool>,
}

/// A configuration passes startup validation when the root is an absolute
/// directory, no two mappings share a pipe path, and every path that is
/// already occupied holds a named pipe.
pub open spec fn config_valid(cfg: ConfigModel, root_is_dir: bool, kinds: Seq<FsEntryKind>) -> bool {
    &&& is_absolute_path(cfg.root_directory@)
    &&& root_is_dir
    &&& paths_distinct(cfg)
    &&& forall|i: int| 0 <= i < kinds.len() ==> !(kinds[i] is OtherEntry)
}

/// The one error that validation reports for an invalid configuration:
/// checks run in a fixed order, and a path error names the first offending
/// mapping.
pub open spec fn expected_error(
    cfg: ConfigModel,
    root_is_dir: bool,
    kinds: Seq<FsEntryKind>,
    e: ConfigError,
) -> bool {
    match e {
        ConfigError::RootNotAbsolute => !is_absolute_path(cfg.root_directory@),
        ConfigError::RootNotDirectory => is_absolute_path(cfg.root_directory@) && !root_is_dir,
        ConfigError::DuplicatePipePath => is_absolute_path(cfg.root_directory@) && root_is_dir
            && !paths_distinct(cfg),
        ConfigError::NotAPipe { index } => is_absolute_path(cfg.root_directory@) && root_is_dir
            && paths_distinct(cfg) && index < kinds.len() && kinds[index as int] is OtherEntry
            && (forall|j: int| 0 <= j < index ==> !(kinds[j] is OtherEntry)),
    }
}

/// Validates the configuration against the filesystem observations.
/// Succeeds exactly on a valid configuration; otherwise reports the first
/// failed check.
pub fn validate_config(cfg: &ConfigModel, root_is_dir: bool, kinds: &Vec<FsEntryKind>) -> (r:
    Result<(), ConfigError>)
    requires
        kinds@.len() == cfg.entries@.len(),
    ensures
        r is Ok <==> config_valid(*cfg, root_is_dir, kinds@),
        r matches Err(e) ==> expected_error(*cfg, root_is_dir, kinds@, e),
{
    if !root_is_absolute(cfg) {
        return Err(ConfigError::RootNotAbsolute);
    }
    if !root_is_dir {
        return Err(ConfigError::RootNotDirectory);
    }
    if has_duplicate_path(cfg) {
        return Err(ConfigError::DuplicatePipePath);
    }
    let mut i: usize = 0;
    while i < kinds.len()
        invariant
            0 <= i <= kinds@.len(),
            is_absolute_path(cfg.root_directory@),
            root_is_dir,
            paths_distinct(*cfg),
            forall|j: int| 0 <= j < i ==> !(kinds@[j] is OtherEntry),
        decreases kinds@.len() - i,
    {
        if matches!(kinds[i], FsEntryKind::OtherEntry) {
            return Err(ConfigError::NotAPipe { index: i });
        }
        i = i + 1;
    }
    Ok(())
}

/// Validates the configuration and, when it passes, lays out the workers:
/// one per mapping in configuration order, each owning its joined pipe
/// path and channel, with a pipe creation exactly where the path is still
/// unoccupied. An invalid configuration yields no plan at all, so nothing
/// is created and no worker starts.
pub fn plan_startup(cfg: &ConfigModel, root_is_dir: bool, kinds: &Vec<FsEntryKind>) -> (r: Result<
    StartupPlan,
    ConfigError,
>)
    requires
        kinds@.len() == cfg.entries@.len(),
    ensures
        r is Ok <==> config_valid(*cfg, root_is_dir, kinds@),
        r matches Err(e) ==> expected_error(*cfg, root_is_dir, kinds@, e),
        r matches Ok(plan) ==> {
            &&& plan.workers@.len() == cfg.entries@.len()
            &&& plan.create@.len() == cfg.entries@.len()
            &&& forall|i: int|
                0 <= i < plan.workers@.len() ==> {
                    &&& plan.workers@[i].label@ == cfg.entries@[i].label@
                    &&& plan.workers@[i].pipe_path@ == joined_path(
                        cfg.root_directory@,
                        cfg.entries@[i].fifo@,
                    )
                    &&& plan.workers@[i].channel_id == cfg.entries@[i].channel
                }
            &&& forall|i: int|
                0 <= i < plan.create@.len() ==> plan.create@[i] == (kinds@[i] is Missing)
        },
{
    if let Err(e) = validate_config(cfg, root_is_dir, kinds) {
        return Err(e);
    }
    let mut workers: Vec<PipeMapping> = Vec::new();
    let mut create: Vec<bool> = Vec::new();
    let mut i: usize = 0;
    while i < cfg.entries.len()
        invariant
            0 <= i <= cfg.entries@.len(),
            kinds@.len() == cfg.entries@.len(),
            workers@.len() == i,
            create@.len() == i,
            forall|k: int|
                0 <= k < i ==> {
                    &&& workers@[k].label@ == cfg.entries@[k].label@
                    &&& workers@[k].pipe_path@ == joined_path(
                        cfg.root_directory@,
                        cfg.entries@[k].fifo@,
                    )
                    &&& workers@[k].channel_id == cfg.entries@[k].channel
                },
            forall|k: int| 0 <= k < i ==> create@[k] == (kinds@[k] is Missing),
        decreases cfg.entries@.len() - i,
    {
        let entry = &cfg.entries[i];
        let mapping = PipeMapping {
            label: entry.label.clone(),
            pipe_path: join_path(cfg.root_directory.as_str(), entry.fifo.as_str()),
            channel_id: entry.channel,
        };
        workers.push(mapping);
        create.push(matches!(kinds[i], FsEntryKind::Missing));
        i = i + 1;
    }
    Ok(StartupPlan { workers, create })
}

/// A duplicate pipe path, a non-absolute root, or a root that is not a
/// directory each makes the configuration invalid, so startup aborts
/// before any pipe is created or any worker starts.
pub proof fn lemma_broken_config_aborts(cfg: ConfigModel, root_is_dir: bool, kinds: Seq<FsEntryKind>)
    requires
        !paths_distinct(cfg) || !is_absolute_path(cfg.root_directory@) || !root_is_dir,
    ensures
        !config_valid(cfg, root_is_dir, kinds),
{
}

/// A pre-existing entry that is not a named pipe at any configured path
/// makes the configuration invalid: it is never silently treated as a pipe
/// or overwritten.
pub proof fn lemma_occupied_path_aborts(
    cfg: ConfigModel,
    root_is_dir: bool,
    kinds: Seq<FsEntryKind>,
    i: int,
)
    requires
        0 <= i < kinds.len(),
        kinds[i] is OtherEntry,
    ensures
        !config_valid(cfg, root_is_dir, kinds),
{
}

} // verus!
