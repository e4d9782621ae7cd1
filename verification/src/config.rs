//! The configuration model: the sink credential, the root directory that
//! holds every named pipe, and the pipe-to-channel mappings. The
//! configuration loader (outside this library) supplies these values
//! already structurally complete; this module holds the path rules that
//! the startup validation is stated over.

use vstd::prelude::*;
use vstd::string::*;

verus! {

/// One pipe-to-channel mapping as the configuration supplies it: a label
/// for diagnostics, the pipe's file name relative to the root directory,
/// and the destination channel.
pub struct MappingEntry {
    pub label: String,
    pub fifo: String,
    pub channel: u64,
}

/// The in-memory configuration handed to startup: the sink credential, the
/// directory that holds every pipe, and the mappings.
pub struct ConfigModel {
    pub sink_credential: String,
    pub root_directory: String,
    pub entries: Vec<MappingEntry>,
}

/// An absolute path starts at the filesystem root.
pub open spec fn is_absolute_path(path: Seq<char>) -> bool {
    path.len() > 0 && path[0] == '/'
}

/// The pipe path of a mapping: the root directory joined with the
/// mapping's file name.
pub open spec fn joined_path(root: Seq<char>, fifo: Seq<char>) -> Seq<char> {
    root + seq!['/'] + fifo
}

/// No two mappings name the same pipe path, so no two workers ever contend
/// for the same pipe.
pub open spec fn paths_distinct(cfg: ConfigModel) -> bool {
    forall|i: int, j: int|
        0 <= i < j < cfg.entries@.len() ==> joined_path(
            cfg.root_directory@,
            cfg.entries@[i].fifo@,
        ) != joined_path(cfg.root_directory@, cfg.entries@[j].fifo@)
}

/// Whether the configured root directory is an absolute path.
pub fn root_is_absolute(cfg: &ConfigModel) -> (r: bool)
    ensures
        r == is_absolute_path(cfg.root_directory@),
{
    let root = cfg.root_directory.as_str();
    if root.is_empty() {
        false
    } else {
        let first = root.get_char(0);
        first == '/'
    }
}

/// Joins the root directory with a pipe's file name.
pub fn join_path(root: &str, fifo: &str) -> (r: String)
    ensures
        r@ == joined_path(root@, fifo@),
{
    proof {
        reveal_strlit("/");
    }
    let mut p = root.to_owned();
    p.append("/");
    p.append(fifo);
    proof {
        assert(p@ =~= joined_path(root@, fifo@));
    }
    p
}

/// The pipe path of every mapping, in configuration order.
pub fn pipe_paths(cfg: &ConfigModel) -> (r: Vec<String>)
    ensures
        r@.len() == cfg.entries@.len(),
        forall|i: int|
            0 <= i < r@.len() ==> r@[i]@ == joined_path(
                cfg.root_directory@,
                cfg.entries@[i].fifo@,
            ),
{
    let mut paths: Vec<String> = Vec::new();
    let mut i: usize = 0;
    while i < cfg.entries.len()
        invariant
            0 <= i <= cfg.entries@.len(),
            paths@.len() == i,
            forall|k: int|
                0 <= k < i ==> paths@[k]@ == joined_path(
                    cfg.root_directory@,
                    cfg.entries@[k].fifo@,
                ),
        decreases cfg.entries@.len() - i,
    {
        let p = join_path(cfg.root_directory.as_str(), cfg.entries[i].fifo.as_str());
        paths.push(p);
        i = i + 1;
    }
    paths
}

/// Whether two mappings share one pipe path.
pub fn has_duplicate_path(cfg: &ConfigModel) -> (r: bool)
    ensures
        r == !paths_distinct(*cfg),
{
    let paths = pipe_paths(cfg);
    let mut i: usize = 0;
    while i < paths.len()
        invariant
            0 <= i <= paths@.len(),
            paths@.len() == cfg.entries@.len(),
            forall|k: int|
                0 <= k < paths@.len() ==> paths@[k]@ == joined_path(
                    cfg.root_directory@,
                    cfg.entries@[k].fifo@,
                ),
            forall|a: int, b: int|
                0 <= a < b < paths@.len() && a < i ==> paths@[a]@ != paths@[b]@,
        decreases paths@.len() - i,
    {
        let mut j: usize = i + 1;
        while j < paths.len()
            invariant
                0 <= i < j <= paths@.len(),
                paths@.len() == cfg.entries@.len(),
                forall|k: int|
                    0 <= k < paths@.len() ==> paths@[k]@ == joined_path(
                        cfg.root_directory@,
                        cfg.entries@[k].fifo@,
                    ),
                forall|b: int| i < b < j ==> paths@[i as int]@ != paths@[b]@,
            decreases paths@.len() - j,
        {
            if paths[i] == paths[j] {
                return true;
            }
            j = j + 1;
        }
        i = i + 1;
    }
    proof {
        assert forall|a: int, b: int| 0 <= a < b < cfg.entries@.len() implies joined_path(
            cfg.root_directory@,
            cfg.entries@[a].fifo@,
        ) != joined_path(cfg.root_directory@, cfg.entries@[b].fifo@) by {
            assert(paths@[a]@ != paths@[b]@);
        }
    }
    false
}

} // verus!
