use dispipe::config::{has_duplicate_path, join_path, pipe_paths, root_is_absolute, ConfigModel,
    MappingEntry};
use dispipe::startup::{plan_startup, validate_config, ConfigError, FsEntryKind};

fn entry(label: &str, fifo: &str, channel: u64) -> MappingEntry {
    MappingEntry { label: label.to_string(), fifo: fifo.to_string(), channel }
}

fn config(root: &str, entries: Vec<MappingEntry>) -> ConfigModel {
    ConfigModel {
        sink_credential: "sink-credential".to_string(),
        root_directory: root.to_string(),
        entries,
    }
}

#[test]
fn join_appends_separator_and_name() {
    assert_eq!(join_path("/var/dispipe", "alerts.fifo"), "/var/dispipe/alerts.fifo");
}

#[test]
fn pipe_paths_follow_configuration_order() {
    let cfg = config("/srv", vec![entry("a", "one", 1), entry("b", "two", 2)]);
    assert_eq!(pipe_paths(&cfg), vec!["/srv/one".to_string(), "/srv/two".to_string()]);
}

#[test]
fn absolute_root_is_recognised() {
    assert!(root_is_absolute(&config("/srv", vec![])));
    assert!(!root_is_absolute(&config("srv", vec![])));
    assert!(!root_is_absolute(&config("", vec![])));
}

#[test]
fn duplicate_paths_are_found() {
    let cfg = config("/srv", vec![entry("a", "same", 1), entry("b", "same", 2)]);
    assert!(has_duplicate_path(&cfg));
    let cfg = config("/srv", vec![entry("a", "one", 1), entry("b", "two", 2)]);
    assert!(!has_duplicate_path(&cfg));
}

#[test]
fn non_absolute_root_aborts_startup() {
    let cfg = config("relative/root", vec![entry("a", "one", 1)]);
    let kinds = vec![FsEntryKind::Missing];
    assert_eq!(validate_config(&cfg, true, &kinds), Err(ConfigError::RootNotAbsolute));
    assert!(plan_startup(&cfg, true, &kinds).is_err());
}

#[test]
fn root_that_is_no_directory_aborts_startup() {
    let cfg = config("/srv", vec![entry("a", "one", 1)]);
    let kinds = vec![FsEntryKind::Missing];
    assert_eq!(validate_config(&cfg, false, &kinds), Err(ConfigError::RootNotDirectory));
    assert!(plan_startup(&cfg, false, &kinds).is_err());
}

#[test]
fn duplicate_pipe_path_aborts_startup() {
    let cfg = config("/srv", vec![entry("a", "same", 1), entry("b", "same", 2)]);
    let kinds = vec![FsEntryKind::Missing, FsEntryKind::Missing];
    assert_eq!(validate_config(&cfg, true, &kinds), Err(ConfigError::DuplicatePipePath));
    assert!(plan_startup(&cfg, true, &kinds).is_err());
}

#[test]
fn occupied_path_aborts_startup() {
    // A regular file sits where the second pipe should be: validation
    // aborts and names that mapping instead of overwriting the file.
    let cfg = config("/srv", vec![entry("a", "one", 1), entry("b", "two", 2)]);
    let kinds = vec![FsEntryKind::Fifo, FsEntryKind::OtherEntry];
    assert_eq!(validate_config(&cfg, true, &kinds), Err(ConfigError::NotAPipe { index: 1 }));
    assert!(plan_startup(&cfg, true, &kinds).is_err());
}

#[test]
fn valid_configuration_passes() {
    let cfg = config("/srv", vec![entry("a", "one", 1), entry("b", "two", 2)]);
    let kinds = vec![FsEntryKind::Missing, FsEntryKind::Fifo];
    assert_eq!(validate_config(&cfg, true, &kinds), Ok(()));
}

#[test]
fn plan_lists_workers_and_creations() {
    let cfg = config("/srv", vec![entry("a", "one", 7), entry("b", "two", 9)]);
    let kinds = vec![FsEntryKind::Missing, FsEntryKind::Fifo];
    let plan = plan_startup(&cfg, true, &kinds).expect("valid configuration");
    assert_eq!(plan.workers.len(), 2);
    assert_eq!(plan.workers[0].label, "a");
    assert_eq!(plan.workers[0].pipe_path, "/srv/one");
    assert_eq!(plan.workers[0].channel_id, 7);
    assert_eq!(plan.workers[1].label, "b");
    assert_eq!(plan.workers[1].pipe_path, "/srv/two");
    assert_eq!(plan.workers[1].channel_id, 9);
    assert_eq!(plan.create, vec![true, false]);
}
