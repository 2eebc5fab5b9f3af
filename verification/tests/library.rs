use hidewatch::breaker::ErrorBreaker;
use hidewatch::breaker::ERROR_LIMIT;
use hidewatch::breaker::ERROR_TIME_LIMIT;
use hidewatch::config::setup;
use hidewatch::config::validate_modes;
use hidewatch::config::ConfigError;
use hidewatch::config::DirStatus;
use hidewatch::config::ProbedDirectory;
use hidewatch::events::classify_event;
use hidewatch::events::EventDecision;
use hidewatch::events::RawEvent;
use hidewatch::events::RawEventKind;
use hidewatch::hiding::hide_attributes_plan;
use hidewatch::hiding::hide_plan;
use hidewatch::matcher::handle_path;
use hidewatch::matcher::should_hide_file;
use hidewatch::matcher::EntryKind;
use hidewatch::matcher::HideAction;
use hidewatch::matcher::MatchError;

fn strings(items: &[&str]) -> Vec<String> {
    items.iter().map(|s| s.to_string()).collect()
}

#[test]
fn empty_filters_hide_every_kind() {
    let names: Vec<String> = Vec::new();
    let extensions: Vec<String> = Vec::new();
    for kind in [EntryKind::File, EntryKind::Directory, EntryKind::Other] {
        let r = should_hide_file("anything", None, kind, &names, &extensions, true, true, true);
        assert_eq!(r, Ok(true));
    }
}

#[test]
fn name_match_case_sensitive() {
    let names = strings(&["secret.txt"]);
    let extensions: Vec<String> = Vec::new();
    let r = should_hide_file(
        "secret.txt",
        Some("txt"),
        EntryKind::File,
        &names,
        &extensions,
        true,
        true,
        true,
    );
    assert_eq!(r, Ok(true));
}

#[test]
fn name_match_case_insensitive_through_setup() {
    let (_, names, extensions) =
        setup(Vec::new(), strings(&["SECRET.TXT"]), Vec::new(), false).unwrap();
    assert_eq!(names, strings(&["secret.txt"]));
    let r = should_hide_file(
        "secret.txt",
        Some("txt"),
        EntryKind::File,
        &names,
        &extensions,
        false,
        true,
        true,
    );
    assert_eq!(r, Ok(true));
}

#[test]
fn observed_name_is_folded_when_case_insensitive() {
    let names = strings(&["secret.txt"]);
    let extensions: Vec<String> = Vec::new();
    let r = should_hide_file(
        "SECRET.TXT",
        Some("TXT"),
        EntryKind::File,
        &names,
        &extensions,
        false,
        true,
        true,
    );
    assert_eq!(r, Ok(true));
}

#[test]
fn directories_never_match_extensions() {
    let names: Vec<String> = Vec::new();
    let extensions = strings(&["cache"]);
    let r = should_hide_file(
        "cache",
        None,
        EntryKind::Directory,
        &names,
        &extensions,
        true,
        true,
        true,
    );
    assert_eq!(r, Ok(false));
}

#[test]
fn extension_match_for_files() {
    let names = strings(&["other.bin"]);
    let extensions = strings(&["log"]);
    let r = should_hide_file(
        "trace.log",
        Some("log"),
        EntryKind::File,
        &names,
        &extensions,
        true,
        true,
        true,
    );
    assert_eq!(r, Ok(true));
}

#[test]
fn missing_extension_is_an_error() {
    let names = strings(&["other.bin"]);
    let extensions = strings(&["log"]);
    let r = should_hide_file(
        "README",
        None,
        EntryKind::File,
        &names,
        &extensions,
        true,
        true,
        true,
    );
    assert_eq!(r, Err(MatchError::MissingExtension));
}

#[test]
fn disabled_kind_does_not_match() {
    let names = strings(&["secret.txt"]);
    let extensions: Vec<String> = Vec::new();
    let file = should_hide_file(
        "secret.txt",
        Some("txt"),
        EntryKind::File,
        &names,
        &extensions,
        true,
        false,
        true,
    );
    assert_eq!(file, Ok(false));
    let dir = should_hide_file(
        "secret.txt",
        None,
        EntryKind::Directory,
        &names,
        &extensions,
        true,
        true,
        false,
    );
    assert_eq!(dir, Ok(false));
}

#[test]
fn handle_path_picks_the_action() {
    let names = strings(&["secret.txt"]);
    let extensions: Vec<String> = Vec::new();
    let hide = handle_path(
        "secret.txt",
        Some("txt"),
        EntryKind::File,
        &names,
        &extensions,
        true,
        true,
        true,
        false,
    );
    assert_eq!(hide, Ok(HideAction::Hide));
    let dry = handle_path(
        "secret.txt",
        Some("txt"),
        EntryKind::File,
        &names,
        &extensions,
        true,
        true,
        true,
        true,
    );
    assert_eq!(dry, Ok(HideAction::DryRun));
    let skip = handle_path(
        "public.txt",
        Some("txt"),
        EntryKind::File,
        &names,
        &extensions,
        true,
        true,
        true,
        false,
    );
    assert_eq!(skip, Ok(HideAction::Skip));
}

#[test]
fn hide_plan_prefixes_a_dot() {
    assert_eq!(hide_plan("a.txt"), Some(".a.txt".to_string()));
}

#[test]
fn hide_plan_is_idempotent() {
    let first = hide_plan("a.txt").unwrap();
    assert_eq!(hide_plan(&first), None);
    assert_eq!(hide_plan(".already"), None);
}

#[test]
fn hide_attributes_sets_only_the_hidden_bit() {
    assert_eq!(hide_attributes_plan(0), Some(2));
    assert_eq!(hide_attributes_plan(0x21), Some(0x23));
    assert_eq!(hide_attributes_plan(2), None);
    assert_eq!(hide_attributes_plan(0x23), None);
}

#[test]
fn breaker_trips_on_dense_errors() {
    let mut breaker = ErrorBreaker::new(ERROR_LIMIT, ERROR_TIME_LIMIT, 0);
    let mut tripped = false;
    for _ in 0..20 {
        breaker.record_error();
        tripped = breaker.evaluate(2);
        if tripped {
            break;
        }
    }
    assert!(tripped);
}

#[test]
fn breaker_resets_after_a_gap() {
    let mut breaker = ErrorBreaker::new(ERROR_LIMIT, ERROR_TIME_LIMIT, 0);
    for _ in 0..10 {
        breaker.record_error();
        assert!(!breaker.evaluate(1));
    }
    for _ in 0..10 {
        breaker.record_error();
        assert!(!breaker.evaluate(7));
    }
    assert_eq!(breaker.window_start, 7);
    assert_eq!(breaker.error_count, 9);
}

#[test]
fn classifier_takes_rename_destination() {
    let two = RawEvent {
        kind: RawEventKind::RenameTo,
        paths: strings(&["old", "new"]),
    };
    assert_eq!(classify_event(&two), EventDecision::Relevant("new".to_string()));
    let one = RawEvent {
        kind: RawEventKind::RenameTo,
        paths: strings(&["new"]),
    };
    assert_eq!(classify_event(&one), EventDecision::Relevant("new".to_string()));
}

#[test]
fn classifier_skips_the_from_half() {
    let from = RawEvent {
        kind: RawEventKind::RenameFrom,
        paths: strings(&["old"]),
    };
    assert_eq!(classify_event(&from), EventDecision::Skip);
}

#[test]
fn classifier_takes_created_path() {
    let create = RawEvent {
        kind: RawEventKind::Create,
        paths: strings(&["fresh"]),
    };
    assert_eq!(classify_event(&create), EventDecision::Relevant("fresh".to_string()));
}

#[test]
fn classifier_skips_other_changes() {
    let other = RawEvent {
        kind: RawEventKind::OtherChange,
        paths: strings(&["touched"]),
    };
    assert_eq!(classify_event(&other), EventDecision::Skip);
}

#[test]
fn classifier_reports_missing_paths() {
    let empty_create = RawEvent {
        kind: RawEventKind::Create,
        paths: Vec::new(),
    };
    assert_eq!(classify_event(&empty_create), EventDecision::MissingPath);
    let empty_rename = RawEvent {
        kind: RawEventKind::RenameTo,
        paths: Vec::new(),
    };
    assert_eq!(classify_event(&empty_rename), EventDecision::MissingPath);
}

#[test]
fn setup_rejects_a_missing_directory() {
    let dirs = vec![ProbedDirectory {
        path: "/nonexistent".to_string(),
        status: DirStatus::Missing,
    }];
    let r = setup(dirs, Vec::new(), Vec::new(), true);
    assert_eq!(r, Err(ConfigError::PathDoesNotExist("/nonexistent".to_string())));
}

#[test]
fn setup_rejects_a_non_directory() {
    let dirs = vec![
        ProbedDirectory {
            path: "ok".to_string(),
            status: DirStatus::IsDirectory,
        },
        ProbedDirectory {
            path: "plain.txt".to_string(),
            status: DirStatus::NotDirectory,
        },
    ];
    let r = setup(dirs, Vec::new(), Vec::new(), true);
    assert_eq!(r, Err(ConfigError::PathNotDirectory("plain.txt".to_string())));
}

#[test]
fn setup_rejects_an_unreadable_path() {
    let dirs = vec![ProbedDirectory {
        path: "locked".to_string(),
        status: DirStatus::Unreadable,
    }];
    let r = setup(dirs, Vec::new(), Vec::new(), true);
    assert_eq!(r, Err(ConfigError::PathCheckFailed("locked".to_string())));
}

#[test]
fn setup_accepts_directories_and_keeps_case_sensitive_filters() {
    let dirs = vec![ProbedDirectory {
        path: "watched".to_string(),
        status: DirStatus::IsDirectory,
    }];
    let (roots, names, extensions) = setup(
        dirs,
        strings(&["Secret.TXT"]),
        strings(&["LOG"]),
        true,
    )
    .unwrap();
    assert_eq!(roots, strings(&["watched"]));
    assert_eq!(names, strings(&["Secret.TXT"]));
    assert_eq!(extensions, strings(&["LOG"]));
}

#[test]
fn setup_folds_filters_when_case_insensitive() {
    let (_, names, extensions) = setup(
        Vec::new(),
        strings(&["Secret.TXT"]),
        strings(&["LOG"]),
        false,
    )
    .unwrap();
    assert_eq!(names, strings(&["secret.txt"]));
    assert_eq!(extensions, strings(&["log"]));
}

#[test]
fn both_modes_disabled_is_a_fatal_error() {
    assert_eq!(validate_modes(false, false), Err(ConfigError::NoModeEnabled));
    assert_eq!(validate_modes(true, false), Ok(()));
    assert_eq!(validate_modes(false, true), Ok(()));
    assert_eq!(validate_modes(true, true), Ok(()));
}
