use gmux::config::{load_config, normalize_editor_arg, upsert_entry, AppConfig, EntryConfig};
use gmux::launch::{build_launch_plan, LaunchError};
use gmux::paths::{display_path, expand_path, resolve_target};

fn chars(s: &str) -> Vec<char> {
    s.chars().collect()
}

#[test]
fn expand_path_resolves_a_leading_tilde() {
    let home = Some("/home/u".to_string());
    assert_eq!(expand_path(&chars("~/proj"), &home), "/home/u/proj");
    assert_eq!(expand_path(&chars("/abs"), &home), "/abs");
    assert_eq!(expand_path(&chars("~/proj"), &None), "~/proj");
    assert_eq!(expand_path(&chars("~"), &home), "~");
}

#[test]
fn display_path_prefers_the_home_relative_form() {
    let home = Some("/home/u".to_string());
    let p = "/home/u/proj".to_string();
    assert_eq!(display_path(&p, &p, &home), "~/proj");
    let h = "/home/u".to_string();
    assert_eq!(display_path(&h, &h, &home), "~");
    let outside = "/srv/data".to_string();
    assert_eq!(display_path(&outside, &outside, &home), "/srv/data");
    // A symlinked path is shown through its canonical key.
    let link = "/work".to_string();
    let key = "/home/u/work".to_string();
    assert_eq!(display_path(&link, &key, &home), "~/work");
    assert_eq!(display_path(&outside, &outside, &None), "/srv/data");
}

#[test]
fn resolve_target_prefers_an_index_in_range() {
    let keys = vec!["/a".to_string(), "/b".to_string(), "/c".to_string()];
    assert_eq!(resolve_target(&keys, "2", &"/zzz".to_string()), Some(1));
    assert_eq!(resolve_target(&keys, "+3", &"/zzz".to_string()), Some(2));
    // Out-of-range or non-numeric targets fall back to key matching.
    assert_eq!(resolve_target(&keys, "0", &"/b".to_string()), Some(1));
    assert_eq!(resolve_target(&keys, "4", &"/c".to_string()), Some(2));
    assert_eq!(resolve_target(&keys, "nope", &"/missing".to_string()), None);
    assert_eq!(resolve_target(&keys, "99999999999999999999999", &"/a".to_string()), Some(0));
}

#[test]
fn normalize_editor_arg_trims_and_drops_blanks() {
    assert_eq!(normalize_editor_arg(None), None);
    assert_eq!(normalize_editor_arg(Some("  vi -e  ".to_string())), Some("vi -e".to_string()));
    assert_eq!(normalize_editor_arg(Some("   ".to_string())), None);
    assert_eq!(normalize_editor_arg(Some("".to_string())), None);
}

#[test]
fn load_config_prefers_primary_then_legacy_then_default() {
    let primary = AppConfig {
        entries: vec![EntryConfig { path: "/p".to_string(), editor: None }],
        default_editor: Some("vi".to_string()),
    };
    let legacy = AppConfig {
        entries: vec![EntryConfig { path: "/l".to_string(), editor: None }],
        default_editor: None,
    };
    let r = load_config(Some(primary), Some(legacy));
    assert_eq!(r.entries[0].path, "/p");
    let legacy = AppConfig {
        entries: vec![EntryConfig { path: "/l".to_string(), editor: None }],
        default_editor: None,
    };
    let r = load_config(None, Some(legacy));
    assert_eq!(r.entries[0].path, "/l");
    let r = load_config(None, None);
    assert!(r.entries.is_empty());
    assert_eq!(r.default_editor, None);
}

#[test]
fn upsert_replaces_by_key_and_appends_otherwise() {
    let mut config = AppConfig {
        entries: vec![EntryConfig { path: "/a".to_string(), editor: None }],
        default_editor: None,
    };
    let mut keys = vec!["/a".to_string()];
    let replaced = upsert_entry(
        &mut config,
        &mut keys,
        "/a".to_string(),
        "/a".to_string(),
        Some("vi".to_string()),
    );
    assert!(replaced);
    assert_eq!(config.entries.len(), 1);
    assert_eq!(config.entries[0].editor.as_deref(), Some("vi"));
    let replaced = upsert_entry(
        &mut config,
        &mut keys,
        "/b".to_string(),
        "/b".to_string(),
        None,
    );
    assert!(!replaced);
    assert_eq!(config.entries.len(), 2);
    assert_eq!(config.entries[1].path, "/b");
    assert_eq!(keys, vec!["/a".to_string(), "/b".to_string()]);
}

#[test]
fn launch_plans_follow_shell_word_splitting() {
    let path = "/repo".to_string();
    let plan = build_launch_plan(
        &Some("code --wait 'my dir'".to_string()),
        &None,
        &path,
    )
    .expect("a plan");
    assert_eq!(plan.program, "code");
    assert_eq!(plan.args, vec!["--wait".to_string(), "my dir".to_string(), "/repo".to_string()]);
    // The environment fallback is used when the entry has no override.
    let plan = build_launch_plan(&None, &Some("nano".to_string()), &path).expect("a plan");
    assert_eq!(plan.program, "nano");
    assert_eq!(plan.args, vec!["/repo".to_string()]);
}

#[test]
fn launch_errors_name_their_reason() {
    let path = "/repo".to_string();
    match build_launch_plan(&None, &None, &path) {
        Err(e @ LaunchError::NoEditor) => {
            assert_eq!(
                e.message(),
                "no editor set. provide one in the entry or set QUICKSWITCH_EDITOR/EDITOR"
            );
        },
        other => panic!("unexpected outcome: {other:?}"),
    }
    match build_launch_plan(&Some("vi 'unclosed".to_string()), &None, &path) {
        Err(e @ LaunchError::Unparsable(_)) => {
            assert_eq!(e.message(), "failed to parse editor command: vi 'unclosed");
        },
        other => panic!("unexpected outcome: {other:?}"),
    }
    match build_launch_plan(&Some("".to_string()), &None, &path) {
        Err(e @ LaunchError::EmptyCommand) => {
            assert_eq!(e.message(), "editor command is empty");
        },
        other => panic!("unexpected outcome: {other:?}"),
    }
}
