use gmux::config::{AppConfig, EntryConfig};
use gmux::git::BranchState;
use gmux::session::{Action, App, FlowKind, FlowStep, Key, KeyInput, Mode, StatusKind};

fn plain(k: Key) -> KeyInput {
    KeyInput { key: k, ctrl: false, alt: false, sup: false, shift: false, more: false }
}

fn ctrl(k: Key) -> KeyInput {
    KeyInput { key: k, ctrl: true, alt: false, sup: false, shift: false, more: false }
}

fn alt(k: Key) -> KeyInput {
    KeyInput { key: k, ctrl: false, alt: true, sup: false, shift: false, more: false }
}

fn empty_app() -> App {
    App::new(
        AppConfig { entries: Vec::new(), default_editor: None },
        Vec::new(),
        None,
        None,
    )
}

fn app_with(paths: &[&str]) -> App {
    let entries: Vec<EntryConfig> = paths
        .iter()
        .map(|p| EntryConfig { path: p.to_string(), editor: None })
        .collect();
    let keys: Vec<String> = paths.iter().map(|p| p.to_string()).collect();
    App::new(AppConfig { entries, default_editor: None }, keys, None, None)
}

fn type_text(app: &mut App, text: &str) {
    for c in text.chars() {
        app.handle_key(plain(Key::Char(c)), 0);
    }
}

fn buffer_text(app: &App) -> String {
    app.buffer().text_chars().into_iter().collect()
}

fn status_text(app: &App) -> String {
    app.status().as_ref().map(|s| s.text.clone()).unwrap_or_default()
}

#[test]
fn add_flow_registers_a_directory_with_no_editor() {
    // Empty registry; add /tmp/project with a blank editor string.
    let mut app = empty_app();
    app.handle_key(plain(Key::Char('a')), 0);
    assert_eq!(app.mode(), Mode::Input { flow: FlowKind::Add, step: FlowStep::Directory });
    type_text(&mut app, "/tmp/project");
    let action = app.handle_key(plain(Key::Enter), 0);
    match action {
        Action::ProbeDirectory { path } => {
            assert_eq!(path, "/tmp/project");
            app.directory_probed(path, "/tmp/project".to_string(), true, true, 0);
        },
        other => panic!("unexpected action: {other:?}"),
    }
    assert_eq!(app.mode(), Mode::Input { flow: FlowKind::Add, step: FlowStep::Editor });
    assert_eq!(buffer_text(&app), "");
    let action = app.handle_key(plain(Key::Enter), 0);
    assert!(matches!(action, Action::PersistFlow));
    assert_eq!(app.config().entries.len(), 1);
    assert_eq!(app.config().entries[0].path, "/tmp/project");
    assert_eq!(app.config().entries[0].editor, None);
    app.flow_persisted(true, String::new(), 0);
    assert_eq!(app.mode(), Mode::Normal);
    assert_eq!(app.entries().len(), 1);
    assert_eq!(app.selected(), 0);
    let st = app.status().as_ref().expect("a status is shown");
    assert_eq!(st.kind, StatusKind::Info);
    assert_eq!(st.text, "Registered /tmp/project");
}

#[test]
fn confirmed_delete_removes_entry_and_clamps_selection() {
    // Two entries; delete the second; selection falls back to the first.
    let mut app = app_with(&["/a", "/b"]);
    app.handle_key(plain(Key::Down), 0);
    assert_eq!(app.selected(), 1);
    app.handle_key(plain(Key::Char('d')), 0);
    assert_eq!(app.mode(), Mode::ConfirmDelete { index: 1 });
    let action = app.handle_key(plain(Key::Enter), 0);
    assert!(matches!(action, Action::PersistRemove));
    assert_eq!(app.config().entries.len(), 1);
    app.remove_persisted(true, String::new(), 0);
    assert_eq!(app.entries().len(), 1);
    assert_eq!(app.selected(), 0);
    assert_eq!(status_text(&app), "Removed /b");
    assert_eq!(app.mode(), Mode::Normal);
}

#[test]
fn add_with_matching_key_replaces_instead_of_duplicating() {
    let mut app = app_with(&["/proj"]);
    app.handle_key(plain(Key::Char('a')), 0);
    type_text(&mut app, "/proj");
    let action = app.handle_key(plain(Key::Enter), 0);
    match action {
        Action::ProbeDirectory { path } => {
            app.directory_probed(path, "/proj".to_string(), true, true, 0);
        },
        other => panic!("unexpected action: {other:?}"),
    }
    type_text(&mut app, "code -w");
    let action = app.handle_key(plain(Key::Enter), 0);
    assert!(matches!(action, Action::PersistFlow));
    assert_eq!(app.config().entries.len(), 1);
    assert_eq!(app.config().entries[0].editor.as_deref(), Some("code -w"));
    assert_eq!(app.config().default_editor.as_deref(), Some("code -w"));
}

#[test]
fn blank_directory_submission_is_rejected_in_place() {
    let mut app = empty_app();
    app.handle_key(plain(Key::Char('a')), 0);
    type_text(&mut app, "   ");
    let action = app.handle_key(plain(Key::Enter), 0);
    assert!(matches!(action, Action::Nothing));
    assert_eq!(app.mode(), Mode::Input { flow: FlowKind::Add, step: FlowStep::Directory });
    let st = app.status().as_ref().expect("an error is shown");
    assert_eq!(st.kind, StatusKind::Error);
    assert_eq!(st.text, "directory path cannot be empty");
}

#[test]
fn missing_directory_is_rejected_by_the_probe_outcome() {
    let mut app = empty_app();
    app.handle_key(plain(Key::Char('a')), 0);
    type_text(&mut app, "/gone");
    let action = app.handle_key(plain(Key::Enter), 0);
    match action {
        Action::ProbeDirectory { path } => {
            app.directory_probed(path, "/gone".to_string(), false, false, 0);
        },
        other => panic!("unexpected action: {other:?}"),
    }
    assert_eq!(app.mode(), Mode::Input { flow: FlowKind::Add, step: FlowStep::Directory });
    assert_eq!(status_text(&app), "/gone does not exist");
    let action = app.handle_key(plain(Key::Enter), 0);
    match action {
        Action::ProbeDirectory { path } => {
            app.directory_probed(path, "/gone".to_string(), true, false, 0);
        },
        other => panic!("unexpected action: {other:?}"),
    }
    assert_eq!(status_text(&app), "/gone is not a directory");
}

#[test]
fn edit_flow_prefills_path_and_editor() {
    let mut app = App::new(
        AppConfig {
            entries: vec![EntryConfig { path: "/p".to_string(), editor: Some("vi".to_string()) }],
            default_editor: Some("emacs".to_string()),
        },
        vec!["/p".to_string()],
        None,
        None,
    );
    app.handle_key(plain(Key::Char('e')), 0);
    assert_eq!(app.mode(), Mode::Input { flow: FlowKind::Edit, step: FlowStep::Directory });
    assert_eq!(buffer_text(&app), "/p");
    assert_eq!(app.buffer().cursor_index(), 2);
    let action = app.handle_key(plain(Key::Enter), 0);
    match action {
        Action::ProbeDirectory { path } => {
            assert_eq!(path, "/p");
            app.directory_probed(path, "/p".to_string(), true, true, 0);
        },
        other => panic!("unexpected action: {other:?}"),
    }
    // The entry's own override wins over the stored default.
    assert_eq!(buffer_text(&app), "vi");
}

#[test]
fn escape_cancels_a_flow_and_keeps_entries() {
    let mut app = app_with(&["/a"]);
    app.handle_key(plain(Key::Char('a')), 0);
    type_text(&mut app, "half-typed");
    app.handle_key(plain(Key::Esc), 0);
    assert_eq!(app.mode(), Mode::Normal);
    assert_eq!(buffer_text(&app), "");
    assert_eq!(app.config().entries.len(), 1);
}

#[test]
fn selection_wraps_both_ways() {
    let mut app = app_with(&["/a", "/b", "/c"]);
    assert_eq!(app.selected(), 0);
    app.handle_key(plain(Key::Up), 0);
    assert_eq!(app.selected(), 2);
    app.handle_key(plain(Key::Down), 0);
    assert_eq!(app.selected(), 0);
    app.handle_key(ctrl(Key::Char('n')), 0);
    assert_eq!(app.selected(), 1);
    app.handle_key(ctrl(Key::Char('p')), 0);
    assert_eq!(app.selected(), 0);
    app.handle_key(plain(Key::Char('k')), 0);
    assert_eq!(app.selected(), 2);
    app.handle_key(plain(Key::Char('j')), 0);
    assert_eq!(app.selected(), 0);
}

#[test]
fn quit_keys_set_the_flag_everywhere() {
    let mut app = app_with(&["/a"]);
    app.handle_key(plain(Key::Char('q')), 0);
    assert!(app.should_quit());
    let mut app = app_with(&["/a"]);
    app.handle_key(plain(Key::Esc), 0);
    assert!(app.should_quit());
    // The interrupt combo quits even inside a flow.
    let mut app = app_with(&["/a"]);
    app.handle_key(plain(Key::Char('a')), 0);
    app.handle_key(ctrl(Key::Char('c')), 0);
    assert!(app.should_quit());
}

#[test]
fn input_mode_editing_combos_drive_the_buffer() {
    let mut app = empty_app();
    app.handle_key(plain(Key::Char('a')), 0);
    type_text(&mut app, "hello world");
    // ctrl-a to start, ctrl-k kills everything, ctrl-y yanks it back.
    app.handle_key(ctrl(Key::Char('a')), 0);
    assert_eq!(app.buffer().cursor_index(), 0);
    app.handle_key(ctrl(Key::Char('k')), 0);
    assert_eq!(buffer_text(&app), "");
    app.handle_key(ctrl(Key::Char('y')), 0);
    assert_eq!(buffer_text(&app), "hello world");
    // ctrl-w kills the word before the cursor.
    app.handle_key(ctrl(Key::Char('w')), 0);
    assert_eq!(buffer_text(&app), "hello ");
    // alt word motions.
    app.handle_key(alt(Key::Char('b')), 0);
    assert_eq!(app.buffer().cursor_index(), 0);
    app.handle_key(alt(Key::Char('f')), 0);
    assert_eq!(app.buffer().cursor_index(), 5);
    // ctrl-u kills to the start.
    app.handle_key(ctrl(Key::Char('u')), 0);
    assert_eq!(buffer_text(&app), " ");
    // A modifier other than shift suppresses plain insertion.
    app.handle_key(alt(Key::Char('z')), 0);
    assert_eq!(buffer_text(&app), " ");
}

#[test]
fn launch_builds_a_plan_through_shell_splitting() {
    let mut app = App::new(
        AppConfig {
            entries: vec![EntryConfig {
                path: "/repo".to_string(),
                editor: Some("vi -e".to_string()),
            }],
            default_editor: None,
        },
        vec!["/repo".to_string()],
        None,
        None,
    );
    let action = app.handle_key(plain(Key::Enter), 0);
    match action {
        Action::Spawn { index, plan } => {
            assert_eq!(index, 0);
            assert_eq!(plan.program, "vi");
            assert_eq!(plan.args, vec!["-e".to_string(), "/repo".to_string()]);
        },
        other => panic!("unexpected action: {other:?}"),
    }
    app.spawn_reported(0, true, String::new(), 0);
    assert_eq!(status_text(&app), "Opened /repo");
}

#[test]
fn launch_without_any_editor_reports_the_reason() {
    let mut app = app_with(&["/repo"]);
    let action = app.handle_key(plain(Key::Enter), 0);
    assert!(matches!(action, Action::Nothing));
    let st = app.status().as_ref().expect("an error is shown");
    assert_eq!(st.kind, StatusKind::Error);
    assert_eq!(
        st.text,
        "no editor set. provide one in the entry or set QUICKSWITCH_EDITOR/EDITOR"
    );
}

#[test]
fn hotkey_selects_and_launches_within_bounds() {
    let mut app = App::new(
        AppConfig {
            entries: vec![
                EntryConfig { path: "/a".to_string(), editor: Some("vi".to_string()) },
                EntryConfig { path: "/b".to_string(), editor: Some("vi".to_string()) },
            ],
            default_editor: None,
        },
        vec!["/a".to_string(), "/b".to_string()],
        None,
        None,
    );
    let action = app.handle_key(plain(Key::Char('2')), 0);
    assert_eq!(app.selected(), 1);
    match action {
        Action::Spawn { index, plan } => {
            assert_eq!(index, 1);
            assert_eq!(plan.args.last().map(String::as_str), Some("/b"));
        },
        other => panic!("unexpected action: {other:?}"),
    }
    // A hotkey past the list does nothing.
    let action = app.handle_key(plain(Key::Char('9')), 0);
    assert!(matches!(action, Action::Nothing));
    assert_eq!(app.selected(), 1);
}

#[test]
fn failed_save_keeps_the_flow_and_reports() {
    let mut app = empty_app();
    app.handle_key(plain(Key::Char('a')), 0);
    type_text(&mut app, "/x");
    match app.handle_key(plain(Key::Enter), 0) {
        Action::ProbeDirectory { path } => {
            app.directory_probed(path, "/x".to_string(), true, true, 0)
        },
        other => panic!("unexpected action: {other:?}"),
    }
    let action = app.handle_key(plain(Key::Enter), 0);
    assert!(matches!(action, Action::PersistFlow));
    app.flow_persisted(false, "disk full".to_string(), 0);
    assert_eq!(app.mode(), Mode::Input { flow: FlowKind::Add, step: FlowStep::Editor });
    assert_eq!(status_text(&app), "disk full");
    // The in-memory projection was not resynchronised.
    assert_eq!(app.entries().len(), 0);
}

#[test]
fn status_expires_only_in_normal_mode_after_the_timeout() {
    let mut app = app_with(&["/a"]);
    app.set_status(StatusKind::Info, "hi".to_string(), 1000);
    app.maybe_clear_status(3999);
    assert!(app.status().is_some());
    app.maybe_clear_status(4000);
    assert!(app.status().is_none());
    // Inside a flow the message is not time-expired.
    app.handle_key(plain(Key::Char('a')), 5000);
    assert!(app.status().is_some());
    app.maybe_clear_status(50000);
    assert!(app.status().is_some());
}

#[test]
fn editor_step_without_a_captured_directory_is_refused() {
    let mut app = empty_app();
    let action = app.complete_editor_step(FlowKind::Add, 0);
    assert!(matches!(action, Action::Nothing));
    let st = app.status().as_ref().expect("an error is shown");
    assert_eq!(st.kind, StatusKind::Error);
    assert_eq!(st.text, "no directory captured");
}

#[test]
fn edit_commit_without_a_position_is_refused() {
    let mut app = app_with(&["/p"]);
    app.handle_key(plain(Key::Char('a')), 0);
    type_text(&mut app, "/q");
    match app.handle_key(plain(Key::Enter), 0) {
        Action::ProbeDirectory { path } => {
            app.directory_probed(path, "/q".to_string(), true, true, 0)
        },
        other => panic!("unexpected action: {other:?}"),
    }
    // An add flow captures no editing position, so an edit commit is refused.
    let action = app.complete_editor_step(FlowKind::Edit, 0);
    assert!(matches!(action, Action::Nothing));
    assert_eq!(status_text(&app), "no entry selected to edit");
}

#[test]
fn confirming_a_stale_delete_index_is_refused() {
    let mut app = app_with(&["/p"]);
    let action = app.handle_confirm_delete(7, plain(Key::Enter), 0);
    assert!(matches!(action, Action::Nothing));
    assert_eq!(app.mode(), Mode::Normal);
    let st = app.status().as_ref().expect("an error is shown");
    assert_eq!(st.kind, StatusKind::Error);
    assert_eq!(st.text, "invalid entry index");
    assert_eq!(app.config().entries.len(), 1);
}

#[test]
fn refresh_outcomes_land_on_the_right_entries() {
    let mut app = app_with(&["/a", "/b"]);
    assert!(matches!(app.entries()[0].branch, BranchState::Unknown));
    app.refresh_branches(vec![BranchState::Missing, BranchState::NotGit]);
    assert!(matches!(app.entries()[0].branch, BranchState::Missing));
    assert!(matches!(app.entries()[1].branch, BranchState::NotGit));
}
