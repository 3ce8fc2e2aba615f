use solidoak::prefs::{apply_prefs, get_prefs, Prefs};
use solidoak::settings::{get_settings, merge_settings, KeySettings, Settings};
use solidoak::shell::ShellState;
use solidoak::{MAX_FONT_SIZE, MIN_FONT_SIZE};

#[test]
fn prefs_round_trip() {
    let mut state = ShellState::new();
    state.add_project(&"/a".to_string());
    state.add_project(&"/b".to_string());
    state.add_expansion(&"/a/src".to_string());
    state.selection = Some("/a/src/lib.rs".to_string());
    state.easy_mode = false;
    state.font_size = 20;

    let p = get_prefs(&state);
    let mut fresh = ShellState::new();
    apply_prefs(&mut fresh, &p);

    let mut projects = fresh.projects.clone();
    projects.sort();
    assert_eq!(projects, vec!["/a".to_string(), "/b".to_string()]);
    assert_eq!(fresh.expansions, vec!["/a/src".to_string()]);
    assert_eq!(fresh.selection, Some("/a/src/lib.rs".to_string()));
    assert!(!fresh.easy_mode);
    assert_eq!(fresh.font_size, 20);
}

#[test]
fn apply_prefs_dedups_and_guards_font() {
    let mut state = ShellState::new();
    let p = Prefs {
        projects: vec!["/a".to_string(), "/a".to_string(), "/b".to_string()],
        expansions: vec![],
        selection: None,
        easy_mode: true,
        font_size: MAX_FONT_SIZE + 1,
    };
    apply_prefs(&mut state, &p);
    assert_eq!(state.projects.len(), 2);
    // The out-of-range font size is ignored; the state keeps its own.
    assert_eq!(state.font_size, solidoak::DEFAULT_FONT_SIZE);

    let q = Prefs {
        projects: vec![],
        expansions: vec![],
        selection: None,
        easy_mode: true,
        font_size: MIN_FONT_SIZE - 1,
    };
    apply_prefs(&mut state, &q);
    assert_eq!(state.font_size, solidoak::DEFAULT_FONT_SIZE);
}

#[test]
fn default_settings_are_complete() {
    let s = get_settings();
    assert_eq!(s.keys.new_project, Some("p".to_string()));
    assert_eq!(s.keys.import, Some("i".to_string()));
    assert_eq!(s.keys.rename, Some("n".to_string()));
    assert_eq!(s.keys.remove, Some("g".to_string()));
    assert_eq!(s.keys.run, Some("a".to_string()));
    assert_eq!(s.keys.build, Some("k".to_string()));
    assert_eq!(s.keys.test, Some("t".to_string()));
    assert_eq!(s.keys.clean, Some("l".to_string()));
    assert_eq!(s.keys.stop, Some("j".to_string()));
    assert_eq!(s.keys.save, Some("s".to_string()));
    assert_eq!(s.keys.undo, Some("z".to_string()));
    assert_eq!(s.keys.redo, Some("r".to_string()));
    assert_eq!(s.keys.font_dec, Some("minus".to_string()));
    assert_eq!(s.keys.font_inc, Some("equal".to_string()));
    assert_eq!(s.keys.close, Some("w".to_string()));
}

#[test]
fn merge_fills_gaps_and_keeps_choices() {
    let defaults = get_settings();
    let loaded = Settings {
        keys: KeySettings {
            new_project: Some("q".to_string()),
            import: None,
            rename: None,
            remove: None,
            run: None,
            build: Some("b".to_string()),
            test: None,
            clean: None,
            stop: None,
            save: None,
            undo: None,
            redo: None,
            font_dec: None,
            font_inc: None,
            close: None,
        },
    };
    let merged = merge_settings(loaded, &defaults);
    // Choices the file made are kept.
    assert_eq!(merged.keys.new_project, Some("q".to_string()));
    assert_eq!(merged.keys.build, Some("b".to_string()));
    // Gaps fall back to the defaults.
    assert_eq!(merged.keys.import, Some("i".to_string()));
    assert_eq!(merged.keys.stop, Some("j".to_string()));
    assert_eq!(merged.keys.close, Some("w".to_string()));
}

#[test]
fn font_steps_clamp_at_the_bounds() {
    let mut state = ShellState::new();
    state.registry.run(&"/p".to_string(), vec!["cargo".to_string()], 5);

    state.font_size = MAX_FONT_SIZE;
    assert!(!state.font_inc());
    assert_eq!(state.font_size, MAX_FONT_SIZE);

    assert!(state.font_dec());
    assert_eq!(state.font_size, MAX_FONT_SIZE - 1);
    // The step was broadcast to the live builder terminal.
    assert_eq!(
        state.registry.builder_font_size(&"/p".to_string()),
        Some(MAX_FONT_SIZE - 1)
    );

    state.font_size = MIN_FONT_SIZE;
    assert!(!state.font_dec());
    assert_eq!(state.font_size, MIN_FONT_SIZE);
    assert!(state.font_inc());
    assert_eq!(state.font_size, MIN_FONT_SIZE + 1);
}

#[test]
fn easy_mode_commands() {
    let mut state = ShellState::new();
    let on = state.set_easy_mode(true);
    assert_eq!(on, "set im");
    assert!(state.easy_mode);
    let off = state.set_easy_mode(false);
    assert_eq!(off, "set noim");
    assert!(!state.easy_mode);
}
