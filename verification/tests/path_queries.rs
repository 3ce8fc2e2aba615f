use solidoak::paths::{is_parent_path, is_project_path, parent_path};
use solidoak::shell::ShellState;
use solidoak::strip_no_window_flag;

#[test]
fn parent_of_a_path() {
    assert_eq!(parent_path(&"/a/b/c".to_string()), Some("/a/b".to_string()));
    assert_eq!(parent_path(&"/a".to_string()), Some("".to_string()));
    assert_eq!(parent_path(&"plain".to_string()), None);
    assert_eq!(parent_path(&"".to_string()), None);
}

#[test]
fn parent_path_relation() {
    let root = "/home/u/proj".to_string();
    let below = "/home/u/proj/src/main.rs".to_string();
    let sibling = "/home/u/projects".to_string();
    let same_dir = "/home/u/other".to_string();

    assert!(is_parent_path(&root, &below));
    assert!(!is_parent_path(&root, &same_dir));
    assert!(!is_parent_path(&below, &root));
    // `projects` begins with `proj` as a string, but the two live in the
    // same directory, so one is no parent of the other.
    assert!(!is_parent_path(&root, &sibling));
}

#[test]
fn project_path_membership() {
    let dirs = vec!["/home/u/proj".to_string()];
    assert!(is_project_path(&"/home/u/proj".to_string(), &dirs));
    assert!(!is_project_path(&"/home/u/other".to_string(), &dirs));
}

#[test]
fn project_root_walks_up() {
    let mut state = ShellState::new();
    state.add_project(&"/home/u/reg".to_string());
    let manifests = vec!["/home/u/man".to_string()];

    // A manifest directory governs everything below it.
    let r = state.get_project_path(&"/home/u/man/src/lib.rs".to_string(), &manifests);
    assert_eq!(r, Some("/home/u/man".to_string()));

    // A registered project root governs as well.
    let r = state.get_project_path(&"/home/u/reg/src".to_string(), &manifests);
    assert_eq!(r, Some("/home/u/reg".to_string()));

    // The path itself qualifies first.
    let r = state.get_project_path(&"/home/u/man".to_string(), &manifests);
    assert_eq!(r, Some("/home/u/man".to_string()));

    // Nothing governs a stranger.
    let r = state.get_project_path(&"/tmp/elsewhere".to_string(), &manifests);
    assert_eq!(r, None);
}

#[test]
fn selected_project_root() {
    let mut state = ShellState::new();
    let manifests = vec!["/home/u/man".to_string()];
    assert_eq!(state.get_selected_project_path(&manifests), None);

    state.selection = Some("/home/u/man/src/main.rs".to_string());
    assert_eq!(
        state.get_selected_project_path(&manifests),
        Some("/home/u/man".to_string())
    );
}

#[test]
fn projects_and_expansions_are_sets() {
    let mut state = ShellState::new();
    state.add_project(&"/a".to_string());
    state.add_project(&"/a".to_string());
    assert_eq!(state.projects.len(), 1);
    assert!(state.is_project_root(&"/a".to_string()));

    state.remove_project(&"/missing".to_string());
    assert_eq!(state.projects.len(), 1);
    state.remove_project(&"/a".to_string());
    assert!(state.projects.is_empty());

    state.add_expansion(&"/a/src".to_string());
    state.add_expansion(&"/a/src".to_string());
    assert_eq!(state.expansions.len(), 1);
    state.remove_expansion(&"/a/src".to_string());
    assert!(state.expansions.is_empty());
}

#[test]
fn no_window_flag_is_stripped() {
    let args = vec![
        "soak".to_string(),
        "-nw".to_string(),
        "file.rs".to_string(),
        "-nw".to_string(),
    ];
    let (kept, headless) = strip_no_window_flag(&args);
    assert!(headless);
    assert_eq!(kept, vec!["soak".to_string(), "file.rs".to_string()]);

    let args = vec!["soak".to_string(), "file.rs".to_string()];
    let (kept, headless) = strip_no_window_flag(&args);
    assert!(!headless);
    assert_eq!(kept, args);
}
