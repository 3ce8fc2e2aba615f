use solidoak::registry::BuilderRegistry;
use solidoak::DEFAULT_FONT_SIZE;

fn argv(parts: &[&str]) -> Vec<String> {
    parts.iter().map(|p| p.to_string()).collect()
}

#[test]
fn rerun_replaces_builder() {
    let mut reg = BuilderRegistry::new();
    let path = "proj/".to_string();

    let first = reg.run(&path, argv(&["cargo", "build"]), 100);
    assert!(first.is_none());
    assert_eq!(reg.builder_pid(&path), Some(100));
    assert_eq!(reg.builder_count(), 1);

    let second = reg.run(&path, argv(&["cargo", "test"]), 200);
    let displaced = second.expect("the first builder must be displaced");
    assert_eq!(displaced.child_pid, 100);
    assert_eq!(reg.builder_pid(&path), Some(200));
    assert_eq!(reg.builder_count(), 1);
}

#[test]
fn stop_absent_is_no_op() {
    let mut reg = BuilderRegistry::new();
    let path = "proj/".to_string();
    let other = "other/".to_string();

    assert!(reg.stop(&path).is_none());
    assert_eq!(reg.builder_count(), 0);

    reg.run(&path, argv(&["cargo", "run"]), 41);
    assert!(reg.stop(&other).is_none());
    assert_eq!(reg.builder_count(), 1);
    assert_eq!(reg.builder_pid(&path), Some(41));
}

#[test]
fn stop_returns_the_ticket() {
    let mut reg = BuilderRegistry::new();
    let path = "proj/".to_string();
    reg.run(&path, argv(&["cargo", "run"]), 77);
    let shown = reg.show(&path).expect("a builder is live, its terminal is shown");

    let ticket = reg.stop(&path).expect("the builder must be stopped");
    assert_eq!(ticket.child_pid, 77);
    assert_eq!(ticket.terminal_id, shown);
    assert!(!reg.contains_builder(&path));
    assert!(reg.stop(&path).is_none());
}

#[test]
fn stop_all_drains_everything() {
    let mut reg = BuilderRegistry::new();
    let a = "a/".to_string();
    let b = "b/".to_string();
    let c = "c/".to_string();
    reg.run(&a, argv(&["cargo", "build"]), 1);
    reg.run(&b, argv(&["cargo", "test"]), 2);
    reg.run(&c, argv(&["cargo", "run"]), 3);

    let stopped = reg.stop_all();
    let mut pids: Vec<i32> = stopped.iter().map(|t| t.child_pid).collect();
    pids.sort();
    assert_eq!(pids, vec![1, 2, 3]);
    assert_eq!(reg.builder_count(), 0);
    assert!(!reg.contains_builder(&a));
    assert!(!reg.contains_builder(&b));
    assert!(!reg.contains_builder(&c));
}

#[test]
fn font_broadcast_reaches_every_builder() {
    let mut reg = BuilderRegistry::new();
    let a = "a/".to_string();
    let b = "b/".to_string();
    let c = "c/".to_string();
    let d = "d/".to_string();
    reg.run(&a, argv(&["cargo", "build"]), 1);
    reg.run(&b, argv(&["cargo", "test"]), 2);
    reg.run(&c, argv(&["cargo", "run"]), 3);

    reg.set_font_size(17);
    assert_eq!(reg.builder_font_size(&a), Some(17));
    assert_eq!(reg.builder_font_size(&b), Some(17));
    assert_eq!(reg.builder_font_size(&c), Some(17));

    // Not retroactively sticky: a builder created after the broadcast
    // keeps the default size until the broadcast is applied again.
    reg.run(&d, argv(&["cargo", "clean"]), 4);
    assert_eq!(reg.builder_font_size(&d), Some(DEFAULT_FONT_SIZE));

    reg.set_font_size(17);
    assert_eq!(reg.builder_font_size(&d), Some(17));
}

#[test]
fn show_raises_the_right_terminal() {
    let mut reg = BuilderRegistry::new();
    let a = "a/".to_string();
    let b = "b/".to_string();
    assert!(reg.show(&a).is_none());

    reg.run(&a, argv(&["cargo", "build"]), 1);
    reg.run(&b, argv(&["cargo", "test"]), 2);
    let ta = reg.show(&a).expect("a's terminal");
    let tb = reg.show(&b).expect("b's terminal");
    assert_ne!(ta, tb);
}

#[test]
fn end_to_end_one_process_at_a_time() {
    let mut reg = BuilderRegistry::new();
    let path = "proj/".to_string();

    assert!(reg.run(&path, argv(&["build"]), 501).is_none());
    assert_eq!(reg.builder_count(), 1);

    let displaced = reg.run(&path, argv(&["test"]), 502).expect("one displaced");
    assert_eq!(displaced.child_pid, 501);
    assert_eq!(reg.builder_count(), 1);
    assert_eq!(reg.builder_pid(&path), Some(502));

    let stopped = reg.stop_all();
    assert_eq!(stopped.len(), 1);
    assert_eq!(stopped[0].child_pid, 502);
    assert_eq!(reg.builder_count(), 0);
}
