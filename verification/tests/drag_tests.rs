use shell_native::drag::{common_parent, parent_component, start_drag};
use shell_native::errors::ShellError;
use shell_native::shell::DragEvent;
use shell_native::sim::SimShell;

fn paths_of(strs: &[&str]) -> Vec<String> {
    strs.iter().map(|s| s.to_string()).collect()
}

fn held_event() -> DragEvent {
    DragEvent { escape_pressed: false, key_state: 1 }
}

fn released_event() -> DragEvent {
    DragEvent { escape_pressed: false, key_state: 0 }
}

fn escape_event() -> DragEvent {
    DragEvent { escape_pressed: true, key_state: 1 }
}

#[test]
fn empty_selection_fails_before_any_acquisition() {
    let mut sim = SimShell::new();
    let r = start_drag(&mut sim, &Vec::new());
    assert_eq!(r, Err(ShellError::EmptySelectionError));
    assert_eq!(sim.acquired, 0);
    assert_eq!(sim.live_resources(), 0);
}

#[test]
fn cross_directory_selection_fails_before_any_acquisition() {
    let mut sim = SimShell::new();
    let r = start_drag(&mut sim, &paths_of(&["/alpha/x.txt", "/beta/y.txt"]));
    assert_eq!(r, Err(ShellError::CrossDirectoryError));
    assert_eq!(sim.acquired, 0);
    assert_eq!(sim.live_resources(), 0);
}

#[test]
fn path_without_parent_counts_as_cross_directory() {
    let mut sim = SimShell::new();
    let r = start_drag(&mut sim, &paths_of(&["plainname"]));
    assert_eq!(r, Err(ShellError::CrossDirectoryError));
    assert_eq!(sim.acquired, 0);
}

#[test]
fn single_path_drag_succeeds_on_drop() {
    let mut sim = SimShell::new();
    sim.drag_script = vec![held_event(), held_event(), released_event()];
    let r = start_drag(&mut sim, &paths_of(&["/home/user/file.txt"]));
    assert_eq!(r, Ok(()));
    // COM + folder identifier + one path identifier.
    assert_eq!(sim.acquired, 3);
    assert_eq!(sim.live_resources(), 0);
}

#[test]
fn single_path_drag_succeeds_on_cancellation() {
    let mut sim = SimShell::new();
    sim.drag_script = vec![held_event(), escape_event()];
    let r = start_drag(&mut sim, &paths_of(&["/home/user/file.txt"]));
    assert_eq!(r, Ok(()));
    assert_eq!(sim.live_resources(), 0);
}

#[test]
fn abandoned_drag_script_still_ends_successfully() {
    let mut sim = SimShell::new();
    let r = start_drag(&mut sim, &paths_of(&["/home/user/file.txt"]));
    assert_eq!(r, Ok(()));
    assert_eq!(sim.live_resources(), 0);
}

#[test]
fn multi_path_same_directory_drag_succeeds() {
    let mut sim = SimShell::new();
    sim.drag_script = vec![released_event()];
    let r = start_drag(
        &mut sim,
        &paths_of(&["C:\\docs\\a.txt", "C:\\docs\\b.txt", "C:\\docs\\c.txt"]),
    );
    assert_eq!(r, Ok(()));
    // COM + folder identifier + three path identifiers.
    assert_eq!(sim.acquired, 5);
    assert_eq!(sim.live_resources(), 0);
}

#[test]
fn unsupported_platform_drag_fails_without_acquiring_anything() {
    let mut sim = SimShell::new();
    sim.native = false;
    let r = start_drag(&mut sim, &paths_of(&["/home/user/file.txt"]));
    assert_eq!(r, Err(ShellError::PlatformUnsupportedError));
    assert_eq!(sim.acquired, 0);
    assert_eq!(sim.live_resources(), 0);
}

#[test]
fn mid_loop_resolution_failure_releases_everything() {
    let mut sim = SimShell::new();
    // The folder and the first path resolve; the second path fails.
    sim.parse_budget = 2;
    let r = start_drag(&mut sim, &paths_of(&["/d/a.txt", "/d/b.txt", "/d/c.txt"]));
    assert_eq!(r, Err(ShellError::ShellQueryError));
    assert_eq!(sim.live_resources(), 0);
}

#[test]
fn data_object_failure_releases_everything() {
    let mut sim = SimShell::new();
    sim.data_object_available = false;
    let r = start_drag(&mut sim, &paths_of(&["/d/a.txt", "/d/b.txt"]));
    assert_eq!(r, Err(ShellError::DataObjectError));
    // COM + folder identifier + two path identifiers were acquired...
    assert_eq!(sim.acquired, 4);
    // ...and all of them were released again.
    assert_eq!(sim.live_resources(), 0);
}

#[test]
fn com_failure_reports_shell_query_error() {
    let mut sim = SimShell::new();
    sim.com_available = false;
    let r = start_drag(&mut sim, &paths_of(&["/d/a.txt"]));
    assert_eq!(r, Err(ShellError::ShellQueryError));
    assert_eq!(sim.acquired, 0);
}

#[test]
fn parent_component_follows_the_platform_convention() {
    assert_eq!(parent_component(&String::from("/a/b/c.txt")), Some(String::from("/a/b")));
    assert_eq!(
        parent_component(&String::from("C:\\dir\\file.txt")),
        Some(String::from("C:\\dir"))
    );
    // A first-level entry keeps the root as its parent.
    assert_eq!(parent_component(&String::from("/top")), Some(String::from("/")));
    // Trailing separators are ignored.
    assert_eq!(parent_component(&String::from("/d/b.txt/")), Some(String::from("/d")));
    assert_eq!(parent_component(&String::from("/a/b///")), Some(String::from("/a")));
    // Roots and bare names have no parent.
    assert_eq!(parent_component(&String::from("C:\\")), None);
    assert_eq!(parent_component(&String::from("/")), None);
    assert_eq!(parent_component(&String::from("noseparator")), None);
    assert_eq!(parent_component(&String::from("")), None);
}

#[test]
fn drive_root_drag_fails_before_any_acquisition() {
    let mut sim = SimShell::new();
    let r = start_drag(&mut sim, &paths_of(&["C:\\"]));
    assert_eq!(r, Err(ShellError::CrossDirectoryError));
    assert_eq!(sim.acquired, 0);
    assert_eq!(sim.live_resources(), 0);
}

#[test]
fn trailing_separator_does_not_change_the_directory_verdict() {
    let mut sim = SimShell::new();
    sim.drag_script = vec![released_event()];
    let r = start_drag(&mut sim, &paths_of(&["/d/a.txt", "/d/b.txt/"]));
    assert_eq!(r, Ok(()));
    assert_eq!(sim.live_resources(), 0);
}

#[test]
fn common_parent_reports_the_shared_directory() {
    let r = common_parent(&paths_of(&["/d/a.txt", "/d/b.txt"]));
    assert_eq!(r, Ok(String::from("/d")));
    let r = common_parent(&paths_of(&["/d/a.txt", "/e/b.txt"]));
    assert_eq!(r, Err(ShellError::CrossDirectoryError));
    let r = common_parent(&Vec::new());
    assert_eq!(r, Err(ShellError::EmptySelectionError));
}

#[test]
fn selection_error_messages_are_distinct() {
    assert_eq!(ShellError::EmptySelectionError.message(), "no paths provided for drag");
    assert_eq!(
        ShellError::CrossDirectoryError.message(),
        "paths do not share one parent directory"
    );
    assert_eq!(ShellError::DataObjectError.message(), "data object construction failed");
}

#[test]
fn drag_offers_both_copy_and_move_effects() {
    let mut sim = SimShell::new();
    sim.drag_script = vec![released_event()];
    let r = start_drag(&mut sim, &paths_of(&["/d/a.txt"]));
    assert_eq!(r, Ok(()));
    assert_eq!(
        sim.last_permitted_effects,
        shell_native::shell::DROP_EFFECT_COPY | shell_native::shell::DROP_EFFECT_MOVE
    );
}
