use tasks_tui::model::{DateStamp, Task, TaskList};
use tasks_tui::nav::{key_of_char, Cursor, Event, Key};

fn stamp() -> DateStamp {
    DateStamp { year: 2023, month: 7, day: 4, hour: 9, minute: 5, second: 30 }
}

fn task(id: usize, name: &str) -> Task {
    Task {
        id,
        name: name.to_string(),
        tags: vec!["tag".to_string()],
        start_date: stamp(),
        due_date: stamp(),
    }
}

fn list_with(id: usize, name: &str, task_count: usize) -> TaskList {
    let tasks = (0..task_count).map(|i| task(i, "t")).collect();
    TaskList { id, name: name.to_string(), tasks }
}

fn two_lists() -> Vec<TaskList> {
    vec![list_with(0, "first", 2), list_with(1, "second", 5)]
}

fn press(c: &mut Cursor, lists: &Vec<TaskList>, key: Key) -> bool {
    c.step(lists, Event::Key(key))
}

#[test]
fn initial_cursor_is_list_focus_at_zero() {
    let c = Cursor::init();
    assert_eq!(c.list_index, 0);
    assert_eq!(c.task_index, None);
}

#[test]
fn scenario_two_lists_walkthrough() {
    let lists = two_lists();
    let mut c = Cursor::init();
    assert!(!press(&mut c, &lists, Key::J));
    assert_eq!((c.list_index, c.task_index), (1, None));
    assert!(!press(&mut c, &lists, Key::L));
    assert_eq!((c.list_index, c.task_index), (1, Some(0)));
    for _ in 0..4 {
        assert!(!press(&mut c, &lists, Key::J));
    }
    assert_eq!((c.list_index, c.task_index), (1, Some(4)));
    assert!(!press(&mut c, &lists, Key::K));
    assert_eq!((c.list_index, c.task_index), (1, Some(3)));
    assert!(!press(&mut c, &lists, Key::H));
    assert_eq!((c.list_index, c.task_index), (1, None));
    assert!(!press(&mut c, &lists, Key::K));
    assert_eq!((c.list_index, c.task_index), (0, None));
    assert!(!press(&mut c, &lists, Key::L));
    assert_eq!((c.list_index, c.task_index), (0, Some(0)));
    assert!(!press(&mut c, &lists, Key::J));
    assert_eq!((c.list_index, c.task_index), (0, Some(1)));
}

#[test]
fn list_navigation_saturates_at_bounds() {
    let lists = two_lists();
    let mut c = Cursor::init();
    press(&mut c, &lists, Key::K);
    assert_eq!((c.list_index, c.task_index), (0, None));
    press(&mut c, &lists, Key::J);
    press(&mut c, &lists, Key::J);
    press(&mut c, &lists, Key::J);
    assert_eq!((c.list_index, c.task_index), (1, None));
}

#[test]
fn task_navigation_saturates_at_bounds() {
    let lists = two_lists();
    let mut c = Cursor::init();
    press(&mut c, &lists, Key::L);
    press(&mut c, &lists, Key::K);
    assert_eq!(c.task_index, Some(0));
    press(&mut c, &lists, Key::J);
    press(&mut c, &lists, Key::J);
    press(&mut c, &lists, Key::J);
    assert_eq!(c.task_index, Some(1));
    assert_eq!(c.list_index, 0);
}

#[test]
fn enter_leave_round_trip_restores_cursor() {
    let lists = two_lists();
    let mut c = Cursor::init();
    press(&mut c, &lists, Key::J);
    press(&mut c, &lists, Key::L);
    assert_eq!((c.list_index, c.task_index), (1, Some(0)));
    press(&mut c, &lists, Key::H);
    assert_eq!((c.list_index, c.task_index), (1, None));
    press(&mut c, &lists, Key::L);
    assert_eq!((c.list_index, c.task_index), (1, Some(0)));
}

#[test]
fn entering_task_pane_always_starts_at_row_zero() {
    let lists = two_lists();
    let mut c = Cursor::init();
    press(&mut c, &lists, Key::J);
    press(&mut c, &lists, Key::L);
    for _ in 0..4 {
        press(&mut c, &lists, Key::J);
    }
    assert_eq!(c.task_index, Some(4));
    press(&mut c, &lists, Key::H);
    press(&mut c, &lists, Key::K);
    press(&mut c, &lists, Key::L);
    assert_eq!((c.list_index, c.task_index), (0, Some(0)));
}

#[test]
fn tick_changes_nothing() {
    let lists = two_lists();
    let mut c = Cursor::init();
    press(&mut c, &lists, Key::J);
    press(&mut c, &lists, Key::L);
    assert!(!c.step(&lists, Event::Tick));
    assert_eq!((c.list_index, c.task_index), (1, Some(0)));
}

#[test]
fn quit_signals_from_both_panes_and_keeps_cursor() {
    let lists = two_lists();
    let mut c = Cursor::init();
    assert!(press(&mut c, &lists, Key::Q));
    assert_eq!((c.list_index, c.task_index), (0, None));
    press(&mut c, &lists, Key::L);
    assert!(press(&mut c, &lists, Key::Q));
    assert_eq!((c.list_index, c.task_index), (0, Some(0)));
}

#[test]
fn other_keys_are_ignored_in_both_panes() {
    let lists = two_lists();
    let mut c = Cursor::init();
    assert!(!press(&mut c, &lists, Key::Other));
    assert!(!press(&mut c, &lists, Key::H));
    assert_eq!((c.list_index, c.task_index), (0, None));
    press(&mut c, &lists, Key::L);
    assert!(!press(&mut c, &lists, Key::Other));
    assert!(!press(&mut c, &lists, Key::L));
    assert_eq!((c.list_index, c.task_index), (0, Some(0)));
}

#[test]
fn entering_an_empty_list_is_a_no_op() {
    let lists = vec![list_with(0, "empty", 0), list_with(1, "full", 3)];
    let mut c = Cursor::init();
    press(&mut c, &lists, Key::L);
    assert_eq!((c.list_index, c.task_index), (0, None));
    press(&mut c, &lists, Key::J);
    press(&mut c, &lists, Key::L);
    assert_eq!((c.list_index, c.task_index), (1, Some(0)));
}

#[test]
fn characters_map_to_command_keys() {
    assert_eq!(key_of_char('q'), Key::Q);
    assert_eq!(key_of_char('h'), Key::H);
    assert_eq!(key_of_char('j'), Key::J);
    assert_eq!(key_of_char('k'), Key::K);
    assert_eq!(key_of_char('l'), Key::L);
    assert_eq!(key_of_char('x'), Key::Other);
    assert_eq!(key_of_char(' '), Key::Other);
}
