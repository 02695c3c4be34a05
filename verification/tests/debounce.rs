use cica::channels::{Dispatch, UserTaskManager, DEBOUNCE_MS};

#[test]
fn debounce_window_is_200_ms() {
    assert_eq!(DEBOUNCE_MS, 200);
}

#[test]
fn three_messages_in_one_window_make_one_batch() {
    let mut manager = UserTaskManager::new();
    let d1 = manager.process_message("telegram:1".to_string(), "one".to_string());
    let d2 = manager.process_message("telegram:1".to_string(), "two".to_string());
    let d3 = manager.process_message("telegram:1".to_string(), "three".to_string());
    assert_eq!(d1, Dispatch { cancel: None, spawn: 0 });
    assert_eq!(d2, Dispatch { cancel: Some(0), spawn: 1 });
    assert_eq!(d3, Dispatch { cancel: Some(1), spawn: 2 });

    // A superseded task that still wakes up gets nothing.
    assert!(manager.debounce_elapsed("telegram:1", d1.spawn).is_empty());
    assert!(manager.debounce_elapsed("telegram:1", d2.spawn).is_empty());

    let batch = manager.debounce_elapsed("telegram:1", d3.spawn);
    assert_eq!(batch, vec!["one".to_string(), "two".to_string(), "three".to_string()]);

    // The batch is handed out once.
    assert!(manager.debounce_elapsed("telegram:1", d3.spawn).is_empty());
    manager.task_finished("telegram:1", d3.spawn);
    let d4 = manager.process_message("telegram:1".to_string(), "four".to_string());
    assert_eq!(d4.cancel, None);
}

#[test]
fn two_users_do_not_cancel_each_other() {
    let mut manager = UserTaskManager::new();
    let a = manager.process_message("telegram:1".to_string(), "from a".to_string());
    let b = manager.process_message("signal:2".to_string(), "from b".to_string());
    assert_eq!(a.cancel, None);
    assert_eq!(b.cancel, None);
    assert_ne!(a.spawn, b.spawn);
    assert_eq!(manager.debounce_elapsed("signal:2", b.spawn), vec!["from b".to_string()]);
    assert_eq!(manager.debounce_elapsed("telegram:1", a.spawn), vec!["from a".to_string()]);
    assert!(manager.debounce_elapsed("telegram:1", b.spawn).is_empty());
}

#[test]
fn a_message_during_handling_starts_a_new_cycle() {
    let mut manager = UserTaskManager::new();
    let first = manager.process_message("u".to_string(), "one".to_string());
    assert_eq!(manager.debounce_elapsed("u", first.spawn), vec!["one".to_string()]);
    // The handler of the first batch is at work when the next message comes.
    let second = manager.process_message("u".to_string(), "two".to_string());
    assert_eq!(second.cancel, Some(first.spawn));
    // The superseded task reporting its end changes nothing.
    manager.task_finished("u", first.spawn);
    assert_eq!(manager.debounce_elapsed("u", second.spawn), vec!["two".to_string()]);
    manager.task_finished("u", second.spawn);
    let third = manager.process_message("u".to_string(), "three".to_string());
    assert_eq!(third.cancel, None);
}

#[test]
fn unknown_users_and_tasks_get_nothing() {
    let mut manager = UserTaskManager::new();
    assert!(manager.debounce_elapsed("nobody", 0).is_empty());
    manager.task_finished("nobody", 0);
    let d = manager.process_message("u".to_string(), "m".to_string());
    assert!(manager.debounce_elapsed("u", d.spawn + 1).is_empty());
    assert_eq!(manager.debounce_elapsed("u", d.spawn), vec!["m".to_string()]);
}
