use lickbot2::task::{AsyncTask, TaskStack, TaskStatus};
use lickbot2::weapon::best_weapon_in_hotbar;

#[test]
fn weapon_highest_key_last_of_ties() {
    assert_eq!(best_weapon_in_hotbar(&vec![1, 5, 3, 5, 2, 0, 0, 0, 0]), 3);
    assert_eq!(best_weapon_in_hotbar(&vec![7, 1, 1, 1, 1, 1, 1, 1, 1]), 0);
    assert_eq!(best_weapon_in_hotbar(&vec![2; 9]), 8);
}

#[test]
fn weapon_keys_from_dps_bits() {
    // the bits of non-negative f64 values order as the values do
    let dps: Vec<f64> = vec![2.0, 6.4, 7.199999999999999, 7.2, 2.0, 2.0, 2.0, 2.0, 2.0];
    let keys: Vec<u64> = dps.iter().map(|d| d.to_bits()).collect();
    assert_eq!(best_weapon_in_hotbar(&keys), 3);
}

#[test]
fn status_is_finished() {
    assert!(TaskStatus::<u8>::Finished.is_finished());
    assert!(!TaskStatus::<u8>::Continue.is_finished());
    assert!(!TaskStatus::Push(1u8).is_finished());
}

#[test]
fn stack_push_tick_and_stop() {
    let mut s: TaskStack<&str> = TaskStack::new();
    assert_eq!(s.len(), 0);
    assert!(s.top_mut().is_none());
    s.push_task("a");
    s.push_task("b");
    assert_eq!(s.top_mut().map(|t| *t), Some("b"));
    assert!(!s.apply_status(TaskStatus::Continue));
    assert_eq!(s.len(), 2);
    assert!(s.apply_status(TaskStatus::Push("c")));
    assert_eq!(s.top_mut().map(|t| *t), Some("c"));
    assert!(!s.apply_status(TaskStatus::Finished));
    assert_eq!(s.len(), 2);
    assert_eq!(s.stop_all_tasks(), vec!["a", "b"]);
    assert_eq!(s.len(), 0);
    assert!(!s.apply_status(TaskStatus::Finished));
    assert_eq!(s.len(), 0);
}

#[test]
fn top_mut_changes_the_top() {
    let mut s: TaskStack<u32> = TaskStack::new();
    s.push_task(1);
    s.push_task(2);
    if let Some(t) = s.top_mut() {
        *t = 20;
    }
    assert_eq!(s.stop_all_tasks(), vec![1, 20]);
}

#[test]
fn async_task_launches_once() {
    let mut t: AsyncTask<u32, &str> = AsyncTask::new(7);
    assert!(t.handle().is_none());
    assert!(t.tick::<()>(true).is_finished() == false);
    assert_eq!(t.take_factory(), Some(7));
    assert_eq!(t.take_factory(), None);
    t.set_handle("h");
    assert_eq!(t.handle(), Some(&"h"));
    assert!(matches!(t.tick::<()>(false), TaskStatus::Continue));
    assert!(t.tick::<()>(true).is_finished());
    assert_eq!(t.take_handle(), Some("h"));
    assert_eq!(t.take_handle(), None);
}
