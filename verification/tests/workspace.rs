use voidwm::error::WmError;
use voidwm::workspace::Workspace;
use voidwm::x::Window;

fn order(w: &Workspace) -> Vec<u32> {
    w.window_order().iter().map(|win| win.get()).collect()
}

#[test]
fn adopt_fills_master_then_slaves_in_order() {
    let mut w = Workspace::new("main".to_string());
    w.adopt(Window(1));
    w.adopt(Window(2));
    w.adopt(Window(3));
    assert_eq!(w.master_count(), 1);
    assert_eq!(w.slave_count(), 2);
    assert_eq!(order(&w), vec![1, 2, 3]);
}

#[test]
fn adopting_a_tracked_window_changes_nothing() {
    let mut w = Workspace::new("main".to_string());
    w.adopt(Window(1));
    w.adopt(Window(2));
    w.adopt(Window(1));
    w.adopt(Window(2));
    assert_eq!(order(&w), vec![1, 2]);
}

#[test]
fn evicting_master_promotes_first_slave() {
    let mut w = Workspace::new("main".to_string());
    w.adopt(Window(1));
    w.adopt(Window(2));
    w.evict(Window(1));
    assert_eq!(w.master_count(), 1);
    assert_eq!(w.slave_count(), 0);
    assert_eq!(order(&w), vec![2]);
}

#[test]
fn evicting_the_only_window_empties_the_workspace() {
    let mut w = Workspace::new("main".to_string());
    w.adopt(Window(1));
    w.evict(Window(1));
    assert_eq!(w.master_count(), 0);
    assert_eq!(w.slave_count(), 0);
    assert!(order(&w).is_empty());
}

#[test]
fn evicting_a_slave_keeps_the_rest_in_order() {
    let mut w = Workspace::new("main".to_string());
    w.adopt(Window(1));
    w.adopt(Window(2));
    w.adopt(Window(3));
    w.adopt(Window(4));
    w.evict(Window(3));
    assert_eq!(order(&w), vec![1, 2, 4]);
}

#[test]
fn evicting_an_untracked_window_changes_nothing() {
    let mut w = Workspace::new("main".to_string());
    w.adopt(Window(1));
    w.evict(Window(9));
    assert_eq!(order(&w), vec![1]);
}

#[test]
fn pop_master_on_empty_list_is_empty_list_error() {
    let mut w = Workspace::new("main".to_string());
    assert_eq!(w.pop_master(), Err(WmError::EmptyListError));
    assert_eq!(w.master_count(), 0);
}

#[test]
fn pop_slave_on_empty_list_is_empty_list_error() {
    let mut w = Workspace::new("main".to_string());
    w.adopt(Window(1));
    assert_eq!(w.pop_slave(), Err(WmError::EmptyListError));
    assert_eq!(order(&w), vec![1]);
}

#[test]
fn pops_return_the_first_element() {
    let mut w = Workspace::new("main".to_string());
    w.adopt(Window(1));
    w.adopt(Window(2));
    w.adopt(Window(3));
    assert_eq!(w.pop_master(), Ok(Window(1)));
    assert_eq!(w.pop_slave(), Ok(Window(2)));
    assert_eq!(w.pop_slave(), Ok(Window(3)));
    assert_eq!(w.pop_slave(), Err(WmError::EmptyListError));
}

#[test]
fn push_master_and_push_slave_append() {
    let mut w = Workspace::new("main".to_string());
    w.push_master(Window(7));
    w.push_slave(Window(8));
    w.push_slave(Window(9));
    assert_eq!(order(&w), vec![7, 8, 9]);
    assert!(w.contains(Window(8)));
    assert!(!w.contains(Window(10)));
}

#[test]
fn move_to_master_swaps_with_the_old_master() {
    let mut w = Workspace::new("main".to_string());
    w.adopt(Window(1));
    w.adopt(Window(2));
    w.adopt(Window(3));
    w.move_to_master(Window(3));
    assert_eq!(w.master_count(), 1);
    assert_eq!(order(&w), vec![3, 1, 2]);
}

#[test]
fn move_to_slave_demotes_the_master() {
    let mut w = Workspace::new("main".to_string());
    w.adopt(Window(1));
    w.adopt(Window(2));
    w.adopt(Window(3));
    w.move_to_slave(Window(1));
    assert_eq!(order(&w), vec![2, 3, 1]);
}

#[test]
fn move_to_slave_of_the_only_window_keeps_it_master() {
    let mut w = Workspace::new("main".to_string());
    w.adopt(Window(1));
    w.move_to_slave(Window(1));
    assert_eq!(order(&w), vec![1]);
    assert_eq!(w.master_count(), 1);
}
