use voidwm::layout::Geometry;
use voidwm::workspace::Workspace;
use voidwm::x::Window;

#[test]
fn three_window_split_has_the_expected_geometry() {
    let mut w = Workspace::new("main".to_string());
    w.adopt(Window(1));
    w.adopt(Window(2));
    w.adopt(Window(3));
    let g = w.recompute(1920, 1080, 2);
    assert_eq!(g.len(), 3);
    assert_eq!(g[0], Geometry { window: Window(1), x: 0, y: 0, width: 1280, height: 1080 });
    assert_eq!(g[1], Geometry { window: Window(2), x: 1282, y: 0, width: 638, height: 538 });
    assert_eq!(g[2], Geometry { window: Window(3), x: 1282, y: 540, width: 638, height: 538 });
}

#[test]
fn a_single_window_fills_the_whole_screen() {
    let mut w = Workspace::new("main".to_string());
    w.adopt(Window(1));
    let g = w.recompute(1920, 1080, 2);
    assert_eq!(g.len(), 1);
    assert_eq!(g[0], Geometry { window: Window(1), x: 0, y: 0, width: 1920, height: 1080 });
}

#[test]
fn an_empty_workspace_issues_no_geometry() {
    let w = Workspace::new("main".to_string());
    assert!(w.recompute(1920, 1080, 2).is_empty());
}

#[test]
fn slave_heights_sum_to_screen_height_minus_gaps() {
    let mut w = Workspace::new("main".to_string());
    for id in 1..=6 {
        w.adopt(Window(id));
    }
    // one master, five slaves
    let g = w.recompute(1920, 1080, 2);
    let slave_height_sum: u32 = g[1..].iter().map(|geo| geo.height).sum();
    assert_eq!(slave_height_sum, 1080 - 5 * 2);
}

#[test]
fn last_slave_absorbs_the_rounding_remainder() {
    let mut w = Workspace::new("main".to_string());
    for id in 1..=4 {
        w.adopt(Window(id));
    }
    // three slaves on a 1000-pixel-high screen: slots of 333
    let g = w.recompute(1500, 1000, 2);
    assert_eq!(g[1].height, 331);
    assert_eq!(g[2].height, 331);
    assert_eq!(g[3].height, 332);
    let slave_height_sum: u32 = g[1..].iter().map(|geo| geo.height).sum();
    assert_eq!(slave_height_sum, 1000 - 3 * 2);
    assert_eq!(g[1].y, 0);
    assert_eq!(g[2].y, 333);
    assert_eq!(g[3].y, 666);
}

#[test]
fn slaves_stack_top_to_bottom_in_list_order() {
    let mut w = Workspace::new("main".to_string());
    w.adopt(Window(10));
    w.adopt(Window(20));
    w.adopt(Window(30));
    w.adopt(Window(40));
    let g = w.recompute(1920, 1080, 2);
    let ids: Vec<u32> = g.iter().map(|geo| geo.window.get()).collect();
    assert_eq!(ids, vec![10, 20, 30, 40]);
    assert!(g[1].y < g[2].y && g[2].y < g[3].y);
}
