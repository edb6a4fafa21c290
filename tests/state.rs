use gust::camera::{Camera, STEPS_PER_TURN};
use gust::log::Log;
use gust::menu::{Menu, MenuKey, MenuLine};
use gust::panel::{border_rows, BorderRow, Panel, PanelDims};
use gust::stack::Stack;
use gust::stormfront;

#[test]
fn rotate_wraps_around_a_turn() {
    let mut c = Camera::new();
    c.rotate(-1);
    assert_eq!(c.turn, STEPS_PER_TURN - 1);
    c.rotate(2);
    assert_eq!(c.turn, 1);
    c.rotate(STEPS_PER_TURN as i32 * 3);
    assert_eq!(c.turn, 1);
}

#[test]
fn rotations_keep_distance() {
    let mut log = Log::new();
    let distance = log.camera.distance;
    assert_eq!(distance, 8192);
    for d in [1, -1, 1, 1, 7, -40, i32::MAX, i32::MIN, 0] {
        log.rotate(d);
        assert_eq!(log.camera.distance, distance);
        assert!(log.camera.turn >= 0 && log.camera.turn < STEPS_PER_TURN);
    }
}

#[test]
fn rotate_by_zero_changes_nothing() {
    let mut c = Camera::new();
    c.rotate(5);
    let before = c;
    c.rotate(0);
    assert_eq!(c, before);
}

#[test]
fn stack_pops_in_reverse() {
    let mut s = Stack::new();
    s.push(1);
    s.push(2);
    s.push(3);
    assert_eq!(s.len(), 3);
    assert_eq!(s.pop(), 3);
    assert_eq!(s.pop(), 2);
    s.push(4);
    assert_eq!(s.pop(), 4);
    assert_eq!(s.pop(), 1);
    assert_eq!(s.len(), 0);
}

fn menu3() -> Menu {
    Menu::new(vec!["Move".to_string(), "Listen".to_string(), "Rest".to_string()])
}

#[test]
fn menu_keys_wrap() {
    let mut m = menu3();
    assert_eq!(m.state, 0);
    m.handle_key_event(MenuKey::Up);
    assert_eq!(m.state, 2);
    m.handle_key_event(MenuKey::Down);
    assert_eq!(m.state, 0);
    m.handle_key_event(MenuKey::Down);
    assert_eq!(m.state, 1);
    m.handle_key_event(MenuKey::Other);
    assert_eq!(m.state, 1);
}

#[test]
fn menu_layout_spreads_options() {
    let mut m = menu3();
    m.handle_key_event(MenuKey::Down);
    // Inner height 10: step 3, block 7 rows, margin 3.
    let lines = m.draw(PanelDims { x: 4, y: 2, w: 20, h: 12 });
    assert_eq!(
        lines,
        vec![
            MenuLine { x: 6, y: 4, option: 0, underlined: false },
            MenuLine { x: 6, y: 7, option: 1, underlined: true },
            MenuLine { x: 6, y: 10, option: 2, underlined: false },
        ]
    );
}

#[test]
fn menu_layout_needs_room() {
    let m = menu3();
    assert!(m.draw(PanelDims { x: 0, y: 0, w: 20, h: 4 }).is_empty());
    assert!(m.draw(PanelDims { x: 0, y: 0, w: 20, h: 1 }).is_empty());
    let panel = Panel { kind: menu3() };
    assert_eq!(panel.draw(PanelDims { x: 0, y: 0, w: 20, h: 5 }).len(), 3);
}

#[test]
fn border_of_panel() {
    let rows = border_rows(PanelDims { x: 1, y: 2, w: 5, h: 4 });
    assert_eq!(
        rows,
        vec![
            BorderRow { x: 1, y: 2, width: 5, full: true },
            BorderRow { x: 1, y: 5, width: 5, full: true },
            BorderRow { x: 1, y: 3, width: 5, full: false },
            BorderRow { x: 1, y: 4, width: 5, full: false },
        ]
    );
    assert!(border_rows(PanelDims { x: 1, y: 2, w: 1, h: 4 }).is_empty());
}

#[test]
fn alternate_front_end_starts_at_zero() {
    assert_eq!(stormfront::LogWindow::new().index, 0);
    assert_eq!(stormfront::Menu::new().state, 0);
    let _status = stormfront::Status {};
}

#[test]
fn rotate_keeps_log_offset() {
    let mut log = Log::new();
    log.index = 7;
    log.rotate(1);
    log.rotate(-3);
    assert_eq!(log.index, 7);
}
