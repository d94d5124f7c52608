use grist::cardinal::{mid, Point, Rect};
use grist::hotkey_action::Action;
use grist::window_actions::{
    bottom_left, bottom_right, calculate_margin, east, north, set_window_rect, south, top_left,
    top_right, west, WindowMargin, WindowPos,
};

fn rect(left: i32, top: i32, right: i32, bottom: i32) -> Rect {
    Rect { left, top, right, bottom }
}

fn point(x: i32, y: i32) -> Point {
    Point { x, y }
}

#[test]
fn west_takes_left_half_of_single_monitor() {
    let work_area = rect(0, 0, 1920, 1080);
    assert_eq!(west(&work_area), rect(0, 0, 960, 1080));
    assert_eq!(Action::MonitorLeft.target_rect(&work_area), Some(rect(0, 0, 960, 1080)));
}

#[test]
fn north_takes_upper_half_of_single_monitor() {
    let work_area = rect(0, 0, 1920, 1080);
    assert_eq!(north(&work_area), rect(0, 0, 1920, 540));
    assert_eq!(Action::MonitorTop.target_rect(&work_area), Some(rect(0, 0, 1920, 540)));
}

#[test]
fn halves_and_quadrants_of_an_offset_monitor() {
    let work_area = rect(1920, 0, 3840, 1040);
    assert_eq!(east(&work_area), rect(2880, 0, 3840, 1040));
    assert_eq!(south(&work_area), rect(1920, 520, 3840, 1040));
    assert_eq!(top_left(&work_area), rect(1920, 0, 2880, 520));
    assert_eq!(top_right(&work_area), rect(2880, 0, 3840, 520));
    assert_eq!(bottom_left(&work_area), rect(1920, 520, 2880, 1040));
    assert_eq!(bottom_right(&work_area), rect(2880, 520, 3840, 1040));
}

#[test]
fn every_placement_action_follows_its_policy() {
    let w = rect(-1280, 100, 0, 1124);
    assert_eq!(Action::MonitorBottom.target_rect(&w), Some(south(&w)));
    assert_eq!(Action::MonitorBottomLeft.target_rect(&w), Some(bottom_left(&w)));
    assert_eq!(Action::MonitorBottomRight.target_rect(&w), Some(bottom_right(&w)));
    assert_eq!(Action::MonitorLeft.target_rect(&w), Some(west(&w)));
    assert_eq!(Action::MonitorRight.target_rect(&w), Some(east(&w)));
    assert_eq!(Action::MonitorTop.target_rect(&w), Some(north(&w)));
    assert_eq!(Action::MonitorTopLeft.target_rect(&w), Some(top_left(&w)));
    assert_eq!(Action::MonitorTopRight.target_rect(&w), Some(top_right(&w)));
}

#[test]
fn actions_that_do_not_place_have_no_target() {
    let w = rect(0, 0, 1920, 1080);
    for action in [
        Action::ClearTop,
        Action::Maximize,
        Action::Minimize,
        Action::MoveNextMonitor,
        Action::MovePrevMonitor,
    ] {
        assert!(!action.is_placement());
        assert_eq!(action.target_rect(&w), None);
    }
    assert!(Action::MonitorTop.is_placement());
    assert!(Action::OnDesktop { x: 0, y: 0, w: 1, h: 1 }.is_placement());
}

#[test]
fn on_desktop_ignores_the_work_area() {
    let action = Action::OnDesktop { x: 10, y: 20, w: 300, h: 400 };
    assert_eq!(action.target_rect(&rect(0, 0, 1920, 1080)), Some(rect(10, 20, 310, 420)));
    assert_eq!(action.target_rect(&rect(-5, -5, 5, 5)), Some(rect(10, 20, 310, 420)));
}

#[test]
fn on_monitor_shifts_and_grows_the_work_area() {
    let action = Action::OnMonitor { x: 10, y: 20, w: -40, h: -60 };
    assert_eq!(
        action.target_rect(&rect(1920, 0, 3840, 1080)),
        Some(rect(1930, 20, 3810, 1040))
    );
}

#[test]
fn placements_that_leave_the_coordinate_range_have_no_target() {
    let work_area = rect(0, 0, 1920, 1080);
    assert_eq!(Action::OnDesktop { x: i32::MAX, y: 0, w: 1, h: 1 }.target_rect(&work_area), None);
    assert_eq!(Action::OnDesktop { x: 0, y: i32::MIN, w: 0, h: -1 }.target_rect(&work_area), None);
    assert_eq!(
        Action::OnMonitor { x: i32::MAX, y: 0, w: 0, h: 0 }.target_rect(&work_area),
        None
    );
    // An intermediate sum leaves the range, the edges do not.
    assert_eq!(
        Action::OnMonitor { x: i32::MAX, y: 0, w: -i32::MAX, h: 0 }
            .target_rect(&rect(-10, 0, 100, 50)),
        Some(rect(i32::MAX - 10, 0, 100, 50))
    );
    assert_eq!(
        Action::OnMonitor { x: 0, y: 0, w: 0, h: 0 }.target_rect(&rect(0, 0, i32::MAX, 1)),
        Some(rect(0, 0, i32::MAX, 1))
    );
    assert_eq!(
        Action::OnMonitor { x: 5, y: 0, w: -5, h: 0 }.target_rect(&rect(0, 0, i32::MAX, 1)),
        Some(rect(5, 0, i32::MAX, 1))
    );
}

#[test]
fn from_points_ignores_order() {
    let pairs = [
        (point(7, -3), point(-2, 11)),
        (point(0, 0), point(0, 0)),
        (point(i32::MIN, i32::MAX), point(i32::MAX, i32::MIN)),
        (point(5, 5), point(5, 9)),
    ];
    for (a, b) in pairs {
        assert_eq!(Rect::from_points(a, b), Rect::from_points(b, a));
    }
    assert_eq!(Rect::from_points(point(7, -3), point(-2, 11)), rect(-2, -3, 7, 11));
    assert_eq!(
        Rect::from_points(point(i32::MIN, i32::MAX), point(i32::MAX, i32::MIN)),
        rect(i32::MIN, i32::MIN, i32::MAX, i32::MAX)
    );
}

#[test]
fn from_points_gives_extents_that_are_not_negative() {
    let r = Rect::from_points(point(300, 40), point(-20, -700));
    assert!(r.left <= r.right && r.top <= r.bottom);
    assert_eq!(r.width(), 320);
    assert_eq!(r.height(), 740);
    let degenerate = Rect::from_points(point(4, 4), point(4, 4));
    assert_eq!(degenerate.width(), 0);
    assert_eq!(degenerate.height(), 0);
}

#[test]
fn center_is_midpoint_of_opposite_corners() {
    let r = rect(10, 20, 110, 220);
    let c = r.center();
    assert_eq!(c, point(60, 120));
    assert_eq!(c.x, mid(r.top_left().x, r.bottom_right().x));
    assert_eq!(c.y, mid(r.top_left().y, r.bottom_right().y));
}

#[test]
fn midpoints_round_toward_negative_infinity() {
    assert_eq!(mid(0, 1), 0);
    assert_eq!(mid(1, 2), 1);
    assert_eq!(mid(-1, 0), -1);
    assert_eq!(mid(-3, 0), -2);
    assert_eq!(mid(-3, -4), -4);
    assert_eq!(mid(-1, 1), 0);
    assert_eq!(mid(i32::MAX, i32::MAX), i32::MAX);
    assert_eq!(mid(i32::MIN, i32::MIN), i32::MIN);
    assert_eq!(mid(i32::MIN, i32::MAX), -1);
    assert_eq!(rect(-5, -7, 0, 0).center(), point(-3, -4));
}

#[test]
fn corners_and_edge_midpoints() {
    let r = rect(0, 0, 1920, 1080);
    assert_eq!(r.top_left(), point(0, 0));
    assert_eq!(r.top_right(), point(1920, 0));
    assert_eq!(r.bottom_left(), point(0, 1080));
    assert_eq!(r.bottom_right(), point(1920, 1080));
    assert_eq!(r.north(), point(960, 0));
    assert_eq!(r.south(), point(960, 1080));
    assert_eq!(r.west(), point(0, 540));
    assert_eq!(r.east(), point(1920, 540));
}

#[test]
fn contains_leaves_out_right_and_bottom_edge() {
    let r = rect(10, 20, 30, 40);
    assert!(r.contains(point(10, 20)));
    assert!(r.contains(point(29, 39)));
    assert!(!r.contains(point(30, 39)));
    assert!(!r.contains(point(29, 40)));
    assert!(!r.contains(point(9, 20)));
    assert!(!r.contains(point(10, 19)));
    assert!(!rect(5, 5, 5, 5).contains(point(5, 5)));
}

#[test]
fn margin_is_raw_rectangle_minus_drawn_frame() {
    let window = rect(93, 100, 907, 707);
    let frame = rect(100, 100, 900, 700);
    assert_eq!(
        calculate_margin(&window, &frame),
        Some(WindowMargin { left: -7, top: 0, right: 7, bottom: 7 })
    );
}

#[test]
fn margin_that_leaves_the_coordinate_range_is_refused() {
    let window = rect(i32::MIN, 0, 0, 0);
    let frame = rect(1, 0, 0, 0);
    assert_eq!(calculate_margin(&window, &frame), None);
    let frame = rect(0, 0, 0, 0);
    assert_eq!(
        calculate_margin(&window, &frame),
        Some(WindowMargin { left: i32::MIN, top: 0, right: 0, bottom: 0 })
    );
}

#[test]
fn placement_puts_the_drawn_frame_on_the_target() {
    let target = rect(0, 0, 960, 1080);
    let margin = WindowMargin { left: -7, top: 0, right: 7, bottom: 7 };
    let pos = set_window_rect(&target, &margin).unwrap();
    assert_eq!(pos, WindowPos { x: -7, y: 0, cx: 974, cy: 1087 });
    // Raw rectangle minus margin is the drawn frame.
    assert_eq!(pos.x - margin.left, target.left);
    assert_eq!(pos.y - margin.top, target.top);
    assert_eq!(pos.x + pos.cx - margin.right, target.right);
    assert_eq!(pos.y + pos.cy - margin.bottom, target.bottom);
}

#[test]
fn placement_without_margin_is_the_target_itself() {
    let margin = WindowMargin { left: 0, top: 0, right: 0, bottom: 0 };
    assert_eq!(
        set_window_rect(&rect(1920, 0, 2880, 540), &margin),
        Some(WindowPos { x: 1920, y: 0, cx: 960, cy: 540 })
    );
}

#[test]
fn placement_that_leaves_the_coordinate_range_is_refused() {
    let margin = WindowMargin { left: 0, top: 0, right: 0, bottom: 0 };
    assert_eq!(set_window_rect(&rect(i32::MIN, 0, i32::MAX, 10), &margin), None);
    let margin = WindowMargin { left: 1, top: 0, right: 0, bottom: 0 };
    assert_eq!(set_window_rect(&rect(i32::MAX, 0, i32::MAX, 10), &margin), None);
    let margin = WindowMargin { left: 0, top: 0, right: 1, bottom: 0 };
    assert_eq!(set_window_rect(&rect(0, 0, i32::MAX, 10), &margin), None);
}
