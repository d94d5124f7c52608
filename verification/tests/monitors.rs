use grist::cardinal::Rect;
use grist::error::ActionError;
use grist::monitor::{
    move_to_adjacent_monitor, move_to_next_monitor, move_to_prev_monitor, not_after, position,
    select_adjacent_monitor, sort_monitors, Direction, MonitorInfo,
};

fn rect(left: i32, top: i32, right: i32, bottom: i32) -> Rect {
    Rect { left, top, right, bottom }
}

fn monitor(handle: isize, left: i32, top: i32, right: i32, bottom: i32) -> MonitorInfo {
    MonitorInfo { handle, work_area: rect(left, top, right, bottom) }
}

fn three() -> Vec<MonitorInfo> {
    // Given out of order: right, left, middle.
    vec![
        monitor(30, 3840, 0, 5760, 1080),
        monitor(10, 0, 0, 1920, 1080),
        monitor(20, 1920, 0, 3840, 1080),
    ]
}

#[test]
fn index_steps_wrap_around() {
    assert_eq!(Direction::Right.apply(0, 3), 1);
    assert_eq!(Direction::Right.apply(1, 3), 2);
    assert_eq!(Direction::Right.apply(2, 3), 0);
    assert_eq!(Direction::Left.apply(0, 3), 2);
    assert_eq!(Direction::Left.apply(2, 3), 1);
    assert_eq!(Direction::Left.apply(1, 2), 0);
    assert_eq!(Direction::Right.apply(1, 2), 0);
}

#[test]
fn fewer_than_two_positions_give_index_zero() {
    for direction in [Direction::Left, Direction::Right] {
        assert_eq!(direction.apply(0, 1), 0);
        assert_eq!(direction.apply(0, 0), 0);
        assert_eq!(direction.apply(5, 1), 0);
    }
}

#[test]
fn index_step_does_not_overflow() {
    assert_eq!(Direction::Right.apply(usize::MAX, 2), 0);
    assert_eq!(Direction::Right.apply(usize::MAX - 1, usize::MAX), 0);
    assert_eq!(Direction::Left.apply(usize::MAX, 2), usize::MAX - 1);
}

#[test]
fn next_applied_len_times_is_identity_on_indices() {
    for len in 1usize..=6 {
        for start in 0..len {
            let mut i = start;
            for _ in 0..len {
                i = Direction::Right.apply(i, len);
            }
            assert_eq!(i, start);
            assert_eq!(Direction::Left.apply(Direction::Right.apply(start, len), len), start);
            assert_eq!(Direction::Right.apply(Direction::Left.apply(start, len), len), start);
        }
    }
}

#[test]
fn desktop_order_is_by_left_then_top() {
    assert!(not_after(rect(0, 0, 1, 1), rect(1, 0, 2, 1)));
    assert!(!not_after(rect(1, 0, 2, 1), rect(0, 0, 1, 1)));
    assert!(not_after(rect(0, 0, 1, 1), rect(0, 5, 1, 6)));
    assert!(!not_after(rect(0, 5, 1, 6), rect(0, 0, 1, 1)));
    assert!(not_after(rect(0, 0, 1, 1), rect(0, 0, 9, 9)));
    assert!(not_after(rect(0, 0, 9, 9), rect(0, 0, 1, 1)));
}

#[test]
fn monitors_are_sorted_left_to_right_then_top_to_bottom() {
    let sorted = sort_monitors(&vec![
        monitor(1, 1920, 1080, 3840, 2160),
        monitor(2, 1920, 0, 3840, 1080),
        monitor(3, -1920, 0, 0, 1080),
        monitor(4, 0, 0, 1920, 1080),
    ]);
    let handles: Vec<isize> = sorted.iter().map(|m| m.handle).collect();
    assert_eq!(handles, vec![3, 4, 2, 1]);
    assert_eq!(sort_monitors(&Vec::new()), Vec::<MonitorInfo>::new());
}

#[test]
fn monitors_with_the_same_origin_keep_their_order() {
    let sorted = sort_monitors(&vec![
        monitor(1, 100, 0, 200, 100),
        monitor(2, 0, 0, 300, 300),
        monitor(3, 0, 0, 200, 200),
        monitor(4, 0, 0, 100, 100),
    ]);
    let handles: Vec<isize> = sorted.iter().map(|m| m.handle).collect();
    assert_eq!(handles, vec![2, 3, 4, 1]);
}

#[test]
fn position_finds_the_first_monitor_with_the_area() {
    let list = vec![monitor(1, 0, 0, 10, 10), monitor(2, 10, 0, 20, 10), monitor(3, 0, 0, 10, 10)];
    assert_eq!(position(&list, &rect(0, 0, 10, 10)), Some(0));
    assert_eq!(position(&list, &rect(10, 0, 20, 10)), Some(1));
    assert_eq!(position(&list, &rect(10, 0, 20, 11)), None);
    assert_eq!(position(&Vec::new(), &rect(0, 0, 10, 10)), None);
}

#[test]
fn neighbours_among_three_monitors() {
    let list = three();
    let left = list[1];
    let middle = list[2];
    let right = list[0];
    assert_eq!(select_adjacent_monitor(&list, &left, Direction::Right), Ok(middle));
    assert_eq!(select_adjacent_monitor(&list, &middle, Direction::Right), Ok(right));
    assert_eq!(select_adjacent_monitor(&list, &right, Direction::Right), Ok(left));
    assert_eq!(select_adjacent_monitor(&list, &left, Direction::Left), Ok(right));
    assert_eq!(select_adjacent_monitor(&list, &middle, Direction::Left), Ok(left));
    assert_eq!(select_adjacent_monitor(&list, &right, Direction::Left), Ok(middle));
}

#[test]
fn next_applied_as_often_as_there_are_monitors_returns_to_start() {
    let list = three();
    for start in &list {
        let mut current = *start;
        for _ in 0..list.len() {
            current = select_adjacent_monitor(&list, &current, Direction::Right).unwrap();
        }
        assert_eq!(current, *start);
        let next = select_adjacent_monitor(&list, start, Direction::Right).unwrap();
        assert_eq!(select_adjacent_monitor(&list, &next, Direction::Left), Ok(*start));
        let prev = select_adjacent_monitor(&list, start, Direction::Left).unwrap();
        assert_eq!(select_adjacent_monitor(&list, &prev, Direction::Right), Ok(*start));
    }
}

#[test]
fn single_monitor_is_its_own_neighbour() {
    let only = monitor(7, 0, 0, 1920, 1080);
    let list = vec![only];
    assert_eq!(select_adjacent_monitor(&list, &only, Direction::Right), Ok(only));
    assert_eq!(select_adjacent_monitor(&list, &only, Direction::Left), Ok(only));
}

#[test]
fn monitor_is_located_by_its_work_area_alone() {
    let list = three();
    let same_area_other_handle = monitor(99, 0, 0, 1920, 1080);
    assert_eq!(
        select_adjacent_monitor(&list, &same_area_other_handle, Direction::Right),
        Ok(list[2])
    );
}

#[test]
fn unknown_monitor_is_an_error() {
    let list = three();
    let stranger = monitor(10, 0, 0, 1920, 1040);
    assert_eq!(
        select_adjacent_monitor(&list, &stranger, Direction::Right),
        Err(ActionError::NoMatchingMonitor)
    );
    assert_eq!(
        select_adjacent_monitor(&Vec::new(), &stranger, Direction::Left),
        Err(ActionError::NoMatchingMonitor)
    );
    assert_eq!(move_to_next_monitor(&list, &stranger), Err(ActionError::NoMatchingMonitor));
    assert_eq!(move_to_prev_monitor(&list, &stranger), Err(ActionError::NoMatchingMonitor));
}

#[test]
fn window_on_left_monitor_moves_to_top_left_quadrant_of_right_monitor() {
    let left = monitor(1, 0, 0, 1920, 1080);
    let right = monitor(2, 1920, 0, 3840, 1080);
    let target = move_to_next_monitor(&vec![left, right], &left).unwrap();
    assert_eq!(target, rect(1920, 0, 2880, 540));
}

#[test]
fn previous_monitor_from_the_first_is_the_last() {
    let list = three();
    let target = move_to_prev_monitor(&list, &list[1]).unwrap();
    assert_eq!(target, rect(3840, 0, 4800, 540));
    assert_eq!(move_to_adjacent_monitor(&list, &list[1], Direction::Left), Ok(target));
    assert_eq!(
        move_to_adjacent_monitor(&list, &list[1], Direction::Right),
        move_to_next_monitor(&list, &list[1])
    );
}
