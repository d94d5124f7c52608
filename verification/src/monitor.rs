//! Monitors: their order on the desktop, and moving a window to the next
//! or the previous one.

use crate::cardinal::Rect;
use crate::error::ActionError;
use crate::hotkey_action::{register, views, Action, HotkeyAction, HotkeyActionView};
use crate::virtual_key::VK;
use crate::window_actions::top_left;
use vstd::prelude::*;

verus! {

/// Which neighbour in the order of the monitors is meant.
#[derive(Clone, Copy, Debug, PartialEq, Eq, Structural)]
pub enum Direction {
    /// The previous monitor.
    Left,
    /// The next monitor.
    Right,
}

impl Direction {
    /// The index reached from `i` in a cycle of `len` positions. A cycle of
    /// fewer than two positions has only the index 0.
    pub open spec fn spec_apply(&self, i: int, len: int) -> int {
        if len < 2 {
            0
        } else {
            match *self {
                Direction::Left => if i == 0 {
                    len - 1
                } else {
                    i - 1
                },
                Direction::Right => (i + 1) % len,
            }
        }
    }

    /// Steps from index `i` to its neighbour among `len` positions,
    /// wrapping around at both ends.
    pub fn apply(&self, i: usize, len: usize) -> (next: usize)
        ensures
            next == self.spec_apply(i as int, len as int),
            i < len ==> next < len,
    {
        if len < 2 {
            return 0;
        }
        match self {
            Direction::Left => if i == 0 {
                len - 1
            } else {
                i - 1
            },
            Direction::Right => {
                proof {
                    vstd::arithmetic::div_mod::lemma_add_mod_noop(i as int, 1, len as int);
                    vstd::arithmetic::div_mod::lemma_small_mod(1, len as nat);
                }
                (i % len + 1) % len
            },
        }
    }
}

/// The index reached from `i` by `n` steps in one direction.
pub open spec fn apply_times(direction: Direction, i: int, len: int, n: nat) -> int
    decreases n,
{
    if n == 0 {
        i
    } else {
        direction.spec_apply(apply_times(direction, i, len, (n - 1) as nat), len)
    }
}

/// Within a cycle, a step adds or subtracts one modulo the number of
/// positions.
pub proof fn lemma_apply_is_modular(i: int, len: int)
    requires
        0 <= i < len,
    ensures
        Direction::Right.spec_apply(i, len) == (i + 1) % len,
        Direction::Left.spec_apply(i, len) == (i + len - 1) % len,
{
    if len < 2 {
        vstd::arithmetic::div_mod::lemma_mod_self_0(len);
        vstd::arithmetic::div_mod::lemma_small_mod(0, len as nat);
    } else if i == 0 {
        vstd::arithmetic::div_mod::lemma_small_mod((len - 1) as nat, len as nat);
    } else {
        vstd::arithmetic::div_mod::lemma_mod_add_multiples_vanish(i - 1, len);
        vstd::arithmetic::div_mod::lemma_small_mod((i - 1) as nat, len as nat);
    }
}

/// A step stays within the cycle.
pub proof fn lemma_apply_in_range(direction: Direction, i: int, len: int)
    requires
        0 <= i < len,
    ensures
        0 <= direction.spec_apply(i, len) < len,
{
}

/// Stepping to the previous position and then to the next, or the other
/// way round, leads back to where one started.
pub proof fn lemma_apply_round_trip(i: int, len: int)
    requires
        0 <= i < len,
    ensures
        Direction::Right.spec_apply(Direction::Left.spec_apply(i, len), len) == i,
        Direction::Left.spec_apply(Direction::Right.spec_apply(i, len), len) == i,
{
    if len >= 2 {
        if i == 0 {
            assert((len - 1 + 1) % len == 0) by {
                vstd::arithmetic::div_mod::lemma_mod_self_0(len);
            }
        } else {
            vstd::arithmetic::div_mod::lemma_small_mod(i as nat, len as nat);
        }
        if i + 1 < len {
            vstd::arithmetic::div_mod::lemma_small_mod((i + 1) as nat, len as nat);
        } else {
            vstd::arithmetic::div_mod::lemma_mod_self_0(len);
        }
    }
}

/// `n` steps to the next position add `n` to the index, modulo the number
/// of positions.
pub proof fn lemma_next_times(i: int, len: int, n: nat)
    requires
        0 <= i < len,
    ensures
        apply_times(Direction::Right, i, len, n) == (if len < 2 {
            i
        } else {
            (i + n) % len
        }),
    decreases n,
{
    if n == 0 {
        if len >= 2 {
            vstd::arithmetic::div_mod::lemma_small_mod(i as nat, len as nat);
        }
    } else {
        lemma_next_times(i, len, (n - 1) as nat);
        if len >= 2 {
            vstd::arithmetic::div_mod::lemma_add_mod_noop(i + n - 1, 1, len);
            vstd::arithmetic::div_mod::lemma_small_mod(1, len as nat);
            vstd::arithmetic::div_mod::lemma_mod_twice(i + n - 1, len);
        }
    }
}

/// As many steps to the next position as there are positions lead back to
/// where one started.
pub proof fn lemma_next_full_cycle(i: int, len: int)
    requires
        0 <= i < len,
    ensures
        apply_times(Direction::Right, i, len, len as nat) == i,
{
    lemma_next_times(i, len, len as nat);
    if len >= 2 {
        vstd::arithmetic::div_mod::lemma_mod_add_multiples_vanish(i, len);
        vstd::arithmetic::div_mod::lemma_small_mod(i as nat, len as nat);
    }
}

/// A monitor: the handle by which the platform knows it, and its work
/// area, the part of it that windows may cover.
#[derive(Clone, Copy, Debug, PartialEq, Eq, Structural)]
pub struct MonitorInfo {
    pub handle: isize,
    pub work_area: Rect,
}

/// Whether a work area `a` stands before `b`, or together with it, in the
/// order of the desktop: left to right, and top to bottom among work areas
/// with the same left edge.
pub open spec fn spec_not_after(a: Rect, b: Rect) -> bool {
    a.left < b.left || (a.left == b.left && a.top <= b.top)
}

/// Compares two work areas by their left edge, then by their top edge.
#[verifier::when_used_as_spec(spec_not_after)]
pub fn not_after(a: Rect, b: Rect) -> (r: bool)
    ensures
        r == spec_not_after(a, b),
{
    a.left < b.left || (a.left == b.left && a.top <= b.top)
}

/// Where a monitor has to be put into a list in desktop order so that the
/// list stays in order and the monitor comes after every monitor that does
/// not stand after it.
pub open spec fn insert_position(list: Seq<MonitorInfo>, m: MonitorInfo) -> int
    decreases list.len(),
{
    if list.len() == 0 {
        0
    } else if not_after(list.last().work_area, m.work_area) {
        list.len() as int
    } else {
        insert_position(list.drop_last(), m)
    }
}

/// The monitors in desktop order. Monitors whose work areas have the same
/// left and top edge keep the order in which they were given.
pub open spec fn sort_by_origin(monitors: Seq<MonitorInfo>) -> Seq<MonitorInfo>
    decreases monitors.len(),
{
    if monitors.len() == 0 {
        Seq::empty()
    } else {
        let rest = sort_by_origin(monitors.drop_last());
        rest.insert(insert_position(rest, monitors.last()), monitors.last())
    }
}

/// Whether a list of monitors is in desktop order.
pub open spec fn in_desktop_order(list: Seq<MonitorInfo>) -> bool {
    forall|i: int, j: int|
        0 <= i < j < list.len() ==> not_after(
            (#[trigger] list[i]).work_area,
            (#[trigger] list[j]).work_area,
        )
}

/// Whether no two monitors of a list have the same work area.
pub open spec fn distinct_areas(list: Seq<MonitorInfo>) -> bool {
    forall|i: int, j: int|
        0 <= i < j < list.len() ==> (#[trigger] list[i]).work_area != (
        #[trigger] list[j]).work_area
}

/// The insert position splits the list: the monitor does not stand before
/// the one to its left, and stands before every one to its right.
pub proof fn lemma_insert_position(list: Seq<MonitorInfo>, m: MonitorInfo)
    ensures
        0 <= insert_position(list, m) <= list.len(),
        insert_position(list, m) > 0 ==> not_after(
            list[insert_position(list, m) - 1].work_area,
            m.work_area,
        ),
        forall|k: int|
            insert_position(list, m) <= k < list.len() ==> !not_after(
                (#[trigger] list[k]).work_area,
                m.work_area,
            ),
    decreases list.len(),
{
    if list.len() > 0 && !not_after(list.last().work_area, m.work_area) {
        let front = list.drop_last();
        lemma_insert_position(front, m);
        assert forall|k: int| insert_position(list, m) <= k < list.len() implies !not_after(
            (#[trigger] list[k]).work_area,
            m.work_area,
        ) by {
            if k < front.len() {
                assert(!not_after(front[k].work_area, m.work_area));
            }
        }
    }
}

/// Sorting keeps the monitors: the sorted list has the same length and the
/// same members, each as often as before, and it is in desktop order.
pub proof fn lemma_sort_by_origin(monitors: Seq<MonitorInfo>)
    ensures
        sort_by_origin(monitors).len() == monitors.len(),
        sort_by_origin(monitors).to_multiset() == monitors.to_multiset(),
        forall|m: MonitorInfo| sort_by_origin(monitors).contains(m) <==> monitors.contains(m),
        in_desktop_order(sort_by_origin(monitors)),
        distinct_areas(monitors) ==> distinct_areas(sort_by_origin(monitors)),
    decreases monitors.len(),
{
    broadcast use vstd::seq_lib::to_multiset_insert;
    broadcast use vstd::seq_lib::to_multiset_build;

    let sorted = sort_by_origin(monitors);
    if monitors.len() == 0 {
        assert(monitors =~= Seq::empty());
    } else {
        let front = monitors.drop_last();
        let last = monitors.last();
        let rest = sort_by_origin(front);
        let pos = insert_position(rest, last);
        lemma_sort_by_origin(front);
        lemma_insert_position(rest, last);
        assert(sorted == rest.insert(pos, last));
        assert(monitors =~= front.push(last));
        assert forall|m: MonitorInfo| sorted.contains(m) <==> monitors.contains(m) by {
            if sorted.contains(m) {
                let k = choose|k: int| 0 <= k < sorted.len() && sorted[k] == m;
                if k < pos {
                    assert(rest[k] == m);
                    assert(rest.contains(m));
                } else if k > pos {
                    assert(rest[k - 1] == m);
                    assert(rest.contains(m));
                }
                if rest.contains(m) {
                    assert(front.contains(m));
                    let j = choose|j: int| 0 <= j < front.len() && front[j] == m;
                    assert(monitors[j] == m);
                } else {
                    assert(monitors[monitors.len() - 1] == m);
                }
            }
            if monitors.contains(m) {
                let j = choose|j: int| 0 <= j < monitors.len() && monitors[j] == m;
                if j < front.len() {
                    assert(front[j] == m);
                    assert(front.contains(m));
                    assert(rest.contains(m));
                    let k = choose|k: int| 0 <= k < rest.len() && rest[k] == m;
                    if k < pos {
                        assert(sorted[k] == m);
                    } else {
                        assert(sorted[k + 1] == m);
                    }
                } else {
                    assert(sorted[pos] == m);
                }
            }
        }
        assert forall|i: int, j: int| 0 <= i < j < sorted.len() implies not_after(
            (#[trigger] sorted[i]).work_area,
            (#[trigger] sorted[j]).work_area,
        ) by {
            if j < pos {
                assert(not_after(rest[i].work_area, rest[j].work_area));
            } else if j == pos {
                if i < pos - 1 {
                    assert(not_after(rest[i].work_area, rest[pos - 1].work_area));
                }
            } else if i < pos {
                assert(not_after(rest[i].work_area, rest[j - 1].work_area));
            } else if i == pos {
                assert(!not_after(rest[j - 1].work_area, last.work_area));
            } else {
                assert(not_after(rest[i - 1].work_area, rest[j - 1].work_area));
            }
        }
        if distinct_areas(monitors) {
            assert(distinct_areas(front)) by {
                assert forall|i: int, j: int| 0 <= i < j < front.len() implies (
                #[trigger] front[i]).work_area != (#[trigger] front[j]).work_area by {
                    assert(monitors[i].work_area != monitors[j].work_area);
                }
            }
            assert forall|k: int| 0 <= k < rest.len() implies (#[trigger] rest[k]).work_area
                != last.work_area by {
                assert(rest.contains(rest[k]));
                assert(front.contains(rest[k]));
                let j = choose|j: int| 0 <= j < front.len() && front[j] == rest[k];
                assert(monitors[j].work_area != monitors[monitors.len() - 1].work_area);
            }
            assert forall|i: int, j: int| 0 <= i < j < sorted.len() implies (
            #[trigger] sorted[i]).work_area != (#[trigger] sorted[j]).work_area by {
                if j < pos {
                    assert(rest[i].work_area != rest[j].work_area);
                } else if j == pos {
                    assert(rest[i].work_area != last.work_area);
                } else if i < pos {
                    assert(rest[i].work_area != rest[j - 1].work_area);
                } else if i == pos {
                    assert(rest[j - 1].work_area != last.work_area);
                } else {
                    assert(rest[i - 1].work_area != rest[j - 1].work_area);
                }
            }
        }
    }
}

/// Where the monitor at position `i` of a list stands after sorting.
pub open spec fn sorted_index(monitors: Seq<MonitorInfo>, i: int) -> int
    decreases monitors.len(),
{
    if monitors.len() == 0 {
        0
    } else {
        let rest = sort_by_origin(monitors.drop_last());
        let pos = insert_position(rest, monitors.last());
        if i == monitors.len() - 1 {
            pos
        } else {
            let q = sorted_index(monitors.drop_last(), i);
            if q < pos {
                q
            } else {
                q + 1
            }
        }
    }
}

/// Sorting moves the monitor at position `i` to position
/// `sorted_index(monitors, i)`.
pub proof fn lemma_sorted_index(monitors: Seq<MonitorInfo>, i: int)
    requires
        0 <= i < monitors.len(),
    ensures
        0 <= sorted_index(monitors, i) < monitors.len(),
        sort_by_origin(monitors).len() == monitors.len(),
        sort_by_origin(monitors)[sorted_index(monitors, i)] == monitors[i],
    decreases monitors.len(),
{
    let front = monitors.drop_last();
    let rest = sort_by_origin(front);
    lemma_sort_by_origin(front);
    lemma_sort_by_origin(monitors);
    lemma_insert_position(rest, monitors.last());
    if i < monitors.len() - 1 {
        lemma_sorted_index(front, i);
    }
}

/// Sorting orders the monitors by the place of their work areas on the
/// desktop, and monitors whose work areas have the same left and top edge
/// by their place in the list: the sort is stable.
pub proof fn lemma_sort_is_stable(monitors: Seq<MonitorInfo>, i: int, j: int)
    requires
        0 <= i < monitors.len(),
        0 <= j < monitors.len(),
        !not_after(monitors[j].work_area, monitors[i].work_area) || (i < j && not_after(
            monitors[i].work_area,
            monitors[j].work_area,
        )),
    ensures
        sorted_index(monitors, i) < sorted_index(monitors, j),
    decreases monitors.len(),
{
    let front = monitors.drop_last();
    let last = monitors.last();
    let rest = sort_by_origin(front);
    let pos = insert_position(rest, last);
    let n = monitors.len() - 1;
    lemma_sort_by_origin(front);
    lemma_insert_position(rest, last);
    if i < n && j < n {
        lemma_sort_is_stable(front, i, j);
    } else if j == n {
        // The monitor at `i` does not stand after the last one, so it is
        // not among those that the last one is put in front of.
        lemma_sorted_index(front, i);
        let q = sorted_index(front, i);
        if q >= pos {
            assert(!not_after(rest[q].work_area, last.work_area));
        }
    } else {
        // The last monitor stands before the monitor at `j`, which is
        // therefore among those that the last one is put in front of.
        lemma_sorted_index(front, j);
        let q = sorted_index(front, j);
        if q < pos {
            assert(not_after(rest[pos - 1].work_area, last.work_area));
            if q < pos - 1 {
                assert(not_after(rest[q].work_area, rest[pos - 1].work_area));
            }
        }
    }
}

/// Puts the monitors into desktop order: ascending by the left edge of the
/// work area, then by its top edge. Monitors that agree in both keep their
/// order.
pub fn sort_monitors(monitors: &Vec<MonitorInfo>) -> (sorted: Vec<MonitorInfo>)
    ensures
        sorted@ == sort_by_origin(monitors@),
        sorted@.len() == monitors@.len(),
        in_desktop_order(sorted@),
        sorted@.to_multiset() == monitors@.to_multiset(),
{
    let mut sorted: Vec<MonitorInfo> = Vec::new();
    let mut i: usize = 0;
    while i < monitors.len()
        invariant
            i <= monitors.len(),
            sorted@ == sort_by_origin(monitors@.take(i as int)),
            sorted@.len() == i,
        decreases monitors.len() - i,
    {
        let m = monitors[i];
        let mut pos: usize = sorted.len();
        assert(sorted@.take(pos as int) =~= sorted@);
        while pos > 0 && !not_after(sorted[pos - 1].work_area, m.work_area)
            invariant
                pos <= sorted.len(),
                insert_position(sorted@, m) == insert_position(sorted@.take(pos as int), m),
            decreases pos,
        {
            proof {
                assert(sorted@.take(pos as int).drop_last() =~= sorted@.take(pos - 1));
            }
            pos -= 1;
        }
        proof {
            let prefix = monitors@.take(i + 1);
            assert(prefix.drop_last() =~= monitors@.take(i as int));
            assert(prefix.last() == m);
            lemma_sort_by_origin(prefix);
        }
        sorted.insert(pos, m);
        i += 1;
    }
    proof {
        assert(monitors@.take(i as int) =~= monitors@);
        lemma_sort_by_origin(monitors@);
    }
    sorted
}

/// Whether `i` is the first position of the list at which a monitor with
/// the given work area stands.
pub open spec fn is_position_of(list: Seq<MonitorInfo>, i: int, area: Rect) -> bool {
    &&& 0 <= i < list.len()
    &&& list[i].work_area == area
    &&& forall|j: int| 0 <= j < i ==> (#[trigger] list[j]).work_area != area
}

/// The first position of the list at which a monitor with the given work
/// area stands, if there is one.
pub open spec fn position_of(list: Seq<MonitorInfo>, area: Rect) -> Option<int> {
    if exists|i: int| is_position_of(list, i, area) {
        Some(choose|i: int| is_position_of(list, i, area))
    } else {
        None
    }
}

/// There is at most one first position.
pub proof fn lemma_position_unique(list: Seq<MonitorInfo>, i: int, j: int, area: Rect)
    requires
        is_position_of(list, i, area),
        is_position_of(list, j, area),
    ensures
        i == j,
        position_of(list, area) == Some(i),
{
    if i < j {
        assert(list[i].work_area != area);
    } else if j < i {
        assert(list[j].work_area != area);
    }
    let c = choose|c: int| is_position_of(list, c, area);
    if i < c {
        assert(list[i].work_area != area);
    } else if c < i {
        assert(list[c].work_area != area);
    }
}

/// Finds the first monitor of the list that has the given work area.
pub fn position(list: &Vec<MonitorInfo>, area: &Rect) -> (found: Option<usize>)
    ensures
        found == (match position_of(list@, *area) {
            Some(i) => Some(i as usize),
            None => None,
        }),
        found matches Some(i) ==> is_position_of(list@, i as int, *area),
        found is None <==> forall|i: int|
            0 <= i < list@.len() ==> (#[trigger] list@[i]).work_area != *area,
{
    let mut i: usize = 0;
    while i < list.len()
        invariant
            i <= list.len(),
            forall|j: int| 0 <= j < i ==> (#[trigger] list@[j]).work_area != *area,
        decreases list.len() - i,
    {
        if list[i].work_area == *area {
            proof {
                assert(is_position_of(list@, i as int, *area));
                lemma_position_unique(list@, i as int, i as int, *area);
            }
            return Some(i);
        }
        i += 1;
    }
    proof {
        assert forall|k: int| !is_position_of(list@, k, *area) by {
            if 0 <= k < list@.len() {
                assert(list@[k].work_area != *area);
            }
        }
    }
    None
}

/// The neighbour of `current` among the monitors: the monitors are put
/// into desktop order, the first one with the work area of `current` is
/// located, and the one next to it in the given direction is taken, with
/// the last monitor next to the first.
pub open spec fn spec_select_adjacent_monitor(
    monitors: Seq<MonitorInfo>,
    current: MonitorInfo,
    direction: Direction,
) -> Result<MonitorInfo, ActionError> {
    let sorted = sort_by_origin(monitors);
    match position_of(sorted, current.work_area) {
        Some(i) => Ok(sorted[direction.spec_apply(i, sorted.len() as int)]),
        None => Err(ActionError::NoMatchingMonitor),
    }
}

/// Selects the monitor next to `current` in desktop order. Fails with
/// [`ActionError::NoMatchingMonitor`] exactly when no monitor of the list
/// has the work area of `current`. With a single monitor that monitor is
/// its own neighbour.
pub fn select_adjacent_monitor(
    monitors: &Vec<MonitorInfo>,
    current: &MonitorInfo,
    direction: Direction,
) -> (neighbour: Result<MonitorInfo, ActionError>)
    ensures
        neighbour == spec_select_adjacent_monitor(monitors@, *current, direction),
        neighbour is Err <==> forall|i: int|
            0 <= i < monitors@.len() ==> (#[trigger] monitors@[i]).work_area
                != current.work_area,
        neighbour matches Err(e) ==> e == ActionError::NoMatchingMonitor,
        neighbour matches Ok(m) ==> monitors@.contains(m),
        neighbour matches Ok(m) ==> monitors@.len() == 1 ==> m == monitors@[0],
{
    let sorted = sort_monitors(monitors);
    proof {
        lemma_sort_by_origin(monitors@);
    }
    match position(&sorted, &current.work_area) {
        Some(i) => {
            let j = direction.apply(i, sorted.len());
            proof {
                assert(sorted@.contains(sorted@[j as int]));
                assert(monitors@.contains(sorted@[i as int])) by {
                    assert(sorted@.contains(sorted@[i as int]));
                }
                let k = choose|k: int|
                    0 <= k < monitors@.len() && monitors@[k] == sorted@[i as int];
                assert(monitors@[k].work_area == current.work_area);
                if monitors@.len() == 1 {
                    let k = choose|k: int|
                        0 <= k < monitors@.len() && monitors@[k] == sorted@[j as int];
                }
            }
            Ok(sorted[j])
        },
        None => {
            proof {
                assert forall|k: int| 0 <= k < monitors@.len() implies (
                #[trigger] monitors@[k]).work_area != current.work_area by {
                    assert(monitors@.contains(monitors@[k]));
                    assert(sorted@.contains(monitors@[k]));
                    let p = choose|p: int| 0 <= p < sorted@.len() && sorted@[p] == monitors@[k];
                    assert(sorted@[p].work_area != current.work_area);
                }
            }
            Err(ActionError::NoMatchingMonitor)
        },
    }
}

/// The monitor reached from `start` by selecting the neighbour `n` times in
/// one direction.
pub open spec fn select_times(
    monitors: Seq<MonitorInfo>,
    start: MonitorInfo,
    direction: Direction,
    n: nat,
) -> Result<MonitorInfo, ActionError>
    decreases n,
{
    if n == 0 {
        Ok(start)
    } else {
        match select_times(monitors, start, direction, (n - 1) as nat) {
            Ok(m) => spec_select_adjacent_monitor(monitors, m, direction),
            Err(e) => Err(e),
        }
    }
}

/// `n` steps in one direction stay within the cycle.
pub proof fn lemma_apply_times_in_range(direction: Direction, i: int, len: int, n: nat)
    requires
        0 <= i < len,
    ensures
        0 <= apply_times(direction, i, len, n) < len,
    decreases n,
{
    if n > 0 {
        lemma_apply_times_in_range(direction, i, len, (n - 1) as nat);
        lemma_apply_in_range(direction, apply_times(direction, i, len, (n - 1) as nat), len);
    }
}

/// Among monitors with pairwise different work areas, the neighbour of the
/// monitor at position `p` of the desktop order is the monitor at the
/// position one step away.
pub proof fn lemma_select_at(monitors: Seq<MonitorInfo>, p: int, direction: Direction)
    requires
        distinct_areas(monitors),
        0 <= p < monitors.len(),
    ensures
        spec_select_adjacent_monitor(monitors, sort_by_origin(monitors)[p], direction) == Ok::<
            MonitorInfo,
            ActionError,
        >(sort_by_origin(monitors)[direction.spec_apply(p, monitors.len() as int)]),
{
    let sorted = sort_by_origin(monitors);
    lemma_sort_by_origin(monitors);
    assert(is_position_of(sorted, p, sorted[p].work_area)) by {
        assert forall|j: int| 0 <= j < p implies (#[trigger] sorted[j]).work_area
            != sorted[p].work_area by {}
    }
    lemma_position_unique(sorted, p, p, sorted[p].work_area);
}

/// Among monitors with pairwise different work areas, selecting the next
/// monitor and then the previous one, or the other way round, gives the
/// monitor from which one started.
pub proof fn lemma_select_round_trip(monitors: Seq<MonitorInfo>, current: MonitorInfo)
    requires
        distinct_areas(monitors),
        monitors.contains(current),
    ensures
        spec_select_adjacent_monitor(monitors, current, Direction::Right) matches Ok(next)
            && spec_select_adjacent_monitor(monitors, next, Direction::Left) == Ok::<
            MonitorInfo,
            ActionError,
        >(current),
        spec_select_adjacent_monitor(monitors, current, Direction::Left) matches Ok(prev)
            && spec_select_adjacent_monitor(monitors, prev, Direction::Right) == Ok::<
            MonitorInfo,
            ActionError,
        >(current),
{
    let sorted = sort_by_origin(monitors);
    let len = monitors.len() as int;
    lemma_sort_by_origin(monitors);
    assert(sorted.contains(current));
    let p = choose|p: int| 0 <= p < sorted.len() && sorted[p] == current;
    lemma_apply_round_trip(p, len);
    lemma_apply_in_range(Direction::Right, p, len);
    lemma_apply_in_range(Direction::Left, p, len);
    lemma_select_at(monitors, p, Direction::Right);
    lemma_select_at(monitors, p, Direction::Left);
    lemma_select_at(monitors, Direction::Right.spec_apply(p, len), Direction::Left);
    lemma_select_at(monitors, Direction::Left.spec_apply(p, len), Direction::Right);
}

/// Among monitors with pairwise different work areas, `n` selections in
/// one direction from the monitor at position `p` of the desktop order
/// lead to the monitor `n` steps away.
pub proof fn lemma_select_times(
    monitors: Seq<MonitorInfo>,
    p: int,
    direction: Direction,
    n: nat,
)
    requires
        distinct_areas(monitors),
        0 <= p < monitors.len(),
    ensures
        select_times(monitors, sort_by_origin(monitors)[p], direction, n) == Ok::<
            MonitorInfo,
            ActionError,
        >(sort_by_origin(monitors)[apply_times(direction, p, monitors.len() as int, n)]),
    decreases n,
{
    if n > 0 {
        let len = monitors.len() as int;
        lemma_select_times(monitors, p, direction, (n - 1) as nat);
        lemma_apply_times_in_range(direction, p, len, (n - 1) as nat);
        lemma_select_at(monitors, apply_times(direction, p, len, (n - 1) as nat), direction);
    }
}

/// Among monitors with pairwise different work areas, selecting the next
/// monitor as many times as there are monitors leads back to the monitor
/// from which one started.
pub proof fn lemma_select_full_cycle(monitors: Seq<MonitorInfo>, current: MonitorInfo)
    requires
        distinct_areas(monitors),
        monitors.contains(current),
    ensures
        select_times(monitors, current, Direction::Right, monitors.len()) == Ok::<
            MonitorInfo,
            ActionError,
        >(current),
{
    let sorted = sort_by_origin(monitors);
    lemma_sort_by_origin(monitors);
    assert(sorted.contains(current));
    let p = choose|p: int| 0 <= p < sorted.len() && sorted[p] == current;
    lemma_select_times(monitors, p, Direction::Right, monitors.len());
    lemma_next_full_cycle(p, monitors.len() as int);
}

/// A window that arrives on a monitor covers the top-left quadrant of the
/// work area.
pub open spec fn landing(work_area: Rect) -> Rect {
    Rect::from_points(work_area.top_left(), work_area.center())
}

/// The rectangle that the window is to cover when it moves from the
/// monitor `current` to its neighbour.
pub open spec fn spec_move_to_adjacent_monitor(
    monitors: Seq<MonitorInfo>,
    current: MonitorInfo,
    direction: Direction,
) -> Result<Rect, ActionError> {
    match spec_select_adjacent_monitor(monitors, current, direction) {
        Ok(m) => Ok(landing(m.work_area)),
        Err(e) => Err(e),
    }
}

/// Plans the move of a window from the monitor `current` to its neighbour
/// in the given direction: returns the rectangle that the window is to
/// cover there.
pub fn move_to_adjacent_monitor(
    monitors: &Vec<MonitorInfo>,
    current: &MonitorInfo,
    direction: Direction,
) -> (target: Result<Rect, ActionError>)
    ensures
        target == spec_move_to_adjacent_monitor(monitors@, *current, direction),
        target is Err <==> forall|i: int|
            0 <= i < monitors@.len() ==> (#[trigger] monitors@[i]).work_area
                != current.work_area,
        target matches Err(e) ==> e == ActionError::NoMatchingMonitor,
{
    match select_adjacent_monitor(monitors, current, direction) {
        Ok(m) => Ok(top_left(&m.work_area)),
        Err(e) => Err(e),
    }
}

/// Plans the move of a window to the next monitor in desktop order.
pub fn move_to_next_monitor(monitors: &Vec<MonitorInfo>, current: &MonitorInfo) -> (target: Result<
    Rect,
    ActionError,
>)
    ensures
        target == spec_move_to_adjacent_monitor(monitors@, *current, Direction::Right),
        target is Err <==> forall|i: int|
            0 <= i < monitors@.len() ==> (#[trigger] monitors@[i]).work_area
                != current.work_area,
{
    move_to_adjacent_monitor(monitors, current, Direction::Right)
}

/// Plans the move of a window to the previous monitor in desktop order.
pub fn move_to_prev_monitor(monitors: &Vec<MonitorInfo>, current: &MonitorInfo) -> (target: Result<
    Rect,
    ActionError,
>)
    ensures
        target == spec_move_to_adjacent_monitor(monitors@, *current, Direction::Left),
        target is Err <==> forall|i: int|
            0 <= i < monitors@.len() ==> (#[trigger] monitors@[i]).work_area
                != current.work_area,
{
    move_to_adjacent_monitor(monitors, current, Direction::Left)
}

/// The key combinations that move a window between monitors.
pub open spec fn monitor_bindings() -> Seq<HotkeyActionView> {
    seq![
        HotkeyActionView {
            name: "Move Next"@,
            action: Action::MoveNextMonitor,
            trigger: set![VK::LeftWindows, VK::Numpad5],
        },
        HotkeyActionView {
            name: "Move Next"@,
            action: Action::MoveNextMonitor,
            trigger: set![VK::LeftWindows, VK::Right],
        },
        HotkeyActionView {
            name: "Move Prev"@,
            action: Action::MovePrevMonitor,
            trigger: set![VK::LeftWindows, VK::Clear],
        },
        HotkeyActionView {
            name: "Move Prev"@,
            action: Action::MovePrevMonitor,
            trigger: set![VK::LeftWindows, VK::Left],
        },
    ]
}

/// Appends the bindings of [`monitor_bindings`] to a list, in their order.
pub fn add_actions(actions: &mut Vec<HotkeyAction>)
    ensures
        views(final(actions)@) == views(old(actions)@) + monitor_bindings(),
{
    let k0 = [VK::LeftWindows, VK::Numpad5];
    let k1 = [VK::LeftWindows, VK::Right];
    let k2 = [VK::LeftWindows, VK::Clear];
    let k3 = [VK::LeftWindows, VK::Left];
    proof {
        assert(k0@.to_set() =~= set![VK::LeftWindows, VK::Numpad5]);
        assert(k1@.to_set() =~= set![VK::LeftWindows, VK::Right]);
        assert(k2@.to_set() =~= set![VK::LeftWindows, VK::Clear]);
        assert(k3@.to_set() =~= set![VK::LeftWindows, VK::Left]);
    }
    register(actions, "Move Next", Action::MoveNextMonitor, &k0);
    register(actions, "Move Next", Action::MoveNextMonitor, &k1);
    register(actions, "Move Prev", Action::MovePrevMonitor, &k2);
    register(actions, "Move Prev", Action::MovePrevMonitor, &k3);
    assert(views(actions@) =~= views(old(actions)@) + monitor_bindings());
}

} // verus!
