//! Where a window goes: the halves and quadrants of a work area, the
//! compensation for a window's invisible frame, and the table of key
//! combinations bound to these placements.

use crate::cardinal::{Point, Rect};
use crate::hotkey_action::{register, views, Action, HotkeyAction, HotkeyActionView};
use crate::virtual_key::VK;
use vstd::prelude::*;

verus! {

/// The offsets between a window's raw bounding rectangle and the bounds of
/// the frame that is actually drawn. Each field is the raw edge minus the
/// drawn edge.
#[derive(Clone, Copy, Debug, PartialEq, Eq, Structural)]
pub struct WindowMargin {
    pub left: i32,
    pub top: i32,
    pub right: i32,
    pub bottom: i32,
}

/// A request to move and resize a window: the position of its raw top-left
/// corner and its raw extent.
#[derive(Clone, Copy, Debug, PartialEq, Eq, Structural)]
pub struct WindowPos {
    pub x: i32,
    pub y: i32,
    pub cx: i32,
    pub cy: i32,
}

/// Whether a mathematical integer is a 32-bit coordinate.
pub open spec fn fits_i32(v: int) -> bool {
    i32::MIN <= v <= i32::MAX
}

/// Narrows a 64-bit intermediate result to a coordinate.
fn narrow(v: i64) -> (r: Option<i32>)
    ensures
        r == (if fits_i32(v as int) {
            Some(v as i32)
        } else {
            None
        }),
{
    if -0x8000_0000 <= v && v <= 0x7fff_ffff {
        Some(v as i32)
    } else {
        None
    }
}

/// Whether the margin between the two rectangles can be written in 32-bit
/// coordinates.
pub open spec fn margin_fits(window_rect: Rect, frame: Rect) -> bool {
    &&& fits_i32(window_rect.left - frame.left)
    &&& fits_i32(window_rect.top - frame.top)
    &&& fits_i32(window_rect.right - frame.right)
    &&& fits_i32(window_rect.bottom - frame.bottom)
}

/// The margin of a window: its raw rectangle minus its drawn frame, edge
/// by edge.
pub open spec fn spec_margin(window_rect: Rect, frame: Rect) -> WindowMargin {
    WindowMargin {
        left: (window_rect.left - frame.left) as i32,
        top: (window_rect.top - frame.top) as i32,
        right: (window_rect.right - frame.right) as i32,
        bottom: (window_rect.bottom - frame.bottom) as i32,
    }
}

/// Computes the margin of a window from its raw rectangle and the bounds
/// of its drawn frame. Returns `None` exactly when one of the four
/// differences is not a 32-bit coordinate.
pub fn calculate_margin(window_rect: &Rect, extended_frame_bounds: &Rect) -> (m: Option<
    WindowMargin,
>)
    ensures
        m == (if margin_fits(*window_rect, *extended_frame_bounds) {
            Some(spec_margin(*window_rect, *extended_frame_bounds))
        } else {
            None
        }),
        m matches Some(margin) ==> {
            &&& margin.left == window_rect.left - extended_frame_bounds.left
            &&& margin.top == window_rect.top - extended_frame_bounds.top
            &&& margin.right == window_rect.right - extended_frame_bounds.right
            &&& margin.bottom == window_rect.bottom - extended_frame_bounds.bottom
        },
{
    let left = narrow(window_rect.left as i64 - extended_frame_bounds.left as i64);
    let top = narrow(window_rect.top as i64 - extended_frame_bounds.top as i64);
    let right = narrow(window_rect.right as i64 - extended_frame_bounds.right as i64);
    let bottom = narrow(window_rect.bottom as i64 - extended_frame_bounds.bottom as i64);
    match (left, top, right, bottom) {
        (Some(left), Some(top), Some(right), Some(bottom)) => Some(
            WindowMargin { left, top, right, bottom },
        ),
        _ => None,
    }
}

/// The raw left coordinate that puts the drawn left edge on `position.left`.
pub open spec fn placed_x(position: Rect, margin: WindowMargin) -> int {
    position.left + margin.left
}

/// The raw top coordinate that puts the drawn top edge on `position.top`.
pub open spec fn placed_y(position: Rect, margin: WindowMargin) -> int {
    position.top + margin.top
}

/// The raw width that makes the drawn frame as wide as `position`.
pub open spec fn placed_cx(position: Rect, margin: WindowMargin) -> int {
    position.spec_width() + margin.right - margin.left
}

/// The raw height that makes the drawn frame as high as `position`.
pub open spec fn placed_cy(position: Rect, margin: WindowMargin) -> int {
    position.spec_height() + margin.bottom - margin.top
}

/// Whether the compensated placement can be written in 32-bit coordinates.
pub open spec fn placement_fits(position: Rect, margin: WindowMargin) -> bool {
    &&& fits_i32(placed_x(position, margin))
    &&& fits_i32(placed_y(position, margin))
    &&& fits_i32(placed_cx(position, margin))
    &&& fits_i32(placed_cy(position, margin))
}

/// The compensated placement of a window on `position`.
pub open spec fn spec_window_pos(position: Rect, margin: WindowMargin) -> WindowPos {
    WindowPos {
        x: placed_x(position, margin) as i32,
        y: placed_y(position, margin) as i32,
        cx: placed_cx(position, margin) as i32,
        cy: placed_cy(position, margin) as i32,
    }
}

/// Computes where a window's raw rectangle has to go so that its drawn
/// frame, not its invisible resize border, covers `position`. Returns
/// `None` exactly when one of the four results is not a 32-bit coordinate.
pub fn set_window_rect(position: &Rect, margin: &WindowMargin) -> (pos: Option<WindowPos>)
    ensures
        pos == (if placement_fits(*position, *margin) {
            Some(spec_window_pos(*position, *margin))
        } else {
            None
        }),
        pos matches Some(p) ==> {
            &&& p.x == position.left + margin.left
            &&& p.y == position.top + margin.top
            &&& p.cx == (position.right - position.left) + margin.right - margin.left
            &&& p.cy == (position.bottom - position.top) + margin.bottom - margin.top
        },
{
    let x = narrow(position.left as i64 + margin.left as i64);
    let y = narrow(position.top as i64 + margin.top as i64);
    let cx = narrow(
        position.right as i64 - position.left as i64 + margin.right as i64 - margin.left as i64,
    );
    let cy = narrow(
        position.bottom as i64 - position.top as i64 + margin.bottom as i64 - margin.top as i64,
    );
    match (x, y, cx, cy) {
        (Some(x), Some(y), Some(cx), Some(cy)) => Some(WindowPos { x, y, cx, cy }),
        _ => None,
    }
}

/// With the margin the window reports, the drawn frame of a window placed
/// by [`set_window_rect`] lands exactly on the requested rectangle.
pub proof fn lemma_drawn_frame_on_target(position: Rect, margin: WindowMargin)
    ensures
        placed_x(position, margin) - margin.left == position.left,
        placed_y(position, margin) - margin.top == position.top,
        placed_x(position, margin) + placed_cx(position, margin) - margin.right == position.right,
        placed_y(position, margin) + placed_cy(position, margin) - margin.bottom
            == position.bottom,
{
}

/// Where the cursor goes once a window covers `target`: to the center of
/// the rectangle, unless it is in the rectangle already. `None` says that
/// the cursor stays where it is.
pub open spec fn spec_recenter(target: Rect, cursor: Point) -> Option<Point> {
    if target.contains(cursor) {
        None
    } else {
        Some(target.center())
    }
}

/// Decides whether the cursor follows a window to its new rectangle. A
/// cursor that is in the rectangle already is left alone, so that placing
/// a window under the cursor does not make the cursor jump.
#[verifier::when_used_as_spec(spec_recenter)]
pub fn recenter(target: Rect, cursor: Point) -> (to: Option<Point>)
    ensures
        to == spec_recenter(target, cursor),
        to is None <==> target.contains(cursor),
        to matches Some(p) ==> p == target.center(),
{
    if target.contains(cursor) {
        None
    } else {
        Some(target.center())
    }
}

/// The top-left quadrant of a work area.
pub fn top_left(work_area: &Rect) -> (r: Rect)
    ensures
        r == Rect::from_points(work_area.top_left(), work_area.center()),
        work_area.is_normalized() ==> r == (Rect {
            left: work_area.left,
            top: work_area.top,
            right: work_area.center().x,
            bottom: work_area.center().y,
        }),
{
    Rect::from_points(work_area.top_left(), work_area.center())
}

/// The top-right quadrant of a work area.
pub fn top_right(work_area: &Rect) -> (r: Rect)
    ensures
        r == Rect::from_points(work_area.top_right(), work_area.center()),
        work_area.is_normalized() ==> r == (Rect {
            left: work_area.center().x,
            top: work_area.top,
            right: work_area.right,
            bottom: work_area.center().y,
        }),
{
    Rect::from_points(work_area.top_right(), work_area.center())
}

/// The bottom-left quadrant of a work area.
pub fn bottom_left(work_area: &Rect) -> (r: Rect)
    ensures
        r == Rect::from_points(work_area.bottom_left(), work_area.center()),
        work_area.is_normalized() ==> r == (Rect {
            left: work_area.left,
            top: work_area.center().y,
            right: work_area.center().x,
            bottom: work_area.bottom,
        }),
{
    Rect::from_points(work_area.bottom_left(), work_area.center())
}

/// The bottom-right quadrant of a work area.
pub fn bottom_right(work_area: &Rect) -> (r: Rect)
    ensures
        r == Rect::from_points(work_area.bottom_right(), work_area.center()),
        work_area.is_normalized() ==> r == (Rect {
            left: work_area.center().x,
            top: work_area.center().y,
            right: work_area.right,
            bottom: work_area.bottom,
        }),
{
    Rect::from_points(work_area.bottom_right(), work_area.center())
}

/// The left half of a work area: from its top-left corner to the midpoint
/// of its bottom edge.
pub fn west(work_area: &Rect) -> (r: Rect)
    ensures
        r == Rect::from_points(work_area.top_left(), work_area.south()),
        work_area.is_normalized() ==> r == (Rect {
            left: work_area.left,
            top: work_area.top,
            right: work_area.center().x,
            bottom: work_area.bottom,
        }),
{
    Rect::from_points(work_area.top_left(), work_area.south())
}

/// The right half of a work area: from its top-right corner to the
/// midpoint of its bottom edge.
pub fn east(work_area: &Rect) -> (r: Rect)
    ensures
        r == Rect::from_points(work_area.top_right(), work_area.south()),
        work_area.is_normalized() ==> r == (Rect {
            left: work_area.center().x,
            top: work_area.top,
            right: work_area.right,
            bottom: work_area.bottom,
        }),
{
    Rect::from_points(work_area.top_right(), work_area.south())
}

/// The upper half of a work area: from its top-left corner to the midpoint
/// of its right edge.
pub fn north(work_area: &Rect) -> (r: Rect)
    ensures
        r == Rect::from_points(work_area.top_left(), work_area.east()),
        work_area.is_normalized() ==> r == (Rect {
            left: work_area.left,
            top: work_area.top,
            right: work_area.right,
            bottom: work_area.center().y,
        }),
{
    Rect::from_points(work_area.top_left(), work_area.east())
}

/// The lower half of a work area: from its bottom-left corner to the
/// midpoint of its right edge.
pub fn south(work_area: &Rect) -> (r: Rect)
    ensures
        r == Rect::from_points(work_area.bottom_left(), work_area.east()),
        work_area.is_normalized() ==> r == (Rect {
            left: work_area.left,
            top: work_area.center().y,
            right: work_area.right,
            bottom: work_area.bottom,
        }),
{
    Rect::from_points(work_area.bottom_left(), work_area.east())
}

/// Whether `needle` stands in `hay` at offset `at`.
pub open spec fn occurs_at(needle: Seq<u8>, hay: Seq<u8>, at: int) -> bool {
    &&& 0 <= at
    &&& at + needle.len() <= hay.len()
    &&& forall|k: int| 0 <= k < needle.len() ==> hay[at + k] == needle[k]
}

/// Whether `needle` stands somewhere in `hay`.
pub open spec fn occurs_in(needle: Seq<u8>, hay: Seq<u8>) -> bool {
    exists|at: int| occurs_at(needle, hay, at)
}

/// Whether the path of an executable holds one of the excluded names. Both
/// are compared as UTF-8 text, byte by byte.
pub open spec fn spec_is_excluded(executable: Seq<char>, exclusions: Seq<Seq<char>>) -> bool {
    exists|i: int|
        0 <= i < exclusions.len() && occurs_in(
            vstd::utf8::encode_utf8(#[trigger] exclusions[i]),
            vstd::utf8::encode_utf8(executable),
        )
}

/// Tests whether `needle` stands in `hay` at offset `at`.
fn matches_at(needle: &[u8], hay: &[u8], at: usize) -> (found: bool)
    requires
        at + needle@.len() <= hay@.len(),
    ensures
        found == occurs_at(needle@, hay@, at as int),
{
    let hay_len = hay.len();
    let mut k: usize = 0;
    while k < needle.len()
        invariant
            k <= needle@.len(),
            hay_len == hay@.len(),
            at + needle@.len() <= hay@.len(),
            forall|j: int| 0 <= j < k ==> hay@[at + j] == needle@[j],
        decreases needle.len() - k,
    {
        if hay[at + k] != needle[k] {
            return false;
        }
        k += 1;
    }
    true
}

/// Tests whether one text stands somewhere in another.
pub fn contains_text(hay: &str, needle: &str) -> (found: bool)
    ensures
        found == occurs_in(vstd::utf8::encode_utf8(needle@), vstd::utf8::encode_utf8(hay@)),
{
    let hay_bytes = hay.as_bytes();
    let needle_bytes = needle.as_bytes();
    if needle_bytes.len() > hay_bytes.len() {
        assert forall|at: int| !occurs_at(needle_bytes@, hay_bytes@, at) by {}
        return false;
    }
    let last: usize = hay_bytes.len() - needle_bytes.len();
    let mut at: usize = 0;
    loop
        invariant
            last == hay_bytes@.len() - needle_bytes@.len(),
            hay_bytes@ == vstd::utf8::encode_utf8(hay@),
            needle_bytes@ == vstd::utf8::encode_utf8(needle@),
            at <= last,
            forall|j: int| 0 <= j < at ==> !occurs_at(needle_bytes@, hay_bytes@, j),
        decreases last - at,
    {
        if matches_at(needle_bytes, hay_bytes, at) {
            return true;
        }
        if at == last {
            assert forall|j: int| !occurs_at(needle_bytes@, hay_bytes@, j) by {}
            return false;
        }
        at += 1;
    }
}

/// Decides whether the program that owns a window is excluded from an
/// action: it is, if the path of its executable holds one of the names of
/// the exclusion list.
pub fn is_excluded(executable: &str, exclusions: &Vec<String>) -> (excluded: bool)
    ensures
        excluded == spec_is_excluded(executable@, exclusions@.map_values(|name: String| name@)),
{
    let ghost names = exclusions@.map_values(|name: String| name@);
    let mut i: usize = 0;
    while i < exclusions.len()
        invariant
            i <= exclusions.len(),
            names == exclusions@.map_values(|name: String| name@),
            forall|j: int|
                0 <= j < i ==> !occurs_in(
                    vstd::utf8::encode_utf8(#[trigger] names[j]),
                    vstd::utf8::encode_utf8(executable@),
                ),
        decreases exclusions.len() - i,
    {
        if contains_text(executable, exclusions[i].as_str()) {
            assert(names[i as int] == exclusions@[i as int]@);
            return true;
        }
        assert(names[i as int] == exclusions@[i as int]@);
        i += 1;
    }
    false
}

/// The key combinations that place, maximize, minimize or lower the
/// foreground window. Each placement can be reached from the number pad
/// and from the digit row.
pub open spec fn window_bindings() -> Seq<HotkeyActionView> {
    seq![
        HotkeyActionView {
            name: "Top Left"@,
            action: Action::MonitorTopLeft,
            trigger: set![VK::LeftWindows, VK::Numpad7],
        },
        HotkeyActionView {
            name: "Top Left"@,
            action: Action::MonitorTopLeft,
            trigger: set![VK::LeftWindows, VK::N1],
        },
        HotkeyActionView {
            name: "Top Right"@,
            action: Action::MonitorTopRight,
            trigger: set![VK::LeftWindows, VK::Numpad9],
        },
        HotkeyActionView {
            name: "Top Right"@,
            action: Action::MonitorTopRight,
            trigger: set![VK::LeftWindows, VK::N2],
        },
        HotkeyActionView {
            name: "Bottom Left"@,
            action: Action::MonitorBottomLeft,
            trigger: set![VK::LeftWindows, VK::Numpad1],
        },
        HotkeyActionView {
            name: "Bottom Left"@,
            action: Action::MonitorBottomLeft,
            trigger: set![VK::LeftWindows, VK::N3],
        },
        HotkeyActionView {
            name: "Bottom Right"@,
            action: Action::MonitorBottomRight,
            trigger: set![VK::LeftWindows, VK::Numpad3],
        },
        HotkeyActionView {
            name: "Bottom Right"@,
            action: Action::MonitorBottomRight,
            trigger: set![VK::LeftWindows, VK::N4],
        },
        HotkeyActionView {
            name: "West"@,
            action: Action::MonitorLeft,
            trigger: set![VK::LeftWindows, VK::Numpad4],
        },
        HotkeyActionView {
            name: "West"@,
            action: Action::MonitorLeft,
            trigger: set![VK::LeftWindows, VK::N7],
        },
        HotkeyActionView {
            name: "East"@,
            action: Action::MonitorRight,
            trigger: set![VK::LeftWindows, VK::Numpad6],
        },
        HotkeyActionView {
            name: "East"@,
            action: Action::MonitorRight,
            trigger: set![VK::LeftWindows, VK::N8],
        },
        HotkeyActionView {
            name: "North"@,
            action: Action::MonitorTop,
            trigger: set![VK::LeftWindows, VK::Numpad8],
        },
        HotkeyActionView {
            name: "North"@,
            action: Action::MonitorTop,
            trigger: set![VK::LeftWindows, VK::N5],
        },
        HotkeyActionView {
            name: "South"@,
            action: Action::MonitorBottom,
            trigger: set![VK::LeftWindows, VK::Numpad2],
        },
        HotkeyActionView {
            name: "South"@,
            action: Action::MonitorBottom,
            trigger: set![VK::LeftWindows, VK::N6],
        },
        HotkeyActionView {
            name: "Maximize"@,
            action: Action::Maximize,
            trigger: set![VK::LeftWindows, VK::Up],
        },
        HotkeyActionView {
            name: "Minimize"@,
            action: Action::Minimize,
            trigger: set![VK::LeftWindows, VK::Down],
        },
        HotkeyActionView {
            name: "Clear Topmost Flag"@,
            action: Action::ClearTop,
            trigger: set![VK::LeftWindows, VK::LeftShift, VK::Z],
        },
    ]
}

/// Appends the bindings of [`window_bindings`] to a list, in their order.
pub fn add_actions(actions: &mut Vec<HotkeyAction>)
    ensures
        views(final(actions)@) == views(old(actions)@) + window_bindings(),
{
    let k0 = [VK::LeftWindows, VK::Numpad7];
    let k1 = [VK::LeftWindows, VK::N1];
    let k2 = [VK::LeftWindows, VK::Numpad9];
    let k3 = [VK::LeftWindows, VK::N2];
    let k4 = [VK::LeftWindows, VK::Numpad1];
    let k5 = [VK::LeftWindows, VK::N3];
    let k6 = [VK::LeftWindows, VK::Numpad3];
    let k7 = [VK::LeftWindows, VK::N4];
    let k8 = [VK::LeftWindows, VK::Numpad4];
    let k9 = [VK::LeftWindows, VK::N7];
    let k10 = [VK::LeftWindows, VK::Numpad6];
    let k11 = [VK::LeftWindows, VK::N8];
    let k12 = [VK::LeftWindows, VK::Numpad8];
    let k13 = [VK::LeftWindows, VK::N5];
    let k14 = [VK::LeftWindows, VK::Numpad2];
    let k15 = [VK::LeftWindows, VK::N6];
    let k16 = [VK::LeftWindows, VK::Up];
    let k17 = [VK::LeftWindows, VK::Down];
    let k18 = [VK::LeftWindows, VK::LeftShift, VK::Z];
    proof {
        assert(k0@.to_set() =~= set![VK::LeftWindows, VK::Numpad7]);
        assert(k1@.to_set() =~= set![VK::LeftWindows, VK::N1]);
        assert(k2@.to_set() =~= set![VK::LeftWindows, VK::Numpad9]);
        assert(k3@.to_set() =~= set![VK::LeftWindows, VK::N2]);
        assert(k4@.to_set() =~= set![VK::LeftWindows, VK::Numpad1]);
        assert(k5@.to_set() =~= set![VK::LeftWindows, VK::N3]);
        assert(k6@.to_set() =~= set![VK::LeftWindows, VK::Numpad3]);
        assert(k7@.to_set() =~= set![VK::LeftWindows, VK::N4]);
        assert(k8@.to_set() =~= set![VK::LeftWindows, VK::Numpad4]);
        assert(k9@.to_set() =~= set![VK::LeftWindows, VK::N7]);
        assert(k10@.to_set() =~= set![VK::LeftWindows, VK::Numpad6]);
        assert(k11@.to_set() =~= set![VK::LeftWindows, VK::N8]);
        assert(k12@.to_set() =~= set![VK::LeftWindows, VK::Numpad8]);
        assert(k13@.to_set() =~= set![VK::LeftWindows, VK::N5]);
        assert(k14@.to_set() =~= set![VK::LeftWindows, VK::Numpad2]);
        assert(k15@.to_set() =~= set![VK::LeftWindows, VK::N6]);
        assert(k16@.to_set() =~= set![VK::LeftWindows, VK::Up]);
        assert(k17@.to_set() =~= set![VK::LeftWindows, VK::Down]);
        assert(k18@.to_set() =~= set![VK::LeftWindows, VK::LeftShift, VK::Z]);
    }
    register(actions, "Top Left", Action::MonitorTopLeft, &k0);
    register(actions, "Top Left", Action::MonitorTopLeft, &k1);
    register(actions, "Top Right", Action::MonitorTopRight, &k2);
    register(actions, "Top Right", Action::MonitorTopRight, &k3);
    register(actions, "Bottom Left", Action::MonitorBottomLeft, &k4);
    register(actions, "Bottom Left", Action::MonitorBottomLeft, &k5);
    register(actions, "Bottom Right", Action::MonitorBottomRight, &k6);
    register(actions, "Bottom Right", Action::MonitorBottomRight, &k7);
    register(actions, "West", Action::MonitorLeft, &k8);
    register(actions, "West", Action::MonitorLeft, &k9);
    register(actions, "East", Action::MonitorRight, &k10);
    register(actions, "East", Action::MonitorRight, &k11);
    register(actions, "North", Action::MonitorTop, &k12);
    register(actions, "North", Action::MonitorTop, &k13);
    register(actions, "South", Action::MonitorBottom, &k14);
    register(actions, "South", Action::MonitorBottom, &k15);
    register(actions, "Maximize", Action::Maximize, &k16);
    register(actions, "Minimize", Action::Minimize, &k17);
    register(actions, "Clear Topmost Flag", Action::ClearTop, &k18);
    assert(views(actions@) =~= views(old(actions)@) + window_bindings());
}

} // verus!
