//! Actions, the key combinations that trigger them, and the registry that
//! finds the action for the keys that are held.

use crate::cardinal::Rect;
use crate::key_set::KeySet;
use crate::window_actions::{
    bottom_left, bottom_right, east, fits_i32, north, south, top_left, top_right, west,
};
use vstd::prelude::*;
use vstd::std_specs::cmp::PartialEqSpecImpl;

pub use crate::virtual_key::VK;

verus! {

/// What a key combination does to the foreground window.
#[derive(Clone, Copy, Debug, PartialEq, Eq, Structural)]
pub enum Action {
    /// Put the window below all windows that stay on top, without moving it.
    ClearTop,
    Maximize,
    Minimize,
    /// Lower half of the monitor's work area.
    MonitorBottom,
    MonitorBottomLeft,
    MonitorBottomRight,
    /// Left half of the monitor's work area.
    MonitorLeft,
    /// Right half of the monitor's work area.
    MonitorRight,
    /// Upper half of the monitor's work area.
    MonitorTop,
    MonitorTopLeft,
    MonitorTopRight,
    MoveNextMonitor,
    MovePrevMonitor,
    /// A fixed rectangle on the virtual desktop.
    OnDesktop { x: i32, y: i32, w: i32, h: i32 },
    /// The monitor's work area, shifted by `(x, y)` and grown by `(w, h)`.
    OnMonitor { x: i32, y: i32, w: i32, h: i32 },
}

impl Action {
    /// Whether the action places the window on a rectangle computed from
    /// the work area of its monitor.
    pub open spec fn spec_is_placement(&self) -> bool {
        match *self {
            Action::ClearTop
            | Action::Maximize
            | Action::Minimize
            | Action::MoveNextMonitor
            | Action::MovePrevMonitor => false,
            _ => true,
        }
    }

    /// The rectangle on which a placement action puts the window, given the
    /// work area of the window's monitor. `None` for the other actions, and
    /// for a placement whose edges are not 32-bit coordinates.
    pub open spec fn spec_target_rect(&self, work_area: Rect) -> Option<Rect> {
        match *self {
            Action::MonitorBottom => Some(
                Rect::from_points(work_area.bottom_left(), work_area.east()),
            ),
            Action::MonitorBottomLeft => Some(
                Rect::from_points(work_area.bottom_left(), work_area.center()),
            ),
            Action::MonitorBottomRight => Some(
                Rect::from_points(work_area.bottom_right(), work_area.center()),
            ),
            Action::MonitorLeft => Some(
                Rect::from_points(work_area.top_left(), work_area.south()),
            ),
            Action::MonitorRight => Some(
                Rect::from_points(work_area.top_right(), work_area.south()),
            ),
            Action::MonitorTop => Some(Rect::from_points(work_area.top_left(), work_area.east())),
            Action::MonitorTopLeft => Some(
                Rect::from_points(work_area.top_left(), work_area.center()),
            ),
            Action::MonitorTopRight => Some(
                Rect::from_points(work_area.top_right(), work_area.center()),
            ),
            Action::OnDesktop { x, y, w, h } => if fits_i32(x + w) && fits_i32(y + h) {
                Some(Rect { left: x, top: y, right: (x + w) as i32, bottom: (y + h) as i32 })
            } else {
                None
            },
            Action::OnMonitor { x, y, w, h } => if fits_i32(work_area.left + x) && fits_i32(
                work_area.top + y,
            ) && fits_i32(work_area.right + x + w) && fits_i32(work_area.bottom + y + h) {
                Some(
                    Rect {
                        left: (work_area.left + x) as i32,
                        top: (work_area.top + y) as i32,
                        right: (work_area.right + x + w) as i32,
                        bottom: (work_area.bottom + y + h) as i32,
                    },
                )
            } else {
                None
            },
            _ => None,
        }
    }

    /// Whether the action places the window on a computed rectangle.
    #[verifier::when_used_as_spec(spec_is_placement)]
    pub fn is_placement(&self) -> (b: bool)
        ensures
            b == self.spec_is_placement(),
    {
        match self {
            Action::ClearTop
            | Action::Maximize
            | Action::Minimize
            | Action::MoveNextMonitor
            | Action::MovePrevMonitor => false,
            _ => true,
        }
    }

    /// Computes the rectangle on which the action puts the window.
    pub fn target_rect(&self, work_area: &Rect) -> (target: Option<Rect>)
        ensures
            target == self.spec_target_rect(*work_area),
            target is Some ==> self.is_placement(),
    {
        match *self {
            Action::MonitorBottom => Some(south(work_area)),
            Action::MonitorBottomLeft => Some(bottom_left(work_area)),
            Action::MonitorBottomRight => Some(bottom_right(work_area)),
            Action::MonitorLeft => Some(west(work_area)),
            Action::MonitorRight => Some(east(work_area)),
            Action::MonitorTop => Some(north(work_area)),
            Action::MonitorTopLeft => Some(top_left(work_area)),
            Action::MonitorTopRight => Some(top_right(work_area)),
            Action::OnDesktop { x, y, w, h } => {
                match (x.checked_add(w), y.checked_add(h)) {
                    (Some(right), Some(bottom)) => Some(Rect { left: x, top: y, right, bottom }),
                    _ => None,
                }
            },
            Action::OnMonitor { x, y, w, h } => {
                let left = work_area.left.checked_add(x);
                let top = work_area.top.checked_add(y);
                let right = offset(work_area.right, x, w);
                let bottom = offset(work_area.bottom, y, h);
                match (left, top, right, bottom) {
                    (Some(left), Some(top), Some(right), Some(bottom)) => Some(
                        Rect { left, top, right, bottom },
                    ),
                    _ => None,
                }
            },
            _ => None,
        }
    }
}

/// `edge + shift + grow` where that is a 32-bit coordinate. The sum is
/// formed in 64 bits, so an intermediate result may leave the 32-bit range.
fn offset(edge: i32, shift: i32, grow: i32) -> (r: Option<i32>)
    ensures
        r == (if fits_i32(edge + shift + grow) {
            Some((edge + shift + grow) as i32)
        } else {
            None
        }),
{
    let sum: i64 = edge as i64 + shift as i64 + grow as i64;
    if -0x8000_0000 <= sum && sum <= 0x7fff_ffff {
        Some(sum as i32)
    } else {
        None
    }
}

/// A named binding of a key combination to an action.
///
/// The action fires while exactly the keys of `trigger` are held.
#[derive(Debug)]
pub struct HotkeyAction {
    pub name: String,
    pub action: Action,
    pub trigger: KeySet,
}

/// What a [`HotkeyAction`] stands for.
pub ghost struct HotkeyActionView {
    pub name: Seq<char>,
    pub action: Action,
    pub trigger: Set<VK>,
}

impl View for HotkeyAction {
    type V = HotkeyActionView;

    open spec fn view(&self) -> HotkeyActionView {
        HotkeyActionView { name: self.name@, action: self.action, trigger: self.trigger@ }
    }
}

impl Clone for HotkeyAction {
    fn clone(&self) -> (copy: Self)
        ensures
            copy@ == self@,
    {
        HotkeyAction {
            name: self.name.clone(),
            action: self.action,
            trigger: self.trigger.clone(),
        }
    }
}

impl PartialEq for HotkeyAction {
    /// Two bindings are equal when they agree in name, action and trigger.
    fn eq(&self, other: &Self) -> (same: bool) {
        self.name == other.name && self.action == other.action && self.trigger == other.trigger
    }
}

impl PartialEqSpecImpl for HotkeyAction {
    open spec fn obeys_eq_spec() -> bool {
        true
    }

    open spec fn eq_spec(&self, other: &Self) -> bool {
        self@ == other@
    }
}

impl HotkeyAction {
    /// A binding is well formed when its trigger names at least one key.
    pub open spec fn wf(&self) -> bool {
        self.trigger@ != Set::<VK>::empty()
    }

    /// Binds the combination of the given keys to an action. The order of
    /// the keys and repetitions among them do not matter.
    pub fn new(name: &str, action: Action, keys: &[VK]) -> (binding: HotkeyAction)
        requires
            keys@.len() > 0,
        ensures
            binding@ == (HotkeyActionView {
                name: name@,
                action: action,
                trigger: keys@.to_set(),
            }),
            binding.wf(),
    {
        let binding = HotkeyAction {
            name: name.to_owned(),
            action,
            trigger: KeySet::from_keys(keys),
        };
        proof {
            assert(keys@.to_set().contains(keys@[0]));
        }
        binding
    }
}

/// What a list of bindings stands for, entry by entry.
pub open spec fn views(bindings: Seq<HotkeyAction>) -> Seq<HotkeyActionView> {
    bindings.map_values(|h: HotkeyAction| h@)
}

/// Appends the binding of a key combination to a list of bindings.
pub fn register(actions: &mut Vec<HotkeyAction>, name: &str, action: Action, keys: &[VK])
    requires
        keys@.len() > 0,
    ensures
        views(final(actions)@) == views(old(actions)@).push(
            HotkeyActionView { name: name@, action: action, trigger: keys@.to_set() },
        ),
{
    let binding = HotkeyAction::new(name, action, keys);
    actions.push(binding);
    assert(views(actions@) =~= views(old(actions)@).push(binding@));
}

/// The ordered table of bindings.
pub struct HotkeyRegistry {
    actions: Vec<HotkeyAction>,
}

impl View for HotkeyRegistry {
    type V = Seq<HotkeyActionView>;

    closed spec fn view(&self) -> Seq<HotkeyActionView> {
        views(self.actions@)
    }
}

/// Whether entry `i` of a table is triggered by exactly the keys `current`.
pub open spec fn matches_at(table: Seq<HotkeyActionView>, i: int, current: Set<VK>) -> bool {
    0 <= i < table.len() && table[i].trigger == current
}

/// Whether entry `i` is the first entry of the table that `current`
/// triggers.
pub open spec fn is_first_match(table: Seq<HotkeyActionView>, i: int, current: Set<VK>) -> bool {
    matches_at(table, i, current) && forall|j: int| 0 <= j < i ==> !matches_at(table, j, current)
}

/// The first entry that `current` triggers, if there is one.
pub open spec fn first_match(table: Seq<HotkeyActionView>, current: Set<VK>) -> Option<int> {
    if exists|i: int| is_first_match(table, i, current) {
        Some(choose|i: int| is_first_match(table, i, current))
    } else {
        None
    }
}

impl HotkeyRegistry {
    /// Takes a list of bindings as the table, in the order given.
    pub fn new(actions: Vec<HotkeyAction>) -> (registry: HotkeyRegistry)
        ensures
            registry@ == views(actions@),
    {
        HotkeyRegistry { actions }
    }

    /// Number of bindings.
    pub fn len(&self) -> (n: usize)
        ensures
            n == self@.len(),
    {
        self.actions.len()
    }

    /// The binding at position `i` in registration order.
    pub fn get(&self, i: usize) -> (binding: Option<&HotkeyAction>)
        ensures
            binding is Some <==> i < self@.len(),
            binding matches Some(h) ==> h@ == self@[i as int],
    {
        if i < self.actions.len() {
            Some(&self.actions[i])
        } else {
            None
        }
    }

    /// Position of the first binding whose trigger is exactly the set of
    /// keys `current`, in registration order.
    pub fn find_match_index(&self, current: &KeySet) -> (found: Option<usize>)
        ensures
            found == (match first_match(self@, current@) {
                Some(i) => Some(i as usize),
                None => None,
            }),
            found matches Some(i) ==> is_first_match(self@, i as int, current@),
            found is None ==> forall|i: int| !matches_at(self@, i, current@),
    {
        let mut i: usize = 0;
        while i < self.actions.len()
            invariant
                i <= self.actions.len(),
                forall|j: int| 0 <= j < i ==> !matches_at(self@, j, current@),
            decreases self.actions.len() - i,
        {
            if self.actions[i].trigger.equals(current) {
                proof {
                    assert(is_first_match(self@, i as int, current@));
                    lemma_first_match_unique(
                        self@,
                        i as int,
                        choose|k: int| is_first_match(self@, k, current@),
                        current@,
                    );
                }
                return Some(i);
            }
            i += 1;
        }
        proof {
            assert forall|k: int| !is_first_match(self@, k, current@) by {}
        }
        None
    }

    /// The first binding, in registration order, whose trigger is exactly
    /// the set of keys `current`. A binding whose trigger is only a subset
    /// or a superset of `current` does not match.
    pub fn find_match(&self, current: &KeySet) -> (found: Option<&HotkeyAction>)
        ensures
            found matches Some(h) ==> exists|i: int|
                is_first_match(self@, i, current@) && h@ == self@[i],
            found is None <==> forall|i: int| !matches_at(self@, i, current@),
            found is Some <==> first_match(self@, current@) is Some,
            found matches Some(h) ==> h@ == self@[first_match(self@, current@)->0],
    {
        match self.find_match_index(current) {
            Some(i) => {
                assert(matches_at(self@, i as int, current@));
                Some(&self.actions[i])
            },
            None => None,
        }
    }
}

/// At most one entry is the first match.
pub proof fn lemma_first_match_unique(
    table: Seq<HotkeyActionView>,
    i: int,
    j: int,
    current: Set<VK>,
)
    requires
        is_first_match(table, i, current),
        is_first_match(table, j, current),
    ensures
        i == j,
{
    if i < j {
        assert(!matches_at(table, i, current));
    } else if j < i {
        assert(!matches_at(table, j, current));
    }
}

/// Matching is exact: an entry whose trigger differs from the held keys,
/// be it by one key more or one key less, is not the match.
pub proof fn lemma_match_is_exact(table: Seq<HotkeyActionView>, i: int, current: Set<VK>)
    requires
        0 <= i < table.len(),
        table[i].trigger != current,
    ensures
        first_match(table, current) != Some(i),
        !matches_at(table, i, current),
{
    if first_match(table, current) is Some {
        let c = choose|c: int| is_first_match(table, c, current);
        assert(matches_at(table, c, current));
    }
}

/// The first entry with the held keys as trigger is the match, whatever
/// follows it in the table.
pub proof fn lemma_first_registered_wins(table: Seq<HotkeyActionView>, i: int, current: Set<VK>)
    requires
        0 <= i < table.len(),
        table[i].trigger == current,
        forall|j: int| 0 <= j < i ==> table[j].trigger != current,
    ensures
        first_match(table, current) == Some(i),
{
    assert(is_first_match(table, i, current));
    lemma_first_match_unique(
        table,
        i,
        choose|c: int| is_first_match(table, c, current),
        current,
    );
}

/// While no key is held, no well-formed binding is triggered.
pub proof fn lemma_no_match_without_keys(table: Seq<HotkeyActionView>)
    requires
        forall|i: int| 0 <= i < table.len() ==> table[i].trigger != Set::<VK>::empty(),
    ensures
        first_match(table, Set::<VK>::empty()) is None,
{
    assert forall|i: int| !is_first_match(table, i, Set::<VK>::empty()) by {}
}

} // verus!
