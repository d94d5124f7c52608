//! The keys that are held, and what the keyboard hook decides on each
//! event of the system-wide keyboard feed.

use crate::hotkey_action::{first_match, Action, HotkeyActionView, HotkeyRegistry};
use crate::key_set::KeySet;
use crate::virtual_key::VK;
use vstd::prelude::*;

verus! {

/// Message identifier of the feed: a key went down.
pub const WM_KEYDOWN: u32 = 0x0100;

/// Message identifier of the feed: a key went up.
pub const WM_KEYUP: u32 = 0x0101;

/// Message identifier of the feed: a key went down while the menu key was
/// held.
pub const WM_SYSKEYDOWN: u32 = 0x0104;

/// Message identifier of the feed: a key went up while the menu key was
/// held.
pub const WM_SYSKEYUP: u32 = 0x0105;

/// What a message of the feed says about its key.
#[derive(Clone, Copy, Debug, PartialEq, Eq, Structural)]
pub enum KeyTransition {
    Down,
    Up,
    /// The message is neither a key-down nor a key-up message.
    Other,
}

/// The transition that a message identifier stands for.
pub open spec fn spec_classify_message(msg: u32) -> KeyTransition {
    if msg == WM_KEYDOWN || msg == WM_SYSKEYDOWN {
        KeyTransition::Down
    } else if msg == WM_KEYUP || msg == WM_SYSKEYUP {
        KeyTransition::Up
    } else {
        KeyTransition::Other
    }
}

/// Tells key-down from key-up messages.
#[verifier::when_used_as_spec(spec_classify_message)]
pub fn classify_message(msg: u32) -> (t: KeyTransition)
    ensures
        t == spec_classify_message(msg),
{
    if msg == WM_KEYDOWN || msg == WM_SYSKEYDOWN {
        KeyTransition::Down
    } else if msg == WM_KEYUP || msg == WM_SYSKEYUP {
        KeyTransition::Up
    } else {
        KeyTransition::Other
    }
}

/// The keys held after one key went down or up.
pub open spec fn after_event(held: Set<VK>, key: VK, is_down: bool) -> Set<VK> {
    if is_down {
        held.insert(key)
    } else {
        held.remove(key)
    }
}

/// The keys held after a sequence of events, the first event first.
pub open spec fn replay(held: Set<VK>, events: Seq<(VK, bool)>) -> Set<VK>
    decreases events.len(),
{
    if events.len() == 0 {
        held
    } else {
        after_event(replay(held, events.drop_last()), events.last().0, events.last().1)
    }
}

/// Whether the sequence holds an event of the key.
pub open spec fn has_event(events: Seq<(VK, bool)>, key: VK) -> bool {
    exists|i: int| 0 <= i < events.len() && (#[trigger] events[i]).0 == key
}

/// Whether the most recent event of the key in the sequence says that the
/// key went down.
pub open spec fn last_event_was_down(events: Seq<(VK, bool)>, key: VK) -> bool {
    exists|i: int|
        0 <= i < events.len() && (#[trigger] events[i]) == (key, true) && forall|j: int|
            i < j < events.len() ==> (#[trigger] events[j]).0 != key
}

/// After a sequence of events a key is held exactly if its most recent
/// event was a key-down, or if it has no event and was held before.
pub proof fn lemma_replay(held: Set<VK>, events: Seq<(VK, bool)>)
    ensures
        forall|key: VK|
            replay(held, events).contains(key) <==> (last_event_was_down(events, key) || (
            !has_event(events, key) && held.contains(key))),
    decreases events.len(),
{
    if events.len() > 0 {
        let front = events.drop_last();
        let last = events.last();
        lemma_replay(held, front);
        assert forall|key: VK|
            replay(held, events).contains(key) <==> (last_event_was_down(events, key) || (
            !has_event(events, key) && held.contains(key))) by {
            if last.0 == key {
                assert(events[events.len() - 1].0 == key);
                if last.1 {
                    assert(events[events.len() - 1] == (key, true));
                } else if last_event_was_down(events, key) {
                    let i = choose|i: int|
                        0 <= i < events.len() && (#[trigger] events[i]) == (key, true)
                            && forall|j: int|
                            i < j < events.len() ==> (#[trigger] events[j]).0 != key;
                    assert(events[events.len() - 1].0 != key);
                }
            } else {
                if last_event_was_down(front, key) {
                    let i = choose|i: int|
                        0 <= i < front.len() && (#[trigger] front[i]) == (key, true)
                            && forall|j: int|
                            i < j < front.len() ==> (#[trigger] front[j]).0 != key;
                    assert(events[i] == (key, true));
                    assert forall|j: int| i < j < events.len() implies (
                    #[trigger] events[j]).0 != key by {
                        if j < front.len() {
                            assert(front[j].0 != key);
                        }
                    }
                }
                if last_event_was_down(events, key) {
                    let i = choose|i: int|
                        0 <= i < events.len() && (#[trigger] events[i]) == (key, true)
                            && forall|j: int|
                            i < j < events.len() ==> (#[trigger] events[j]).0 != key;
                    assert(front[i] == (key, true));
                    assert forall|j: int| i < j < front.len() implies (
                    #[trigger] front[j]).0 != key by {
                        assert(events[j].0 != key);
                    }
                }
                if has_event(front, key) {
                    let i = choose|i: int| 0 <= i < front.len() && (#[trigger] front[i]).0 == key;
                    assert(events[i].0 == key);
                }
                if has_event(events, key) {
                    let i = choose|i: int|
                        0 <= i < events.len() && (#[trigger] events[i]).0 == key;
                    assert(front[i].0 == key);
                }
            }
        }
    }
}

/// Starting with no key held, the keys held after a sequence of events are
/// the keys whose most recent event was a key-down.
pub proof fn lemma_replay_from_empty(events: Seq<(VK, bool)>)
    ensures
        replay(Set::<VK>::empty(), events) == Set::new(
            |key: VK| last_event_was_down(events, key),
        ),
{
    lemma_replay(Set::<VK>::empty(), events);
    assert(replay(Set::<VK>::empty(), events) =~= Set::new(
        |key: VK| last_event_was_down(events, key),
    ));
}

/// Keeps the set of the keys that are held.
pub struct KeyStateTracker {
    pressed: KeySet,
}

impl View for KeyStateTracker {
    type V = Set<VK>;

    closed spec fn view(&self) -> Set<VK> {
        self.pressed@
    }
}

impl KeyStateTracker {
    /// A tracker with no key held.
    pub fn new() -> (tracker: KeyStateTracker)
        ensures
            tracker@ == Set::<VK>::empty(),
    {
        KeyStateTracker { pressed: KeySet::new() }
    }

    /// Records that a key went down or up.
    pub fn on_key_event(&mut self, key: VK, is_down: bool)
        ensures
            final(self)@ == after_event(old(self)@, key, is_down),
    {
        if is_down {
            self.pressed.insert(key);
        } else {
            self.pressed.remove(key);
        }
    }

    /// Records a sequence of events, the first event first.
    pub fn on_key_events(&mut self, events: &[(VK, bool)])
        ensures
            final(self)@ == replay(old(self)@, events@),
    {
        let mut i: usize = 0;
        while i < events.len()
            invariant
                i <= events.len(),
                self@ == replay(old(self)@, events@.take(i as int)),
            decreases events.len() - i,
        {
            proof {
                assert(events@.take(i + 1).drop_last() =~= events@.take(i as int));
            }
            let event = events[i];
            self.on_key_event(event.0, event.1);
            i += 1;
        }
        proof {
            assert(events@.take(i as int) =~= events@);
        }
    }

    /// Records that the key with the given code went down or up. A code
    /// that belongs to no key changes nothing; the result says whether the
    /// code was recognized.
    pub fn on_key_code(&mut self, code: u32, is_down: bool) -> (recognized: bool)
        ensures
            recognized == VK::is_recognized(code),
            final(self)@ == (match VK::spec_from_u32(code) {
                Some(key) => after_event(old(self)@, key, is_down),
                None => old(self)@,
            }),
    {
        match VK::from_u32(code) {
            Some(key) => {
                self.on_key_event(key, is_down);
                true
            },
            None => false,
        }
    }

    /// The keys that are held.
    pub fn pressed_keys(&self) -> (keys: &KeySet)
        ensures
            keys@ == self@,
    {
        &self.pressed
    }

    /// The keys that are held, in ascending order of their codes.
    pub fn snapshot(&self) -> (keys: Vec<VK>)
        ensures
            keys@.to_set() == self@,
            forall|i: int, j: int| 0 <= i < j < keys.len() ==> keys[i].code() < keys[j].code(),
    {
        self.pressed.to_vec()
    }

    /// Whether a key is held.
    pub fn is_pressed(&self, key: VK) -> (held: bool)
        ensures
            held == self@.contains(key),
    {
        self.pressed.contains(key)
    }

    /// Forgets every key.
    pub fn clear(&mut self)
        ensures
            final(self)@ == Set::<VK>::empty(),
    {
        self.pressed.clear();
    }
}

/// What becomes of an event of the feed.
#[derive(Clone, Copy, Debug, PartialEq, Eq, Structural)]
pub enum HookVerdict {
    /// The event goes on to the next handler of the hook chain.
    PassThrough,
    /// The event is consumed, and the action runs.
    Consume(Action),
}

/// The decision of the hook on one event.
#[derive(Clone, Copy, Debug, PartialEq, Eq, Structural)]
pub struct HookDecision {
    pub verdict: HookVerdict,
    /// Whether the held keys are to be traced: debugging is enabled and a
    /// recognized key went down.
    pub trace: bool,
}

/// The keys held after an event of the feed. An event with a negative
/// hook code, or with a key code that belongs to no key, changes nothing.
pub open spec fn keys_after(held: Set<VK>, n_code: i32, msg: u32, vk_code: u32) -> Set<VK> {
    if n_code < 0 {
        held
    } else {
        match VK::spec_from_u32(vk_code) {
            None => held,
            Some(key) => match classify_message(msg) {
                KeyTransition::Down => held.insert(key),
                KeyTransition::Up => held.remove(key),
                KeyTransition::Other => held,
            },
        }
    }
}

/// The decision on an event of the feed, for the table of bindings and the
/// keys that were held before the event.
pub open spec fn decision(
    table: Seq<HotkeyActionView>,
    held: Set<VK>,
    debug: bool,
    n_code: i32,
    msg: u32,
    vk_code: u32,
) -> HookDecision {
    if n_code < 0 || VK::spec_from_u32(vk_code) is None {
        HookDecision { verdict: HookVerdict::PassThrough, trace: false }
    } else {
        HookDecision {
            verdict: match first_match(table, keys_after(held, n_code, msg, vk_code)) {
                Some(i) => HookVerdict::Consume(table[i].action),
                None => HookVerdict::PassThrough,
            },
            trace: debug && classify_message(msg) == KeyTransition::Down,
        }
    }
}

/// Handles one event of the low-level keyboard feed: updates the held
/// keys, and decides whether the event triggers an action.
///
/// `n_code` is the hook code, `msg` the message identifier and `vk_code`
/// the code of the key, as the platform hands them to the hook.
pub fn low_level_keyboard_proc(
    tracker: &mut KeyStateTracker,
    registry: &HotkeyRegistry,
    debug: bool,
    n_code: i32,
    msg: u32,
    vk_code: u32,
) -> (d: HookDecision)
    ensures
        final(tracker)@ == keys_after(old(tracker)@, n_code, msg, vk_code),
        d == decision(registry@, old(tracker)@, debug, n_code, msg, vk_code),
{
    if n_code < 0 {
        return HookDecision { verdict: HookVerdict::PassThrough, trace: false };
    }
    let transition = classify_message(msg);
    match VK::from_u32(vk_code) {
        Some(key) => {
            match transition {
                KeyTransition::Down => {
                    tracker.on_key_event(key, true);
                },
                KeyTransition::Up => {
                    tracker.on_key_event(key, false);
                },
                KeyTransition::Other => {},
            }
        },
        None => {
            return HookDecision { verdict: HookVerdict::PassThrough, trace: false };
        },
    }
    let trace = debug && transition == KeyTransition::Down;
    let verdict = match registry.find_match(tracker.pressed_keys()) {
        Some(binding) => HookVerdict::Consume(binding.action),
        None => HookVerdict::PassThrough,
    };
    HookDecision { verdict, trace }
}

} // verus!
