//! The lifecycle of the keyboard hook, the session events that drive it,
//! and the unpacking of message parameters.

use crate::hotkey_action::HotkeyRegistry;
use crate::keyboard::{
    decision, keys_after, low_level_keyboard_proc, HookDecision, HookVerdict, KeyStateTracker,
};
use crate::virtual_key::VK;
use vstd::prelude::*;

verus! {

/// Session change: a user logged on to the session.
pub const WTS_SESSION_LOGON: u32 = 0x5;

/// Session change: a user logged off from the session.
pub const WTS_SESSION_LOGOFF: u32 = 0x6;

/// Session change: the session was locked.
pub const WTS_SESSION_LOCK: u32 = 0x7;

/// Session change: the session was unlocked.
pub const WTS_SESSION_UNLOCK: u32 = 0x8;

/// The low-order word of a message parameter.
#[allow(non_snake_case)]
pub fn LOWORD(dword: u32) -> (word: u16)
    ensures
        word == dword % 0x1_0000,
{
    assert(dword & 0xffff == dword % 0x1_0000) by (bit_vector);
    (dword & 0xffff) as u16
}

/// The high-order word of a message parameter.
#[allow(non_snake_case)]
pub fn HIWORD(dword: u32) -> (word: u16)
    ensures
        word == dword / 0x1_0000,
{
    assert(dword >> 16 == dword / 0x1_0000) by (bit_vector);
    (dword >> 16) as u16
}

/// A 16-bit word read as a signed coordinate.
pub open spec fn signed_word(word: int) -> int {
    if word < 0x8000 {
        word
    } else {
        word - 0x1_0000
    }
}

/// Reads a word as a signed 16-bit coordinate.
fn coordinate(word: u16) -> (c: i32)
    ensures
        c == signed_word(word as int),
{
    if word < 0x8000 {
        word as i32
    } else {
        word as i32 - 0x1_0000
    }
}

/// The x coordinate packed into the low-order word of a message parameter.
/// Coordinates are signed: on a desktop of several monitors they can be
/// negative.
#[allow(non_snake_case)]
pub fn GET_X_LPARAM(dword: u32) -> (x: i32)
    ensures
        x == signed_word((dword % 0x1_0000) as int),
        -0x8000 <= x < 0x8000,
{
    coordinate(LOWORD(dword))
}

/// The y coordinate packed into the high-order word of a message parameter.
#[allow(non_snake_case)]
pub fn GET_Y_LPARAM(dword: u32) -> (y: i32)
    ensures
        y == signed_word((dword / 0x1_0000) as int),
        -0x8000 <= y < 0x8000,
{
    coordinate(HIWORD(dword))
}

/// What happened to the user's session.
#[derive(Clone, Copy, Debug, PartialEq, Eq, Structural)]
pub enum SessionEvent {
    Logon,
    Logoff,
    Lock,
    Unlock,
    /// A change that does not concern the hook.
    Other,
}

/// The session event that a status code of a session-change message
/// stands for.
pub open spec fn spec_session_event(code: u32) -> SessionEvent {
    if code == WTS_SESSION_LOGON {
        SessionEvent::Logon
    } else if code == WTS_SESSION_LOGOFF {
        SessionEvent::Logoff
    } else if code == WTS_SESSION_LOCK {
        SessionEvent::Lock
    } else if code == WTS_SESSION_UNLOCK {
        SessionEvent::Unlock
    } else {
        SessionEvent::Other
    }
}

/// Reads the status code of a session-change message.
#[verifier::when_used_as_spec(spec_session_event)]
pub fn session_event(code: u32) -> (event: SessionEvent)
    ensures
        event == spec_session_event(code),
{
    if code == WTS_SESSION_LOGON {
        SessionEvent::Logon
    } else if code == WTS_SESSION_LOGOFF {
        SessionEvent::Logoff
    } else if code == WTS_SESSION_LOCK {
        SessionEvent::Lock
    } else if code == WTS_SESSION_UNLOCK {
        SessionEvent::Unlock
    } else {
        SessionEvent::Other
    }
}

/// Whether the keyboard feed is installed.
#[derive(Clone, Copy, Debug, PartialEq, Eq, Structural)]
pub enum HookState {
    Unhooked,
    Hooked,
}

/// What the owner of the platform's hook handle has to do after a
/// transition of the controller.
#[derive(Clone, Copy, Debug, PartialEq, Eq, Structural)]
pub enum HookCommand {
    /// Nothing: the controller was already in the state asked for.
    Nothing,
    /// Install the keyboard feed.
    Install,
    /// Remove the keyboard feed.
    Remove,
    /// Remove the keyboard feed, then install it again.
    Reinstall,
}

/// The state machine of the keyboard hook, together with the keys that
/// are held and the debug flag.
///
/// While the hook is not installed no key is held: keys may go up unseen
/// in that time, so the controller starts from nothing when the hook comes
/// back.
pub struct HookController {
    state: HookState,
    keys: KeyStateTracker,
    debug: bool,
}

/// What a [`HookController`] stands for.
pub ghost struct HookControllerView {
    pub state: HookState,
    pub keys: Set<VK>,
    pub debug: bool,
}

impl View for HookController {
    type V = HookControllerView;

    closed spec fn view(&self) -> HookControllerView {
        HookControllerView { state: self.state, keys: self.keys@, debug: self.debug }
    }
}

impl HookController {
    #[verifier::type_invariant]
    spec fn no_keys_while_unhooked(self) -> bool {
        self.state == HookState::Unhooked ==> self.keys@ == Set::<VK>::empty()
    }

    /// A controller whose hook is not installed, with debugging off.
    pub fn new() -> (controller: HookController)
        ensures
            controller@ == (HookControllerView {
                state: HookState::Unhooked,
                keys: Set::<VK>::empty(),
                debug: false,
            }),
    {
        HookController { state: HookState::Unhooked, keys: KeyStateTracker::new(), debug: false }
    }

    /// Whether the hook is installed. While it is not, no key is held.
    pub fn state(&self) -> (state: HookState)
        ensures
            state == self@.state,
            state == HookState::Unhooked ==> self@.keys == Set::<VK>::empty(),
    {
        proof {
            use_type_invariant(self);
        }
        self.state
    }

    /// Whether verbose tracing is enabled.
    pub fn debug_enabled(&self) -> (debug: bool)
        ensures
            debug == self@.debug,
    {
        self.debug
    }

    /// Switches verbose tracing on or off, and returns the new setting.
    pub fn toggle_debug(&mut self) -> (debug: bool)
        ensures
            debug == !old(self)@.debug,
            final(self)@ == (HookControllerView { debug: debug, ..old(self)@ }),
    {
        proof {
            use_type_invariant(&*self);
        }
        self.debug = !self.debug;
        self.debug
    }

    /// The keys that are held, in ascending order of their codes.
    pub fn pressed_keys(&self) -> (keys: Vec<VK>)
        ensures
            keys@.to_set() == self@.keys,
            forall|i: int, j: int| 0 <= i < j < keys.len() ==> keys[i].code() < keys[j].code(),
            self@.state == HookState::Unhooked ==> keys@.len() == 0,
    {
        proof {
            use_type_invariant(self);
        }
        let keys = self.keys.snapshot();
        proof {
            if self@.state == HookState::Unhooked && keys@.len() > 0 {
                assert(keys@.to_set().contains(keys@[0]));
            }
        }
        keys
    }

    /// Goes from `Unhooked` to `Hooked`. The result tells the caller to
    /// install the feed, or to do nothing if it is installed already.
    pub fn hook_keyboard(&mut self) -> (command: HookCommand)
        ensures
            final(self)@ == (HookControllerView { state: HookState::Hooked, ..old(self)@ }),
            command == (match old(self)@.state {
                HookState::Unhooked => HookCommand::Install,
                HookState::Hooked => HookCommand::Nothing,
            }),
            old(self)@.state == HookState::Unhooked ==> final(self)@.keys == Set::<VK>::empty(),
    {
        proof {
            use_type_invariant(&*self);
        }
        match self.state {
            HookState::Hooked => HookCommand::Nothing,
            HookState::Unhooked => {
                self.state = HookState::Hooked;
                HookCommand::Install
            },
        }
    }

    /// Goes from `Hooked` to `Unhooked` and forgets the held keys. The
    /// result tells the caller to remove the feed, or to do nothing if it
    /// is not installed.
    pub fn unhook_keyboard(&mut self) -> (command: HookCommand)
        ensures
            final(self)@ == (HookControllerView {
                state: HookState::Unhooked,
                keys: Set::<VK>::empty(),
                debug: old(self)@.debug,
            }),
            command == (match old(self)@.state {
                HookState::Hooked => HookCommand::Remove,
                HookState::Unhooked => HookCommand::Nothing,
            }),
    {
        proof {
            use_type_invariant(&*self);
        }
        match self.state {
            HookState::Unhooked => HookCommand::Nothing,
            HookState::Hooked => {
                self.keys = KeyStateTracker::new();
                self.state = HookState::Unhooked;
                HookCommand::Remove
            },
        }
    }

    /// Removes the feed if it is installed, forgets the held keys, and
    /// installs the feed.
    pub fn rehook_keyboard(&mut self) -> (command: HookCommand)
        ensures
            final(self)@ == (HookControllerView {
                state: HookState::Hooked,
                keys: Set::<VK>::empty(),
                debug: old(self)@.debug,
            }),
            command == (match old(self)@.state {
                HookState::Hooked => HookCommand::Reinstall,
                HookState::Unhooked => HookCommand::Install,
            }),
    {
        let removed = self.unhook_keyboard();
        let installed = self.hook_keyboard();
        match removed {
            HookCommand::Remove => HookCommand::Reinstall,
            _ => installed,
        }
    }

    /// Installs the hook if it is not installed, and removes it if it is.
    pub fn toggle(&mut self) -> (command: HookCommand)
        ensures
            final(self)@ == (HookControllerView {
                state: match old(self)@.state {
                    HookState::Unhooked => HookState::Hooked,
                    HookState::Hooked => HookState::Unhooked,
                },
                keys: Set::<VK>::empty(),
                debug: old(self)@.debug,
            }),
            command == (match old(self)@.state {
                HookState::Unhooked => HookCommand::Install,
                HookState::Hooked => HookCommand::Remove,
            }),
    {
        proof {
            use_type_invariant(&*self);
        }
        match self.state {
            HookState::Unhooked => self.hook_keyboard(),
            HookState::Hooked => self.unhook_keyboard(),
        }
    }

    /// Records that the platform refused to install the feed: the
    /// controller is `Unhooked` again.
    pub fn hook_failed(&mut self)
        ensures
            final(self)@ == (HookControllerView {
                state: HookState::Unhooked,
                keys: Set::<VK>::empty(),
                debug: old(self)@.debug,
            }),
    {
        self.unhook_keyboard();
    }

    /// Reacts to a change of the user's session: logon and unlock install
    /// the hook, logoff and lock remove it, and every other change leaves
    /// it as it is.
    pub fn on_session_change(&mut self, code: u32) -> (command: HookCommand)
        ensures
            match session_event(code) {
                SessionEvent::Logon | SessionEvent::Unlock => {
                    &&& final(self)@ == (HookControllerView {
                        state: HookState::Hooked,
                        ..old(self)@
                    })
                    &&& command == (match old(self)@.state {
                        HookState::Unhooked => HookCommand::Install,
                        HookState::Hooked => HookCommand::Nothing,
                    })
                },
                SessionEvent::Logoff | SessionEvent::Lock => {
                    &&& final(self)@ == (HookControllerView {
                        state: HookState::Unhooked,
                        keys: Set::<VK>::empty(),
                        debug: old(self)@.debug,
                    })
                    &&& command == (match old(self)@.state {
                        HookState::Hooked => HookCommand::Remove,
                        HookState::Unhooked => HookCommand::Nothing,
                    })
                },
                SessionEvent::Other => final(self)@ == old(self)@ && command
                    == HookCommand::Nothing,
            },
    {
        match session_event(code) {
            SessionEvent::Logon | SessionEvent::Unlock => self.hook_keyboard(),
            SessionEvent::Logoff | SessionEvent::Lock => self.unhook_keyboard(),
            SessionEvent::Other => HookCommand::Nothing,
        }
    }

    /// Handles one event of the keyboard feed. While the hook is installed
    /// this is [`low_level_keyboard_proc`] on the held keys; while it is
    /// not, the event passes through and nothing changes.
    pub fn on_key_event(
        &mut self,
        registry: &HotkeyRegistry,
        n_code: i32,
        msg: u32,
        vk_code: u32,
    ) -> (d: HookDecision)
        ensures
            match old(self)@.state {
                HookState::Hooked => {
                    &&& final(self)@ == (HookControllerView {
                        keys: keys_after(old(self)@.keys, n_code, msg, vk_code),
                        ..old(self)@
                    })
                    &&& d == decision(
                        registry@,
                        old(self)@.keys,
                        old(self)@.debug,
                        n_code,
                        msg,
                        vk_code,
                    )
                },
                HookState::Unhooked => {
                    &&& final(self)@ == old(self)@
                    &&& d == (HookDecision { verdict: HookVerdict::PassThrough, trace: false })
                },
            },
    {
        proof {
            use_type_invariant(&*self);
        }
        match self.state {
            HookState::Unhooked => HookDecision {
                verdict: HookVerdict::PassThrough,
                trace: false,
            },
            HookState::Hooked => {
                // The tracker is taken out of `self` while it changes.
                let mut keys = KeyStateTracker::new();
                std::mem::swap(&mut self.keys, &mut keys);
                let d = low_level_keyboard_proc(&mut keys, registry, self.debug, n_code, msg, vk_code);
                std::mem::swap(&mut self.keys, &mut keys);
                d
            },
        }
    }
}

} // verus!
