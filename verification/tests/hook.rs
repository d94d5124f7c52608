use grist::hotkey_action::{Action, HotkeyAction, HotkeyRegistry, VK};
use grist::keyboard::{HookDecision, HookVerdict, WM_KEYDOWN, WM_KEYUP};
use grist::ui::{
    session_event, HookCommand, HookController, HookState, SessionEvent, GET_X_LPARAM,
    GET_Y_LPARAM, HIWORD, LOWORD, WTS_SESSION_LOCK, WTS_SESSION_LOGOFF, WTS_SESSION_LOGON,
    WTS_SESSION_UNLOCK,
};
use grist::{create_actions, monitor, window_actions};

fn empty_registry() -> HotkeyRegistry {
    HotkeyRegistry::new(Vec::new())
}

fn press(controller: &mut HookController, registry: &HotkeyRegistry, key: VK) -> HookDecision {
    controller.on_key_event(registry, 0, WM_KEYDOWN, key.as_u32())
}

#[test]
fn toggle_starts_unhooked_and_forgets_keys_on_the_way() {
    let registry = empty_registry();
    let mut c = HookController::new();
    assert_eq!(c.state(), HookState::Unhooked);
    assert_eq!(c.pressed_keys(), Vec::<VK>::new());

    assert_eq!(c.toggle(), HookCommand::Install);
    assert_eq!(c.state(), HookState::Hooked);
    assert_eq!(c.pressed_keys(), Vec::<VK>::new());

    press(&mut c, &registry, VK::LeftWindows);
    press(&mut c, &registry, VK::A);
    assert_eq!(c.pressed_keys(), vec![VK::A, VK::LeftWindows]);

    assert_eq!(c.toggle(), HookCommand::Remove);
    assert_eq!(c.state(), HookState::Unhooked);
    assert_eq!(c.pressed_keys(), Vec::<VK>::new());

    assert_eq!(c.toggle(), HookCommand::Install);
    assert_eq!(c.state(), HookState::Hooked);
    assert_eq!(c.pressed_keys(), Vec::<VK>::new());
}

#[test]
fn hooking_twice_and_unhooking_twice_do_nothing() {
    let mut c = HookController::new();
    assert_eq!(c.unhook_keyboard(), HookCommand::Nothing);
    assert_eq!(c.hook_keyboard(), HookCommand::Install);
    assert_eq!(c.hook_keyboard(), HookCommand::Nothing);
    assert_eq!(c.state(), HookState::Hooked);
    assert_eq!(c.unhook_keyboard(), HookCommand::Remove);
    assert_eq!(c.unhook_keyboard(), HookCommand::Nothing);
    assert_eq!(c.state(), HookState::Unhooked);
}

#[test]
fn hooking_again_keeps_the_held_keys() {
    let registry = empty_registry();
    let mut c = HookController::new();
    c.hook_keyboard();
    press(&mut c, &registry, VK::Shift);
    assert_eq!(c.hook_keyboard(), HookCommand::Nothing);
    assert_eq!(c.pressed_keys(), vec![VK::Shift]);
}

#[test]
fn rehook_forgets_keys_and_ends_hooked() {
    let registry = empty_registry();
    let mut c = HookController::new();
    assert_eq!(c.rehook_keyboard(), HookCommand::Install);
    assert_eq!(c.state(), HookState::Hooked);
    press(&mut c, &registry, VK::Control);
    assert_eq!(c.rehook_keyboard(), HookCommand::Reinstall);
    assert_eq!(c.state(), HookState::Hooked);
    assert_eq!(c.pressed_keys(), Vec::<VK>::new());
}

#[test]
fn failed_install_leaves_the_controller_unhooked() {
    let mut c = HookController::new();
    assert_eq!(c.toggle(), HookCommand::Install);
    c.hook_failed();
    assert_eq!(c.state(), HookState::Unhooked);
    assert_eq!(c.toggle(), HookCommand::Install);
}

#[test]
fn session_changes_drive_the_hook() {
    let mut c = HookController::new();
    assert_eq!(c.on_session_change(WTS_SESSION_LOGON), HookCommand::Install);
    assert_eq!(c.state(), HookState::Hooked);
    assert_eq!(c.on_session_change(WTS_SESSION_LOCK), HookCommand::Remove);
    assert_eq!(c.state(), HookState::Unhooked);
    assert_eq!(c.on_session_change(WTS_SESSION_LOCK), HookCommand::Nothing);
    assert_eq!(c.on_session_change(WTS_SESSION_UNLOCK), HookCommand::Install);
    assert_eq!(c.on_session_change(WTS_SESSION_UNLOCK), HookCommand::Nothing);
    assert_eq!(c.on_session_change(WTS_SESSION_LOGOFF), HookCommand::Remove);
    assert_eq!(c.state(), HookState::Unhooked);
    for other in [0u32, 1, 2, 3, 4, 9, 10, 11, 12, 0xFFFF] {
        assert_eq!(c.on_session_change(other), HookCommand::Nothing);
        assert_eq!(c.state(), HookState::Unhooked);
    }
}

#[test]
fn session_lock_forgets_the_held_keys() {
    let registry = empty_registry();
    let mut c = HookController::new();
    c.hook_keyboard();
    press(&mut c, &registry, VK::LeftWindows);
    press(&mut c, &registry, VK::L);
    c.on_session_change(WTS_SESSION_LOCK);
    c.on_session_change(WTS_SESSION_UNLOCK);
    assert_eq!(c.state(), HookState::Hooked);
    assert_eq!(c.pressed_keys(), Vec::<VK>::new());
}

#[test]
fn session_codes() {
    assert_eq!(session_event(5), SessionEvent::Logon);
    assert_eq!(session_event(6), SessionEvent::Logoff);
    assert_eq!(session_event(7), SessionEvent::Lock);
    assert_eq!(session_event(8), SessionEvent::Unlock);
    assert_eq!(session_event(1), SessionEvent::Other);
    assert_eq!(session_event(11), SessionEvent::Other);
}

#[test]
fn events_while_unhooked_pass_through_unseen() {
    let registry = HotkeyRegistry::new(vec![HotkeyAction::new("A", Action::Maximize, &[VK::A])]);
    let mut c = HookController::new();
    let d = press(&mut c, &registry, VK::A);
    assert_eq!(d, HookDecision { verdict: HookVerdict::PassThrough, trace: false });
    assert_eq!(c.pressed_keys(), Vec::<VK>::new());
}

#[test]
fn hooked_controller_matches_bindings() {
    let registry = HotkeyRegistry::new(create_actions());
    let mut c = HookController::new();
    c.toggle();
    assert_eq!(press(&mut c, &registry, VK::LeftWindows).verdict, HookVerdict::PassThrough);
    assert_eq!(
        press(&mut c, &registry, VK::Numpad4).verdict,
        HookVerdict::Consume(Action::MonitorLeft)
    );
    let up = c.on_key_event(&registry, 0, WM_KEYUP, VK::Numpad4.as_u32());
    assert_eq!(up.verdict, HookVerdict::PassThrough);
    assert_eq!(
        press(&mut c, &registry, VK::Right).verdict,
        HookVerdict::Consume(Action::MoveNextMonitor)
    );
}

#[test]
fn debug_flag_toggles_and_gates_tracing() {
    let registry = empty_registry();
    let mut c = HookController::new();
    c.toggle();
    assert!(!c.debug_enabled());
    assert!(!press(&mut c, &registry, VK::A).trace);
    assert!(c.toggle_debug());
    assert!(c.debug_enabled());
    assert!(press(&mut c, &registry, VK::B).trace);
    assert!(!c.on_key_event(&registry, 0, WM_KEYUP, VK::B.as_u32()).trace);
    assert!(!c.toggle_debug());
    assert!(!press(&mut c, &registry, VK::C).trace);
    // The flag outlives a toggle of the hook.
    c.toggle_debug();
    c.toggle();
    c.toggle();
    assert!(c.debug_enabled());
}

#[test]
fn words_of_a_message_parameter() {
    assert_eq!(LOWORD(0x1234_5678), 0x5678);
    assert_eq!(HIWORD(0x1234_5678), 0x1234);
    assert_eq!(LOWORD(0xFFFF_0000), 0);
    assert_eq!(HIWORD(0xFFFF_0000), 0xFFFF);
    assert_eq!(LOWORD(0x0202), 0x0202);
}

#[test]
fn coordinates_of_a_message_parameter_are_signed() {
    assert_eq!(GET_X_LPARAM(0x0064_00C8), 200);
    assert_eq!(GET_Y_LPARAM(0x0064_00C8), 100);
    assert_eq!(GET_X_LPARAM(0x0000_FFFF), -1);
    assert_eq!(GET_Y_LPARAM(0xFFFE_0000), -2);
    assert_eq!(GET_X_LPARAM(0x0000_8000), -32768);
    assert_eq!(GET_X_LPARAM(0x0000_7FFF), 32767);
    assert_eq!(GET_Y_LPARAM(0x8000_0000), -32768);
}

#[test]
fn shipped_bindings() {
    let mut moves = Vec::new();
    monitor::add_actions(&mut moves);
    let listed: Vec<(String, Action, Vec<VK>)> =
        moves.iter().map(|h| (h.name.clone(), h.action, h.trigger.to_vec())).collect();
    assert_eq!(
        listed,
        vec![
            ("Move Next".to_string(), Action::MoveNextMonitor, vec![VK::LeftWindows, VK::Numpad5]),
            ("Move Next".to_string(), Action::MoveNextMonitor, vec![VK::Right, VK::LeftWindows]),
            ("Move Prev".to_string(), Action::MovePrevMonitor, vec![VK::Clear, VK::LeftWindows]),
            ("Move Prev".to_string(), Action::MovePrevMonitor, vec![VK::Left, VK::LeftWindows]),
        ]
    );

    let mut placements = Vec::new();
    window_actions::add_actions(&mut placements);
    assert_eq!(placements.len(), 19);
    assert_eq!(placements[0].name, "Top Left");
    assert_eq!(placements[0].action, Action::MonitorTopLeft);
    assert_eq!(placements[0].trigger.to_vec(), vec![VK::LeftWindows, VK::Numpad7]);
    assert_eq!(placements[9].name, "West");
    assert_eq!(placements[9].action, Action::MonitorLeft);
    assert_eq!(placements[9].trigger.to_vec(), vec![VK::N7, VK::LeftWindows]);
    assert_eq!(placements[18].name, "Clear Topmost Flag");
    assert_eq!(placements[18].action, Action::ClearTop);
    assert_eq!(placements[18].trigger.to_vec(), vec![VK::Z, VK::LeftWindows, VK::LeftShift]);

    // Existing entries stay in front.
    window_actions::add_actions(&mut moves);
    assert_eq!(moves.len(), 23);
    assert_eq!(moves[3].name, "Move Prev");
    assert_eq!(moves[4].name, "Top Left");

    let all = create_actions();
    assert_eq!(all.len(), 23);
    assert_eq!(all[0].name, "Move Next");
    assert_eq!(all[22].name, "Clear Topmost Flag");
    assert!(all.iter().all(|h| !h.trigger.is_empty()));
}
