use grist::cardinal::{Point, Rect};
use grist::create_actions;
use grist::error::{ActionError, OsOperation};
use grist::executor::{Reply, ShowCommand, Step, WindowRequest};
use grist::hotkey_action::{Action, HotkeyRegistry, VK};
use grist::keyboard::{HookVerdict, WM_KEYDOWN, WM_KEYUP};
use grist::monitor::MonitorInfo;
use grist::ui::HookController;

const WINDOW: isize = 42;

/// A desktop that answers the requests of an action the way the platform
/// does. Windows have an invisible border of `border` pixels at the left,
/// right and bottom.
struct Desktop {
    monitors: Vec<MonitorInfo>,
    foreground: isize,
    raw: Rect,
    border: i32,
    cursor: Point,
    executable: String,
    shown: Vec<ShowCommand>,
    lowered: bool,
    on_top: bool,
    broken: Option<WindowRequest>,
    requests: usize,
}

impl Desktop {
    fn new(monitors: Vec<MonitorInfo>, frame: Rect, cursor: Point) -> Desktop {
        let border = 7;
        Desktop {
            monitors,
            foreground: WINDOW,
            raw: Rect {
                left: frame.left - border,
                top: frame.top,
                right: frame.right + border,
                bottom: frame.bottom + border,
            },
            border,
            cursor,
            executable: String::from("C:\\Windows\\notepad.exe"),
            shown: Vec::new(),
            lowered: false,
            on_top: false,
            broken: None,
            requests: 0,
        }
    }

    fn frame(&self) -> Rect {
        Rect {
            left: self.raw.left + self.border,
            top: self.raw.top,
            right: self.raw.right - self.border,
            bottom: self.raw.bottom - self.border,
        }
    }

    fn monitor_of_window(&self) -> MonitorInfo {
        let center = self.frame().center();
        *self
            .monitors
            .iter()
            .find(|m| m.work_area.contains(center))
            .unwrap_or(&self.monitors[0])
    }

    fn perform(&mut self, request: WindowRequest) -> Reply {
        self.requests += 1;
        if self.broken == Some(request) {
            return Reply::Failed;
        }
        match request {
            WindowRequest::Monitors => Reply::Monitors(self.monitors.clone()),
            WindowRequest::ForegroundWindow => Reply::Window(self.foreground),
            WindowRequest::Executable { window } => {
                assert_eq!(window, WINDOW);
                Reply::Executable(self.executable.clone())
            },
            WindowRequest::MonitorOfWindow { window } => {
                assert_eq!(window, WINDOW);
                Reply::Monitor(self.monitor_of_window())
            },
            WindowRequest::Show { window, command } => {
                assert_eq!(window, WINDOW);
                self.shown.push(command);
                Reply::Done
            },
            WindowRequest::Frame { window } => {
                assert_eq!(window, WINDOW);
                Reply::Frame { window_rect: self.raw, frame: self.frame() }
            },
            WindowRequest::Place { window, pos, keep_order } => {
                assert_eq!(window, WINDOW);
                self.raw = Rect {
                    left: pos.x,
                    top: pos.y,
                    right: pos.x + pos.cx,
                    bottom: pos.y + pos.cy,
                };
                self.on_top = !keep_order;
                Reply::Done
            },
            WindowRequest::ClearTopmost { window } => {
                assert_eq!(window, WINDOW);
                self.lowered = true;
                Reply::Done
            },
            WindowRequest::CursorPosition => Reply::Cursor(self.cursor),
            WindowRequest::MoveCursor { to } => {
                self.cursor = to;
                Reply::Done
            },
        }
    }

    /// Runs an action to its end, as the owner of an executor does.
    fn run(&mut self, action: Action, exclusions: Vec<String>) -> Result<(), ActionError> {
        let mut executor = action.apply(exclusions);
        loop {
            match executor.pending() {
                Step::Finished(result) => return result,
                Step::Request(request) => {
                    let reply = self.perform(request);
                    executor.advance(reply);
                },
            }
        }
    }
}

fn rect(left: i32, top: i32, right: i32, bottom: i32) -> Rect {
    Rect { left, top, right, bottom }
}

fn monitor(handle: isize, left: i32, top: i32, right: i32, bottom: i32) -> MonitorInfo {
    MonitorInfo { handle, work_area: rect(left, top, right, bottom) }
}

fn two_monitors() -> Vec<MonitorInfo> {
    vec![monitor(1, 0, 0, 1920, 1080), monitor(2, 1920, 0, 3840, 1080)]
}

/// Sends key-down events through a hooked controller and returns the
/// action of the last one, if it fired.
fn press(controller: &mut HookController, registry: &HotkeyRegistry, keys: &[VK]) -> Option<Action> {
    let mut fired = None;
    for key in keys {
        fired = match controller.on_key_event(registry, 0, WM_KEYDOWN, key.as_u32()).verdict {
            HookVerdict::Consume(action) => Some(action),
            HookVerdict::PassThrough => None,
        };
    }
    fired
}

#[test]
fn hotkey_moves_window_to_the_next_monitor() {
    let registry = HotkeyRegistry::new(create_actions());
    let mut controller = HookController::new();
    controller.toggle();
    let mut desktop =
        Desktop::new(two_monitors(), rect(200, 100, 1000, 700), Point { x: 300, y: 300 });

    let action = press(&mut controller, &registry, &[VK::LeftWindows, VK::Right]);
    assert_eq!(action, Some(Action::MoveNextMonitor));
    assert_eq!(desktop.run(action.unwrap(), Vec::new()), Ok(()));

    assert_eq!(desktop.frame(), rect(1920, 0, 2880, 540));
    assert_eq!(desktop.cursor, Point { x: 2400, y: 270 });
    assert_eq!(desktop.shown, vec![ShowCommand::Restore]);
    assert!(desktop.on_top);

    // Once more, and the window is back on the left monitor.
    controller.on_key_event(&registry, 0, WM_KEYUP, VK::Right.as_u32());
    let action = press(&mut controller, &registry, &[VK::Right]);
    assert_eq!(desktop.run(action.unwrap(), Vec::new()), Ok(()));
    assert_eq!(desktop.frame(), rect(0, 0, 960, 540));
    assert_eq!(desktop.cursor, Point { x: 480, y: 270 });
}

#[test]
fn hotkeys_place_window_west_and_north_on_a_single_monitor() {
    let registry = HotkeyRegistry::new(create_actions());
    let mut controller = HookController::new();
    controller.toggle();
    let mut desktop = Desktop::new(
        vec![monitor(1, 0, 0, 1920, 1080)],
        rect(500, 300, 1300, 900),
        Point { x: 1800, y: 1000 },
    );

    let action = press(&mut controller, &registry, &[VK::LeftWindows, VK::Numpad4]);
    assert_eq!(action, Some(Action::MonitorLeft));
    assert_eq!(desktop.run(action.unwrap(), Vec::new()), Ok(()));
    assert_eq!(desktop.frame(), rect(0, 0, 960, 1080));
    assert_eq!(desktop.cursor, Point { x: 480, y: 540 });
    assert!(!desktop.on_top);

    controller.on_key_event(&registry, 0, WM_KEYUP, VK::Numpad4.as_u32());
    let action = press(&mut controller, &registry, &[VK::Numpad8]);
    assert_eq!(action, Some(Action::MonitorTop));
    assert_eq!(desktop.run(action.unwrap(), Vec::new()), Ok(()));
    assert_eq!(desktop.frame(), rect(0, 0, 1920, 540));
    // The cursor stood on the bottom edge of the new rectangle, which is
    // outside: it goes to the center.
    assert_eq!(desktop.cursor, Point { x: 960, y: 270 });
}

#[test]
fn move_to_the_next_monitor_leaves_a_cursor_that_is_already_there() {
    let mut desktop =
        Desktop::new(two_monitors(), rect(200, 100, 1000, 700), Point { x: 2000, y: 100 });
    assert_eq!(desktop.run(Action::MoveNextMonitor, Vec::new()), Ok(()));
    assert_eq!(desktop.frame(), rect(1920, 0, 2880, 540));
    assert_eq!(desktop.cursor, Point { x: 2000, y: 100 });
    assert_eq!(desktop.requests, 7);
}

#[test]
fn failing_request_ends_a_move_between_monitors() {
    let mut desktop =
        Desktop::new(two_monitors(), rect(200, 100, 1000, 700), Point { x: 5, y: 5 });
    desktop.broken =
        Some(WindowRequest::Show { window: WINDOW, command: ShowCommand::Restore });
    assert_eq!(
        desktop.run(Action::MoveNextMonitor, Vec::new()),
        Err(ActionError::OsApiFailure(OsOperation::ShowWindow))
    );
    assert_eq!(desktop.frame(), rect(200, 100, 1000, 700));
    assert_eq!(desktop.cursor, Point { x: 5, y: 5 });

    let mut desktop =
        Desktop::new(two_monitors(), rect(200, 100, 1000, 700), Point { x: 5, y: 5 });
    desktop.broken = Some(WindowRequest::MoveCursor { to: Point { x: 2400, y: 270 } });
    assert_eq!(
        desktop.run(Action::MoveNextMonitor, Vec::new()),
        Err(ActionError::OsApiFailure(OsOperation::SetCursorPosition))
    );
    assert_eq!(desktop.cursor, Point { x: 5, y: 5 });
}

#[test]
fn cursor_inside_the_target_is_left_alone() {
    let mut desktop = Desktop::new(
        vec![monitor(1, 0, 0, 1920, 1080)],
        rect(500, 300, 1300, 900),
        Point { x: 100, y: 100 },
    );
    assert_eq!(desktop.run(Action::MonitorTopLeft, Vec::new()), Ok(()));
    assert_eq!(desktop.frame(), rect(0, 0, 960, 540));
    assert_eq!(desktop.cursor, Point { x: 100, y: 100 });
    assert_eq!(desktop.requests, 6);
}

#[test]
fn every_shipped_binding_runs_to_its_end() {
    for binding in create_actions() {
        let mut desktop =
            Desktop::new(two_monitors(), rect(200, 100, 1000, 700), Point { x: 3000, y: 900 });
        assert_eq!(desktop.run(binding.action, vec![String::from("Zoom.exe")]), Ok(()));
        assert!(desktop.requests <= 8);
        match binding.action {
            Action::Maximize => assert_eq!(desktop.shown, vec![ShowCommand::Maximize]),
            Action::Minimize => assert_eq!(desktop.shown, vec![ShowCommand::Minimize]),
            Action::ClearTop => assert!(desktop.lowered),
            Action::MoveNextMonitor | Action::MovePrevMonitor => {
                assert_eq!(desktop.frame(), rect(1920, 0, 2880, 540));
            },
            action => {
                let target = action.target_rect(&rect(0, 0, 1920, 1080)).unwrap();
                assert_eq!(desktop.frame(), target);
                assert_eq!(desktop.cursor, target.center());
            },
        }
    }
}

#[test]
fn excluded_program_is_not_minimized() {
    let mut desktop =
        Desktop::new(two_monitors(), rect(200, 100, 1000, 700), Point { x: 0, y: 0 });
    desktop.executable = String::from("C:\\Program Files\\Zoom\\bin\\Zoom.exe");
    assert_eq!(
        desktop.run(Action::Minimize, vec![String::from("Zoom.exe")]),
        Err(ActionError::ExcludedProcess)
    );
    assert_eq!(desktop.shown, Vec::<ShowCommand>::new());
    // Other actions do not ask for the program.
    assert_eq!(desktop.run(Action::Maximize, vec![String::from("Zoom.exe")]), Ok(()));
    // Without the exclusion the window is minimized.
    assert_eq!(desktop.run(Action::Minimize, Vec::new()), Ok(()));
    assert_eq!(desktop.shown, vec![ShowCommand::Maximize, ShowCommand::Minimize]);
}

#[test]
fn failing_request_ends_the_action_without_moving_anything() {
    let mut desktop =
        Desktop::new(two_monitors(), rect(200, 100, 1000, 700), Point { x: 5, y: 5 });
    desktop.broken = Some(WindowRequest::Frame { window: WINDOW });
    assert_eq!(
        desktop.run(Action::MonitorRight, Vec::new()),
        Err(ActionError::OsApiFailure(OsOperation::WindowFrame))
    );
    assert_eq!(desktop.frame(), rect(200, 100, 1000, 700));
    assert_eq!(desktop.cursor, Point { x: 5, y: 5 });
}

#[test]
fn no_foreground_window_means_nothing_happens() {
    let mut desktop =
        Desktop::new(two_monitors(), rect(200, 100, 1000, 700), Point { x: 5, y: 5 });
    desktop.foreground = 0;
    for binding in create_actions() {
        assert_eq!(desktop.run(binding.action, Vec::new()), Err(ActionError::NoForegroundWindow));
    }
    assert_eq!(desktop.frame(), rect(200, 100, 1000, 700));
    assert_eq!(desktop.cursor, Point { x: 5, y: 5 });
}
