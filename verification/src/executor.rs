//! Running an action against the platform's window service.
//!
//! The library does not call the platform. An [`ActionExecutor`] is a
//! state machine: it names the next request to the window service, takes
//! the reply, and decides what follows. Its owner performs the requests.
//! A failed request ends the action with an error that names the request;
//! nothing is left half decided.

use crate::cardinal::{Point, Rect};
use crate::error::{ActionError, OsOperation};
use crate::hotkey_action::Action;
use crate::monitor::{
    move_to_adjacent_monitor, spec_move_to_adjacent_monitor, Direction, MonitorInfo,
};
use crate::window_actions::{
    calculate_margin, is_excluded, margin_fits, placement_fits, recenter, set_window_rect,
    spec_is_excluded, spec_margin, spec_window_pos, WindowPos,
};
use vstd::prelude::*;

verus! {

/// The ways to show a window.
#[derive(Clone, Copy, Debug, PartialEq, Eq, Structural)]
pub enum ShowCommand {
    Restore,
    Maximize,
    Minimize,
}

/// A request to the window service. `window` is the handle of the window
/// that the request is about.
#[derive(Clone, Copy, Debug, PartialEq, Eq, Structural)]
pub enum WindowRequest {
    /// All monitors, each with its work area.
    Monitors,
    /// The window that has the keyboard focus.
    ForegroundWindow,
    /// The path of the executable of the program that owns the window.
    Executable { window: isize },
    /// The monitor on which the window stands.
    MonitorOfWindow { window: isize },
    /// Show the window in the given way.
    Show { window: isize, command: ShowCommand },
    /// The raw rectangle of the window and the bounds of its drawn frame.
    Frame { window: isize },
    /// Move and resize the window. With `keep_order` the window keeps its
    /// place in the stacking order; without, it comes to the top.
    Place { window: isize, pos: WindowPos, keep_order: bool },
    /// Put the window below all windows that stay on top, without moving
    /// or resizing it.
    ClearTopmost { window: isize },
    /// The position of the cursor.
    CursorPosition,
    /// Move the cursor.
    MoveCursor { to: Point },
}

/// The reply of the window service to a request.
#[derive(Debug)]
pub enum Reply {
    /// The request failed.
    Failed,
    /// The request was carried out; there is nothing to report.
    Done,
    Monitors(Vec<MonitorInfo>),
    /// The handle of the foreground window; 0 if there is none.
    Window(isize),
    Executable(String),
    Monitor(MonitorInfo),
    Frame { window_rect: Rect, frame: Rect },
    Cursor(Point),
}

/// What a [`Reply`] stands for.
pub ghost enum ReplyView {
    Failed,
    Done,
    Monitors(Seq<MonitorInfo>),
    Window(isize),
    Executable(Seq<char>),
    Monitor(MonitorInfo),
    Frame { window_rect: Rect, frame: Rect },
    Cursor(Point),
}

impl View for Reply {
    type V = ReplyView;

    open spec fn view(&self) -> ReplyView {
        match *self {
            Reply::Failed => ReplyView::Failed,
            Reply::Done => ReplyView::Done,
            Reply::Monitors(list) => ReplyView::Monitors(list@),
            Reply::Window(handle) => ReplyView::Window(handle),
            Reply::Executable(path) => ReplyView::Executable(path@),
            Reply::Monitor(monitor) => ReplyView::Monitor(monitor),
            Reply::Frame { window_rect, frame } => ReplyView::Frame { window_rect, frame },
            Reply::Cursor(point) => ReplyView::Cursor(point),
        }
    }
}

/// What the owner of the executor has to do next.
#[derive(Clone, Copy, Debug, PartialEq, Eq)]
pub enum Step {
    /// Perform the request and hand the reply to [`ActionExecutor::advance`].
    Request(WindowRequest),
    /// The action is over, with this result.
    Finished(Result<(), ActionError>),
}

/// The reply for which the executor waits.
#[derive(Clone, Copy, Debug, PartialEq, Eq, Structural)]
pub enum Stage {
    AwaitMonitors,
    AwaitWindow,
    AwaitExecutable,
    AwaitMonitor,
    AwaitRestore,
    AwaitFrame,
    AwaitPlace,
    AwaitCursor,
    AwaitCursorMove,
    AwaitShow,
    AwaitClearTopmost,
    Finished,
}

/// The state of an action in progress.
pub struct ActionExecutor {
    action: Action,
    exclusions: Vec<String>,
    stage: Stage,
    monitors: Vec<MonitorInfo>,
    window: isize,
    target: Rect,
    pos: WindowPos,
    outcome: Result<(), ActionError>,
}

/// What an [`ActionExecutor`] stands for.
pub ghost struct ExecutorView {
    /// The action that is being run.
    pub action: Action,
    /// Names of programs whose windows are not minimized.
    pub exclusions: Seq<Seq<char>>,
    pub stage: Stage,
    /// The monitors, once they have been enumerated.
    pub monitors: Seq<MonitorInfo>,
    /// The foreground window, once it is known.
    pub window: isize,
    /// The rectangle that the window is to cover, once it is computed.
    pub target: Rect,
    /// The compensated placement, once it is computed.
    pub pos: WindowPos,
    /// The result of the action, once it is finished.
    pub outcome: Result<(), ActionError>,
}

impl View for ActionExecutor {
    type V = ExecutorView;

    closed spec fn view(&self) -> ExecutorView {
        ExecutorView {
            action: self.action,
            exclusions: self.exclusions@.map_values(|name: String| name@),
            stage: self.stage,
            monitors: self.monitors@,
            window: self.window,
            target: self.target,
            pos: self.pos,
            outcome: self.outcome,
        }
    }
}

/// The direction of an action that moves the window to another monitor.
pub open spec fn spec_direction_of(action: Action) -> Option<Direction> {
    match action {
        Action::MoveNextMonitor => Some(Direction::Right),
        Action::MovePrevMonitor => Some(Direction::Left),
        _ => None,
    }
}

/// The direction of an action that moves the window to another monitor.
#[verifier::when_used_as_spec(spec_direction_of)]
pub fn direction_of(action: Action) -> (d: Option<Direction>)
    ensures
        d == spec_direction_of(action),
{
    match action {
        Action::MoveNextMonitor => Some(Direction::Right),
        Action::MovePrevMonitor => Some(Direction::Left),
        _ => None,
    }
}

/// The state in which an action starts. A move between monitors begins by
/// enumerating the monitors, every other action by asking for the
/// foreground window.
pub open spec fn start_state(action: Action, exclusions: Seq<Seq<char>>) -> ExecutorView {
    ExecutorView {
        action,
        exclusions,
        stage: if direction_of(action) is Some {
            Stage::AwaitMonitors
        } else {
            Stage::AwaitWindow
        },
        monitors: Seq::empty(),
        window: 0,
        target: Rect { left: 0, top: 0, right: 0, bottom: 0 },
        pos: WindowPos { x: 0, y: 0, cx: 0, cy: 0 },
        outcome: Ok(()),
    }
}

/// The state in which the action is over with the given result.
pub open spec fn finished(s: ExecutorView, outcome: Result<(), ActionError>) -> ExecutorView {
    ExecutorView { stage: Stage::Finished, outcome, ..s }
}

/// The state in which the action failed because a request failed.
pub open spec fn failed(s: ExecutorView, operation: OsOperation) -> ExecutorView {
    finished(s, Err(ActionError::OsApiFailure(operation)))
}

/// The state in which the executor waits for another reply.
pub open spec fn waiting(s: ExecutorView, stage: Stage) -> ExecutorView {
    ExecutorView { stage, ..s }
}

/// The state after the monitors were asked for.
pub open spec fn after_monitors(s: ExecutorView, reply: ReplyView) -> ExecutorView {
    match reply {
        ReplyView::Monitors(list) => ExecutorView {
            stage: Stage::AwaitWindow,
            monitors: list,
            ..s
        },
        _ => failed(s, OsOperation::EnumerateMonitors),
    }
}

/// The state after the foreground window was asked for.
pub open spec fn after_window(s: ExecutorView, reply: ReplyView) -> ExecutorView {
    match reply {
        ReplyView::Window(handle) => if handle == 0 {
            finished(s, Err(ActionError::NoForegroundWindow))
        } else {
            ExecutorView {
                window: handle,
                stage: match s.action {
                    Action::Maximize => Stage::AwaitShow,
                    Action::Minimize => Stage::AwaitExecutable,
                    Action::ClearTop => Stage::AwaitClearTopmost,
                    _ => Stage::AwaitMonitor,
                },
                ..s
            }
        },
        _ => failed(s, OsOperation::ForegroundWindow),
    }
}

/// The state after the executable of the window's program was asked for.
pub open spec fn after_executable(s: ExecutorView, reply: ReplyView) -> ExecutorView {
    match reply {
        ReplyView::Executable(path) => if spec_is_excluded(path, s.exclusions) {
            finished(s, Err(ActionError::ExcludedProcess))
        } else {
            waiting(s, Stage::AwaitShow)
        },
        _ => failed(s, OsOperation::ForegroundExecutable),
    }
}

/// The state after the monitor of the window was asked for: the target
/// rectangle is computed from its work area.
pub open spec fn after_monitor(s: ExecutorView, reply: ReplyView) -> ExecutorView {
    match reply {
        ReplyView::Monitor(monitor) => match direction_of(s.action) {
            Some(direction) => match spec_move_to_adjacent_monitor(
                s.monitors,
                monitor,
                direction,
            ) {
                Ok(target) => ExecutorView { target, stage: Stage::AwaitRestore, ..s },
                Err(e) => finished(s, Err(e)),
            },
            None => match s.action.spec_target_rect(monitor.work_area) {
                Some(target) => ExecutorView { target, stage: Stage::AwaitRestore, ..s },
                None => finished(s, Err(ActionError::CoordinateOverflow)),
            },
        },
        _ => failed(s, OsOperation::WorkArea),
    }
}

/// The state after the window was asked to be restored.
pub open spec fn after_restore(s: ExecutorView, reply: ReplyView) -> ExecutorView {
    match reply {
        ReplyView::Done => waiting(s, Stage::AwaitFrame),
        _ => failed(s, OsOperation::ShowWindow),
    }
}

/// The state after the frame of the window was asked for: the placement
/// is compensated for the margin of the window.
pub open spec fn after_frame(s: ExecutorView, reply: ReplyView) -> ExecutorView {
    match reply {
        ReplyView::Frame { window_rect, frame } => if margin_fits(window_rect, frame)
            && placement_fits(s.target, spec_margin(window_rect, frame)) {
            ExecutorView {
                pos: spec_window_pos(s.target, spec_margin(window_rect, frame)),
                stage: Stage::AwaitPlace,
                ..s
            }
        } else {
            finished(s, Err(ActionError::CoordinateOverflow))
        },
        _ => failed(s, OsOperation::WindowFrame),
    }
}

/// The state after the window was asked to be placed: whatever the
/// action, the cursor position is asked for next.
pub open spec fn after_place(s: ExecutorView, reply: ReplyView) -> ExecutorView {
    match reply {
        ReplyView::Done => waiting(s, Stage::AwaitCursor),
        _ => failed(s, OsOperation::SetWindowPos),
    }
}

/// The state after the cursor position was asked for: the cursor is moved
/// only if it is not in the target rectangle already.
pub open spec fn after_cursor(s: ExecutorView, reply: ReplyView) -> ExecutorView {
    match reply {
        ReplyView::Cursor(point) => match recenter(s.target, point) {
            None => finished(s, Ok(())),
            Some(_) => waiting(s, Stage::AwaitCursorMove),
        },
        _ => failed(s, OsOperation::CursorPosition),
    }
}

/// The state after the cursor was asked to be moved.
pub open spec fn after_cursor_move(s: ExecutorView, reply: ReplyView) -> ExecutorView {
    match reply {
        ReplyView::Done => finished(s, Ok(())),
        _ => failed(s, OsOperation::SetCursorPosition),
    }
}

/// The state after a request that ends the action: showing the window
/// maximized or minimized, or lowering it.
pub open spec fn after_last(s: ExecutorView, reply: ReplyView, operation: OsOperation)
    -> ExecutorView {
    match reply {
        ReplyView::Done => finished(s, Ok(())),
        _ => failed(s, operation),
    }
}

/// The state that follows on a reply. A finished action stays as it is.
pub open spec fn step(s: ExecutorView, reply: ReplyView) -> ExecutorView {
    match s.stage {
        Stage::AwaitMonitors => after_monitors(s, reply),
        Stage::AwaitWindow => after_window(s, reply),
        Stage::AwaitExecutable => after_executable(s, reply),
        Stage::AwaitMonitor => after_monitor(s, reply),
        Stage::AwaitRestore => after_restore(s, reply),
        Stage::AwaitFrame => after_frame(s, reply),
        Stage::AwaitPlace => after_place(s, reply),
        Stage::AwaitCursor => after_cursor(s, reply),
        Stage::AwaitCursorMove => after_cursor_move(s, reply),
        Stage::AwaitShow => after_last(s, reply, OsOperation::ShowWindow),
        Stage::AwaitClearTopmost => after_last(s, reply, OsOperation::SetWindowPos),
        Stage::Finished => s,
    }
}

/// What is to be done in a state: the request for whose reply the
/// executor waits, or nothing more.
pub open spec fn pending(s: ExecutorView) -> Step {
    match s.stage {
        Stage::AwaitMonitors => Step::Request(WindowRequest::Monitors),
        Stage::AwaitWindow => Step::Request(WindowRequest::ForegroundWindow),
        Stage::AwaitExecutable => Step::Request(WindowRequest::Executable { window: s.window }),
        Stage::AwaitMonitor => Step::Request(
            WindowRequest::MonitorOfWindow { window: s.window },
        ),
        Stage::AwaitRestore => Step::Request(
            WindowRequest::Show { window: s.window, command: ShowCommand::Restore },
        ),
        Stage::AwaitFrame => Step::Request(WindowRequest::Frame { window: s.window }),
        Stage::AwaitPlace => Step::Request(
            WindowRequest::Place {
                window: s.window,
                pos: s.pos,
                keep_order: direction_of(s.action) is None,
            },
        ),
        Stage::AwaitCursor => Step::Request(WindowRequest::CursorPosition),
        Stage::AwaitCursorMove => Step::Request(WindowRequest::MoveCursor { to: s.target.center() }),
        Stage::AwaitShow => Step::Request(
            WindowRequest::Show {
                window: s.window,
                command: if s.action == Action::Maximize {
                    ShowCommand::Maximize
                } else {
                    ShowCommand::Minimize
                },
            },
        ),
        Stage::AwaitClearTopmost => Step::Request(
            WindowRequest::ClearTopmost { window: s.window },
        ),
        Stage::Finished => Step::Finished(s.outcome),
    }
}

/// How many requests an action can still make, at most.
pub open spec fn remaining(stage: Stage) -> nat {
    match stage {
        Stage::AwaitMonitors => 8,
        Stage::AwaitWindow => 7,
        Stage::AwaitMonitor => 6,
        Stage::AwaitRestore => 5,
        Stage::AwaitFrame => 4,
        Stage::AwaitPlace => 3,
        Stage::AwaitCursor => 2,
        Stage::AwaitExecutable => 2,
        Stage::AwaitCursorMove => 1,
        Stage::AwaitShow => 1,
        Stage::AwaitClearTopmost => 1,
        Stage::Finished => 0,
    }
}

/// Every reply brings an unfinished action nearer to its end, whatever the
/// reply is: an action makes at most eight requests.
pub proof fn lemma_step_progress(s: ExecutorView, reply: ReplyView)
    requires
        s.stage != Stage::Finished,
    ensures
        remaining(step(s, reply).stage) < remaining(s.stage),
{
}

/// The state after a sequence of replies, the first reply first.
pub open spec fn steps(s: ExecutorView, replies: Seq<ReplyView>) -> ExecutorView
    decreases replies.len(),
{
    if replies.len() == 0 {
        s
    } else {
        step(steps(s, replies.drop_last()), replies.last())
    }
}

/// Each reply of a sequence uses up one of the requests that an action
/// can still make.
pub proof fn lemma_steps_progress(s: ExecutorView, replies: Seq<ReplyView>)
    ensures
        remaining(steps(s, replies).stage) + replies.len() <= remaining(s.stage) || steps(
            s,
            replies,
        ).stage == Stage::Finished,
    decreases replies.len(),
{
    if replies.len() > 0 {
        let before = steps(s, replies.drop_last());
        lemma_steps_progress(s, replies.drop_last());
        if before.stage != Stage::Finished {
            lemma_step_progress(before, replies.last());
        }
    }
}

/// Whatever the window service replies, an action is over after eight
/// replies at the latest.
pub proof fn lemma_action_ends(
    action: Action,
    exclusions: Seq<Seq<char>>,
    replies: Seq<ReplyView>,
)
    requires
        replies.len() >= 8,
    ensures
        steps(start_state(action, exclusions), replies).stage == Stage::Finished,
{
    lemma_steps_progress(start_state(action, exclusions), replies);
}

/// A reply changes neither the action nor the exclusion list, and a
/// finished action stays finished with its result.
pub proof fn lemma_step_keeps(s: ExecutorView, reply: ReplyView)
    ensures
        step(s, reply).action == s.action,
        step(s, reply).exclusions == s.exclusions,
        s.stage == Stage::Finished ==> step(s, reply) == s,
{
}

/// A failed request ends the action, whatever the action and whatever the
/// request: the action is over, and its result is an error that stems
/// from a platform operation.
pub proof fn lemma_failure_is_final(s: ExecutorView)
    requires
        s.stage != Stage::Finished,
    ensures
        step(s, ReplyView::Failed).stage == Stage::Finished,
        step(s, ReplyView::Failed).outcome matches Err(e) && e.operation() is Some,
{
}

/// The cursor is asked to move only after its position was asked for and
/// found outside the rectangle that the window covers.
pub proof fn lemma_cursor_moves_only_from_outside(s: ExecutorView, reply: ReplyView)
    requires
        s.stage != Stage::AwaitCursorMove,
        step(s, reply).stage == Stage::AwaitCursorMove,
    ensures
        s.stage == Stage::AwaitCursor,
        step(s, reply).target == s.target,
        reply matches ReplyView::Cursor(point) && !s.target.contains(point),
{
}

impl ActionExecutor {
    /// Starts an action. `exclusions` names the programs whose windows are
    /// not minimized.
    pub fn new(action: Action, exclusions: Vec<String>) -> (executor: ActionExecutor)
        ensures
            executor@ == start_state(action, exclusions@.map_values(|name: String| name@)),
    {
        let stage = match direction_of(action) {
            Some(_) => Stage::AwaitMonitors,
            None => Stage::AwaitWindow,
        };
        ActionExecutor {
            action,
            exclusions,
            stage,
            monitors: Vec::new(),
            window: 0,
            target: Rect { left: 0, top: 0, right: 0, bottom: 0 },
            pos: WindowPos { x: 0, y: 0, cx: 0, cy: 0 },
            outcome: Ok(()),
        }
    }

    /// The request that is to be performed now, or the result of the
    /// action if it is over.
    pub fn pending(&self) -> (next: Step)
        ensures
            next == pending(self@),
    {
        match self.stage {
            Stage::AwaitMonitors => Step::Request(WindowRequest::Monitors),
            Stage::AwaitWindow => Step::Request(WindowRequest::ForegroundWindow),
            Stage::AwaitExecutable => Step::Request(
                WindowRequest::Executable { window: self.window },
            ),
            Stage::AwaitMonitor => Step::Request(
                WindowRequest::MonitorOfWindow { window: self.window },
            ),
            Stage::AwaitRestore => Step::Request(
                WindowRequest::Show { window: self.window, command: ShowCommand::Restore },
            ),
            Stage::AwaitFrame => Step::Request(WindowRequest::Frame { window: self.window }),
            Stage::AwaitPlace => Step::Request(
                WindowRequest::Place {
                    window: self.window,
                    pos: self.pos,
                    keep_order: direction_of(self.action).is_none(),
                },
            ),
            Stage::AwaitCursor => Step::Request(WindowRequest::CursorPosition),
            Stage::AwaitCursorMove => Step::Request(
                WindowRequest::MoveCursor { to: self.target.center() },
            ),
            Stage::AwaitShow => Step::Request(
                WindowRequest::Show {
                    window: self.window,
                    command: if self.action == Action::Maximize {
                        ShowCommand::Maximize
                    } else {
                        ShowCommand::Minimize
                    },
                },
            ),
            Stage::AwaitClearTopmost => Step::Request(
                WindowRequest::ClearTopmost { window: self.window },
            ),
            Stage::Finished => Step::Finished(self.outcome),
        }
    }

    /// Whether the action is over.
    pub fn is_finished(&self) -> (over: bool)
        ensures
            over == (self@.stage == Stage::Finished),
    {
        self.stage == Stage::Finished
    }

    fn finish(&mut self, outcome: Result<(), ActionError>)
        ensures
            final(self)@ == finished(old(self)@, outcome),
    {
        self.stage = Stage::Finished;
        self.outcome = outcome;
    }

    fn fail(&mut self, operation: OsOperation)
        ensures
            final(self)@ == failed(old(self)@, operation),
    {
        self.finish(Err(ActionError::OsApiFailure(operation)));
    }

    fn wait_for(&mut self, stage: Stage)
        ensures
            final(self)@ == waiting(old(self)@, stage),
    {
        self.stage = stage;
    }

    fn after_monitors(&mut self, reply: Reply)
        ensures
            final(self)@ == after_monitors(old(self)@, reply@),
    {
        match reply {
            Reply::Monitors(list) => {
                self.monitors = list;
                self.stage = Stage::AwaitWindow;
            },
            _ => self.fail(OsOperation::EnumerateMonitors),
        }
    }

    fn after_window(&mut self, reply: Reply)
        ensures
            final(self)@ == after_window(old(self)@, reply@),
    {
        match reply {
            Reply::Window(handle) => {
                if handle == 0 {
                    self.finish(Err(ActionError::NoForegroundWindow));
                } else {
                    self.window = handle;
                    self.stage = match self.action {
                        Action::Maximize => Stage::AwaitShow,
                        Action::Minimize => Stage::AwaitExecutable,
                        Action::ClearTop => Stage::AwaitClearTopmost,
                        _ => Stage::AwaitMonitor,
                    };
                }
            },
            _ => self.fail(OsOperation::ForegroundWindow),
        }
    }

    fn after_executable(&mut self, reply: Reply)
        ensures
            final(self)@ == after_executable(old(self)@, reply@),
    {
        match reply {
            Reply::Executable(path) => {
                if is_excluded(path.as_str(), &self.exclusions) {
                    self.finish(Err(ActionError::ExcludedProcess));
                } else {
                    self.wait_for(Stage::AwaitShow);
                }
            },
            _ => self.fail(OsOperation::ForegroundExecutable),
        }
    }

    fn after_monitor(&mut self, reply: Reply)
        ensures
            final(self)@ == after_monitor(old(self)@, reply@),
    {
        match reply {
            Reply::Monitor(monitor) => {
                match direction_of(self.action) {
                    Some(direction) => {
                        match move_to_adjacent_monitor(&self.monitors, &monitor, direction) {
                            Ok(target) => {
                                self.target = target;
                                self.stage = Stage::AwaitRestore;
                            },
                            Err(e) => self.finish(Err(e)),
                        }
                    },
                    None => {
                        match self.action.target_rect(&monitor.work_area) {
                            Some(target) => {
                                self.target = target;
                                self.stage = Stage::AwaitRestore;
                            },
                            None => self.finish(Err(ActionError::CoordinateOverflow)),
                        }
                    },
                }
            },
            _ => self.fail(OsOperation::WorkArea),
        }
    }

    fn after_restore(&mut self, reply: Reply)
        ensures
            final(self)@ == after_restore(old(self)@, reply@),
    {
        match reply {
            Reply::Done => self.wait_for(Stage::AwaitFrame),
            _ => self.fail(OsOperation::ShowWindow),
        }
    }

    fn after_frame(&mut self, reply: Reply)
        ensures
            final(self)@ == after_frame(old(self)@, reply@),
    {
        match reply {
            Reply::Frame { window_rect, frame } => {
                let pos = match calculate_margin(&window_rect, &frame) {
                    Some(margin) => set_window_rect(&self.target, &margin),
                    None => None,
                };
                match pos {
                    Some(pos) => {
                        self.pos = pos;
                        self.stage = Stage::AwaitPlace;
                    },
                    None => self.finish(Err(ActionError::CoordinateOverflow)),
                }
            },
            _ => self.fail(OsOperation::WindowFrame),
        }
    }

    fn after_place(&mut self, reply: Reply)
        ensures
            final(self)@ == after_place(old(self)@, reply@),
    {
        match reply {
            Reply::Done => self.wait_for(Stage::AwaitCursor),
            _ => self.fail(OsOperation::SetWindowPos),
        }
    }

    fn after_cursor(&mut self, reply: Reply)
        ensures
            final(self)@ == after_cursor(old(self)@, reply@),
    {
        match reply {
            Reply::Cursor(point) => {
                match recenter(self.target, point) {
                    None => self.finish(Ok(())),
                    Some(_) => self.wait_for(Stage::AwaitCursorMove),
                }
            },
            _ => self.fail(OsOperation::CursorPosition),
        }
    }

    fn after_cursor_move(&mut self, reply: Reply)
        ensures
            final(self)@ == after_cursor_move(old(self)@, reply@),
    {
        match reply {
            Reply::Done => self.finish(Ok(())),
            _ => self.fail(OsOperation::SetCursorPosition),
        }
    }

    fn after_last(&mut self, reply: Reply, operation: OsOperation)
        ensures
            final(self)@ == after_last(old(self)@, reply@, operation),
    {
        match reply {
            Reply::Done => self.finish(Ok(())),
            _ => self.fail(operation),
        }
    }

    /// Takes the reply to the pending request and decides what follows.
    /// Returns the next request, or the result of the action. A reply of
    /// another kind than the request calls for counts as a failure of the
    /// request.
    pub fn advance(&mut self, reply: Reply) -> (next: Step)
        ensures
            final(self)@ == step(old(self)@, reply@),
            next == pending(final(self)@),
    {
        match self.stage {
            Stage::AwaitMonitors => self.after_monitors(reply),
            Stage::AwaitWindow => self.after_window(reply),
            Stage::AwaitExecutable => self.after_executable(reply),
            Stage::AwaitMonitor => self.after_monitor(reply),
            Stage::AwaitRestore => self.after_restore(reply),
            Stage::AwaitFrame => self.after_frame(reply),
            Stage::AwaitPlace => self.after_place(reply),
            Stage::AwaitCursor => self.after_cursor(reply),
            Stage::AwaitCursorMove => self.after_cursor_move(reply),
            Stage::AwaitShow => self.after_last(reply, OsOperation::ShowWindow),
            Stage::AwaitClearTopmost => self.after_last(reply, OsOperation::SetWindowPos),
            Stage::Finished => {},
        }
        self.pending()
    }
}

impl Action {
    /// Starts the action: returns the executor that runs it, whose first
    /// request is pending.
    pub fn apply(&self, exclusions: Vec<String>) -> (executor: ActionExecutor)
        ensures
            executor@ == start_state(*self, exclusions@.map_values(|name: String| name@)),
            pending(executor@) is Request,
    {
        ActionExecutor::new(*self, exclusions)
    }
}

} // verus!
