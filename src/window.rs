use vstd::prelude::*;
use crate::error::ShellError;

verus! {

/// A command that the frontend sends for the main window.
#[derive(Debug, Clone, Copy, PartialEq, Eq, Structural)]
pub enum WindowCommand {
    SetAlwaysOnTop(bool),
    Minimize,
    MaximizeToggle,
    Close,
}

/// A single request issued to the platform against one window handle.
#[derive(Debug, Clone, Copy, PartialEq, Eq, Structural)]
pub enum WindowRequest {
    SetAlwaysOnTop(bool),
    Minimize,
    Maximize,
    Unmaximize,
    Close,
    Focus,
    Unminimize,
}

/// How one platform request failed.
#[derive(Debug, Clone, PartialEq, Eq)]
pub enum OsFailure {
    /// The handle no longer designates a live window.
    HandleGone,
    /// The platform refused the request, with its own message.
    Denied { reason: String },
}

/// A model of the observable facets of one top-level window. The window
/// itself belongs to the application runtime: a close request only asks it to
/// close, and the runtime destroys it when its own close handling allows.
#[derive(Debug, Clone, Copy, PartialEq, Eq, Structural)]
pub struct WindowState {
    pub always_on_top: bool,
    pub minimized: bool,
    pub maximized: bool,
    pub focused: bool,
    pub close_requested: bool,
    pub destroyed: bool,
}

/// Fail-open choice of the maximize toggle: restore only when the window is
/// known to be maximized; when the state could not be read (`None`), maximize.
pub open spec fn toggle_choice(read: Option<bool>) -> WindowRequest {
    match read {
        Some(true) => WindowRequest::Unmaximize,
        _ => WindowRequest::Maximize,
    }
}

/// The request that a command turns into, given what reading the maximized
/// state returned (only the toggle looks at it).
pub open spec fn request_for(cmd: WindowCommand, read: Option<bool>) -> WindowRequest {
    match cmd {
        WindowCommand::SetAlwaysOnTop(on) => WindowRequest::SetAlwaysOnTop(on),
        WindowCommand::Minimize => WindowRequest::Minimize,
        WindowCommand::MaximizeToggle => toggle_choice(read),
        WindowCommand::Close => WindowRequest::Close,
    }
}

/// What a request does to a live window.
pub open spec fn effect(w: WindowState, req: WindowRequest) -> WindowState {
    match req {
        WindowRequest::SetAlwaysOnTop(on) => WindowState { always_on_top: on, ..w },
        WindowRequest::Minimize => if w.minimized {
            w
        } else {
            WindowState { minimized: true, focused: false, ..w }
        },
        WindowRequest::Maximize => WindowState { maximized: true, ..w },
        WindowRequest::Unmaximize => WindowState { maximized: false, ..w },
        WindowRequest::Close => WindowState { close_requested: true, ..w },
        WindowRequest::Focus => WindowState { focused: true, ..w },
        WindowRequest::Unminimize => WindowState { minimized: false, ..w },
    }
}

/// The window after a request: a destroyed window stays as it was.
pub open spec fn after(w: WindowState, req: WindowRequest) -> WindowState {
    if w.destroyed {
        w
    } else {
        effect(w, req)
    }
}

/// The result of a request: it fails exactly on a destroyed window.
pub open spec fn result_of(w: WindowState) -> Result<(), ShellError> {
    if w.destroyed {
        Err(ShellError::HandleInvalid)
    } else {
        Ok(())
    }
}

/// What reading the maximized state returns: nothing once the window is gone.
pub open spec fn read_of(w: WindowState) -> Option<bool> {
    if w.destroyed {
        None
    } else {
        Some(w.maximized)
    }
}

/// The window after one command.
pub open spec fn step(w: WindowState, cmd: WindowCommand) -> WindowState {
    after(w, request_for(cmd, read_of(w)))
}

/// The window after a sequence of commands, applied in order.
pub open spec fn run_commands(w: WindowState, cmds: Seq<WindowCommand>) -> WindowState
    decreases cmds.len(),
{
    if cmds.len() == 0 {
        w
    } else {
        step(run_commands(w, cmds.drop_last()), cmds.last())
    }
}

/// The error that a platform failure is reported as.
pub open spec fn spec_failure_error(f: OsFailure) -> ShellError {
    match f {
        OsFailure::HandleGone => ShellError::HandleInvalid,
        OsFailure::Denied { reason } => ShellError::WindowOperationFailed { reason },
    }
}

/// The shell's result for the outcome of one platform request.
pub open spec fn spec_report(outcome: Result<(), OsFailure>) -> Result<(), ShellError> {
    match outcome {
        Ok(()) => Ok(()),
        Err(f) => Err(spec_failure_error(f)),
    }
}

/// The fail-open maximize toggle: `Unmaximize` when the window was read as
/// maximized, `Maximize` when it was read as not maximized or could not be read.
pub fn maximize_choice(read: Option<bool>) -> (r: WindowRequest)
    ensures
        r == toggle_choice(read),
{
    match read {
        Some(true) => WindowRequest::Unmaximize,
        _ => WindowRequest::Maximize,
    }
}

/// The platform request that carries out a command.
pub fn plan_request(cmd: WindowCommand, read: Option<bool>) -> (r: WindowRequest)
    ensures
        r == request_for(cmd, read),
{
    match cmd {
        WindowCommand::SetAlwaysOnTop(on) => WindowRequest::SetAlwaysOnTop(on),
        WindowCommand::Minimize => WindowRequest::Minimize,
        WindowCommand::MaximizeToggle => maximize_choice(read),
        WindowCommand::Close => WindowRequest::Close,
    }
}

/// Turns the outcome of one platform request into the shell's own result.
pub fn report(outcome: Result<(), OsFailure>) -> (r: Result<(), ShellError>)
    ensures
        r == spec_report(outcome),
{
    match outcome {
        Ok(()) => Ok(()),
        Err(OsFailure::HandleGone) => Err(ShellError::HandleInvalid),
        Err(OsFailure::Denied { reason }) => Err(ShellError::WindowOperationFailed { reason }),
    }
}

/// The result as it crosses the string-typed command boundary.
pub fn command_result(r: Result<(), ShellError>) -> (s: Result<(), String>)
    ensures
        r is Ok <==> s is Ok,
        r matches Err(e) ==> s matches Err(m) && m@ == e.spec_message(),
{
    match r {
        Ok(()) => Ok(()),
        Err(e) => Err(e.message()),
    }
}

/// The requests that the restore-and-focus action issues to the main window:
/// focus, then leave the minimized state; none when there is no window yet.
pub fn restore_and_focus_requests(window_present: bool) -> (r: Vec<WindowRequest>)
    ensures
        window_present ==> r@ == seq![WindowRequest::Focus, WindowRequest::Unminimize],
        !window_present ==> r@.len() == 0,
{
    let mut r: Vec<WindowRequest> = Vec::new();
    if window_present {
        r.push(WindowRequest::Focus);
        r.push(WindowRequest::Unminimize);
    }
    r
}

impl WindowState {
    /// A live, visible window in its normal state, not pinned and not focused.
    pub fn new() -> (r: WindowState)
        ensures
            !r.always_on_top && !r.minimized && !r.maximized && !r.focused,
            !r.close_requested && !r.destroyed,
    {
        WindowState {
            always_on_top: false,
            minimized: false,
            maximized: false,
            focused: false,
            close_requested: false,
            destroyed: false,
        }
    }

    /// Reads the maximized state; the read fails on a destroyed window.
    pub fn read_maximized(&self) -> (r: Option<bool>)
        ensures
            r == read_of(*self),
    {
        if self.destroyed {
            None
        } else {
            Some(self.maximized)
        }
    }

    /// Applies the whole effect of a request that the platform carried out.
    fn apply(&mut self, req: WindowRequest)
        ensures
            *final(self) == effect(*old(self), req),
    {
        match req {
            WindowRequest::SetAlwaysOnTop(on) => {
                self.always_on_top = on;
            },
            WindowRequest::Minimize => {
                if !self.minimized {
                    self.minimized = true;
                    self.focused = false;
                }
            },
            WindowRequest::Maximize => {
                self.maximized = true;
            },
            WindowRequest::Unmaximize => {
                self.maximized = false;
            },
            WindowRequest::Close => {
                self.close_requested = true;
            },
            WindowRequest::Focus => {
                self.focused = true;
            },
            WindowRequest::Unminimize => {
                self.minimized = false;
            },
        }
    }

    /// Records what the platform did with a request: on success the whole
    /// effect, on any failure nothing at all, and the failure as reported.
    pub fn record(&mut self, req: WindowRequest, outcome: Result<(), OsFailure>) -> (r: Result<
        (),
        ShellError,
    >)
        ensures
            outcome is Ok ==> *final(self) == effect(*old(self), req),
            outcome is Err ==> *final(self) == *old(self),
            r == spec_report(outcome),
    {
        let r = report(outcome);
        if r.is_ok() {
            self.apply(req);
        }
        r
    }

    /// Carries out one request: all of it on a live window, none of it on a
    /// destroyed one, which reports `HandleInvalid`.
    pub fn perform(&mut self, req: WindowRequest) -> (r: Result<(), ShellError>)
        ensures
            *final(self) == after(*old(self), req),
            r == result_of(*old(self)),
    {
        if self.destroyed {
            self.record(req, Err(OsFailure::HandleGone))
        } else {
            self.record(req, Ok(()))
        }
    }

    /// The runtime destroys the window, after its close handling let a close
    /// request through or on its own account.
    pub fn destroy(&mut self)
        ensures
            *final(self) == (WindowState { destroyed: true, focused: false, ..*old(self) }),
    {
        self.destroyed = true;
        self.focused = false;
    }

    /// Carries out one frontend command.
    pub fn execute(&mut self, cmd: WindowCommand) -> (r: Result<(), ShellError>)
        ensures
            *final(self) == step(*old(self), cmd),
            r == result_of(*old(self)),
    {
        let read = self.read_maximized();
        let req = plan_request(cmd, read);
        self.perform(req)
    }

    /// Pins the window on top of the others, or unpins it.
    pub fn set_always_on_top(&mut self, enabled: bool) -> (r: Result<(), ShellError>)
        ensures
            *final(self) == step(*old(self), WindowCommand::SetAlwaysOnTop(enabled)),
            !old(self).destroyed ==> final(self).always_on_top == enabled,
            r == result_of(*old(self)),
    {
        self.execute(WindowCommand::SetAlwaysOnTop(enabled))
    }

    /// Minimizes the window, whatever its state; on one already minimized it
    /// succeeds and changes nothing.
    pub fn minimize(&mut self) -> (r: Result<(), ShellError>)
        ensures
            *final(self) == step(*old(self), WindowCommand::Minimize),
            !old(self).destroyed ==> final(self).minimized,
            old(self).minimized ==> *final(self) == *old(self),
            r == result_of(*old(self)),
    {
        self.execute(WindowCommand::Minimize)
    }

    /// Restores a maximized window, maximizes any other one.
    pub fn maximize_toggle(&mut self) -> (r: Result<(), ShellError>)
        ensures
            *final(self) == step(*old(self), WindowCommand::MaximizeToggle),
            !old(self).destroyed ==> final(self).maximized == !old(self).maximized,
            r == result_of(*old(self)),
    {
        self.execute(WindowCommand::MaximizeToggle)
    }

    /// Asks the window to close; whether and when it goes is up to its own
    /// close handling. Closing one that is already gone is `HandleInvalid`.
    pub fn close(&mut self) -> (r: Result<(), ShellError>)
        ensures
            *final(self) == step(*old(self), WindowCommand::Close),
            !old(self).destroyed ==> final(self).close_requested,
            r == result_of(*old(self)),
    {
        self.execute(WindowCommand::Close)
    }

    /// The restore-and-focus action on this window.
    pub fn restore_and_focus(&mut self) -> (r: Result<(), ShellError>)
        ensures
            *final(self) == after(after(*old(self), WindowRequest::Focus), WindowRequest::Unminimize),
            !old(self).destroyed ==> final(self).focused && !final(self).minimized,
            r == result_of(*old(self)),
    {
        let reqs = restore_and_focus_requests(true);
        let mut i: usize = 0;
        let mut r: Result<(), ShellError> = Ok(());
        while i < reqs.len()
            invariant
                reqs@ == seq![WindowRequest::Focus, WindowRequest::Unminimize],
                0 <= i <= 2,
                i == 0 ==> *self == *old(self) && r == Ok::<(), ShellError>(()),
                i == 1 ==> *self == after(*old(self), WindowRequest::Focus)
                    && r == result_of(*old(self)),
                i == 2 ==> *self == after(after(*old(self), WindowRequest::Focus), WindowRequest::Unminimize)
                    && r == result_of(*old(self)),
            decreases reqs.len() - i,
        {
            r = self.perform(reqs[i]);
            i = i + 1;
        }
        r
    }
}

/// Pinning the last value of a run of `set_always_on_top` calls: on a live
/// window, whatever values came before, the attribute ends as the last call set it.
pub proof fn lemma_last_pin_wins(w: WindowState, cmds: Seq<WindowCommand>)
    requires
        !w.destroyed,
        cmds.len() > 0,
        forall|i: int| 0 <= i < cmds.len() ==> #[trigger] cmds[i] is SetAlwaysOnTop,
    ensures
        !run_commands(w, cmds).destroyed,
        run_commands(w, cmds).always_on_top == cmds.last()->SetAlwaysOnTop_0,
    decreases cmds.len(),
{
    if cmds.len() > 1 {
        let init = cmds.drop_last();
        assert forall|i: int| 0 <= i < init.len() implies #[trigger] init[i] is SetAlwaysOnTop by {
            assert(init[i] == cmds[i]);
        }
        lemma_last_pin_wins(w, init);
    } else {
        assert(run_commands(w, cmds.drop_last()) == w);
    }
    assert(cmds[cmds.len() - 1] is SetAlwaysOnTop);
    assert(run_commands(w, cmds) == step(run_commands(w, cmds.drop_last()), cmds.last()));
}

/// Setting the on-top attribute twice to one value is the same as setting it once.
pub proof fn lemma_pin_idempotent(w: WindowState, enabled: bool)
    ensures
        step(step(w, WindowCommand::SetAlwaysOnTop(enabled)), WindowCommand::SetAlwaysOnTop(enabled))
            == step(w, WindowCommand::SetAlwaysOnTop(enabled)),
{
}

/// Toggling maximize twice gives back the window it started from; the
/// read of a live window never fails, so the fail-open branch is not taken.
pub proof fn lemma_toggle_twice(w: WindowState)
    ensures
        step(step(w, WindowCommand::MaximizeToggle), WindowCommand::MaximizeToggle) == w,
{
}

/// When the maximized state cannot be read, the toggle always asks to maximize.
pub proof fn lemma_toggle_fails_open()
    ensures
        request_for(WindowCommand::MaximizeToggle, None) == WindowRequest::Maximize,
{
}

/// Minimizing a window that is already minimized succeeds and changes nothing.
pub proof fn lemma_minimize_minimized(w: WindowState)
    requires
        w.minimized,
        !w.destroyed,
    ensures
        result_of(w) is Ok,
        step(w, WindowCommand::Minimize) == w,
{
}

/// Closing a window that is already gone reports `HandleInvalid`.
pub proof fn lemma_close_destroyed(w: WindowState)
    requires
        w.destroyed,
    ensures
        result_of(w) == Err::<(), ShellError>(ShellError::HandleInvalid),
        step(w, WindowCommand::Close) == w,
{
}

} // verus!
