//! Native control surface of a desktop shell: single-instance arbitration and
//! the window-state commands, stated over plain models of the lock and of the
//! window's observable facets.

pub mod error;
pub mod instance;
pub mod window;

pub use error::ShellError;
pub use instance::{arbitrate, InstanceLock, LaunchEvent, LockProbe, Role};
pub use window::{
    command_result, maximize_choice, plan_request, report, restore_and_focus_requests, OsFailure,
    WindowCommand, WindowRequest, WindowState,
};
