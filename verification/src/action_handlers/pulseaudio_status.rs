//! Server connection status reports.

use vstd::prelude::*;
use vstd::string::StringExecFns;

use crate::models::actions::PAStatus;
use crate::models::state::RSState;
use crate::models::ui_mode::UIMode;

verus! {

/// Reacts to a connection status report.  Returns `true` when the
/// failure is final and the application should shut down.
pub fn handle(msg: &PAStatus, state: &mut RSState) -> (quit: bool)
    requires
        old(state).wf(),
        old(state).ctx is Some,
    ensures
        final(state).wf(),
        quit == (*msg == PAStatus::ConnectToPAFailed),
        *msg == PAStatus::ConnectedToPA ==> final(state).spec_fresh() && final(state).redraw.resize,
        (*msg matches PAStatus::RetryIn(s)) ==> final(state).ui_mode == UIMode::RetryIn(
            msg->RetryIn_0,
        ) && final(state).redraw.resize,
{
    match msg {
        PAStatus::ConnectedToPA => {
            state.reset();
            false
        },
        PAStatus::RetryIn(seconds) => {
            state.warning_text.text = String::from_str(
                "Couldn't connect to PulseAudio. Retrying shortly...",
            );
            state.change_ui_mode(UIMode::RetryIn(*seconds));
            false
        },
        PAStatus::ConnectToPAFailed => true,
    }
}

} // verus!
