//! Progress notifications the engine emits towards its observer (a
//! dashboard or a logger), and the mapping from the observer's key
//! presses back to engine actions.  Latency figures travel as whole
//! nanoseconds since they left the engine's clock.

use vstd::prelude::*;

verus! {

/// One event on the engine-to-observer notification stream, or one
/// request the observer raises back at the run.
#[derive(Clone, Copy, Debug, PartialEq, Eq, Structural)]
pub enum Action {
    /// Stop the run and leave.
    Quit,
    /// The terminal was resized to the given width and height.
    Resize(u16, u16),
    /// Redraw the dashboard.
    Render,
    /// Show or hide the help panel.
    ToggleShowHelp,
    /// The run will send this many probes in total.
    LatencyPacketTotal(u32),
    /// This many probes have been sent so far.
    LatencyPacketsSent(u32),
    /// A probe was matched: received count, then minimum, average and
    /// maximum latency in nanoseconds.
    LatencyPacketsReceived(u32, u64, u64, u64),
}

/// The action a pressed key asks for: Ctrl-C or `q` quit, `h` toggles
/// the help panel, every other key does nothing.
pub fn key_action(key: char, ctrl: bool) -> (r: Option<Action>)
    ensures
        r == if ctrl && key == 'c' {
            Some(Action::Quit)
        } else if key == 'q' {
            Some(Action::Quit)
        } else if key == 'h' {
            Some(Action::ToggleShowHelp)
        } else {
            None::<Action>
        },
{
    if ctrl && key == 'c' {
        Some(Action::Quit)
    } else if key == 'q' {
        Some(Action::Quit)
    } else if key == 'h' {
        Some(Action::ToggleShowHelp)
    } else {
        None
    }
}

} // verus!
