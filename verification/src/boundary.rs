use vstd::prelude::*;

use crate::error::Error;
use crate::value::Value;

verus! {

/// What the native-unwind capture region observed while running a
/// trampoline's body. The embedding layer runs the body inside a capture
/// region (native unwinding must never cross the raw boundary into the
/// host), then hands the observation to [`resolve`].
pub enum Captured {
    /// The body ran to completion, with the normalised outcome it produced.
    Completed(Result<Value, Error>),
    /// A native unwind escaped the body and was intercepted at the boundary;
    /// the payload is the panic message when one could be captured.
    Unwound(Option<String>),
}

/// The single final step of a trampoline: return a handle to the host, or
/// raise exactly one host exception. Raising is terminal — the host's raise
/// primitive performs a non-local jump and never returns, so no adapter code
/// runs after it.
#[derive(Debug, PartialEq, Eq)]
pub enum Outcome {
    /// Return this handle to the host.
    Return(Value),
    /// Raise this error as a host exception; control does not come back.
    Raise(Error),
}

/// Decide the trampoline's final step from what the capture region observed:
/// success returns the handle; a typed error — from conversion or from the
/// wrapped function — is raised as it is; an intercepted unwind is raised as
/// a captured-unwind error. Every failing path raises exactly once, and the
/// successful path never raises.
pub fn resolve(c: Captured) -> (o: Outcome)
    ensures
        c matches Captured::Completed(Ok(v)) ==> o == Outcome::Return(v),
        c matches Captured::Completed(Err(e)) ==> o == Outcome::Raise(e),
        c matches Captured::Unwound(m) ==> o == Outcome::Raise(
            Error::CaughtUnwind { message: m },
        ),
{
    match c {
        Captured::Completed(Ok(v)) => Outcome::Return(v),
        Captured::Completed(Err(e)) => Outcome::Raise(e),
        Captured::Unwound(m) => Outcome::Raise(Error::CaughtUnwind { message: m }),
    }
}

/// The states of the unwind/error bridge that surrounds every trampoline
/// body.
pub enum BridgeState {
    /// Inside the native call; it may still complete or unwind.
    Running,
    /// A native unwind was intercepted; its payload is held, to be raised.
    Caught(Option<String>),
    /// Control was transferred to the host's raise primitive with this
    /// error; terminal.
    Raised(Error),
    /// The call completed and this handle was returned to the host;
    /// terminal.
    Returned(Value),
}

/// What the bridge observes or does in one step.
pub enum BridgeEvent {
    /// The native body completed with a normalised outcome.
    Complete(Result<Value, Error>),
    /// A native unwind reached the boundary.
    Unwind(Option<String>),
    /// The held unwind payload was raised towards the host.
    RaiseCaught,
}

/// The bridge's transition relation. From `Running`, completion returns or
/// raises and an unwind is caught; from `Caught`, the only step is raising
/// the captured-unwind error. `Raised` and `Returned` have no outgoing
/// transitions.
pub open spec fn bridge_step(s: BridgeState, ev: BridgeEvent) -> Option<BridgeState> {
    match (s, ev) {
        (BridgeState::Running, BridgeEvent::Complete(out)) => match out {
            Ok(v) => Some(BridgeState::Returned(v)),
            Err(e) => Some(BridgeState::Raised(e)),
        },
        (BridgeState::Running, BridgeEvent::Unwind(m)) => Some(BridgeState::Caught(m)),
        (BridgeState::Caught(m), BridgeEvent::RaiseCaught) => Some(
            BridgeState::Raised(Error::CaughtUnwind { message: m }),
        ),
        _ => None,
    }
}

/// A valid bridge history for one call: it starts in `Running` and every
/// step follows the transition relation.
pub open spec fn valid_trace(tr: Seq<BridgeState>, evs: Seq<BridgeEvent>) -> bool {
    tr.len() == evs.len() + 1 && tr[0] == BridgeState::Running && (forall|i: int|
        0 <= i < evs.len() ==> bridge_step(#[trigger] tr[i], evs[i]) == Some(tr[i + 1]))
}

/// Raising and returning are terminal: no bridge step leaves them, so no
/// adapter code runs after the raise call.
pub proof fn lemma_raise_terminal(s: BridgeState, ev: BridgeEvent)
    requires
        s is Raised || s is Returned,
    ensures
        bridge_step(s, ev) is None,
{
}

/// Every valid bridge history raises at most once: a `Raised` state can
/// only be the final state of the history.
pub proof fn lemma_at_most_one_raise(tr: Seq<BridgeState>, evs: Seq<BridgeEvent>, i: int)
    requires
        valid_trace(tr, evs),
        0 <= i < tr.len(),
        tr[i] is Raised,
    ensures
        i == tr.len() - 1,
{
    if i < tr.len() - 1 {
        assert(bridge_step(tr[i], evs[i]) == Some(tr[i + 1]));
    }
}

/// A native unwind produces exactly one raise, and it carries the captured
/// payload: after `Running` steps to `Caught`, the only valid continuation
/// raises the captured-unwind error built from that payload.
pub proof fn lemma_unwind_raises_captured(
    m: Option<String>,
    ev: BridgeEvent,
    s2: BridgeState,
)
    requires
        bridge_step(BridgeState::Caught(m), ev) == Some(s2),
    ensures
        ev is RaiseCaught,
        s2 == BridgeState::Raised(Error::CaughtUnwind { message: m }),
{
}

} // verus!
