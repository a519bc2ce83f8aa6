//! The session gate: the one place that decides whether an event should
//! be intercepted.
//!
//! The session gate combines three reads of the store, in a fixed priority order:
//! the stop-loop guard, the global enabled flag, and the per-session
//! disable set.  It has no side effects.

use vstd::prelude::*;
use crate::config::{spec_is_enabled, spec_session_disabled, ConfigManager, StoreV};

verus! {

/// The kind of lifecycle event the host reported.
#[derive(Clone, Copy, PartialEq, Eq, Structural, Debug)]
pub enum EventKind {
    PromptSubmit,
    Stop,
    Notification,
}

/// Whether one event may proceed or must be intercepted.
#[derive(Clone, Copy, PartialEq, Eq, Structural, Debug)]
pub enum GateVerdict {
    Proceed,
    Intercept,
}

/// The session gate decision rule, first match wins:
/// a stop event that is already replaying inside the stop hook proceeds
/// (this breaks the host's block/replay cycle); anything proceeds while
/// remote mode is off; a session that opted out proceeds; everything
/// else is intercepted.
pub open spec fn spec_decide(
    s: StoreV,
    kind: EventKind,
    session_id: Seq<char>,
    stop_hook_active: bool,
) -> GateVerdict {
    if kind is Stop && stop_hook_active {
        GateVerdict::Proceed
    } else if !spec_is_enabled(s) {
        GateVerdict::Proceed
    } else if spec_session_disabled(s, session_id) {
        GateVerdict::Proceed
    } else {
        GateVerdict::Intercept
    }
}

/// Reads the store and returns the session gate verdict for one event.
pub fn decide(
    store: &ConfigManager,
    kind: EventKind,
    session_id: &str,
    stop_hook_active: bool,
) -> (v: GateVerdict)
    ensures
        v == spec_decide(store@, kind, session_id@, stop_hook_active),
{
    if matches!(kind, EventKind::Stop) && stop_hook_active {
        return GateVerdict::Proceed;
    }
    if !store.is_remote_enabled() {
        return GateVerdict::Proceed;
    }
    if store.is_session_disabled(session_id) {
        return GateVerdict::Proceed;
    }
    GateVerdict::Intercept
}

} // verus!
