//! Run events emitted from Python by name.

use vstd::prelude::*;
use vstd::string::StringExecFns;

use crate::text::str_eq;

verus! {

/// A run event to emit: the only one that can be emitted by name is a
/// back-pressure report from the Python actor, with nothing queued or
/// dropped.
#[derive(Debug)]
pub struct RunEmission {
    pub actor_path: String,
    pub queued: u64,
    pub dropped: u64,
    pub run_id: String,
    pub parent_run_id: Option<String>,
}

/// An event kind that has a typed helper instead.
#[derive(Debug)]
pub struct UseTypedHelper {
    pub kind: String,
}

/// What `emit_run` emits: kind `backpressure` becomes a back-pressure
/// event of actor `/python` under the given run, `run-anonymous` where
/// none is given; any other kind is refused.
pub fn emit_run_plan(event_kind: &str, run_id: Option<String>, parent_run_id: Option<String>) -> (r: Result<
    RunEmission,
    UseTypedHelper,
>)
    ensures
        match r {
            Ok(e) => event_kind@ == "backpressure"@ && e.actor_path@ == "/python"@ && e.queued == 0
                && e.dropped == 0 && e.run_id@ == match run_id {
                Some(x) => x@,
                None => "run-anonymous"@,
            } && e.parent_run_id == parent_run_id,
            Err(u) => event_kind@ != "backpressure"@ && u.kind@ == event_kind@,
        },
{
    if !str_eq(event_kind, "backpressure") {
        return Err(UseTypedHelper { kind: String::from_str(event_kind) });
    }
    let run = match run_id {
        Some(x) => x,
        None => String::from_str("run-anonymous"),
    };
    Ok(RunEmission { actor_path: String::from_str("/python"), queued: 0, dropped: 0, run_id: run, parent_run_id })
}

} // verus!
