use vstd::prelude::*;
use crate::error::CwbError;
use crate::executor::ExecutionRequest;
use crate::text::push_str;

verus! {

/// The verdict of the confirmation gate.
#[derive(Clone, Copy, Debug, PartialEq, Eq, Structural)]
pub enum GateDecision {
    Allowed,
    Denied,
}

/// What the confirmation gate needs next.
#[derive(Debug)]
pub enum GateStep {
    /// The confirmation gate has decided without asking.
    Decided(GateDecision),
    /// The operator must answer a yes/no question; `default_answer` is
    /// what an answer left blank means.
    Ask { prompt: String, default_answer: bool },
}

/// The question put to the operator before a destructive action.
pub open spec fn confirm_message(action: Seq<char>, target: Seq<char>) -> Seq<char> {
    "Are you sure you want to "@ + action + " '"@ + target
        + "'? This action cannot be undone."@
}

/// The verdict for an answer: only an explicit yes allows the action; a no,
/// or no answer at all, denies it.
pub open spec fn decision_for(reply: Option<bool>) -> GateDecision {
    if reply == Some(true) {
        GateDecision::Allowed
    } else {
        GateDecision::Denied
    }
}

/// The requests that may still run after the confirmation gate: all of them when it
/// allowed the action, none when it denied it.
pub open spec fn permitted(decision: GateDecision, requests: Seq<ExecutionRequest>) -> Seq<
    ExecutionRequest,
> {
    if decision == GateDecision::Allowed {
        requests
    } else {
        Seq::empty()
    }
}

/// Guards a destructive `action` on `target`. With `forced` the action is
/// allowed at once and nobody is asked; otherwise the operator is asked.
pub fn guard(action: &str, target: &str, forced: bool) -> (r: GateStep)
    ensures
        forced ==> r == GateStep::Decided(GateDecision::Allowed),
        !forced ==> (r matches GateStep::Ask { prompt, default_answer } && prompt@
            == confirm_message(action@, target@) && !default_answer),
{
    if forced {
        return GateStep::Decided(GateDecision::Allowed);
    }
    let mut prompt = "Are you sure you want to ".to_owned();
    push_str(&mut prompt, action);
    push_str(&mut prompt, " '");
    push_str(&mut prompt, target);
    push_str(&mut prompt, "'? This action cannot be undone.");
    GateStep::Ask { prompt, default_answer: false }
}

/// The verdict for the operator's answer; `None` stands for a failure to
/// obtain one, as in a non-interactive environment.
pub fn answer(reply: Option<bool>) -> (r: GateDecision)
    ensures
        r == decision_for(reply),
{
    match reply {
        Some(true) => GateDecision::Allowed,
        _ => GateDecision::Denied,
    }
}

/// The verdict as a result: a denial is the `ConfirmationDenied` error.
pub fn confirmed(decision: GateDecision) -> (r: Result<(), CwbError>)
    ensures
        decision == GateDecision::Allowed <==> r is Ok,
        decision == GateDecision::Denied ==> (r matches Err(e) && e is ConfirmationDenied),
{
    match decision {
        GateDecision::Allowed => Ok(()),
        GateDecision::Denied => Err(CwbError::ConfirmationDenied),
    }
}

/// Keeps the requests of a guarded operation only if the confirmation gate allowed it.
pub fn gated(decision: GateDecision, requests: Vec<ExecutionRequest>) -> (r: Vec<ExecutionRequest>)
    ensures
        r@ == permitted(decision, requests@),
{
    if decision == GateDecision::Allowed {
        requests
    } else {
        Vec::new()
    }
}

/// A gate answered with no denies the action, and none of the guarded
/// requests is left to run.
pub proof fn lemma_denied_gate_runs_nothing(requests: Seq<ExecutionRequest>)
    ensures
        decision_for(Some(false)) == GateDecision::Denied,
        permitted(decision_for(Some(false)), requests).len() == 0,
{
}

} // verus!
