use vstd::prelude::*;
use crate::error::CwbError;
use crate::config::opt_str_view;
use crate::executor::{CommandBuilder, ExecutionRequest, ExecutionResult};
use crate::text::views_of;

verus! {

/// One step of a command: a request, whether it streams its output, and
/// whether its failure is tolerated rather than ending the command.
#[derive(Debug)]
pub struct PlanStep {
    pub request: ExecutionRequest,
    pub streaming: bool,
    pub tolerate_failure: bool,
}

/// What a step does: program, arguments, working directory, whether it
/// streams and whether its failure is tolerated.
pub type StepView = (Seq<char>, Seq<Seq<char>>, Option<Seq<char>>, bool, bool);

/// The character sequences of a list of slices.
pub open spec fn arg_views(args: Seq<&str>) -> Seq<Seq<char>> {
    args.map_values(|a: &str| a@)
}

impl PlanStep {
    pub open spec fn view_of(&self) -> StepView {
        (
            self.request.program@,
            views_of(self.request.args@),
            match self.request.working_dir {
                Some(d) => Some(d@),
                None => None,
            },
            self.streaming,
            self.tolerate_failure,
        )
    }
}

/// What a list of steps does, step by step.
pub open spec fn step_views(steps: Seq<PlanStep>) -> Seq<StepView> {
    steps.map_values(|s: PlanStep| s.view_of())
}

/// A streamed step without variables of its own.
pub fn streamed_step(program: &str, args: &[&str], dir: Option<&str>, tolerate_failure: bool) -> (r:
    PlanStep)
    ensures
        r.view_of() == (program@, arg_views(args@), opt_str_view(dir), true, tolerate_failure),
        r.request.env@.len() == 0,
{
    let mut b = CommandBuilder::new(program).args(args);
    if let Some(d) = dir {
        b = b.working_dir(d);
    }
    let request = b.build();
    assert(request.env@.len() == request.env@.map_values(|kv: (String, String)| (kv.0@, kv.1@)).len());
    PlanStep { request, streaming: true, tolerate_failure }
}

/// A command that runs its steps strictly in order. A failed step that is
/// not tolerated ends the command at once: no later step runs.
#[derive(Debug)]
pub struct Flow {
    steps: Vec<PlanStep>,
    next: usize,
    error: Option<CwbError>,
}

impl Flow {
    pub closed spec fn spec_steps(&self) -> Seq<PlanStep> {
        self.steps@
    }

    /// How many steps have run.
    pub closed spec fn spec_done(&self) -> nat {
        self.next as nat
    }

    /// The error of the step that ended the command, if one did.
    pub closed spec fn spec_error(&self) -> Option<CwbError> {
        self.error
    }

    /// Whether a step failed and ended the command.
    pub open spec fn spec_failed(&self) -> bool {
        self.spec_error() is Some
    }

    /// Whether another step is to run.
    pub open spec fn spec_pending(&self) -> bool {
        !self.spec_failed() && self.spec_done() < self.spec_steps().len()
    }

    #[verifier::type_invariant]
    spec fn within_bounds(&self) -> bool {
        self.next <= self.steps@.len()
    }

    pub fn new(steps: Vec<PlanStep>) -> (r: Flow)
        ensures
            r.spec_steps() == steps@,
            r.spec_done() == 0,
            !r.spec_failed(),
    {
        Flow { steps, next: 0, error: None }
    }

    /// The step to run next; none once all have run or one has ended the
    /// command.
    pub fn next_step(&self) -> (r: Option<&PlanStep>)
        ensures
            r is Some <==> self.spec_pending(),
            r matches Some(s) ==> *s == self.spec_steps()[self.spec_done() as int],
    {
        proof {
            use_type_invariant(self);
        }
        if self.error.is_some() || self.next >= self.steps.len() {
            None
        } else {
            Some(&self.steps[self.next])
        }
    }

    /// Records the result of the step that `next_step` gave. A failure
    /// that the step does not tolerate ends the command.
    pub fn record(&mut self, result: Result<ExecutionResult, CwbError>)
        requires
            old(self).spec_pending(),
        ensures
            final(self).spec_steps() == old(self).spec_steps(),
            final(self).spec_done() == old(self).spec_done() + 1,
            final(self).spec_error() == (if result is Err && !old(self).spec_steps()[old(
                self,
            ).spec_done() as int].tolerate_failure {
                Some(result->Err_0)
            } else {
                None
            }),
    {
        proof {
            use_type_invariant(&*self);
        }
        let count: usize = self.steps.len();
        let tolerated = self.steps[self.next].tolerate_failure;
        match result {
            Ok(_) => {},
            Err(e) => {
                if !tolerated {
                    self.error = Some(e);
                }
            },
        }
        if self.next < count {
            self.next = self.next + 1;
        }
    }

    /// The end of the command: the error of the step that ended it, if any.
    pub fn finish(self) -> (r: Result<(), CwbError>)
        ensures
            match self.spec_error() {
                Some(e) => r == Err::<(), CwbError>(e),
                None => r is Ok,
            },
    {
        match self.error {
            Some(e) => Err(e),
            None => Ok(()),
        }
    }
}

/// Once a step that does not tolerate failure has failed, no further step
/// of the command runs.
pub proof fn lemma_failure_stops_flow(flow: Flow)
    requires
        flow.spec_failed(),
    ensures
        !flow.spec_pending(),
{
}

} // verus!
