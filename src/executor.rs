use vstd::prelude::*;
use crate::error::CwbError;
use crate::text::{join, push_str, separated, views_of};

verus! {

/// One external invocation: the program, its arguments as a discrete list,
/// an optional working directory and variables set in the child's
/// environment only.
#[derive(Debug)]
pub struct ExecutionRequest {
    pub program: String,
    pub args: Vec<String>,
    pub working_dir: Option<String>,
    pub env: Vec<(String, String)>,
}

impl ExecutionRequest {
    /// The command line as it is shown to the operator: the program, a
    /// space, and the arguments joined by spaces.
    pub open spec fn spec_command_line(&self) -> Seq<char> {
        self.program@ + " "@ + separated(views_of(self.args@), " "@)
    }

    pub fn command_line(&self) -> (r: String)
        ensures
            r@ == self.spec_command_line(),
    {
        let mut line = self.program.clone();
        push_str(&mut line, " ");
        let args = join(&self.args, " ");
        push_str(&mut line, args.as_str());
        line
    }
}

/// Builds an execution request step by step.
#[derive(Debug)]
pub struct CommandBuilder {
    command: String,
    args: Vec<String>,
    working_dir: Option<String>,
    env_vars: Vec<(String, String)>,
}

impl CommandBuilder {
    pub closed spec fn spec_command(&self) -> Seq<char> {
        self.command@
    }

    pub closed spec fn spec_args(&self) -> Seq<Seq<char>> {
        views_of(self.args@)
    }

    pub closed spec fn spec_working_dir(&self) -> Option<Seq<char>> {
        match self.working_dir {
            Some(d) => Some(d@),
            None => None,
        }
    }

    pub closed spec fn spec_env(&self) -> Seq<(Seq<char>, Seq<char>)> {
        self.env_vars@.map_values(|kv: (String, String)| (kv.0@, kv.1@))
    }

    /// A request for `command`, with no arguments, no working directory and
    /// no variables.
    pub fn new(command: &str) -> (r: CommandBuilder)
        ensures
            r.spec_command() == command@,
            r.spec_args() == Seq::<Seq<char>>::empty(),
            r.spec_working_dir() is None,
            r.spec_env() == Seq::<(Seq<char>, Seq<char>)>::empty(),
    {
        let r = CommandBuilder {
            command: command.to_owned(),
            args: Vec::new(),
            working_dir: None,
            env_vars: Vec::new(),
        };
        assert(r.spec_args() =~= Seq::<Seq<char>>::empty());
        assert(r.spec_env() =~= Seq::<(Seq<char>, Seq<char>)>::empty());
        r
    }

    /// Appends one argument.
    pub fn arg(self, arg: &str) -> (r: CommandBuilder)
        ensures
            r.spec_command() == self.spec_command(),
            r.spec_args() == self.spec_args().push(arg@),
            r.spec_working_dir() == self.spec_working_dir(),
            r.spec_env() == self.spec_env(),
    {
        let mut b = self;
        let ghost before = b.args@;
        b.args.push(arg.to_owned());
        assert(views_of(b.args@) == views_of(before).push(arg@));
        b
    }

    /// Appends arguments, in order.
    pub fn args(self, args: &[&str]) -> (r: CommandBuilder)
        ensures
            r.spec_command() == self.spec_command(),
            r.spec_args() == self.spec_args() + args@.map_values(|a: &str| a@),
            r.spec_working_dir() == self.spec_working_dir(),
            r.spec_env() == self.spec_env(),
    {
        let mut b = self;
        let mut i: usize = 0;
        while i < args.len()
            invariant
                i <= args@.len(),
                b.spec_command() == self.spec_command(),
                b.spec_working_dir() == self.spec_working_dir(),
                b.spec_env() == self.spec_env(),
                b.spec_args() == self.spec_args() + args@.subrange(0, i as int).map_values(
                    |a: &str| a@,
                ),
            decreases args@.len() - i,
        {
            b = b.arg(args[i]);
            assert(args@.subrange(0, i + 1).map_values(|a: &str| a@) == args@.subrange(
                0,
                i as int,
            ).map_values(|a: &str| a@).push(args@[i as int]@));
            i = i + 1;
        }
        assert(args@.subrange(0, args@.len() as int) == args@);
        b
    }

    /// Sets the working directory of the child.
    pub fn working_dir(self, dir: &str) -> (r: CommandBuilder)
        ensures
            r.spec_command() == self.spec_command(),
            r.spec_args() == self.spec_args(),
            r.spec_working_dir() == Some(dir@),
            r.spec_env() == self.spec_env(),
    {
        let mut b = self;
        b.working_dir = Some(dir.to_owned());
        b
    }

    /// Adds a variable to the child's environment.
    pub fn env(self, key: &str, value: &str) -> (r: CommandBuilder)
        ensures
            r.spec_command() == self.spec_command(),
            r.spec_args() == self.spec_args(),
            r.spec_working_dir() == self.spec_working_dir(),
            r.spec_env() == self.spec_env().push((key@, value@)),
    {
        let mut b = self;
        let ghost before = b.env_vars@;
        b.env_vars.push((key.to_owned(), value.to_owned()));
        assert(b.env_vars@.map_values(|kv: (String, String)| (kv.0@, kv.1@)) == before.map_values(
            |kv: (String, String)| (kv.0@, kv.1@),
        ).push((key@, value@)));
        b
    }

    /// The request that was built.
    pub fn build(self) -> (r: ExecutionRequest)
        ensures
            r.program@ == self.spec_command(),
            views_of(r.args@) == self.spec_args(),
            r.working_dir matches Some(d) ==> self.spec_working_dir() == Some(d@),
            r.working_dir is None ==> self.spec_working_dir() is None,
            r.env@.map_values(|kv: (String, String)| (kv.0@, kv.1@)) == self.spec_env(),
    {
        ExecutionRequest {
            program: self.command,
            args: self.args,
            working_dir: self.working_dir,
            env: self.env_vars,
        }
    }
}

/// How a process is run.
#[derive(Clone, Copy, Debug, PartialEq, Eq, Structural)]
pub enum ExecMode {
    /// Output is captured and returned.
    Captured,
    /// Output goes straight to the caller's terminal.
    Streamed,
    /// Nothing is run; success is reported.
    DryRun,
}

/// What became of a process that the caller was asked to run.
#[derive(Debug)]
pub enum ProcessOutcome {
    /// The executable could not be located or launched.
    SpawnError { message: String },
    /// The process ran to its end. `stdout` and `stderr` are empty when the
    /// output was not captured; `stdout_valid` tells whether the captured
    /// standard output was valid UTF-8.
    Exited { success: bool, code: Option<i32>, stdout: String, stderr: String, stdout_valid: bool },
    /// The unit of work that ran the process ended abnormally.
    Panicked,
}

/// A successful run.
#[derive(Debug)]
pub enum ExecutionResult {
    /// The standard output of a captured run.
    Captured { stdout: String },
    /// A streamed run.
    Streamed,
    /// A run that dry-run mode skipped.
    DryRun,
}

/// The next step of a run.
#[derive(Debug)]
pub enum RunStep {
    /// The run is over without a process: its result.
    Done(ExecutionResult),
    /// The caller must spawn the process in this mode and hand back the
    /// outcome.
    Spawn(ExecMode),
}

/// The command line that an error of a process names, if it names one.
pub open spec fn error_command(e: CwbError) -> Option<Seq<char>> {
    match e {
        CwbError::SpawnFailed { command, .. } => Some(command@),
        CwbError::ExecutionFailed { command, .. } => Some(command@),
        CwbError::InvalidOutput { command } => Some(command@),
        _ => None,
    }
}

/// Whether a run in `mode` spawns a process.
pub open spec fn spawns(mode: ExecMode) -> bool {
    mode != ExecMode::DryRun
}

/// Whether a captured process ran, exited successfully and wrote valid
/// UTF-8 to its standard output.
pub open spec fn outcome_succeeded(outcome: ProcessOutcome) -> bool {
    outcome matches ProcessOutcome::Exited { success, stdout_valid, .. } && success && stdout_valid
}

/// `r` is the result of a run in `mode` of `req` that ended with `outcome`.
/// Every error of a process names the run's command line.
pub open spec fn finishes_as(
    mode: ExecMode,
    req: ExecutionRequest,
    outcome: ProcessOutcome,
    r: Result<ExecutionResult, CwbError>,
) -> bool {
    match outcome {
        ProcessOutcome::SpawnError { message } => r matches Err(
            CwbError::SpawnFailed { program: p, command: c, message: m },
        ) && p@ == req.program@ && c@ == req.spec_command_line() && m@ == message@,
        ProcessOutcome::Exited { success, code, stdout, stderr, stdout_valid } => if success {
            if mode == ExecMode::Captured {
                if stdout_valid {
                    r matches Ok(ExecutionResult::Captured { stdout: out }) && out@ == stdout@
                } else {
                    r matches Err(CwbError::InvalidOutput { command: c }) && c@
                        == req.spec_command_line()
                }
            } else {
                r matches Ok(ExecutionResult::Streamed)
            }
        } else {
            r matches Err(CwbError::ExecutionFailed { command: c, exit_code, stdout: out, stderr: err })
                && c@ == req.spec_command_line() && exit_code == code && (mode == ExecMode::Captured
                ==> out@ == stdout@ && err@ == stderr@) && (mode != ExecMode::Captured ==> out@.len()
                == 0 && err@.len() == 0)
        },
        ProcessOutcome::Panicked => r matches Err(CwbError::TaskPanicked),
    }
}

/// Runs external commands: in dry-run mode nothing is spawned; in verbose
/// mode command lines and output are echoed.
#[derive(Debug)]
pub struct CommandExecutor {
    dry_run: bool,
    verbose: bool,
}

impl CommandExecutor {
    pub closed spec fn spec_dry_run(&self) -> bool {
        self.dry_run
    }

    pub closed spec fn spec_verbose(&self) -> bool {
        self.verbose
    }

    pub fn new(dry_run: bool, verbose: bool) -> (r: CommandExecutor)
        ensures
            r.spec_dry_run() == dry_run,
            r.spec_verbose() == verbose,
    {
        CommandExecutor { dry_run, verbose }
    }

    pub fn is_dry_run(&self) -> (r: bool)
        ensures
            r == self.spec_dry_run(),
    {
        self.dry_run
    }

    pub fn is_verbose(&self) -> (r: bool)
        ensures
            r == self.spec_verbose(),
    {
        self.verbose
    }

    /// Whether the command line is shown before a run: in verbose and in
    /// dry-run mode.
    pub fn echoes_commands(&self) -> (r: bool)
        ensures
            r == (self.spec_verbose() || self.spec_dry_run()),
    {
        self.verbose || self.dry_run
    }

    /// The mode of a run: dry-run whenever the executor is in dry-run mode,
    /// else streamed or captured as asked.
    pub open spec fn spec_mode(&self, streaming: bool) -> ExecMode {
        if self.spec_dry_run() {
            ExecMode::DryRun
        } else if streaming {
            ExecMode::Streamed
        } else {
            ExecMode::Captured
        }
    }

    pub fn mode(&self, streaming: bool) -> (r: ExecMode)
        ensures
            r == self.spec_mode(streaming),
    {
        if self.dry_run {
            ExecMode::DryRun
        } else if streaming {
            ExecMode::Streamed
        } else {
            ExecMode::Captured
        }
    }

    /// Starts a run in `mode`. A dry run ends at once with a synthetic
    /// success and no process; any other mode asks for the process.
    pub fn start(mode: ExecMode) -> (r: RunStep)
        ensures
            r is Spawn <==> spawns(mode),
            !spawns(mode) ==> r matches RunStep::Done(ExecutionResult::DryRun),
            spawns(mode) ==> r == RunStep::Spawn(mode),
    {
        match mode {
            ExecMode::DryRun => RunStep::Done(ExecutionResult::DryRun),
            _ => RunStep::Spawn(mode),
        }
    }

    /// Ends a run of `req` from the outcome of its process: `SpawnFailed`
    /// when it could not start, `ExecutionFailed` when it exited
    /// unsuccessfully (with the captured output in captured mode, none
    /// otherwise), `InvalidOutput` when captured output is not UTF-8, else the
    /// captured output or plain success. Each of these errors carries the
    /// run's command line.
    pub fn finish(mode: ExecMode, req: &ExecutionRequest, outcome: ProcessOutcome) -> (r: Result<
        ExecutionResult,
        CwbError,
    >)
        ensures
            finishes_as(mode, *req, outcome, r),
    {
        match outcome {
            ProcessOutcome::SpawnError { message } => Err(
                CwbError::SpawnFailed {
                    program: req.program.clone(),
                    command: req.command_line(),
                    message,
                },
            ),
            ProcessOutcome::Exited { success, code, stdout, stderr, stdout_valid } => {
                if success {
                    if mode == ExecMode::Captured {
                        if stdout_valid {
                            Ok(ExecutionResult::Captured { stdout })
                        } else {
                            Err(CwbError::InvalidOutput { command: req.command_line() })
                        }
                    } else {
                        Ok(ExecutionResult::Streamed)
                    }
                } else if mode == ExecMode::Captured {
                    Err(
                        CwbError::ExecutionFailed {
                            command: req.command_line(),
                            exit_code: code,
                            stdout,
                            stderr,
                        },
                    )
                } else {
                    Err(
                        CwbError::ExecutionFailed {
                            command: req.command_line(),
                            exit_code: code,
                            stdout: String::new(),
                            stderr: String::new(),
                        },
                    )
                }
            },
            ProcessOutcome::Panicked => Err(CwbError::TaskPanicked),
        }
    }

    /// Starts a batch. In dry-run mode the batch ends at once with a
    /// synthetic success for every member and nothing is scheduled;
    /// otherwise the caller runs every member concurrently, captured.
    pub fn start_batch(&self, size: usize) -> (r: Option<Vec<ExecutionResult>>)
        ensures
            self.spec_dry_run() ==> (r matches Some(v) && v@.len() == size && forall|i: int|
                0 <= i < size ==> #[trigger] v@[i] is DryRun),
            !self.spec_dry_run() ==> r is None,
    {
        if !self.dry_run {
            return None;
        }
        let mut v: Vec<ExecutionResult> = Vec::new();
        while v.len() < size
            invariant
                v@.len() <= size,
                forall|i: int| 0 <= i < v@.len() ==> #[trigger] v@[i] is DryRun,
            decreases size - v@.len(),
        {
            v.push(ExecutionResult::DryRun);
        }
        Some(v)
    }

    /// Collects the outcomes of a batch, position by position: member `i`
    /// is the captured run of `requests[i]` that ended with `outcomes[i]`.
    pub fn collect_batch(requests: &Vec<ExecutionRequest>, outcomes: Vec<ProcessOutcome>) -> (r:
        BatchReport)
        requires
            requests@.len() == outcomes@.len(),
        ensures
            r.members@.len() == requests@.len(),
            forall|i: int|
                0 <= i < requests@.len() ==> finishes_as(
                    ExecMode::Captured,
                    requests@[i],
                    outcomes@[i],
                    #[trigger] r.members@[i],
                ),
    {
        let ghost all = outcomes@;
        let mut rest = outcomes;
        let mut members: Vec<Result<ExecutionResult, CwbError>> = Vec::new();
        let mut i: usize = 0;
        while i < requests.len()
            invariant
                i <= requests@.len(),
                requests@.len() == all.len(),
                rest@ == all.subrange(i as int, all.len() as int),
                members@.len() == i,
                forall|j: int|
                    0 <= j < i ==> finishes_as(
                        ExecMode::Captured,
                        requests@[j],
                        all[j],
                        #[trigger] members@[j],
                    ),
            decreases requests@.len() - i,
        {
            let outcome = rest.remove(0);
            let m = Self::finish(ExecMode::Captured, &requests[i], outcome);
            members.push(m);
            i = i + 1;
        }
        BatchReport { members }
    }

    /// Starts a probe for `program` on the search path. In dry-run mode the
    /// probe reports true at once; otherwise the caller runs the lookup
    /// request, captured, and hands its outcome to `probe_found`.
    pub fn check_command_exists(&self, program: &str) -> (r: Result<bool, ExecutionRequest>)
        ensures
            self.spec_dry_run() ==> r == Ok::<bool, ExecutionRequest>(true),
            !self.spec_dry_run() ==> (r matches Err(req) && req.program@ == "which"@ && views_of(
                req.args@,
            ) == seq![program@] && req.working_dir is None && req.env@.len() == 0),
    {
        if self.dry_run {
            return Ok(true);
        }
        let req = CommandBuilder::new("which").arg(program).build();
        assert(views_of(req.args@) =~= seq![program@]);
        assert(req.env@.len() == req.env@.map_values(|kv: (String, String)| (kv.0@, kv.1@)).len());
        Err(req)
    }

    /// A probe finds the program exactly when its lookup ran and succeeded.
    pub fn probe_found(outcome: &ProcessOutcome) -> (r: bool)
        ensures
            r == (*outcome matches ProcessOutcome::Exited { success, .. } && success),
    {
        match outcome {
            ProcessOutcome::Exited { success, .. } => *success,
            _ => false,
        }
    }
}

/// The positions of the failed members among the first `n`, in increasing order.
pub open spec fn failed_prefix(members: Seq<Result<ExecutionResult, CwbError>>, n: int) -> Seq<usize>
    decreases n,
{
    if n <= 0 {
        Seq::empty()
    } else if members[n - 1] is Err {
        failed_prefix(members, n - 1).push((n - 1) as usize)
    } else {
        failed_prefix(members, n - 1)
    }
}

/// The positions of the failed members, in increasing order.
pub open spec fn failed_positions(members: Seq<Result<ExecutionResult, CwbError>>) -> Seq<usize> {
    failed_prefix(members, members.len() as int)
}

/// A position is listed among the first `n` exactly when that member failed.
pub proof fn lemma_failed_prefix(members: Seq<Result<ExecutionResult, CwbError>>, n: int, i: int)
    requires
        0 <= n <= members.len(),
        members.len() <= usize::MAX,
    ensures
        failed_prefix(members, n).contains(i as usize) && 0 <= i <= usize::MAX <==> (0 <= i < n
            && members[i] is Err),
        forall|k: int|
            0 <= k < failed_prefix(members, n).len() ==> #[trigger] failed_prefix(members, n)[k] < n,
    decreases n,
{
    if n > 0 {
        lemma_failed_prefix(members, n - 1, i);
        let p = failed_prefix(members, n - 1);
        if members[n - 1] is Err {
            assert(p.push((n - 1) as usize)[p.len() as int] == (n - 1) as usize);
            let q = p.push((n - 1) as usize);
            if q.contains(i as usize) && 0 <= i <= usize::MAX {
                let k = choose|k: int| 0 <= k < q.len() && #[trigger] q[k] == i as usize;
                if k < p.len() {
                    assert(p[k] == i as usize);
                }
            }
            if 0 <= i < n - 1 && members[i] is Err {
                let k = choose|k: int| 0 <= k < p.len() && p[k] == i as usize;
                assert(p.push((n - 1) as usize)[k] == i as usize);
            }
        }
    }
}

/// An executor in dry-run mode never spawns a process, whatever run it is
/// asked for.
pub proof fn lemma_dry_run_never_spawns(executor: CommandExecutor, streaming: bool)
    requires
        executor.spec_dry_run(),
    ensures
        executor.spec_mode(streaming) == ExecMode::DryRun,
        !spawns(executor.spec_mode(streaming)),
{
}

/// Batch members keep their positions: member `i` succeeds exactly when
/// the process of request `i` succeeded, whatever became of the others, and
/// exactly the members whose processes failed are named as failed.
pub proof fn lemma_batch_positional(
    requests: Seq<ExecutionRequest>,
    outcomes: Seq<ProcessOutcome>,
    members: Seq<Result<ExecutionResult, CwbError>>,
    i: int,
)
    requires
        requests.len() == outcomes.len(),
        members.len() == requests.len(),
        members.len() <= usize::MAX,
        forall|j: int|
            0 <= j < requests.len() ==> finishes_as(
                ExecMode::Captured,
                requests[j],
                outcomes[j],
                #[trigger] members[j],
            ),
        0 <= i < requests.len(),
    ensures
        members[i] is Ok <==> outcome_succeeded(outcomes[i]),
        failed_positions(members).contains(i as usize) <==> !outcome_succeeded(outcomes[i]),
        members[i] matches Ok(x) ==> (x matches ExecutionResult::Captured { stdout } && outcomes[i] matches ProcessOutcome::Exited { stdout: out, .. } && stdout@ == out@),
        !(outcomes[i] is Panicked) && members[i] is Err ==> error_command(members[i]->Err_0) == Some(
            requests[i].spec_command_line(),
        ),
{
    assert(finishes_as(ExecMode::Captured, requests[i], outcomes[i], members[i]));
    lemma_failed_prefix(members, members.len() as int, i);
}

/// The members of a batch, positionally aligned with its requests.
#[derive(Debug)]
pub struct BatchReport {
    pub members: Vec<Result<ExecutionResult, CwbError>>,
}

impl BatchReport {
    /// The positions of the failed members, in increasing order.
    pub fn failed_members(&self) -> (r: Vec<usize>)
        ensures
            r@ == failed_positions(self.members@),
    {
        let mut r: Vec<usize> = Vec::new();
        let mut i: usize = 0;
        while i < self.members.len()
            invariant
                i <= self.members@.len(),
                r@ == failed_prefix(self.members@, i as int),
            decreases self.members@.len() - i,
        {
            if self.members[i].is_err() {
                r.push(i);
            }
            i = i + 1;
        }
        r
    }

    /// The batch as a whole: the results of all members when every member
    /// succeeded; otherwise `BatchFailed`, naming the failed members, the
    /// size of the batch and the first failed member's error.
    pub fn into_result(self) -> (r: Result<Vec<ExecutionResult>, CwbError>)
        ensures
            failed_positions(self.members@).len() == 0 ==> (r matches Ok(v) && v@.len()
                == self.members@.len() && forall|i: int|
                0 <= i < v@.len() ==> self.members@[i] == Ok::<ExecutionResult, CwbError>(
                    #[trigger] v@[i],
                )),
            failed_positions(self.members@).len() > 0 ==> (r matches Err(
                CwbError::BatchFailed { failed, total, cause },
            ) && failed@ == failed_positions(self.members@) && total == self.members@.len()
                && self.members@[failed@[0] as int] == Err::<ExecutionResult, CwbError>(*cause)),
    {
        let ghost all = self.members@;
        let total: usize = self.members.len();
        let mut rest = self.members;
        let mut outputs: Vec<ExecutionResult> = Vec::new();
        let mut failed: Vec<usize> = Vec::new();
        let mut first: Option<CwbError> = None;
        let mut i: usize = 0;
        while i < total
            invariant
                i <= total,
                total == all.len(),
                rest@ == all.subrange(i as int, all.len() as int),
                failed@ == failed_prefix(all, i as int),
                failed@.len() == 0 ==> first is None && outputs@.len() == i && forall|j: int|
                    0 <= j < i ==> all[j] == Ok::<ExecutionResult, CwbError>(#[trigger] outputs@[j]),
                failed@.len() > 0 ==> (first matches Some(e) && all[failed@[0] as int] == Err::<
                    ExecutionResult,
                    CwbError,
                >(e)),
            decreases total - i,
        {
            let m = rest.remove(0);
            match m {
                Ok(x) => {
                    if failed.len() == 0 {
                        outputs.push(x);
                    }
                },
                Err(e) => {
                    if failed.len() == 0 {
                        first = Some(e);
                    }
                    failed.push(i);
                },
            }
            i = i + 1;
        }
        if failed.len() == 0 {
            Ok(outputs)
        } else {
            match first {
                Some(e) => Err(CwbError::BatchFailed { failed, total, cause: Box::new(e) }),
                None => Ok(outputs),
            }
        }
    }
}

/// Progress of a batch: a completed count that only grows, out of a total
/// fixed at the start.
#[derive(Debug)]
pub struct BatchProgress {
    completed: usize,
    total: usize,
}

impl BatchProgress {
    pub closed spec fn spec_completed(&self) -> nat {
        self.completed as nat
    }

    pub closed spec fn spec_total(&self) -> nat {
        self.total as nat
    }

    pub fn new(total: usize) -> (r: BatchProgress)
        ensures
            r.spec_completed() == 0,
            r.spec_total() == total,
    {
        BatchProgress { completed: 0, total }
    }

    /// Counts one more completed member; the count never passes the total.
    pub fn advance(&mut self)
        ensures
            old(self).spec_completed() < old(self).spec_total() ==> final(self).spec_completed()
                == old(self).spec_completed() + 1,
            old(self).spec_completed() >= old(self).spec_total() ==> final(self).spec_completed()
                == old(self).spec_completed(),
            final(self).spec_total() == old(self).spec_total(),
    {
        if self.completed < self.total {
            self.completed = self.completed + 1;
        }
    }

    pub fn completed(&self) -> (r: usize)
        ensures
            r == self.spec_completed(),
    {
        self.completed
    }

    pub fn total(&self) -> (r: usize)
        ensures
            r == self.spec_total(),
    {
        self.total
    }
}

} // verus!
