//! One launch-and-wait cycle as a state machine.
//!
//! The library cannot spawn a process or wait for one. Its driver does: it
//! asks `directive` what to do, does it, and reports what happened to
//! `advance`. The machine owns the decisions: that a deadline which passes
//! is answered with a kill, that `Timeout` is reported only after that kill
//! was asked for, and what each ending means to a caller.
//!
//! An event that the current stage does not expect changes nothing, so the
//! driver is told the same directive again.

use vstd::prelude::*;
use crate::command_runner::CommandOutput;
use crate::error::ErrorKind;

verus! {

/// What the driver reports to the machine.
#[derive(Debug, Clone)]
pub enum ProcessEvent {
    /// The operating system created the process.
    Started,
    /// The operating system refused to create the process, or could not
    /// say how it ended.
    Failed { reason: String },
    /// The process ended by itself. `code` is its exit code, where the
    /// platform reports one; `status` is the platform's wording of how it
    /// ended; the outputs are empty where they were not captured.
    Exited { code: Option<i32>, status: String, stdout: String, stderr: String },
    /// The time limit passed and the process had not ended.
    DeadlinePassed,
    /// The forced termination was requested from the operating system.
    KillAttempted,
}

/// How one execution ended.
#[derive(Debug, Clone)]
pub enum Ending {
    /// The process ran to its end within the time limit.
    Exited { code: Option<i32>, status: String, stdout: String, stderr: String },
    /// There was no process to wait for.
    Failed { reason: String },
    /// The time limit passed first, and the process was told to stop.
    TimedOut,
}

/// Where one execution stands.
#[derive(Debug, Clone)]
pub enum Stage {
    /// The process has not been created yet.
    Spawning,
    /// The process runs and the time limit is counting.
    Waiting,
    /// The time limit passed; the process is being stopped.
    Terminating,
    /// Nothing is left to do.
    Finished(Ending),
}

/// What the driver has to do next.
#[derive(Clone, Copy, Debug, PartialEq, Eq, Structural)]
pub enum Directive {
    /// Create the process.
    Spawn,
    /// Wait for the process to end, for `seconds` at most, counted from its
    /// creation. With zero seconds: look once whether it has ended.
    Wait { seconds: u64 },
    /// Request forced termination of the process.
    Kill,
    /// Stop: the execution has ended.
    Stop,
}

/// The stage after `event` was reported in `stage`.
pub open spec fn step(stage: Stage, event: ProcessEvent) -> Stage {
    match (stage, event) {
        (Stage::Spawning, ProcessEvent::Started) => Stage::Waiting,
        (Stage::Spawning, ProcessEvent::Failed { reason }) => Stage::Finished(
            Ending::Failed { reason },
        ),
        (Stage::Waiting, ProcessEvent::Exited { code, status, stdout, stderr }) => Stage::Finished(
            Ending::Exited { code, status, stdout, stderr },
        ),
        (Stage::Waiting, ProcessEvent::Failed { reason }) => Stage::Finished(
            Ending::Failed { reason },
        ),
        (Stage::Waiting, ProcessEvent::DeadlinePassed) => Stage::Terminating,
        (Stage::Terminating, ProcessEvent::KillAttempted) => Stage::Finished(Ending::TimedOut),
        (unchanged, _) => unchanged,
    }
}

/// What the driver has to do in `stage`.
pub open spec fn directive_of(stage: Stage, timeout_secs: u64) -> Directive {
    match stage {
        Stage::Spawning => Directive::Spawn,
        Stage::Waiting => Directive::Wait { seconds: timeout_secs },
        Stage::Terminating => Directive::Kill,
        Stage::Finished(_) => Directive::Stop,
    }
}

/// The stage after a whole sequence of events, reported in order.
pub open spec fn run(stage: Stage, events: Seq<ProcessEvent>) -> Stage
    decreases events.len(),
{
    if events.len() == 0 {
        stage
    } else {
        step(run(stage, events.drop_last()), events.last())
    }
}

/// The exit code as one number: `-1` where the platform reports none.
pub open spec fn status_code_of(code: Option<i32>) -> i32 {
    match code {
        Some(c) => c,
        None => -1i32,
    }
}

/// The normalized result of a process that ran to its end.
pub open spec fn output_of(code: Option<i32>, stdout: String, stderr: String) -> CommandOutput {
    CommandOutput { status_code: status_code_of(code), stdout, stderr, success: code == Some(0i32) }
}

/// What an ending means to a caller who wants the output: a process that ran
/// to its end is a result, whatever it reported.
pub open spec fn output_verdict_of(ending: Ending, timeout_secs: u64) -> Result<
    CommandOutput,
    ErrorKind,
> {
    match ending {
        Ending::Exited { code, status, stdout, stderr } => Ok(output_of(code, stdout, stderr)),
        Ending::Failed { reason } => Err(ErrorKind::SpawnFailed { reason }),
        Ending::TimedOut => Err(ErrorKind::Timeout { seconds: timeout_secs }),
    }
}

/// What an ending means to a caller who wants success or failure: anything
/// but exit code zero is an error.
pub open spec fn execute_verdict_of(ending: Ending, timeout_secs: u64) -> Result<(), ErrorKind> {
    match ending {
        Ending::Exited { code, status, stdout, stderr } => if code == Some(0i32) {
            Ok(())
        } else {
            Err(ErrorKind::NonZeroExit { code: status_code_of(code), status })
        },
        Ending::Failed { reason } => Err(ErrorKind::SpawnFailed { reason }),
        Ending::TimedOut => Err(ErrorKind::Timeout { seconds: timeout_secs }),
    }
}

/// One execution: its time limit and its stage.
#[derive(Debug, Clone)]
pub struct Execution {
    pub timeout_secs: u64,
    pub stage: Stage,
}

impl Execution {
    /// A fresh execution: nothing has been spawned yet.
    pub fn begin(timeout_secs: u64) -> (execution: Execution)
        ensures
            execution.timeout_secs == timeout_secs,
            execution.stage == Stage::Spawning,
    {
        Execution { timeout_secs, stage: Stage::Spawning }
    }

    /// What the driver has to do next.
    pub fn directive(&self) -> (directive: Directive)
        ensures
            directive == directive_of(self.stage, self.timeout_secs),
    {
        match &self.stage {
            Stage::Spawning => Directive::Spawn,
            Stage::Waiting => Directive::Wait { seconds: self.timeout_secs },
            Stage::Terminating => Directive::Kill,
            Stage::Finished(_) => Directive::Stop,
        }
    }

    /// Whether the execution has ended.
    pub fn is_finished(&self) -> (finished: bool)
        ensures
            finished == (self.stage is Finished),
    {
        match &self.stage {
            Stage::Finished(_) => true,
            _ => false,
        }
    }

    /// Takes in what the driver reports.
    pub fn advance(self, event: ProcessEvent) -> (next: Execution)
        ensures
            next.timeout_secs == self.timeout_secs,
            next.stage == step(self.stage, event),
    {
        let timeout_secs: u64 = self.timeout_secs;
        let stage = match (self.stage, event) {
            (Stage::Spawning, ProcessEvent::Started) => Stage::Waiting,
            (Stage::Spawning, ProcessEvent::Failed { reason }) => Stage::Finished(
                Ending::Failed { reason },
            ),
            (
                Stage::Waiting,
                ProcessEvent::Exited { code, status, stdout, stderr },
            ) => Stage::Finished(Ending::Exited { code, status, stdout, stderr }),
            (Stage::Waiting, ProcessEvent::Failed { reason }) => Stage::Finished(
                Ending::Failed { reason },
            ),
            (Stage::Waiting, ProcessEvent::DeadlinePassed) => Stage::Terminating,
            (Stage::Terminating, ProcessEvent::KillAttempted) => Stage::Finished(Ending::TimedOut),
            (unchanged, _) => unchanged,
        };
        Execution { timeout_secs, stage }
    }

    /// The result for a caller who wants success or failure; `None` while
    /// the execution has not ended.
    pub fn into_result(self) -> (r: Option<Result<(), ErrorKind>>)
        ensures
            r == match self.stage {
                Stage::Finished(ending) => Some(execute_verdict_of(ending, self.timeout_secs)),
                _ => None,
            },
    {
        match self.stage {
            Stage::Finished(ending) => Some(execute_verdict(ending, self.timeout_secs)),
            _ => None,
        }
    }

    /// The result for a caller who wants the output; `None` while the
    /// execution has not ended.
    pub fn into_output(self) -> (r: Option<Result<CommandOutput, ErrorKind>>)
        ensures
            r == match self.stage {
                Stage::Finished(ending) => Some(output_verdict_of(ending, self.timeout_secs)),
                _ => None,
            },
    {
        match self.stage {
            Stage::Finished(ending) => Some(output_verdict(ending, self.timeout_secs)),
            _ => None,
        }
    }
}

/// Turns an ending into success or the error that tells why not.
pub fn execute_verdict(ending: Ending, timeout_secs: u64) -> (r: Result<(), ErrorKind>)
    ensures
        r == execute_verdict_of(ending, timeout_secs),
{
    match ending {
        Ending::Exited { code, status, stdout: _, stderr: _ } => match code {
            Some(0) => Ok(()),
            Some(c) => Err(ErrorKind::NonZeroExit { code: c, status }),
            None => Err(ErrorKind::NonZeroExit { code: -1, status }),
        },
        Ending::Failed { reason } => Err(ErrorKind::SpawnFailed { reason }),
        Ending::TimedOut => Err(ErrorKind::Timeout { seconds: timeout_secs }),
    }
}

/// Turns an ending into the normalized result, or the error that tells why
/// there is none.
pub fn output_verdict(ending: Ending, timeout_secs: u64) -> (r: Result<CommandOutput, ErrorKind>)
    ensures
        r == output_verdict_of(ending, timeout_secs),
{
    match ending {
        Ending::Exited { code, status: _, stdout, stderr } => {
            match code {
                Some(c) => Ok(CommandOutput { status_code: c, stdout, stderr, success: c == 0 }),
                None => Ok(CommandOutput { status_code: -1, stdout, stderr, success: false }),
            }
        },
        Ending::Failed { reason } => Err(ErrorKind::SpawnFailed { reason }),
        Ending::TimedOut => Err(ErrorKind::Timeout { seconds: timeout_secs }),
    }
}

/// How the operating system and one process behave, as far as an execution
/// can tell: whether the process is created, after how long it ends by
/// itself, and what it then reports.
pub struct ProcessModel {
    /// Why the operating system refuses to create the process, if it does.
    pub refusal: Option<String>,
    /// The time from creation to the end of the process, in milliseconds;
    /// `None` for a process that never ends by itself.
    pub ends_after_ms: Option<nat>,
    pub code: Option<i32>,
    pub status: String,
    pub stdout: String,
    pub stderr: String,
}

/// Whether the process has ended when `seconds` have passed since its
/// creation. With zero seconds only a process that takes no time has.
pub open spec fn ends_within(model: ProcessModel, seconds: u64) -> bool {
    match model.ends_after_ms {
        Some(after) => after <= seconds * 1000,
        None => false,
    }
}

/// What a driver that does as it is told reports back; nothing once it is
/// told to stop.
pub open spec fn reaction(model: ProcessModel, directive: Directive) -> Option<ProcessEvent> {
    match directive {
        Directive::Spawn => Some(
            match model.refusal {
                Some(reason) => ProcessEvent::Failed { reason },
                None => ProcessEvent::Started,
            },
        ),
        Directive::Wait { seconds } => Some(
            if ends_within(model, seconds) {
                ProcessEvent::Exited {
                    code: model.code,
                    status: model.status,
                    stdout: model.stdout,
                    stderr: model.stderr,
                }
            } else {
                ProcessEvent::DeadlinePassed
            },
        ),
        Directive::Kill => Some(ProcessEvent::KillAttempted),
        Directive::Stop => None,
    }
}

/// One round of the driver: do what the stage asks for and report it.
pub open spec fn follow(stage: Stage, timeout_secs: u64, model: ProcessModel) -> Stage {
    match reaction(model, directive_of(stage, timeout_secs)) {
        Some(event) => step(stage, event),
        None => stage,
    }
}

/// The stage after three rounds of the driver, from a fresh execution.
pub open spec fn settled(timeout_secs: u64, model: ProcessModel) -> Stage {
    follow(
        follow(follow(Stage::Spawning, timeout_secs, model), timeout_secs, model),
        timeout_secs,
        model,
    )
}

/// How an execution of the modelled process ends.
pub open spec fn ending_of(timeout_secs: u64, model: ProcessModel) -> Ending {
    match model.refusal {
        Some(reason) => Ending::Failed { reason },
        None => if ends_within(model, timeout_secs) {
            Ending::Exited {
                code: model.code,
                status: model.status,
                stdout: model.stdout,
                stderr: model.stderr,
            }
        } else {
            Ending::TimedOut
        },
    }
}

/// Once an execution has ended, no report changes it.
pub proof fn lemma_finished_is_final(ending: Ending, event: ProcessEvent)
    ensures
        step(Stage::Finished(ending), event) == Stage::Finished(ending),
{
}

/// A process is spawned once: the directive is `Spawn` in the first stage
/// only, and no report leads back there from another stage.
pub proof fn lemma_spawns_once(stage: Stage, event: ProcessEvent, timeout_secs: u64)
    ensures
        directive_of(stage, timeout_secs) == Directive::Spawn <==> stage == Stage::Spawning,
        step(stage, event) == Stage::Spawning ==> stage == Stage::Spawning,
        directive_of(step(stage, event), timeout_secs) == Directive::Kill ==> {
            ||| stage == Stage::Terminating
            ||| stage == Stage::Waiting && event == ProcessEvent::DeadlinePassed
        },
{
}

/// Every execution ends, after three rounds at most: it fails to start, or
/// the process ends in time, or the deadline passes and the process is
/// killed. The driver is then told to stop.
pub proof fn lemma_execution_settles(timeout_secs: u64, model: ProcessModel)
    ensures
        settled(timeout_secs, model) == Stage::Finished(ending_of(timeout_secs, model)),
        directive_of(settled(timeout_secs, model), timeout_secs) == Directive::Stop,
        follow(settled(timeout_secs, model), timeout_secs, model) == settled(timeout_secs, model),
{
}

/// With a timeout of zero, a process that starts and takes any time at all
/// ends in `Timeout`, for both kinds of caller.
pub proof fn lemma_zero_timeout_times_out(model: ProcessModel)
    requires
        model.refusal is None,
        model.ends_after_ms != Some(0nat),
    ensures
        settled(0, model) == Stage::Finished(Ending::TimedOut),
        execute_verdict_of(ending_of(0, model), 0) == Err::<(), ErrorKind>(
            ErrorKind::Timeout { seconds: 0 },
        ),
        output_verdict_of(ending_of(0, model), 0) == Err::<CommandOutput, ErrorKind>(
            ErrorKind::Timeout { seconds: 0 },
        ),
{
}

/// A process that starts and exits with code zero within the timeout is a
/// success for both kinds of caller, and its output is handed on unchanged.
pub proof fn lemma_zero_exit_succeeds(timeout_secs: u64, model: ProcessModel)
    requires
        model.refusal is None,
        ends_within(model, timeout_secs),
        model.code == Some(0i32),
    ensures
        execute_verdict_of(ending_of(timeout_secs, model), timeout_secs) == Ok::<(), ErrorKind>(()),
        output_verdict_of(ending_of(timeout_secs, model), timeout_secs) == Ok::<
            CommandOutput,
            ErrorKind,
        >(
            CommandOutput {
                status_code: 0,
                stdout: model.stdout,
                stderr: model.stderr,
                success: true,
            },
        ),
{
}

/// A process that starts and ends within the timeout with anything but
/// exit code zero is an error to the caller who wants success, and a result
/// with `success` false and the exit code kept to the caller who wants the
/// output.
pub proof fn lemma_nonzero_exit_fails(timeout_secs: u64, model: ProcessModel)
    requires
        model.refusal is None,
        ends_within(model, timeout_secs),
        model.code != Some(0i32),
    ensures
        execute_verdict_of(ending_of(timeout_secs, model), timeout_secs) == Err::<(), ErrorKind>(
            ErrorKind::NonZeroExit { code: status_code_of(model.code), status: model.status },
        ),
        output_verdict_of(ending_of(timeout_secs, model), timeout_secs) == Ok::<
            CommandOutput,
            ErrorKind,
        >(
            CommandOutput {
                status_code: status_code_of(model.code),
                stdout: model.stdout,
                stderr: model.stderr,
                success: false,
            },
        ),
        model.code is Some ==> status_code_of(model.code) == model.code->0,
{
}

/// A result says `success` exactly when the process started, ended within
/// the timeout and reported exit code zero; its status code is then zero,
/// and never otherwise.
pub proof fn lemma_success_means_zero_exit(timeout_secs: u64, model: ProcessModel)
    ensures
        match output_verdict_of(ending_of(timeout_secs, model), timeout_secs) {
            Ok(output) => {
                &&& output.success <==> model.code == Some(0i32)
                &&& output.success <==> output.status_code == 0
                &&& model.refusal is None
                &&& ends_within(model, timeout_secs)
            },
            Err(_) => model.refusal is Some || !ends_within(model, timeout_secs),
        },
        execute_verdict_of(ending_of(timeout_secs, model), timeout_secs) is Ok <==> {
            &&& model.refusal is None
            &&& ends_within(model, timeout_secs)
            &&& model.code == Some(0i32)
        },
{
}

/// `Timeout` is never reported before the process was told to stop:
/// whatever the driver reports, and in whatever order, an execution that
/// ends as timed out stood in `Terminating`, where the directive is `Kill`,
/// and left it on the report that the kill was attempted.
pub proof fn lemma_timeout_follows_kill(events: Seq<ProcessEvent>, timeout_secs: u64)
    requires
        run(Stage::Spawning, events) == Stage::Finished(Ending::TimedOut),
    ensures
        exists|k: int|
            {
                &&& 0 <= k < events.len()
                &&& #[trigger] run(Stage::Spawning, events.take(k)) == Stage::Terminating
                &&& directive_of(run(Stage::Spawning, events.take(k)), timeout_secs)
                    == Directive::Kill
                &&& events[k] == ProcessEvent::KillAttempted
            },
    decreases events.len(),
{
    let n: int = events.len() as int;
    assert(n > 0);
    let front = events.drop_last();
    let before = run(Stage::Spawning, front);
    if before == Stage::Terminating {
        assert(events.take(n - 1) =~= front);
        assert(events[n - 1] == ProcessEvent::KillAttempted);
    } else {
        assert(before == Stage::Finished(Ending::TimedOut));
        lemma_timeout_follows_kill(front, timeout_secs);
        let k = choose|k: int|
            {
                &&& 0 <= k < front.len()
                &&& #[trigger] run(Stage::Spawning, front.take(k)) == Stage::Terminating
                &&& front[k] == ProcessEvent::KillAttempted
            };
        assert(events.take(k) =~= front.take(k));
        assert(events[k] == front[k]);
    }
}

} // verus!
