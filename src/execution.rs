//! One execution of submitted code, as the host's state machine, and the
//! record that it leaves.

use vstd::prelude::*;
use crate::output::{ExecutionOutput, render, report};
use crate::source::{blank, classify, dispatch_of, is_blank, DispatchPath};

verus! {

/// The error of an execution whose code is empty or white space only.
pub const EMPTY_CODE_ERROR: &'static str = "코드가 비어있습니다";

/// What stands before the engine's message when the prelude fails.
pub const BOOTSTRAP_FAILED: &'static str = "Bootstrap 실행 실패: ";

/// The error put in a failed command response whose record carries none.
pub const UNKNOWN_ERROR: &'static str = "알 수 없는 오류";

/// Where an execution stands.
#[derive(Debug, Clone, Copy, PartialEq, Eq, Structural)]
pub enum HostPhase {
    Idle,
    EngineInitialized,
    BootstrapExecuted,
    UserCodeDispatched,
    EventLoopDrained,
    Succeeded,
    Failed,
}

/// An execution by its views. `report` is the text it reports: on success
/// the rendered output or the no-output text, on failure the output
/// captured before the failure.
pub struct ExecutionModel {
    pub phase: HostPhase,
    pub dispatch: DispatchPath,
    pub report: Seq<char>,
    pub error: Seq<char>,
}

/// The message of a failure: the engine's own, or the unknown-error text
/// where the engine gave an empty one.
pub open spec fn failure_message(e: Seq<char>) -> Seq<char> {
    if e.len() == 0 {
        UNKNOWN_ERROR@
    } else {
        e
    }
}

pub open spec fn is_terminal(p: HostPhase) -> bool {
    p == HostPhase::Succeeded || p == HostPhase::Failed
}

/// How an execution of `code` starts: failed at once where the code is
/// blank, else idle, with its dispatch path chosen.
pub open spec fn begin_model(code: Seq<char>) -> ExecutionModel {
    if blank(code) {
        ExecutionModel {
            phase: HostPhase::Failed,
            dispatch: dispatch_of(code),
            report: Seq::empty(),
            error: EMPTY_CODE_ERROR@,
        }
    } else {
        ExecutionModel { phase: HostPhase::Idle, dispatch: dispatch_of(code), report: Seq::empty(), error: Seq::empty() }
    }
}

/// The step from `from` to `to` on an outcome: the next phase on success,
/// failure with `prefix` and the failure message otherwise; in any other phase
/// nothing changes.
pub open spec fn advance_model(
    m: ExecutionModel,
    from: HostPhase,
    to: HostPhase,
    outcome: Result<(), Seq<char>>,
    prefix: Seq<char>,
) -> ExecutionModel {
    if m.phase != from {
        m
    } else {
        match outcome {
            Ok(()) => ExecutionModel { phase: to, ..m },
            Err(e) => ExecutionModel { phase: HostPhase::Failed, error: prefix + failure_message(e), ..m },
        }
    }
}

/// An execution once the output buffer, holding these lines, is read back:
/// a drained one succeeds with the report; a failed one keeps the rendered
/// output; any other stays as it is.
pub open spec fn finish_model(m: ExecutionModel, stdout: Seq<Seq<char>>, stderr: Seq<Seq<char>>) -> ExecutionModel {
    if m.phase == HostPhase::EventLoopDrained {
        ExecutionModel { phase: HostPhase::Succeeded, report: report(stdout, stderr), ..m }
    } else if m.phase == HostPhase::Failed {
        ExecutionModel { report: render(stdout, stderr), ..m }
    } else {
        m
    }
}

pub open spec fn outcome_view(o: Result<(), String>) -> Result<(), Seq<char>> {
    match o {
        Ok(()) => Ok(()),
        Err(e) => Err(e@),
    }
}

/// The host of one execution of submitted code in the script engine. The
/// engine work happens outside; this decides each next phase from what came
/// of it.
#[derive(Debug, Clone)]
pub struct DenoExecutor {
    phase: HostPhase,
    dispatch: DispatchPath,
    report: String,
    error: String,
}

impl DenoExecutor {
    pub closed spec fn model(&self) -> ExecutionModel {
        ExecutionModel { phase: self.phase, dispatch: self.dispatch, report: self.report@, error: self.error@ }
    }

    /// Starts an execution of `code`. Blank code fails here, before any
    /// engine exists.
    pub fn begin(code: &str) -> (r: Self)
        ensures
            r.model() == begin_model(code@),
    {
        let dispatch = classify(code);
        if is_blank(code) {
            DenoExecutor { phase: HostPhase::Failed, dispatch, report: String::new(), error: String::from_str(EMPTY_CODE_ERROR) }
        } else {
            DenoExecutor { phase: HostPhase::Idle, dispatch, report: String::new(), error: String::new() }
        }
    }

    pub fn phase(&self) -> (r: HostPhase)
        ensures
            r == self.model().phase,
    {
        self.phase
    }

    /// The path on which the code is to run.
    pub fn dispatch(&self) -> (r: DispatchPath)
        ensures
            r == self.model().dispatch,
    {
        self.dispatch
    }

    fn advance(&mut self, from: HostPhase, to: HostPhase, outcome: Result<(), String>, prefix: &str)
        ensures
            final(self).model() == advance_model(old(self).model(), from, to, outcome_view(outcome), prefix@),
    {
        if self.phase == from {
            match outcome {
                Ok(()) => {
                    self.phase = to;
                },
                Err(e) => {
                    let mut msg = String::from_str(prefix);
                    if e.as_str().is_empty() {
                        msg.append(UNKNOWN_ERROR);
                    } else {
                        msg.append(e.as_str());
                    }
                    self.phase = HostPhase::Failed;
                    self.error = msg;
                },
            }
        }
    }

    /// The engine, with its module loader and a fresh output buffer, exists.
    pub fn engine_ready(&mut self)
        ensures
            final(self).model() == advance_model(
                old(self).model(),
                HostPhase::Idle,
                HostPhase::EngineInitialized,
                Ok(()),
                Seq::empty(),
            ),
    {
        self.advance(HostPhase::Idle, HostPhase::EngineInitialized, Ok(()), "");
    }

    /// The prelude that installs the output globals ran; its failure is fatal.
    pub fn bootstrap_done(&mut self, outcome: Result<(), String>)
        ensures
            final(self).model() == advance_model(
                old(self).model(),
                HostPhase::EngineInitialized,
                HostPhase::BootstrapExecuted,
                outcome_view(outcome),
                BOOTSTRAP_FAILED@,
            ),
    {
        self.advance(HostPhase::EngineInitialized, HostPhase::BootstrapExecuted, outcome, BOOTSTRAP_FAILED);
    }

    /// The user code was evaluated, as a script or as a module; an error
    /// carries the engine's message as it is.
    pub fn dispatch_done(&mut self, outcome: Result<(), String>)
        ensures
            final(self).model() == advance_model(
                old(self).model(),
                HostPhase::BootstrapExecuted,
                HostPhase::UserCodeDispatched,
                outcome_view(outcome),
                Seq::empty(),
            ),
    {
        proof {
            reveal_strlit("");
        }
        self.advance(HostPhase::BootstrapExecuted, HostPhase::UserCodeDispatched, outcome, "");
    }

    /// The engine's pending work ran to quiescence.
    pub fn drain_done(&mut self, outcome: Result<(), String>)
        ensures
            final(self).model() == advance_model(
                old(self).model(),
                HostPhase::UserCodeDispatched,
                HostPhase::EventLoopDrained,
                outcome_view(outcome),
                Seq::empty(),
            ),
    {
        proof {
            reveal_strlit("");
        }
        self.advance(HostPhase::UserCodeDispatched, HostPhase::EventLoopDrained, outcome, "");
    }

    /// Reads back the output buffer once the engine has stopped: a drained
    /// execution succeeds with its report; a failed one keeps the output
    /// captured before the failure.
    pub fn finish(&mut self, output: &ExecutionOutput)
        ensures
            final(self).model() == finish_model(old(self).model(), output.stdout_lines(), output.stderr_lines()),
    {
        if self.phase == HostPhase::EventLoopDrained {
            self.report = output.final_report();
            self.phase = HostPhase::Succeeded;
        } else if self.phase == HostPhase::Failed {
            self.report = output.get_output();
        }
    }

    /// The record that a finished execution leaves.
    pub fn into_result(self, code: String, timestamp: i64) -> (r: JsExecutionResult)
        requires
            is_terminal(self.model().phase),
        ensures
            r.model() == result_model(code@, timestamp, self.model()),
    {
        if self.phase == HostPhase::Succeeded {
            JsExecutionResult { code, result: self.report, timestamp, success: true, error: None }
        } else {
            JsExecutionResult { code, result: self.report, timestamp, success: false, error: Some(self.error) }
        }
    }
}

/// A record by its views.
pub struct ResultModel {
    pub code: Seq<char>,
    pub result: Seq<char>,
    pub timestamp: i64,
    pub success: bool,
    pub error: Option<Seq<char>>,
}

/// The record of a finished execution.
pub open spec fn result_model(code: Seq<char>, timestamp: i64, m: ExecutionModel) -> ResultModel {
    if m.phase == HostPhase::Succeeded {
        ResultModel { code, result: m.report, timestamp, success: true, error: None }
    } else {
        ResultModel { code, result: m.report, timestamp, success: false, error: Some(m.error) }
    }
}

/// The record of one execution: the code, the reported text, when it ran
/// (milliseconds since the Unix epoch), whether it succeeded, and the error.
#[derive(Debug)]
pub struct JsExecutionResult {
    pub code: String,
    pub result: String,
    pub timestamp: i64,
    pub success: bool,
    pub error: Option<String>,
}

impl JsExecutionResult {
    pub open spec fn model(&self) -> ResultModel {
        ResultModel {
            code: self.code@,
            result: self.result@,
            timestamp: self.timestamp,
            success: self.success,
            error: match self.error {
                Some(e) => Some(e@),
                None => None,
            },
        }
    }

    /// A copy of the record.
    pub fn duplicate(&self) -> (r: Self)
        ensures
            r.model() == self.model(),
    {
        JsExecutionResult {
            code: self.code.clone(),
            result: self.result.clone(),
            timestamp: self.timestamp,
            success: self.success,
            error: match &self.error {
                Some(e) => Some(e.clone()),
                None => None,
            },
        }
    }
}

/// The response of the execute command: the record where it succeeded;
/// else a failed record whose result and error both hold the error message
/// (or the unknown-error text where the record has none), stamped `now`.
pub fn command_response(code: &str, record: JsExecutionResult, now: i64) -> (r: Result<JsExecutionResult, JsExecutionResult>)
    ensures
        record.success ==> (r matches Ok(x) && x.model() == record.model()),
        !record.success ==> (r matches Err(x) && x.model() == (ResultModel {
            code: code@,
            result: match record.model().error {
                Some(e) => e,
                None => UNKNOWN_ERROR@,
            },
            timestamp: now,
            success: false,
            error: Some(match record.model().error {
                Some(e) => e,
                None => UNKNOWN_ERROR@,
            }),
        })),
{
    if record.success {
        Ok(record)
    } else {
        let message = match record.error {
            Some(e) => e,
            None => String::from_str(UNKNOWN_ERROR),
        };
        Err(JsExecutionResult {
            code: String::from_str(code),
            result: message.clone(),
            timestamp: now,
            success: false,
            error: Some(message),
        })
    }
}

/// Blank code fails with the empty-code error, in a state in which no
/// engine is made.
pub proof fn lemma_blank_code_fails_at_once(code: Seq<char>)
    requires
        blank(code),
    ensures
        begin_model(code).phase == HostPhase::Failed,
        begin_model(code).error == EMPTY_CODE_ERROR@,
        result_model(code, 0, begin_model(code)).success == false,
        result_model(code, 0, begin_model(code)).error == Some(EMPTY_CODE_ERROR@),
        result_model(code, 0, begin_model(code)).result == Seq::<char>::empty(),
{
}

/// Where an execution of `code` ends when the engine reports these outcomes
/// for the prelude, the user code and the event loop, and the output buffer
/// holds these lines: each step in turn, as the host takes them.
pub open spec fn run_model(
    code: Seq<char>,
    bootstrap: Result<(), Seq<char>>,
    dispatch: Result<(), Seq<char>>,
    drain: Result<(), Seq<char>>,
    stdout: Seq<Seq<char>>,
    stderr: Seq<Seq<char>>,
) -> ExecutionModel {
    let m1 = advance_model(begin_model(code), HostPhase::Idle, HostPhase::EngineInitialized, Ok(()), Seq::empty());
    let m2 = advance_model(m1, HostPhase::EngineInitialized, HostPhase::BootstrapExecuted, bootstrap, BOOTSTRAP_FAILED@);
    let m3 = advance_model(m2, HostPhase::BootstrapExecuted, HostPhase::UserCodeDispatched, dispatch, Seq::empty());
    let m4 = advance_model(m3, HostPhase::UserCodeDispatched, HostPhase::EventLoopDrained, drain, Seq::empty());
    finish_model(m4, stdout, stderr)
}

/// Every run ends, in success or failure; two runs of the same code whose
/// engine behaves alike leave records with the same result, success and
/// error, whenever each was taken.
pub proof fn lemma_rerun_same_record(
    code: Seq<char>,
    bootstrap: Result<(), Seq<char>>,
    dispatch: Result<(), Seq<char>>,
    drain: Result<(), Seq<char>>,
    stdout: Seq<Seq<char>>,
    stderr: Seq<Seq<char>>,
    t1: i64,
    t2: i64,
)
    ensures
        is_terminal(run_model(code, bootstrap, dispatch, drain, stdout, stderr).phase),
        ({
            let m = run_model(code, bootstrap, dispatch, drain, stdout, stderr);
            &&& result_model(code, t1, m).result == result_model(code, t2, m).result
            &&& result_model(code, t1, m).success == result_model(code, t2, m).success
            &&& result_model(code, t1, m).error == result_model(code, t2, m).error
        }),
{
}

/// Code that the engine rejects leaves a failed record that carries the
/// engine's message (or the unknown-error text where that is empty) and
/// the output captured before the rejection; none where nothing was.
pub proof fn lemma_rejected_code_fails(
    code: Seq<char>,
    message: Seq<char>,
    drain: Result<(), Seq<char>>,
    stdout: Seq<Seq<char>>,
    stderr: Seq<Seq<char>>,
    t: i64,
)
    requires
        !blank(code),
    ensures
        ({
            let r = result_model(code, t, run_model(code, Ok(()), Err(message), drain, stdout, stderr));
            &&& !r.success
            &&& r.result == render(stdout, stderr)
            &&& r.error == Some(failure_message(message))
            &&& stdout.len() == 0 && stderr.len() == 0 ==> r.result == Seq::<char>::empty()
        }),
{
    assert(Seq::<char>::empty() + failure_message(message) =~= failure_message(message));
    if stdout.len() == 0 && stderr.len() == 0 {
        assert(crate::output::rendered_lines(stdout, stderr).len() == 0);
    }
}

/// A run that fails after the engine started keeps in its record all the
/// output captured before the failure, and a non-empty error.
pub proof fn lemma_failure_keeps_output(
    code: Seq<char>,
    bootstrap: Result<(), Seq<char>>,
    dispatch: Result<(), Seq<char>>,
    drain: Result<(), Seq<char>>,
    stdout: Seq<Seq<char>>,
    stderr: Seq<Seq<char>>,
    t: i64,
)
    requires
        !blank(code),
        run_model(code, bootstrap, dispatch, drain, stdout, stderr).phase == HostPhase::Failed,
    ensures
        ({
            let r = result_model(code, t, run_model(code, bootstrap, dispatch, drain, stdout, stderr));
            &&& !r.success
            &&& r.result == render(stdout, stderr)
            &&& r.error matches Some(e) && e.len() > 0
        }),
{
    reveal_strlit("알 수 없는 오류");
}

} // verus!
