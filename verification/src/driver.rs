//! The verification driver: judges what one run of the engine handed back
//! against what the caller expected.
//!
//! A verification is three steps. `run_config` says how the engine is to run
//! the program. The caller runs the engine once, so, and makes a `RunOutcome`
//! of what it gave. `verify` gives the verdict on that outcome.

use vstd::prelude::*;

use crate::engine::{carries_trace, OutcomeView, RunOutcome};
use crate::text::{contains_text, occurs_in};
use crate::trace::{
    first_difference, first_mismatch, lemma_common_prefix, lemma_first_difference_unique, step_at,
    ExpectedTrace, TraceStep,
};

verus! {

/// What the caller expects of a run.
#[derive(Clone, Debug, PartialEq, Eq)]
pub enum Expectation {
    /// The run ends well, with exactly this trace.
    Trace(ExpectedTrace),
    /// The run fails, and the engine's message holds this text.
    Failure(String),
    /// The run ends well; nothing more is asked.
    SuccessOnly,
}

/// What an `Expectation` is to a contract.
pub enum ExpectationView {
    Trace(Seq<TraceStep>),
    Failure(Seq<char>),
    SuccessOnly,
}

impl View for Expectation {
    type V = ExpectationView;

    open spec fn view(&self) -> ExpectationView {
        match self {
            Expectation::Trace(trace) => ExpectationView::Trace(trace@),
            Expectation::Failure(text) => ExpectationView::Failure(text@),
            Expectation::SuccessOnly => ExpectationView::SuccessOnly,
        }
    }
}

/// Why a verification failed.
#[derive(Clone, Debug, PartialEq, Eq)]
pub enum FailReason {
    /// The engine failed where success was expected; `message` is what it
    /// said.
    EngineExecution { message: String },
    /// The engine succeeded where failure was expected.
    UnexpectedSuccess,
    /// The engine succeeded but handed back no trace, where a trace was to be
    /// compared: the run was not made to record one.
    MissingTrace,
    /// The engine failed, but its message `actual` does not hold the text
    /// `expected`.
    ErrorMismatch { expected: String, actual: String },
    /// The traces differ. `index` is the first position at which they do;
    /// `expected` and `actual` are the steps there, `None` for a trace that
    /// has ended before that position.
    TraceMismatch {
        index: usize,
        expected: Option<TraceStep>,
        actual: Option<TraceStep>,
        expected_len: usize,
        actual_len: usize,
    },
}

/// What a `FailReason` is to a contract.
pub enum ReasonView {
    EngineExecution { message: Seq<char> },
    UnexpectedSuccess,
    MissingTrace,
    ErrorMismatch { expected: Seq<char>, actual: Seq<char> },
    TraceMismatch {
        index: nat,
        expected: Option<TraceStep>,
        actual: Option<TraceStep>,
        expected_len: nat,
        actual_len: nat,
    },
}

impl View for FailReason {
    type V = ReasonView;

    open spec fn view(&self) -> ReasonView {
        match self {
            FailReason::EngineExecution { message } => ReasonView::EngineExecution {
                message: message@,
            },
            FailReason::UnexpectedSuccess => ReasonView::UnexpectedSuccess,
            FailReason::MissingTrace => ReasonView::MissingTrace,
            FailReason::ErrorMismatch { expected, actual } => ReasonView::ErrorMismatch {
                expected: expected@,
                actual: actual@,
            },
            FailReason::TraceMismatch { index, expected, actual, expected_len, actual_len } =>
                ReasonView::TraceMismatch {
                    index: *index as nat,
                    expected: *expected,
                    actual: *actual,
                    expected_len: *expected_len as nat,
                    actual_len: *actual_len as nat,
                },
        }
    }
}

/// The verdict of one verification.
#[derive(Clone, Debug, PartialEq, Eq)]
pub enum VerificationResult {
    Pass,
    Fail(FailReason),
}

/// What a `VerificationResult` is to a contract.
pub enum VerdictView {
    Pass,
    Fail(ReasonView),
}

impl View for VerificationResult {
    type V = VerdictView;

    open spec fn view(&self) -> VerdictView {
        match self {
            VerificationResult::Pass => VerdictView::Pass,
            VerificationResult::Fail(reason) => VerdictView::Fail(reason@),
        }
    }
}

/// The verdict on two traces: they pass where they are equal, and else fail
/// with their first difference, the steps there, and both lengths.
pub open spec fn trace_verdict(actual: Seq<TraceStep>, expected: Seq<TraceStep>) -> VerdictView {
    match first_difference(actual, expected) {
        None => VerdictView::Pass,
        Some(index) => VerdictView::Fail(
            ReasonView::TraceMismatch {
                index,
                expected: step_at(expected, index as int),
                actual: step_at(actual, index as int),
                expected_len: expected.len(),
                actual_len: actual.len(),
            },
        ),
    }
}

/// The verdict on an engine message where a failure with `needle` in its
/// message was expected.
pub open spec fn failure_verdict(message: Seq<char>, needle: Seq<char>) -> VerdictView {
    if occurs_in(needle, message) {
        VerdictView::Pass
    } else {
        VerdictView::Fail(ReasonView::ErrorMismatch { expected: needle, actual: message })
    }
}

/// The verdict on an outcome, given what was expected.
///
/// Where a failure was expected, success fails the verification and the
/// message of a failure is searched for the expected text; no trace is looked
/// at. Where success was expected, a failure fails the verification with the
/// engine's message, and a trace, where one was expected, must be equal to
/// the run's.
///
/// A run that ended well without a trace, where one was to be compared, does
/// not pass: it fails with `MissingTrace`.
pub open spec fn verdict(outcome: OutcomeView, expectation: ExpectationView) -> VerdictView {
    match expectation {
        ExpectationView::Failure(needle) => match outcome {
            OutcomeView::Success { .. } => VerdictView::Fail(ReasonView::UnexpectedSuccess),
            OutcomeView::Failure { message } => failure_verdict(message, needle),
        },
        ExpectationView::Trace(expected) => match outcome {
            OutcomeView::Failure { message } => VerdictView::Fail(
                ReasonView::EngineExecution { message },
            ),
            OutcomeView::Success { relocated_trace: Some(actual) } => trace_verdict(
                actual,
                expected,
            ),
            OutcomeView::Success { relocated_trace: None } => VerdictView::Fail(
                ReasonView::MissingTrace,
            ),
        },
        ExpectationView::SuccessOnly => match outcome {
            OutcomeView::Failure { message } => VerdictView::Fail(
                ReasonView::EngineExecution { message },
            ),
            OutcomeView::Success { .. } => VerdictView::Pass,
        },
    }
}

/// What the two optional expectations of a caller amount to. An expected
/// error text decides alone: a trace given beside it is not compared.
pub open spec fn expectation_of(
    expected_trace: Option<ExpectedTrace>,
    expected_error_substring: Option<String>,
) -> ExpectationView {
    match expected_error_substring {
        Some(text) => ExpectationView::Failure(text@),
        None => match expected_trace {
            Some(trace) => ExpectationView::Trace(trace@),
            None => ExpectationView::SuccessOnly,
        },
    }
}

impl Expectation {
    /// Builds the expectation from the two optional ones of a caller.
    pub fn from_options(
        expected_trace: Option<ExpectedTrace>,
        expected_error_substring: Option<String>,
    ) -> (expectation: Expectation)
        ensures
            expectation@ == expectation_of(expected_trace, expected_error_substring),
    {
        match expected_error_substring {
            Some(text) => Expectation::Failure(text),
            None => match expected_trace {
                Some(trace) => Expectation::Trace(trace),
                None => Expectation::SuccessOnly,
            },
        }
    }
}

/// Compares the trace of a run with the expected one.
pub fn compare_traces(actual: &[TraceStep], expected: &[TraceStep]) -> (result: VerificationResult)
    ensures
        result@ == trace_verdict(actual@, expected@),
{
    match first_mismatch(actual, expected) {
        None => VerificationResult::Pass,
        Some(index) => {
            proof {
                lemma_common_prefix(actual@, expected@);
            }
            let expected_step = if index < expected.len() {
                Some(expected[index])
            } else {
                None
            };
            let actual_step = if index < actual.len() {
                Some(actual[index])
            } else {
                None
            };
            VerificationResult::Fail(
                FailReason::TraceMismatch {
                    index,
                    expected: expected_step,
                    actual: actual_step,
                    expected_len: expected.len(),
                    actual_len: actual.len(),
                },
            )
        },
    }
}

/// Judges what the engine handed back against what was expected.
///
/// A success without a trace, where a trace is to be compared, breaks an
/// invariant of the run's configuration: such a run was not made to record
/// its trace. The answer to it is a failure of its own kind, never a pass.
pub fn adjudicate(outcome: RunOutcome, expectation: Expectation) -> (result: VerificationResult)
    ensures
        result@ == verdict(outcome@, expectation@),
{
    match expectation {
        Expectation::Failure(needle) => match outcome {
            RunOutcome::Success { .. } => VerificationResult::Fail(FailReason::UnexpectedSuccess),
            RunOutcome::Failure { message } => {
                if contains_text(message.as_str(), needle.as_str()) {
                    VerificationResult::Pass
                } else {
                    VerificationResult::Fail(
                        FailReason::ErrorMismatch { expected: needle, actual: message },
                    )
                }
            },
        },
        Expectation::Trace(expected) => match outcome {
            RunOutcome::Failure { message } => VerificationResult::Fail(
                FailReason::EngineExecution { message },
            ),
            RunOutcome::Success { relocated_trace } => match relocated_trace {
                Some(actual) => compare_traces(actual.as_slice(), expected.as_slice()),
                None => VerificationResult::Fail(FailReason::MissingTrace),
            },
        },
        Expectation::SuccessOnly => match outcome {
            RunOutcome::Failure { message } => VerificationResult::Fail(
                FailReason::EngineExecution { message },
            ),
            RunOutcome::Success { .. } => VerificationResult::Pass,
        },
    }
}

/// Gives the verdict on the outcome of a run, given the two optional
/// expectations of a caller: a trace that the run is to have, and a text that
/// the message of a failed run is to hold.
///
/// An expected text decides alone. Without one, the run has to have ended
/// well, and its trace has to be the expected one where one is given.
pub fn verify(
    outcome: RunOutcome,
    expected_trace: Option<ExpectedTrace>,
    expected_error_substring: Option<String>,
) -> (result: VerificationResult)
    ensures
        result@ == verdict(outcome@, expectation_of(expected_trace, expected_error_substring)),
{
    adjudicate(outcome, Expectation::from_options(expected_trace, expected_error_substring))
}

/// A run that ended well with a trace never fails for want of one, whatever
/// was expected. A run that records its trace, as `run_config` asks, is to
/// have one.
pub proof fn lemma_trace_is_never_missing(outcome: OutcomeView, expectation: ExpectationView)
    requires
        carries_trace(outcome),
    ensures
        !(verdict(outcome, expectation) matches VerdictView::Fail(ReasonView::MissingTrace)),
{
}

/// A run that ends well with the very trace that was expected passes.
pub proof fn lemma_exact_trace_passes(trace: Seq<TraceStep>)
    ensures
        verdict(
            OutcomeView::Success { relocated_trace: Some(trace) },
            ExpectationView::Trace(trace),
        ) == VerdictView::Pass,
{
}

/// Two traces pass only where they are equal.
pub proof fn lemma_pass_means_equal(actual: Seq<TraceStep>, expected: Seq<TraceStep>)
    ensures
        trace_verdict(actual, expected) is Pass <==> actual == expected,
{
}

/// An expected trace that lacks the last step of the run's trace fails with a
/// trace mismatch at the position of that step, where the expected trace has
/// ended, and with both lengths.
pub proof fn lemma_truncated_trace_fails(actual: Seq<TraceStep>)
    requires
        actual.len() > 0,
    ensures
        verdict(
            OutcomeView::Success { relocated_trace: Some(actual) },
            ExpectationView::Trace(actual.drop_last()),
        ) == VerdictView::Fail(
            ReasonView::TraceMismatch {
                index: (actual.len() - 1) as nat,
                expected: None,
                actual: Some(actual.last()),
                expected_len: (actual.len() - 1) as nat,
                actual_len: actual.len(),
            },
        ),
{
    let expected = actual.drop_last();
    let last = actual.len() - 1;
    lemma_first_difference_unique(actual, expected, last);
}

/// Traces of different lengths fail with a trace mismatch that holds both
/// lengths.
pub proof fn lemma_length_mismatch_fails(actual: Seq<TraceStep>, expected: Seq<TraceStep>)
    requires
        actual.len() != expected.len(),
    ensures
        trace_verdict(actual, expected) matches VerdictView::Fail(
            ReasonView::TraceMismatch { expected_len, actual_len, .. },
        ) && expected_len == expected.len() && actual_len == actual.len(),
{
}

/// The run's trace with the program counter of one step raised by one,
/// taken as the expected trace.
pub open spec fn with_pc_raised(trace: Seq<TraceStep>, index: int) -> Seq<TraceStep> {
    trace.update(
        index,
        TraceStep {
            pc: (trace[index].pc + 1) as usize,
            ap: trace[index].ap,
            fp: trace[index].fp,
        },
    )
}

/// An expected trace that differs from the run's trace in the program counter
/// of one step, and nowhere else, fails with a trace mismatch at exactly that
/// step.
pub proof fn lemma_corrupted_step_fails(actual: Seq<TraceStep>, index: int)
    requires
        0 <= index < actual.len(),
        actual[index].pc < usize::MAX,
    ensures
        verdict(
            OutcomeView::Success { relocated_trace: Some(actual) },
            ExpectationView::Trace(with_pc_raised(actual, index)),
        ) == VerdictView::Fail(
            ReasonView::TraceMismatch {
                index: index as nat,
                expected: Some(with_pc_raised(actual, index)[index]),
                actual: Some(actual[index]),
                expected_len: actual.len(),
                actual_len: actual.len(),
            },
        ),
{
    let expected = with_pc_raised(actual, index);
    assert(expected[index].pc != actual[index].pc);
    lemma_first_difference_unique(actual, expected, index);
}

/// Where a failure was expected: a run that fails with the expected text in
/// its message passes; one that fails without it fails with both texts; one
/// that ends well fails as an unexpected success, whatever its trace.
pub proof fn lemma_expected_failure(
    message: Seq<char>,
    needle: Seq<char>,
    relocated_trace: Option<Seq<TraceStep>>,
)
    ensures
        occurs_in(needle, message) ==> verdict(
            OutcomeView::Failure { message },
            ExpectationView::Failure(needle),
        ) == VerdictView::Pass,
        !occurs_in(needle, message) ==> verdict(
            OutcomeView::Failure { message },
            ExpectationView::Failure(needle),
        ) == VerdictView::Fail(ReasonView::ErrorMismatch { expected: needle, actual: message }),
        verdict(OutcomeView::Success { relocated_trace }, ExpectationView::Failure(needle))
            == VerdictView::Fail(ReasonView::UnexpectedSuccess),
{
}

/// Where success was expected, a run that fails never passes: the
/// verification fails with the engine's message.
pub proof fn lemma_engine_failure_fails(message: Seq<char>, expectation: ExpectationView)
    requires
        !(expectation is Failure),
    ensures
        verdict(OutcomeView::Failure { message }, expectation) == VerdictView::Fail(
            ReasonView::EngineExecution { message },
        ),
{
}

} // verus!
