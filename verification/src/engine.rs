//! The execution engine as this library sees it: how a run is configured
//! and what a run hands back.
//!
//! The run itself is the caller's to make. The engine reads files while it
//! words a failure and aborts on some programs, so nothing is stated here of
//! what it does: the library says how it is to be run, and judges whatever it
//! gave.

use vstd::prelude::*;

use crate::trace::TraceStep;

verus! {

/// Names one of the engine's layouts: a preset that says which built-in
/// capabilities and memory segments a run has.
#[derive(Clone, Copy, Debug, PartialEq, Eq, Structural)]
pub enum LayoutSelector {
    Plain,
    Small,
    Dex,
    Recursive,
    Starknet,
    StarknetWithKeccak,
    RecursiveLargeOutput,
    RecursiveWithPoseidon,
    AllSolidity,
    AllCairo,
    Dynamic,
    AllCairoStwo,
    StwoNoEcop,
    Perpetual,
    DexWithBitwise,
}

/// How the engine is to run a program.
#[derive(Clone, Debug, PartialEq, Eq)]
pub struct RunConfig {
    /// The function at which execution starts.
    pub entrypoint: String,
    /// The layout of the run.
    pub layout: LayoutSelector,
    /// Whether the run prepares its output for a prover.
    pub proof_mode: bool,
    /// Whether memory is relocated when the run has ended.
    pub relocate_mem: bool,
    /// Whether the run records its trace.
    pub trace_enabled: bool,
}

/// What a `RunConfig` is to a contract.
pub struct RunConfigView {
    pub entrypoint: Seq<char>,
    pub layout: LayoutSelector,
    pub proof_mode: bool,
    pub relocate_mem: bool,
    pub trace_enabled: bool,
}

impl View for RunConfig {
    type V = RunConfigView;

    open spec fn view(&self) -> RunConfigView {
        RunConfigView {
            entrypoint: self.entrypoint@,
            layout: self.layout,
            proof_mode: self.proof_mode,
            relocate_mem: self.relocate_mem,
            trace_enabled: self.trace_enabled,
        }
    }
}

/// What one run of the engine handed back.
#[derive(Clone, Debug, PartialEq, Eq)]
pub enum RunOutcome {
    /// The run ended well. The trace is there if the run recorded one.
    Success { relocated_trace: Option<Vec<TraceStep>> },
    /// The run failed, and the engine said why.
    Failure { message: String },
}

/// What a `RunOutcome` is to a contract.
pub enum OutcomeView {
    Success { relocated_trace: Option<Seq<TraceStep>> },
    Failure { message: Seq<char> },
}

impl View for RunOutcome {
    type V = OutcomeView;

    open spec fn view(&self) -> OutcomeView {
        match self {
            RunOutcome::Success { relocated_trace } => OutcomeView::Success {
                relocated_trace: match relocated_trace {
                    Some(trace) => Some(trace@),
                    None => None,
                },
            },
            RunOutcome::Failure { message } => OutcomeView::Failure { message: message@ },
        }
    }
}

/// The entry point of every conformance run.
pub open spec fn main_entrypoint() -> Seq<char> {
    "__main__"@
}

/// The configuration of a conformance run: the chosen layout, or the layout
/// with every feature where none is chosen; the given proof mode; relocation
/// and trace collection switched on. Every option of the engine that is not
/// named here is to stay at the engine's default.
pub open spec fn conformance_config(proof_mode: bool, layout: Option<LayoutSelector>)
    -> RunConfigView {
    RunConfigView {
        entrypoint: main_entrypoint(),
        layout: match layout {
            Some(selector) => selector,
            None => LayoutSelector::AllCairo,
        },
        proof_mode,
        relocate_mem: true,
        trace_enabled: true,
    }
}

/// A successful outcome carries a trace.
pub open spec fn carries_trace(outcome: OutcomeView) -> bool {
    outcome matches OutcomeView::Success { relocated_trace } ==> relocated_trace is Some
}

/// Builds the configuration of a conformance run.
pub fn run_config(proof_mode: bool, layout: Option<LayoutSelector>) -> (config: RunConfig)
    ensures
        config@ == conformance_config(proof_mode, layout),
{
    let layout = match layout {
        Some(selector) => selector,
        None => LayoutSelector::AllCairo,
    };
    RunConfig {
        entrypoint: "__main__".to_owned(),
        layout,
        proof_mode,
        relocate_mem: true,
        trace_enabled: true,
    }
}

} // verus!
