//! The dry-run pipeline as an explicit state machine. Each stage's outside
//! work (the state fetch, the two identity queries, the entry-point call)
//! is performed by the caller, who feeds the result back in as an event;
//! every decision between stages is made here. Control flow is strictly
//! sequential — base state, overlay, optional identity check, invocation,
//! decode — and the first failure halts the machine for good.

use vstd::prelude::*;

use crate::error::PipelineError;
use crate::identity::{check, spec_same_identity, CheckOutcome, Identity};
use crate::metric::{decode_and_report, spec_decode_metric, spec_report, Report, RETURN_BYTES};
use crate::overlay::{keys_unique, pairs_view, spec_merge, StateOverlay};
use crate::source::State;

verus! {

/// How the execution engine evaluates the entry-point call. The pipeline is
/// execution-mode-agnostic: the caller's choice is passed through unchanged.
#[derive(Clone, Copy, Debug, PartialEq, Eq, Structural)]
pub enum ExecutionMode {
    Native,
    Wasm,
    Both,
    NativeElseWasm,
}

/// Which stage the machine is waiting on.
#[derive(Clone, Copy, Debug, PartialEq, Eq, Structural)]
pub enum Phase {
    /// Not started yet.
    Init,
    /// The base state is being acquired.
    AwaitBase,
    /// The overlay is built; the two identity queries are outstanding.
    AwaitIdentity,
    /// The entry-point call is outstanding.
    AwaitInvoke,
    /// The run completed and a report was produced.
    Done,
    /// A stage failed; the machine accepts no further event.
    Failed,
}

/// The result of one piece of outside work, handed back by the caller.
#[derive(Debug)]
pub enum Event {
    /// Begin the run.
    Start,
    /// The base state arrived: the full keyed state of the source.
    BaseReady { pairs: Vec<(Vec<u8>, Vec<u8>)> },
    /// The base state could not be acquired or decoded.
    BaseFailed { error: PipelineError },
    /// Both identity queries completed: the identity computed from the
    /// overlay, and the live source's self-reported one.
    IdentityReady { expected: Identity, actual: Identity },
    /// An identity query failed.
    IdentityFailed { error: PipelineError },
    /// The entry point returned this raw encoded result.
    InvokeDone { raw: Vec<u8> },
    /// The entry point trapped, or its arguments could not be prepared.
    InvokeFailed { error: PipelineError },
}

/// The outside work the caller must perform next.
#[derive(Clone, Copy, Debug, PartialEq, Eq, Structural)]
pub enum Action {
    /// Acquire the base state from the configured source, decoding it
    /// under the given state-encoding version.
    FetchBase { state_version: u8 },
    /// Query the overlay's identity through the engine and the live
    /// endpoint's self-reported identity, then hand both back.
    QueryIdentity,
    /// Call the fixed entry point against the overlay, with empty
    /// arguments, under the given mode. `warn_mismatch` is set when a
    /// lenient identity mismatch owes the operator a warning.
    Invoke { warn_mismatch: bool, mode: ExecutionMode },
    /// Emit the resource-usage summary; the run is complete.
    Report { report: Report },
    /// The run is aborted with this first error.
    Halt { error: PipelineError },
}

/// The name of the single state-transition entry point under test.
pub open spec fn spec_entry_point() -> Seq<char> {
    "TryRuntime_on_runtime_upgrade"@
}

/// The fixed, pipeline-hardcoded entry point identifier.
pub fn entry_point() -> (s: &'static str)
    ensures
        s@ == spec_entry_point(),
{
    "TryRuntime_on_runtime_upgrade"
}

/// One dry-run invocation: the configuration it was created with, and the
/// stage it has reached.
#[derive(Debug)]
pub struct Pipeline {
    /// Where the base state comes from.
    pub source: State,
    /// The pairs to overlay onto the base, at minimum the replacement code
    /// payload under the well-known code key. Consumed when the overlay is
    /// built.
    pub injected: Vec<(Vec<u8>, Vec<u8>)>,
    /// Abort on a live identity mismatch; otherwise warn and proceed.
    pub strict: bool,
    /// The state-encoding version the base state is decoded under.
    pub state_version: u8,
    /// The caller's execution-mode selector, passed through unchanged.
    pub mode: ExecutionMode,
    /// The stage the machine is waiting on.
    pub phase: Phase,
    /// The overlay, once built.
    pub overlay: Option<StateOverlay>,
    /// The decoded report, once the run completed.
    pub report: Option<Report>,
    /// The first error, once a stage failed.
    pub error: Option<PipelineError>,
}

impl Pipeline {
    /// The machine's invariant: each phase holds what it needs.
    pub open spec fn wf(self) -> bool {
        &&& (self.phase is AwaitIdentity ==> (self.overlay matches Some(o) && o.wf()
            && self.source is Live))
        &&& (self.phase is AwaitInvoke ==> (self.overlay matches Some(o) && o.wf()))
        &&& (self.phase is Done ==> self.report is Some)
        &&& (self.phase is Failed ==> self.error is Some)
    }

    /// Which event each phase accepts: the stages run strictly in order,
    /// and a finished or failed machine accepts none.
    pub open spec fn accepts(self, e: Event) -> bool {
        match e {
            Event::Start => self.phase is Init,
            Event::BaseReady { pairs } => self.phase is AwaitBase && keys_unique(
                pairs_view(pairs@),
            ),
            Event::BaseFailed { .. } => self.phase is AwaitBase,
            Event::IdentityReady { .. } => self.phase is AwaitIdentity,
            Event::IdentityFailed { .. } => self.phase is AwaitIdentity,
            Event::InvokeDone { .. } => self.phase is AwaitInvoke,
            Event::InvokeFailed { .. } => self.phase is AwaitInvoke,
        }
    }

    /// A fresh, not yet started run.
    pub fn new(
        source: State,
        injected: Vec<(Vec<u8>, Vec<u8>)>,
        strict: bool,
        state_version: u8,
        mode: ExecutionMode,
    ) -> (p: Pipeline)
        ensures
            p.phase is Init,
            p.wf(),
            p.source == source,
            p.injected == injected,
            p.strict == strict,
            p.state_version == state_version,
            p.mode == mode,
    {
        Pipeline {
            source,
            injected,
            strict,
            state_version,
            mode,
            phase: Phase::Init,
            overlay: None,
            report: None,
            error: None,
        }
    }

    /// Consumes one event and decides the next stage: the successor machine
    /// and the outside work the caller must perform next.
    pub fn step(self, e: Event) -> (r: (Pipeline, Action))
        requires
            self.wf(),
            self.accepts(e),
        ensures
            r.0.wf(),
            r.0.source == self.source,
            r.0.strict == self.strict,
            r.0.state_version == self.state_version,
            r.0.mode == self.mode,
            // start: go fetch the base state, decoded under the configured
            // state-encoding version
            (e is Start ==> r.0.phase is AwaitBase && r.1 == (Action::FetchBase {
                state_version: self.state_version,
            })),
            // base ready: build the overlay; a snapshot source skips the
            // identity check and proceeds directly to invocation
            (match e {
                Event::BaseReady { pairs } => {
                    &&& r.0.overlay matches Some(o) && o@ == spec_merge(
                        pairs_view(pairs@),
                        pairs_view(self.injected@),
                    ) && o.wf()
                    &&& (self.source is Live ==> r.0.phase is AwaitIdentity
                        && r.1 is QueryIdentity)
                    &&& (self.source is Snap ==> r.0.phase is AwaitInvoke && r.1 == (
                    Action::Invoke { warn_mismatch: false, mode: self.mode }))
                },
                _ => true,
            }),
            // identity ready: matching identities proceed silently; a
            // mismatch aborts under the strict policy and degrades to a
            // warning otherwise
            (match e {
                Event::IdentityReady { expected, actual } => {
                    &&& (spec_same_identity(expected, actual) ==> r.0.phase is AwaitInvoke
                        && r.1 == (Action::Invoke { warn_mismatch: false, mode: self.mode }))
                    &&& (!spec_same_identity(expected, actual) && self.strict ==> r.0.phase
                        is Failed && r.0.error == Some(PipelineError::Consistency) && r.1 == (
                    Action::Halt { error: PipelineError::Consistency }))
                    &&& (!spec_same_identity(expected, actual) && !self.strict ==> r.0.phase
                        is AwaitInvoke && r.1 == (Action::Invoke {
                        warn_mismatch: true,
                        mode: self.mode,
                    }))
                    &&& r.0.overlay == self.overlay
                },
                _ => true,
            }),
            // invocation done: the raw return must decode as exactly two
            // records, else the run fails with a decode error
            (match e {
                Event::InvokeDone { raw } => {
                    &&& (raw@.len() == RETURN_BYTES ==> {
                        let rep = spec_report(
                            spec_decode_metric(raw@.subrange(0, 16)),
                            spec_decode_metric(raw@.subrange(16, 32)),
                        );
                        r.0.phase is Done && r.0.report == Some(rep) && r.1 == (Action::Report {
                            report: rep,
                        })
                    })
                    &&& (raw@.len() != RETURN_BYTES ==> r.0.phase is Failed && r.0.error == Some(
                        PipelineError::Decode,
                    ) && r.1 == (Action::Halt { error: PipelineError::Decode }))
                },
                _ => true,
            }),
            // any stage failure halts the machine with that first error
            (match e {
                Event::BaseFailed { error } => r.0.phase is Failed && r.0.error == Some(error)
                    && r.1 == (Action::Halt { error }),
                Event::IdentityFailed { error } => r.0.phase is Failed && r.0.error == Some(error)
                    && r.1 == (Action::Halt { error }),
                Event::InvokeFailed { error } => r.0.phase is Failed && r.0.error == Some(error)
                    && r.1 == (Action::Halt { error }),
                _ => true,
            }),
            // the entry point is invoked only after the identity check
            // passed, was waived by the lenient policy, or was skipped
            // because a snapshot source has no live endpoint to compare to
            (r.1 matches Action::Invoke { .. } ==> (e matches Event::BaseReady { .. }
                && self.source is Snap) || (e matches Event::IdentityReady { expected, actual }
                && (spec_same_identity(expected, actual) || !self.strict))),
    {
        match e {
            Event::Start => {
                let state_version = self.state_version;
                let p = Pipeline { phase: Phase::AwaitBase, ..self };
                (p, Action::FetchBase { state_version })
            },
            Event::BaseReady { pairs } => {
                let Pipeline {
                    source,
                    injected,
                    strict,
                    state_version,
                    mode,
                    overlay: _,
                    report,
                    error,
                    ..
                } = self;
                let o = StateOverlay::build(pairs, injected);
                let live = source.is_live();
                let p = Pipeline {
                    source,
                    injected: Vec::new(),
                    strict,
                    state_version,
                    mode,
                    phase: if live {
                        Phase::AwaitIdentity
                    } else {
                        Phase::AwaitInvoke
                    },
                    overlay: Some(o),
                    report,
                    error,
                };
                if live {
                    (p, Action::QueryIdentity)
                } else {
                    (p, Action::Invoke { warn_mismatch: false, mode })
                }
            },
            Event::IdentityReady { expected, actual } => {
                match check(&expected, &actual, self.strict) {
                    Ok(outcome) => {
                        let warn = match outcome {
                            CheckOutcome::Match => false,
                            CheckOutcome::MismatchWarned => true,
                        };
                        let mode = self.mode;
                        let p = Pipeline { phase: Phase::AwaitInvoke, ..self };
                        (p, Action::Invoke { warn_mismatch: warn, mode })
                    },
                    Err(err) => {
                        let p = Pipeline { phase: Phase::Failed, error: Some(err), ..self };
                        (p, Action::Halt { error: err })
                    },
                }
            },
            Event::InvokeDone { raw } => {
                match decode_and_report(raw.as_slice()) {
                    Ok(rep) => {
                        let p = Pipeline { phase: Phase::Done, report: Some(rep), ..self };
                        (p, Action::Report { report: rep })
                    },
                    Err(err) => {
                        let p = Pipeline { phase: Phase::Failed, error: Some(err), ..self };
                        (p, Action::Halt { error: err })
                    },
                }
            },
            Event::BaseFailed { error } => {
                let p = Pipeline { phase: Phase::Failed, error: Some(error), ..self };
                (p, Action::Halt { error })
            },
            Event::IdentityFailed { error } => {
                let p = Pipeline { phase: Phase::Failed, error: Some(error), ..self };
                (p, Action::Halt { error })
            },
            Event::InvokeFailed { error } => {
                let p = Pipeline { phase: Phase::Failed, error: Some(error), ..self };
                (p, Action::Halt { error })
            },
        }
    }
}

/// A finished or failed machine is final: it accepts no further event, so
/// in particular no entry-point invocation can follow an aborted identity
/// check.
pub proof fn lemma_halted_is_final(p: Pipeline, e: Event)
    requires
        p.phase is Failed || p.phase is Done,
    ensures
        !p.accepts(e),
{
}

} // verus!
