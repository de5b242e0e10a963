//! The state machine that drives one comparison run.
//!
//! The machine decides; its caller acts. In every state the machine names the
//! one action that is due. The caller carries it out and reports what
//! happened as an event, and the machine moves on. The run goes through both
//! rasterizations, the enumeration of both page directories, the pairing of
//! the pages, a confirmation where the page counts differ, and one comparison
//! per pair in the order of the left enumeration. It ends as done, as aborted
//! by the operator, or as failed at the first fault.

use crate::config::{clone_path, Config};
use crate::entry::{entry_views, pair_views, PageEntry, PageEntryView, PagePair, PagePairView, Side};
use crate::matcher::{
    count_mismatch, lemma_pairs_are_name_exact, match_pages, mismatch_of, pairing, MismatchReport,
};
use crate::outcome::{classify, outcome_of, ComparisonOutcome, DifferencerStatus, FUZZ_TOLERANCE};
use std::path::PathBuf;
use vstd::prelude::*;

verus! {

/// Where a run stands. A run rests in a stage until the action that is due
/// there has been reported; the enumeration, the pairing and the count check
/// are one step, so a run goes from `RightRasterized` straight to
/// `MismatchCheck`, `Comparing` or `Done`.
#[derive(Clone, Copy, Debug, PartialEq, Eq, Structural)]
pub enum Stage {
    /// Nothing has happened yet; the left document is to be rasterized.
    Init,
    /// The left document has been rasterized; the right one is due.
    LeftRasterized,
    /// Both documents have been rasterized; the page directories are to be
    /// enumerated.
    RightRasterized,
    /// The page counts differ and the operator has to decide.
    MismatchCheck,
    /// Pairs are being compared, one at a time.
    Comparing,
    /// Every pair has been compared without a hard failure.
    Done,
    /// The operator declined to go on after a count mismatch. Not a fault.
    Aborted,
    /// The run was ended by a fault.
    Failed,
}

impl Stage {
    /// Whether the run has ended.
    pub open spec fn is_terminal(self) -> bool {
        self == Stage::Done || self == Stage::Aborted || self == Stage::Failed
    }
}

/// What a fault was.
#[derive(Debug, PartialEq, Eq)]
pub enum FailureKind {
    /// An external tool could not be run, or the operator could not be asked.
    Transport,
    /// A page directory could not be listed in full.
    Enumeration,
    /// The comparison of one pair ended in a hard failure.
    HardComparison {
        /// Number of the pair, counted from 1 over the pairs compared.
        index: usize,
        /// File name of the pair.
        name: String,
        /// Exit code of the differencer, where it left one.
        exit_signal: Option<i32>,
    },
}

/// What a `FailureKind` stands for in contracts.
pub enum FailureKindView {
    Transport,
    Enumeration,
    HardComparison { index: nat, name: Seq<char>, exit_signal: Option<i32> },
}

impl View for FailureKind {
    type V = FailureKindView;

    open spec fn view(&self) -> FailureKindView {
        match *self {
            FailureKind::Transport => FailureKindView::Transport,
            FailureKind::Enumeration => FailureKindView::Enumeration,
            FailureKind::HardComparison { index, name, exit_signal } => {
                FailureKindView::HardComparison { index: index as nat, name: name@, exit_signal }
            },
        }
    }
}

/// The fault that ended a run: the stage it struck in, and what it was.
#[derive(Debug, PartialEq, Eq)]
pub struct Failure {
    pub stage: Stage,
    pub kind: FailureKind,
}

/// What a `Failure` stands for in contracts.
pub struct FailureView {
    pub stage: Stage,
    pub kind: FailureKindView,
}

impl View for Failure {
    type V = FailureView;

    open spec fn view(&self) -> FailureView {
        FailureView { stage: self.stage, kind: self.kind@ }
    }
}

/// What the caller reports back after carrying out an action.
#[derive(Debug, PartialEq, Eq)]
pub enum Event {
    /// The rasterizer ran, whatever exit status it left.
    Rasterized,
    /// Both page directories were listed in full.
    Enumerated { left: Vec<PageEntry>, right: Vec<PageEntry> },
    /// The operator answered the confirmation.
    Answered { proceed: bool },
    /// The differencer was invoked on the pair that was due.
    Compared { status: DifferencerStatus },
    /// The action could not be carried out.
    Fault,
}

/// What an `Event` stands for in contracts.
pub enum EventView {
    Rasterized,
    Enumerated { left: Seq<PageEntryView>, right: Seq<PageEntryView> },
    Answered { proceed: bool },
    Compared { status: DifferencerStatus },
    Fault,
}

impl View for Event {
    type V = EventView;

    open spec fn view(&self) -> EventView {
        match *self {
            Event::Rasterized => EventView::Rasterized,
            Event::Enumerated { left, right } => EventView::Enumerated {
                left: entry_views(left@),
                right: entry_views(right@),
            },
            Event::Answered { proceed } => EventView::Answered { proceed },
            Event::Compared { status } => EventView::Compared { status },
            Event::Fault => EventView::Fault,
        }
    }
}

/// What the caller is to do next.
#[derive(Debug, PartialEq, Eq)]
pub enum Action {
    /// Render the document `input` into page images under `output_dir`.
    Rasterize { side: Side, input: PathBuf, output_dir: PathBuf },
    /// List the page images of both sides.
    Enumerate { left_dir: PathBuf, right_dir: PathBuf },
    /// Ask the operator whether to go on although the page counts differ.
    Confirm { mismatch: MismatchReport },
    /// Compare the two pages of `pair` with tolerance `fuzz`, and write the
    /// difference image into `artifact_dir` under `artifact_name`, which is
    /// the file name of the pages. `index` numbers the comparisons from 1.
    Compare {
        index: usize,
        pair: PagePair,
        fuzz: u32,
        artifact_dir: PathBuf,
        artifact_name: String,
    },
    /// The run has ended; nothing is left to do.
    Stop,
}

/// What an `Action` stands for in contracts.
pub enum ActionView {
    Rasterize { side: Side, input: PathBuf, output_dir: PathBuf },
    Enumerate { left_dir: PathBuf, right_dir: PathBuf },
    Confirm { mismatch: MismatchReport },
    Compare {
        index: nat,
        pair: PagePairView,
        fuzz: u32,
        artifact_dir: PathBuf,
        artifact_name: Seq<char>,
    },
    Stop,
}

impl View for Action {
    type V = ActionView;

    open spec fn view(&self) -> ActionView {
        match *self {
            Action::Rasterize { side, input, output_dir } => ActionView::Rasterize {
                side,
                input,
                output_dir,
            },
            Action::Enumerate { left_dir, right_dir } => ActionView::Enumerate {
                left_dir,
                right_dir,
            },
            Action::Confirm { mismatch } => ActionView::Confirm { mismatch },
            Action::Compare {
                index,
                pair,
                fuzz,
                artifact_dir,
                artifact_name,
            } => ActionView::Compare {
                index: index as nat,
                pair: pair@,
                fuzz,
                artifact_dir,
                artifact_name: artifact_name@,
            },
            Action::Stop => ActionView::Stop,
        }
    }
}

/// The state of a run, as contracts see it.
pub struct RunState {
    /// Where the run stands.
    pub stage: Stage,
    /// The inputs and output locations of the run.
    pub config: Config,
    /// The pairs to compare, in the order of the left enumeration; empty
    /// before the enumeration.
    pub pairs: Seq<PagePairView>,
    /// The count discrepancy found by the enumeration, if any.
    pub mismatch: Option<MismatchReport>,
    /// Number of pairs compared so far without a hard failure.
    pub processed: nat,
    /// The fault that ended the run, if one did.
    pub failure: Option<FailureView>,
}

/// The state in which every run begins.
pub open spec fn initial_state(config: Config) -> RunState {
    RunState {
        stage: Stage::Init,
        config,
        pairs: Seq::empty(),
        mismatch: None,
        processed: 0,
        failure: None,
    }
}

/// Whether an event answers the action that is due in a stage. A run that has
/// ended accepts nothing.
pub open spec fn accepts(stage: Stage, event: EventView) -> bool {
    match stage {
        Stage::Init | Stage::LeftRasterized => event is Rasterized || event is Fault,
        Stage::RightRasterized => event is Enumerated || event is Fault,
        Stage::MismatchCheck => event is Answered || event is Fault,
        Stage::Comparing => event is Compared,
        Stage::Done | Stage::Aborted | Stage::Failed => false,
    }
}

/// The stage of a run that has `total` pairs and has compared `processed` of
/// them without a hard failure.
pub open spec fn comparing_or_done(processed: nat, total: nat) -> Stage {
    if processed < total {
        Stage::Comparing
    } else {
        Stage::Done
    }
}

/// The kind of fault that an action which could not be carried out amounts
/// to: a failed listing after both rasterizations, a transport fault
/// everywhere else.
pub open spec fn fault_kind(stage: Stage) -> FailureKindView {
    if stage == Stage::RightRasterized {
        FailureKindView::Enumeration
    } else {
        FailureKindView::Transport
    }
}

/// The state that follows `state` on `event`. An event that the stage does
/// not accept changes nothing.
pub open spec fn next_state(state: RunState, event: EventView) -> RunState {
    if !accepts(state.stage, event) {
        state
    } else {
        match event {
            EventView::Rasterized => RunState {
                stage: if state.stage == Stage::Init {
                    Stage::LeftRasterized
                } else {
                    Stage::RightRasterized
                },
                ..state
            },
            EventView::Enumerated { left, right } => {
                let pairs = pairing(left, right);
                let mismatch = mismatch_of(left.len(), right.len());
                RunState {
                    stage: if mismatch is Some {
                        Stage::MismatchCheck
                    } else {
                        comparing_or_done(0, pairs.len())
                    },
                    pairs,
                    mismatch,
                    ..state
                }
            },
            EventView::Answered { proceed } => RunState {
                stage: if proceed {
                    comparing_or_done(0, state.pairs.len())
                } else {
                    Stage::Aborted
                },
                ..state
            },
            EventView::Compared { status } => match outcome_of(status) {
                ComparisonOutcome::HardFailure { exit_signal } => RunState {
                    stage: Stage::Failed,
                    failure: Some(
                        FailureView {
                            stage: Stage::Comparing,
                            kind: FailureKindView::HardComparison {
                                index: state.processed + 1,
                                name: state.pairs[state.processed as int].name(),
                                exit_signal,
                            },
                        },
                    ),
                    ..state
                },
                _ => RunState {
                    stage: comparing_or_done(state.processed + 1, state.pairs.len()),
                    processed: state.processed + 1,
                    ..state
                },
            },
            EventView::Fault => RunState {
                stage: Stage::Failed,
                failure: Some(FailureView { stage: state.stage, kind: fault_kind(state.stage) }),
                ..state
            },
        }
    }
}

/// The comparison of the pair at position `k` of the pairs of a state: the
/// comparison number `k + 1`, with the fixed tolerance, whose difference
/// image goes into the difference directory under the name of the pages.
pub open spec fn comparison_of(state: RunState, k: int) -> ActionView {
    ActionView::Compare {
        index: (k + 1) as nat,
        pair: state.pairs[k],
        fuzz: FUZZ_TOLERANCE,
        artifact_dir: state.config.diff_dir,
        artifact_name: state.pairs[k].name(),
    }
}

/// The action that is due in a state.
pub open spec fn action_of(state: RunState) -> ActionView {
    match state.stage {
        Stage::Init => ActionView::Rasterize {
            side: Side::Left,
            input: state.config.left_file,
            output_dir: state.config.left_dir,
        },
        Stage::LeftRasterized => ActionView::Rasterize {
            side: Side::Right,
            input: state.config.right_file,
            output_dir: state.config.right_dir,
        },
        Stage::RightRasterized => ActionView::Enumerate {
            left_dir: state.config.left_dir,
            right_dir: state.config.right_dir,
        },
        Stage::MismatchCheck => ActionView::Confirm { mismatch: state.mismatch->0 },
        Stage::Comparing => comparison_of(state, state.processed as int),
        Stage::Done | Stage::Aborted | Stage::Failed => ActionView::Stop,
    }
}

/// What holds of every state that a run can reach.
pub open spec fn state_wf(state: RunState) -> bool {
    &&& forall|i: int| 0 <= i < state.pairs.len() ==> (#[trigger] state.pairs[i]).wf()
    &&& state.processed <= state.pairs.len()
    &&& match state.stage {
        Stage::Init | Stage::LeftRasterized | Stage::RightRasterized => {
            &&& state.pairs.len() == 0
            &&& state.mismatch is None
            &&& state.failure is None
        },
        Stage::MismatchCheck | Stage::Aborted => {
            &&& state.mismatch is Some
            &&& state.processed == 0
            &&& state.failure is None
        },
        Stage::Comparing => state.processed < state.pairs.len() && state.failure is None,
        Stage::Done => state.processed == state.pairs.len() && state.failure is None,
        Stage::Failed => {
            &&& state.failure is Some
            &&& state.failure->0.kind is HardComparison ==> {
                &&& state.failure->0.stage == Stage::Comparing
                &&& state.processed < state.pairs.len()
                &&& state.failure->0.kind->index == state.processed + 1
                &&& state.failure->0.kind->name == state.pairs[state.processed as int].name()
            }
        },
    }
}

impl Clone for FailureKind {
    fn clone(&self) -> (copy: FailureKind)
        ensures
            copy@ == self@,
    {
        match self {
            FailureKind::Transport => FailureKind::Transport,
            FailureKind::Enumeration => FailureKind::Enumeration,
            FailureKind::HardComparison { index, name, exit_signal } => {
                FailureKind::HardComparison {
                    index: *index,
                    name: name.clone(),
                    exit_signal: *exit_signal,
                }
            },
        }
    }
}

impl Clone for Failure {
    fn clone(&self) -> (copy: Failure)
        ensures
            copy@ == self@,
    {
        Failure { stage: self.stage, kind: self.kind.clone() }
    }
}

/// How a run ended.
#[derive(Clone, Copy, Debug, PartialEq, Eq, Structural)]
pub enum RunStatus {
    /// Every pair was compared without a hard failure.
    Done,
    /// The operator declined to go on after a count mismatch.
    Aborted,
    /// A fault ended the run.
    Failed,
}

/// The result of a run that has ended.
#[derive(Debug, PartialEq, Eq)]
pub struct RunReport {
    /// How the run ended.
    pub status: RunStatus,
    /// Number of pairs compared without a hard failure.
    pub processed: usize,
    /// The fault that ended the run, where one did.
    pub failure: Option<Failure>,
}

/// What a `RunReport` stands for in contracts.
pub struct RunReportView {
    pub status: RunStatus,
    pub processed: nat,
    pub failure: Option<FailureView>,
}

impl View for RunReport {
    type V = RunReportView;

    open spec fn view(&self) -> RunReportView {
        RunReportView {
            status: self.status,
            processed: self.processed as nat,
            failure: match self.failure {
                Some(failure) => Some(failure@),
                None => None,
            },
        }
    }
}

impl RunReportView {
    /// Whether the run counts as a success: it does unless it failed. A run
    /// that the operator aborted is a success.
    pub open spec fn is_success(self) -> bool {
        self.status != RunStatus::Failed
    }
}

impl RunReport {
    /// Whether the run counts as a success: it does unless it failed. A run
    /// that the operator aborted is a success.
    pub fn is_success(&self) -> (success: bool)
        ensures
            success == self@.is_success(),
    {
        match self.status {
            RunStatus::Failed => false,
            _ => true,
        }
    }
}

/// The report of a state: there is one exactly if the run has ended.
pub open spec fn report_of(state: RunState) -> Option<RunReportView> {
    match state.stage {
        Stage::Done => Some(
            RunReportView { status: RunStatus::Done, processed: state.processed, failure: None },
        ),
        Stage::Aborted => Some(
            RunReportView { status: RunStatus::Aborted, processed: state.processed, failure: None },
        ),
        Stage::Failed => Some(
            RunReportView {
                status: RunStatus::Failed,
                processed: state.processed,
                failure: state.failure,
            },
        ),
        _ => None,
    }
}

/// An event that the stage of the run does not accept.
#[derive(Clone, Copy, Debug, PartialEq, Eq, Structural)]
pub struct Rejected {
    /// The stage that the run was in, and still is.
    pub stage: Stage,
}

/// One comparison run: the state of the machine.
#[derive(Debug)]
pub struct Orchestrator {
    stage: Stage,
    config: Config,
    pairs: Vec<PagePair>,
    mismatch: Option<MismatchReport>,
    processed: usize,
    failure: Option<Failure>,
}

impl View for Orchestrator {
    type V = RunState;

    closed spec fn view(&self) -> RunState {
        RunState {
            stage: self.stage,
            config: self.config,
            pairs: pair_views(self.pairs@),
            mismatch: self.mismatch,
            processed: self.processed as nat,
            failure: match self.failure {
                Some(failure) => Some(failure@),
                None => None,
            },
        }
    }
}

impl Orchestrator {
    /// Whether the machine is in a state that a run can reach.
    pub open spec fn wf(&self) -> bool {
        state_wf(self@)
    }

    /// Starts a run.
    pub fn new(config: Config) -> (run: Orchestrator)
        ensures
            run.wf(),
            run@ == initial_state(config),
    {
        let run = Orchestrator {
            stage: Stage::Init,
            config,
            pairs: Vec::new(),
            mismatch: None,
            processed: 0,
            failure: None,
        };
        assert(run@.pairs =~= Seq::empty());
        run
    }

    /// Where the run stands.
    pub fn stage(&self) -> (stage: Stage)
        ensures
            stage == self@.stage,
    {
        self.stage
    }

    /// Number of pairs compared so far without a hard failure.
    pub fn processed(&self) -> (processed: usize)
        ensures
            processed == self@.processed,
    {
        self.processed
    }

    /// The action that is due.
    pub fn action(&self) -> (action: Action)
        requires
            self.wf(),
        ensures
            action@ == action_of(self@),
    {
        match self.stage {
            Stage::Init => Action::Rasterize {
                side: Side::Left,
                input: clone_path(&self.config.left_file),
                output_dir: clone_path(&self.config.left_dir),
            },
            Stage::LeftRasterized => Action::Rasterize {
                side: Side::Right,
                input: clone_path(&self.config.right_file),
                output_dir: clone_path(&self.config.right_dir),
            },
            Stage::RightRasterized => Action::Enumerate {
                left_dir: clone_path(&self.config.left_dir),
                right_dir: clone_path(&self.config.right_dir),
            },
            Stage::MismatchCheck => match self.mismatch {
                Some(mismatch) => Action::Confirm { mismatch },
                None => Action::Stop,
            },
            Stage::Comparing => {
                assert(self.processed < self.pairs.len());
                Action::Compare {
                    index: self.processed + 1,
                    pair: self.pairs[self.processed].clone(),
                    fuzz: FUZZ_TOLERANCE,
                    artifact_dir: clone_path(&self.config.diff_dir),
                    artifact_name: self.pairs[self.processed].name().clone(),
                }
            },
            Stage::Done | Stage::Aborted | Stage::Failed => Action::Stop,
        }
    }

    /// Takes in what the caller reports and names the action that is due
    /// next. An event that does not answer the action that was due is
    /// rejected and changes nothing.
    pub fn step(&mut self, event: Event) -> (result: Result<Action, Rejected>)
        requires
            old(self).wf(),
        ensures
            final(self).wf(),
            final(self)@ == next_state(old(self)@, event@),
            match result {
                Ok(action) => accepts(old(self)@.stage, event@) && action@ == action_of(
                    final(self)@,
                ),
                Err(rejected) => !accepts(old(self)@.stage, event@) && rejected.stage == old(
                    self,
                )@.stage,
            },
    {
        let stage = self.stage;
        match event {
            Event::Rasterized => match stage {
                Stage::Init => {
                    self.stage = Stage::LeftRasterized;
                },
                Stage::LeftRasterized => {
                    self.stage = Stage::RightRasterized;
                },
                _ => {
                    return Err(Rejected { stage });
                },
            },
            Event::Enumerated { left, right } => match stage {
                Stage::RightRasterized => {
                    let mismatch = count_mismatch(&left, &right);
                    let pairs = match_pages(&left, &right);
                    proof {
                        let found = pairing(entry_views(left@), entry_views(right@));
                        assert forall|i: int| 0 <= i < found.len() implies (#[trigger] found[i]).wf() by {
                            lemma_pairs_are_name_exact(entry_views(left@), entry_views(right@), i);
                        }
                    }
                    self.stage = if mismatch.is_some() {
                        Stage::MismatchCheck
                    } else if pairs.len() > 0 {
                        Stage::Comparing
                    } else {
                        Stage::Done
                    };
                    self.pairs = pairs;
                    self.mismatch = mismatch;
                },
                _ => {
                    return Err(Rejected { stage });
                },
            },
            Event::Answered { proceed } => match stage {
                Stage::MismatchCheck => {
                    self.stage = if !proceed {
                        Stage::Aborted
                    } else if self.pairs.len() > 0 {
                        Stage::Comparing
                    } else {
                        Stage::Done
                    };
                },
                _ => {
                    return Err(Rejected { stage });
                },
            },
            Event::Compared { status } => match stage {
                Stage::Comparing => {
                    assert(self.processed < self.pairs.len());
                    match classify(status) {
                        ComparisonOutcome::HardFailure { exit_signal } => {
                            let kind = FailureKind::HardComparison {
                                index: self.processed + 1,
                                name: self.pairs[self.processed].name().clone(),
                                exit_signal,
                            };
                            self.failure = Some(Failure { stage: Stage::Comparing, kind });
                            self.stage = Stage::Failed;
                        },
                        _ => {
                            self.processed = self.processed + 1;
                            self.stage = if self.processed < self.pairs.len() {
                                Stage::Comparing
                            } else {
                                Stage::Done
                            };
                        },
                    }
                },
                _ => {
                    return Err(Rejected { stage });
                },
            },
            Event::Fault => match stage {
                Stage::Init | Stage::LeftRasterized | Stage::MismatchCheck => {
                    self.failure = Some(Failure { stage, kind: FailureKind::Transport });
                    self.stage = Stage::Failed;
                },
                Stage::RightRasterized => {
                    self.failure = Some(Failure { stage, kind: FailureKind::Enumeration });
                    self.stage = Stage::Failed;
                },
                _ => {
                    return Err(Rejected { stage });
                },
            },
        }
        Ok(self.action())
    }

    /// The report of the run, once it has ended.
    pub fn report(&self) -> (report: Option<RunReport>)
        ensures
            report is Some <==> self@.stage.is_terminal(),
            match report {
                Some(report) => Some(report@) == report_of(self@),
                None => report_of(self@) is None,
            },
    {
        match self.stage {
            Stage::Done => Some(
                RunReport { status: RunStatus::Done, processed: self.processed, failure: None },
            ),
            Stage::Aborted => Some(
                RunReport { status: RunStatus::Aborted, processed: self.processed, failure: None },
            ),
            Stage::Failed => Some(
                RunReport {
                    status: RunStatus::Failed,
                    processed: self.processed,
                    failure: match &self.failure {
                        Some(failure) => Some(failure.clone()),
                        None => None,
                    },
                },
            ),
            _ => None,
        }
    }
}

} // verus!
