//! Whole runs of the machine: what a sequence of events leads to, and which
//! actions are named along the way.

use crate::config::Config;
use crate::entry::{PageEntryView, Side};
use crate::matcher::{
    has_name, lemma_full_pairing, lemma_pairs_are_name_exact, mismatch_of, pairing,
};
use crate::orchestrator::{
    accepts, action_of, comparing_or_done, comparison_of, initial_state, next_state, report_of,
    state_wf, ActionView, EventView, FailureKindView, FailureView, RunReportView, RunState,
    RunStatus, Stage,
};
use crate::outcome::{outcome_of, DifferencerStatus};
use vstd::prelude::*;

verus! {

/// The state that a run is in after a sequence of events.
pub open spec fn run(state: RunState, events: Seq<EventView>) -> RunState
    decreases events.len(),
{
    if events.len() == 0 {
        state
    } else {
        next_state(run(state, events.drop_last()), events.last())
    }
}

/// The actions that the machine names in answer to a sequence of events: one
/// for each event that it accepts, none for one that it rejects.
pub open spec fn emitted(state: RunState, events: Seq<EventView>) -> Seq<ActionView>
    decreases events.len(),
{
    if events.len() == 0 {
        Seq::empty()
    } else {
        let before = run(state, events.drop_last());
        let earlier = emitted(state, events.drop_last());
        if accepts(before.stage, events.last()) {
            earlier.push(action_of(next_state(before, events.last())))
        } else {
            earlier
        }
    }
}

/// The events that report the given differencer statuses, one comparison
/// each.
pub open spec fn compared(statuses: Seq<DifferencerStatus>) -> Seq<EventView> {
    Seq::new(statuses.len(), |i: int| EventView::Compared { status: statuses[i] })
}

/// Whether no status of the sequence is a hard failure.
pub open spec fn all_acceptable(statuses: Seq<DifferencerStatus>) -> bool {
    forall|i: int| 0 <= i < statuses.len() ==> !outcome_of(#[trigger] statuses[i]).is_hard()
}

/// The events that lead from the start of a run to the end of the
/// enumeration: both rasterizations and the two listings.
pub open spec fn opening(left: Seq<PageEntryView>, right: Seq<PageEntryView>) -> Seq<EventView> {
    seq![EventView::Rasterized, EventView::Rasterized, EventView::Enumerated { left, right }]
}

/// One more event takes the run one state further.
pub proof fn lemma_run_push(state: RunState, events: Seq<EventView>, event: EventView)
    ensures
        run(state, events.push(event)) == next_state(run(state, events), event),
        emitted(state, events.push(event)) == if accepts(run(state, events).stage, event) {
            emitted(state, events).push(action_of(next_state(run(state, events), event)))
        } else {
            emitted(state, events)
        },
{
    assert(events.push(event).drop_last() =~= events);
}

/// A run over two sequences of events in a row is the run over the second
/// from where the first one ended.
pub proof fn lemma_run_concat(state: RunState, first: Seq<EventView>, second: Seq<EventView>)
    ensures
        run(state, first + second) == run(run(state, first), second),
        emitted(state, first + second) == emitted(state, first) + emitted(
            run(state, first),
            second,
        ),
    decreases second.len(),
{
    if second.len() > 0 {
        let shorter = second.drop_last();
        lemma_run_concat(state, first, shorter);
        assert((first + second).drop_last() =~= first + shorter);
    }
}

/// Every event leads from a state that a run can reach to another such
/// state.
pub proof fn lemma_next_state_wf(state: RunState, event: EventView)
    requires
        state_wf(state),
    ensures
        state_wf(next_state(state, event)),
{
    if accepts(state.stage, event) {
        match event {
            EventView::Enumerated { left, right } => {
                let found = pairing(left, right);
                assert forall|i: int| 0 <= i < found.len() implies (#[trigger] found[i]).wf() by {
                    lemma_pairs_are_name_exact(left, right, i);
                }
            },
            _ => {},
        }
    }
}

/// Every run leads from a state that a run can reach to another such state.
pub proof fn lemma_run_wf(state: RunState, events: Seq<EventView>)
    requires
        state_wf(state),
    ensures
        state_wf(run(state, events)),
    decreases events.len(),
{
    if events.len() > 0 {
        lemma_run_wf(state, events.drop_last());
        lemma_next_state_wf(run(state, events.drop_last()), events.last());
    }
}

/// A run that has ended stays as it is: whatever is reported afterwards
/// changes nothing and is answered by no action.
pub proof fn lemma_ended_run_stays(state: RunState, events: Seq<EventView>)
    requires
        state.stage.is_terminal(),
    ensures
        run(state, events) == state,
        emitted(state, events) == Seq::<ActionView>::empty(),
    decreases events.len(),
{
    if events.len() > 0 {
        lemma_ended_run_stays(state, events.drop_last());
    }
}

/// The state of a run that is comparing and has come `processed` pairs far.
pub open spec fn advanced_to(state: RunState, processed: nat) -> RunState {
    RunState { stage: comparing_or_done(processed, state.pairs.len()), processed, ..state }
}

/// All the actions that are due in the course of a run: the one that is due
/// at its start, and those named in answer to the events.
pub open spec fn due(state: RunState, events: Seq<EventView>) -> Seq<ActionView> {
    seq![action_of(state)] + emitted(state, events)
}

/// Comparisons without a hard failure take the run through the pairs one by
/// one, in their order: each is answered by the comparison of the next pair,
/// and the last pair by the end of the run.
pub proof fn lemma_acceptable_comparisons(state: RunState, statuses: Seq<DifferencerStatus>)
    requires
        state_wf(state),
        state.stage == Stage::Comparing,
        all_acceptable(statuses),
        state.processed + statuses.len() <= state.pairs.len(),
    ensures
        run(state, compared(statuses)) == advanced_to(state, state.processed + statuses.len()),
        emitted(state, compared(statuses)).len() == statuses.len(),
        forall|i: int|
            0 <= i < statuses.len() ==> #[trigger] emitted(state, compared(statuses))[i]
                == action_of(advanced_to(state, (state.processed + i + 1) as nat)),
    decreases statuses.len(),
{
    if statuses.len() > 0 {
        let shorter = statuses.drop_last();
        assert(compared(statuses).drop_last() =~= compared(shorter));
        lemma_acceptable_comparisons(state, shorter);
    }
}

/// The first hard failure ends the run. The pairs before it count as
/// processed, the failure names the pair that it struck, and no pair after
/// that one is ever handed out for comparison, whatever is reported later.
pub proof fn lemma_first_hard_failure_ends_run(
    state: RunState,
    statuses: Seq<DifferencerStatus>,
    j: int,
)
    requires
        state_wf(state),
        state.stage == Stage::Comparing,
        0 <= j < statuses.len(),
        all_acceptable(statuses.take(j)),
        outcome_of(statuses[j]).is_hard(),
        state.processed + j < state.pairs.len(),
    ensures
        run(state, compared(statuses)) == (RunState {
            stage: Stage::Failed,
            processed: (state.processed + j) as nat,
            failure: Some(
                FailureView {
                    stage: Stage::Comparing,
                    kind: FailureKindView::HardComparison {
                        index: (state.processed + j + 1) as nat,
                        name: state.pairs[state.processed + j].name(),
                        exit_signal: outcome_of(statuses[j])->exit_signal,
                    },
                },
            ),
            ..state
        }),
        emitted(state, compared(statuses)).len() == j + 1,
        emitted(state, compared(statuses))[j] == ActionView::Stop,
        forall|i: int|
            0 <= i < j ==> #[trigger] emitted(state, compared(statuses))[i] == comparison_of(
                state,
                state.processed + i + 1,
            ),
{
    let clean = statuses.take(j);
    let rest = statuses.skip(j + 1);
    let failing = EventView::Compared { status: statuses[j] };
    let head = compared(clean).push(failing);
    assert(compared(statuses) =~= head + compared(rest));
    lemma_acceptable_comparisons(state, clean);
    lemma_run_push(state, compared(clean), failing);
    lemma_run_concat(state, head, compared(rest));
    lemma_ended_run_stays(run(state, head), compared(rest));
}

/// The state at the end of the enumeration: the pairs are those of the two
/// listings, and the run waits for the operator exactly if the page counts
/// differ.
pub open spec fn enumerated_state(
    config: Config,
    left: Seq<PageEntryView>,
    right: Seq<PageEntryView>,
) -> RunState {
    RunState {
        stage: if left.len() != right.len() {
            Stage::MismatchCheck
        } else {
            comparing_or_done(0, pairing(left, right).len())
        },
        config,
        pairs: pairing(left, right),
        mismatch: mismatch_of(left.len(), right.len()),
        processed: 0,
        failure: None,
    }
}

/// A run opens with the rasterization of the left document into the left
/// directory, then of the right document into the right directory, then the
/// enumeration of both directories; no comparison is due before all three
/// have been reported.
pub proof fn lemma_opening(config: Config, left: Seq<PageEntryView>, right: Seq<PageEntryView>)
    ensures
        state_wf(initial_state(config)),
        run(initial_state(config), opening(left, right)) == enumerated_state(config, left, right),
        state_wf(enumerated_state(config, left, right)),
        due(initial_state(config), opening(left, right)) == seq![
            ActionView::Rasterize {
                side: Side::Left,
                input: config.left_file,
                output_dir: config.left_dir,
            },
            ActionView::Rasterize {
                side: Side::Right,
                input: config.right_file,
                output_dir: config.right_dir,
            },
            ActionView::Enumerate { left_dir: config.left_dir, right_dir: config.right_dir },
            action_of(enumerated_state(config, left, right)),
        ],
{
    let start = initial_state(config);
    let none = Seq::<EventView>::empty();
    let listed = EventView::Enumerated { left, right };
    let one = none.push(EventView::Rasterized);
    let two = one.push(EventView::Rasterized);
    assert(opening(left, right) =~= two.push(listed));
    lemma_run_push(start, none, EventView::Rasterized);
    lemma_run_push(start, one, EventView::Rasterized);
    lemma_run_push(start, two, listed);
    lemma_run_wf(start, opening(left, right));
    assert(due(start, opening(left, right)) =~= seq![
        ActionView::Rasterize {
            side: Side::Left,
            input: config.left_file,
            output_dir: config.left_dir,
        },
        ActionView::Rasterize {
            side: Side::Right,
            input: config.right_file,
            output_dir: config.right_dir,
        },
        ActionView::Enumerate { left_dir: config.left_dir, right_dir: config.right_dir },
        action_of(enumerated_state(config, left, right)),
    ]);
}

/// The events that lead from the start of a run to its first comparison:
/// the opening, and the operator's consent where the page counts differ.
pub open spec fn admitted(left: Seq<PageEntryView>, right: Seq<PageEntryView>) -> Seq<EventView> {
    if left.len() != right.len() {
        opening(left, right).push(EventView::Answered { proceed: true })
    } else {
        opening(left, right)
    }
}

/// Whether an action asks for a comparison.
pub open spec fn is_comparison(action: ActionView) -> bool {
    action is Compare
}

/// Once the run is admitted to the comparisons, with equal page counts or
/// with the operator's consent, the pairs of the two listings are due for
/// comparison from the first on, and no comparison was due before.
pub proof fn lemma_admitted(config: Config, left: Seq<PageEntryView>, right: Seq<PageEntryView>)
    ensures
        run(initial_state(config), admitted(left, right)) == advanced_to(
            enumerated_state(config, left, right),
            0,
        ),
        state_wf(run(initial_state(config), admitted(left, right))),
        due(initial_state(config), admitted(left, right)).len() == admitted(left, right).len() + 1,
        due(initial_state(config), admitted(left, right)).last() == action_of(
            advanced_to(enumerated_state(config, left, right), 0),
        ),
        forall|i: int|
            0 <= i < admitted(left, right).len() ==> !is_comparison(
                #[trigger] due(initial_state(config), admitted(left, right))[i],
            ),
{
    let start = initial_state(config);
    lemma_opening(config, left, right);
    lemma_run_wf(start, admitted(left, right));
    if left.len() != right.len() {
        lemma_run_push(start, opening(left, right), EventView::Answered { proceed: true });
        assert(due(start, admitted(left, right)) =~= due(start, opening(left, right)).push(
            action_of(advanced_to(enumerated_state(config, left, right), 0)),
        ));
    }
}

/// A run whose comparisons all end without a hard failure compares the pairs
/// of the two listings one after the other, in the order of the left
/// enumeration: after `k` comparisons the pair at position `k` is due, and
/// after the last one the run is done.
pub proof fn lemma_comparisons_follow_pairing(
    config: Config,
    left: Seq<PageEntryView>,
    right: Seq<PageEntryView>,
    statuses: Seq<DifferencerStatus>,
)
    requires
        all_acceptable(statuses),
        statuses.len() <= pairing(left, right).len(),
    ensures
        ({
            let events = admitted(left, right) + compared(statuses);
            let end = run(initial_state(config), events);
            &&& end.pairs == pairing(left, right)
            &&& end.processed == statuses.len()
            &&& end.failure is None
            &&& end.stage == comparing_or_done(statuses.len(), pairing(left, right).len())
            &&& due(initial_state(config), events).last() == action_of(end)
            &&& statuses.len() < pairing(left, right).len() ==> action_of(end) == comparison_of(
                end,
                statuses.len() as int,
            )
        }),
{
    let start = initial_state(config);
    let first = admitted(left, right);
    lemma_admitted(config, left, right);
    lemma_run_concat(start, first, compared(statuses));
    let ready = run(start, first);
    if ready.stage == Stage::Comparing {
        lemma_acceptable_comparisons(ready, statuses);
        if statuses.len() > 0 {
            assert(emitted(ready, compared(statuses))[statuses.len() - 1] == action_of(
                advanced_to(ready, statuses.len()),
            ));
        }
    }
}

/// Where both sides have the same number of pages, every left name occurs on
/// the right, and no comparison ends in a hard failure, the run ends as done,
/// with as many pairs processed as there are pages, and without a failure.
pub proof fn lemma_clean_run_is_done(
    config: Config,
    left: Seq<PageEntryView>,
    right: Seq<PageEntryView>,
    statuses: Seq<DifferencerStatus>,
)
    requires
        left.len() == right.len(),
        forall|k: int| 0 <= k < left.len() ==> has_name(right, #[trigger] left[k].name),
        statuses.len() == left.len(),
        all_acceptable(statuses),
    ensures
        report_of(run(initial_state(config), opening(left, right) + compared(statuses))) == Some(
            RunReportView { status: RunStatus::Done, processed: left.len(), failure: None },
        ),
{
    lemma_full_pairing(left, right);
    lemma_comparisons_follow_pairing(config, left, right, statuses);
}

/// Where the page counts differ and the operator declines, the run ends as
/// aborted, which counts as a success. The operator was asked with both
/// counts, and no comparison is due at any point of the run, whatever is
/// reported after the refusal.
pub proof fn lemma_declined_run_is_aborted(
    config: Config,
    left: Seq<PageEntryView>,
    right: Seq<PageEntryView>,
    later: Seq<EventView>,
)
    requires
        left.len() != right.len(),
    ensures
        ({
            let refusal = EventView::Answered { proceed: false };
            let events = opening(left, right).push(refusal) + later;
            let end = run(initial_state(config), events);
            &&& due(initial_state(config), opening(left, right)).last() == (ActionView::Confirm {
                mismatch: mismatch_of(left.len(), right.len())->0,
            })
            &&& report_of(end) == Some(
                RunReportView { status: RunStatus::Aborted, processed: 0, failure: None },
            )
            &&& report_of(end)->0.is_success()
            &&& forall|i: int|
                0 <= i < due(initial_state(config), events).len() ==> !is_comparison(
                    #[trigger] due(initial_state(config), events)[i],
                )
        }),
{
    let start = initial_state(config);
    let refusal = EventView::Answered { proceed: false };
    let head = opening(left, right).push(refusal);
    lemma_opening(config, left, right);
    lemma_run_push(start, opening(left, right), refusal);
    lemma_run_concat(start, head, later);
    lemma_ended_run_stays(run(start, head), later);
}

/// The first hard failure ends the whole run as failed. The report counts
/// the pairs before the failing one as processed and names the failing pair
/// by its number and file name. Comparisons were due for the pairs up to the
/// failing one and for no pair after it.
pub proof fn lemma_run_fails_at_first_hard_failure(
    config: Config,
    left: Seq<PageEntryView>,
    right: Seq<PageEntryView>,
    statuses: Seq<DifferencerStatus>,
    j: int,
)
    requires
        0 <= j < statuses.len(),
        j < pairing(left, right).len(),
        all_acceptable(statuses.take(j)),
        outcome_of(statuses[j]).is_hard(),
    ensures
        ({
            let events = admitted(left, right) + compared(statuses);
            let end = run(initial_state(config), events);
            let actions = due(initial_state(config), events);
            &&& report_of(end) == Some(
                RunReportView {
                    status: RunStatus::Failed,
                    processed: j as nat,
                    failure: Some(
                        FailureView {
                            stage: Stage::Comparing,
                            kind: FailureKindView::HardComparison {
                                index: (j + 1) as nat,
                                name: pairing(left, right)[j].name(),
                                exit_signal: outcome_of(statuses[j])->exit_signal,
                            },
                        },
                    ),
                },
            )
            &&& !report_of(end)->0.is_success()
            &&& actions.len() == admitted(left, right).len() + j + 2
            &&& actions.last() == ActionView::Stop
            &&& forall|i: int|
                0 <= i < actions.len() ==> (is_comparison(#[trigger] actions[i]) <==> admitted(
                    left,
                    right,
                ).len() <= i <= admitted(left, right).len() + j)
            &&& forall|k: int|
                0 <= k <= j ==> #[trigger] actions[admitted(left, right).len() + k]
                    == comparison_of(end, k)
        }),
{
    let start = initial_state(config);
    let first = admitted(left, right);
    let events = first + compared(statuses);
    lemma_admitted(config, left, right);
    lemma_run_concat(start, first, compared(statuses));
    let ready = run(start, first);
    lemma_first_hard_failure_ends_run(ready, statuses, j);
    let actions = due(start, events);
    assert forall|i: int| 0 <= i < first.len() implies !is_comparison(#[trigger] actions[i]) by {
        assert(actions[i] == due(start, first)[i]);
    }
}

} // verus!
