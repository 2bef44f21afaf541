//! Whole runs: what holds of the actions asked for along any sequence of
//! events, whatever the outside world answers.

use vstd::prelude::*;
use crate::coordinator::{next_step, EventView, StateView};

verus! {

/// The state reached from `state` after the events, in order.
pub open spec fn state_after(
    state: StateView,
    events: Seq<EventView>,
    destination: Seq<char>,
) -> StateView
    decreases events.len(),
{
    if events.len() == 0 {
        state
    } else {
        state_after(next_step(state, events[0], destination).0, events.drop_first(), destination)
    }
}

/// How often a download is asked for along the events, starting in `state`.
pub open spec fn downloads_asked(
    state: StateView,
    events: Seq<EventView>,
    destination: Seq<char>,
) -> nat
    decreases events.len(),
{
    if events.len() == 0 {
        0
    } else {
        let step = next_step(state, events[0], destination);
        let here: nat = if step.1 is Download {
            1
        } else {
            0
        };
        here + downloads_asked(step.0, events.drop_first(), destination)
    }
}

/// How often an extraction is asked for along the events, starting in `state`.
pub open spec fn extractions_asked(
    state: StateView,
    events: Seq<EventView>,
    destination: Seq<char>,
) -> nat
    decreases events.len(),
{
    if events.len() == 0 {
        0
    } else {
        let step = next_step(state, events[0], destination);
        let here: nat = if step.1 is Extract {
            1
        } else {
            0
        };
        here + extractions_asked(step.0, events.drop_first(), destination)
    }
}

/// Along any events the stage never falls.
pub proof fn lemma_stage_never_falls(
    state: StateView,
    events: Seq<EventView>,
    destination: Seq<char>,
)
    ensures
        state_after(state, events, destination).stage() >= state.stage(),
    decreases events.len(),
{
    if events.len() > 0 {
        lemma_stage_never_falls(
            next_step(state, events[0], destination).0,
            events.drop_first(),
            destination,
        );
    }
}

/// A run that has ended is where it ended after any further events.
pub proof fn lemma_ended_run_stays_ended(
    state: StateView,
    events: Seq<EventView>,
    destination: Seq<char>,
)
    requires
        state.is_terminal(),
    ensures
        state_after(state, events, destination) == state,
        downloads_asked(state, events, destination) == 0,
        extractions_asked(state, events, destination) == 0,
    decreases events.len(),
{
    if events.len() > 0 {
        lemma_ended_run_stays_ended(state, events.drop_first(), destination);
    }
}

/// Once the artifact has been resolved, no further download is asked for.
pub proof fn lemma_no_download_after_resolution(
    state: StateView,
    events: Seq<EventView>,
    destination: Seq<char>,
)
    requires
        state.stage() >= 3,
    ensures
        downloads_asked(state, events, destination) == 0,
    decreases events.len(),
{
    if events.len() > 0 {
        lemma_no_download_after_resolution(
            next_step(state, events[0], destination).0,
            events.drop_first(),
            destination,
        );
    }
}

/// Once the user has answered, no further extraction is asked for.
pub proof fn lemma_no_extraction_after_answer(
    state: StateView,
    events: Seq<EventView>,
    destination: Seq<char>,
)
    requires
        state.stage() >= 5,
    ensures
        extractions_asked(state, events, destination) == 0,
    decreases events.len(),
{
    if events.len() > 0 {
        lemma_no_extraction_after_answer(
            next_step(state, events[0], destination).0,
            events.drop_first(),
            destination,
        );
    }
}

/// A run works on one artifact: whatever happens, a download is asked for at
/// most once, and so is an extraction.
pub proof fn lemma_one_artifact_per_run(
    state: StateView,
    events: Seq<EventView>,
    destination: Seq<char>,
)
    ensures
        downloads_asked(state, events, destination) <= 1,
        extractions_asked(state, events, destination) <= 1,
    decreases events.len(),
{
    if events.len() > 0 {
        let step = next_step(state, events[0], destination);
        lemma_one_artifact_per_run(step.0, events.drop_first(), destination);
        if step.1 is Download {
            lemma_no_download_after_resolution(step.0, events.drop_first(), destination);
        }
        if step.1 is Extract {
            lemma_no_extraction_after_answer(step.0, events.drop_first(), destination);
        }
    }
}

/// Extraction comes after the download: in a run that starts before the
/// artifact is resolved, an extraction is asked for only if the download was.
pub proof fn lemma_extraction_follows_download(
    state: StateView,
    events: Seq<EventView>,
    destination: Seq<char>,
)
    requires
        state.stage() <= 2,
        extractions_asked(state, events, destination) > 0,
    ensures
        downloads_asked(state, events, destination) == 1,
    decreases events.len(),
{
    lemma_one_artifact_per_run(state, events, destination);
    if events.len() > 0 {
        let step = next_step(state, events[0], destination);
        if step.1 is Download {
        } else if step.0.is_terminal() {
            lemma_ended_run_stays_ended(step.0, events.drop_first(), destination);
        } else {
            lemma_extraction_follows_download(step.0, events.drop_first(), destination);
        }
    }
}

/// A run in which the user declines the destination never unpacks: from the
/// question on, a negative answer leads to no extraction, whatever follows.
pub proof fn lemma_declined_run_never_extracts(
    staged: Seq<char>,
    later: Seq<EventView>,
    destination: Seq<char>,
)
    ensures
        extractions_asked(
            StateView::ConfirmingDestination { staged },
            seq![EventView::DestinationConfirmed(false)] + later,
            destination,
        ) == 0,
{
    let events = seq![EventView::DestinationConfirmed(false)] + later;
    assert(events[0] == EventView::DestinationConfirmed(false));
    assert(events.drop_first() =~= later);
    lemma_no_extraction_after_answer(StateView::StagedOnly { staged }, later, destination);
}

} // verus!
