//! What holds of the loader over whole runs of answers.

use vstd::prelude::*;
use crate::loader::{LoadEvent, LoadState, LoadStep};
use crate::pages::{lemma_extent_wf, ImageExtent};

verus! {

/// Whether `event` is the good answer to the step at place `i`.
pub open spec fn answers(i: int, event: LoadEvent) -> bool {
    if i == 6 {
        event matches LoadEvent::Length(length) && ImageExtent::fits(length as nat)
    } else {
        event == LoadEvent::Done
    }
}

/// Whether the first `n` of `events` are good answers, each to the step at
/// its place.
pub open spec fn all_answered(events: Seq<LoadEvent>, n: int) -> bool {
    forall|i: int| 0 <= i < n ==> answers(i, #[trigger] events[i])
}

/// The room for the image whose length the answers report.
pub open spec fn reported_extent(events: Seq<LoadEvent>) -> ImageExtent {
    ImageExtent::of(events[6]->Length_0 as nat)
}

/// What a run from the start has seen, by the state that it ends in.
pub open spec fn accounts_for(state: LoadState, events: Seq<LoadEvent>) -> bool {
    match state {
        LoadState::Pending(step) => {
            &&& events.len() == step.index()
            &&& all_answered(events, events.len() as int)
            &&& step matches LoadStep::Allocate(extent) ==> extent == reported_extent(events)
            &&& step matches LoadStep::Read(extent) ==> extent == reported_extent(events)
        },
        LoadState::Loaded(extent) => {
            &&& events.len() >= 9
            &&& all_answered(events, 9)
            &&& extent == reported_extent(events)
        },
        LoadState::Absent => {
            &&& events.len() >= 6
            &&& all_answered(events, 5)
            &&& events[5] != LoadEvent::Done
        },
        LoadState::Failed(_) => exists|i: int|
            0 <= i < events.len() && i < 9 && i != 5 && all_answered(events, i) && !answers(
                i,
                #[trigger] events[i],
            ),
    }
}

/// A run ends in the state that accounts for its answers.
pub proof fn lemma_run_accounts(events: Seq<LoadEvent>)
    ensures
        accounts_for(LoadState::start().run(events), events),
    decreases events.len(),
{
    if events.len() > 0 {
        let front = events.drop_last();
        let last = events.last();
        let before = LoadState::start().run(front);
        lemma_run_accounts(front);
        assert(forall|i: int| 0 <= i < front.len() ==> front[i] == events[i]);
        match before {
            LoadState::Pending(step) => {
                let n = front.len() as int;
                assert(events[n] == last);
                assert(all_answered(events, n));
                if before.after(last) is Failed {
                    assert(!answers(n, events[n]));
                }
            },
            LoadState::Failed(_) => {
                let i = choose|i: int|
                    0 <= i < front.len() && i < 9 && i != 5 && all_answered(front, i) && !answers(
                        i,
                        #[trigger] front[i],
                    );
                assert(all_answered(events, i));
                assert(!answers(i, events[i]));
            },
            _ => {},
        }
    }
}

/// The file is found absent exactly when the five steps before its opening
/// were taken and the opening was not. No other failure ends a run so.
pub proof fn lemma_absent_iff(events: Seq<LoadEvent>)
    ensures
        LoadState::start().run(events) == LoadState::Absent <==> events.len() >= 6
            && all_answered(events, 5) && events[5] != LoadEvent::Done,
{
    lemma_run_accounts(events);
    if events.len() >= 6 && all_answered(events, 5) && events[5] != LoadEvent::Done {
        assert(!answers(5, events[5]));
    }
}

/// The image is loaded exactly when each of the nine steps got its good
/// answer, and it then has the room that the reported length calls for.
pub proof fn lemma_loaded_iff(events: Seq<LoadEvent>)
    ensures
        LoadState::start().run(events) is Loaded <==> events.len() >= 9 && all_answered(events, 9),
        LoadState::start().run(events) matches LoadState::Loaded(extent) ==> extent
            == reported_extent(events) && extent.wf(),
{
    lemma_run_accounts(events);
    if events.len() >= 9 && all_answered(events, 9) {
        assert(answers(5, events[5]));
    }
    if LoadState::start().run(events) is Loaded {
        assert(answers(6, events[6]));
        lemma_extent_wf(events[6]->Length_0 as nat);
    }
}

/// Nine answers end every run.
pub proof fn lemma_run_ends(events: Seq<LoadEvent>)
    requires
        events.len() >= 9,
    ensures
        !(LoadState::start().run(events) is Pending),
{
    lemma_run_accounts(events);
}

/// No answer takes a well-formed loading to one that is not.
pub proof fn lemma_after_keeps_wf(state: LoadState, event: LoadEvent)
    requires
        state.wf(),
    ensures
        state.after(event).wf(),
{
    if let LoadEvent::Length(length) = event {
        if ImageExtent::fits(length as nat) {
            lemma_extent_wf(length as nat);
        }
    }
}

} // verus!
