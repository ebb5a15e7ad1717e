//! The load state that a decoding worker publishes.
//!
//! The worker owns the state and moves it; the drawing thread only reads it,
//! once per frame.  The state moves forward through spawning, opening and
//! reading to complete, or from any of the first three to error.  Complete
//! and error are final.

use vstd::prelude::*;

verus! {

/// How far the worker has come.
#[derive(Clone, Copy, Debug, PartialEq, Eq, Structural)]
pub enum LoadState {
    Spawning,
    Opening,
    Reading,
    Complete,
    Error,
}

/// What the worker reports.
#[derive(Clone, Copy, Debug, PartialEq, Eq, Structural)]
pub enum LoadEvent {
    /// The worker runs and turns to the file.
    Started,
    /// The file is open and buffers are being read.
    Opened,
    /// The end marker was read.
    Finished,
    /// The worker failed.
    Failed,
}

/// Complete and error are final.
pub open spec fn is_final(state: LoadState) -> bool {
    state == LoadState::Complete || state == LoadState::Error
}

/// How far along a state is.  Complete and error both stand at the end.
pub open spec fn progress(state: LoadState) -> int {
    match state {
        LoadState::Spawning => 0,
        LoadState::Opening => 1,
        LoadState::Reading => 2,
        LoadState::Complete => 3,
        LoadState::Error => 3,
    }
}

/// The one-step moves: each stage to the next, and any stage that is not
/// final to error.
pub open spec fn moves_to(from: LoadState, to: LoadState) -> bool {
    ||| from == LoadState::Spawning && to == LoadState::Opening
    ||| from == LoadState::Opening && to == LoadState::Reading
    ||| from == LoadState::Reading && to == LoadState::Complete
    ||| !is_final(from) && to == LoadState::Error
}

/// The state after an event.  An event that does not belong to the state it
/// meets changes nothing.
pub open spec fn after(state: LoadState, event: LoadEvent) -> LoadState {
    match (state, event) {
        (LoadState::Spawning, LoadEvent::Started) => LoadState::Opening,
        (LoadState::Opening, LoadEvent::Opened) => LoadState::Reading,
        (LoadState::Reading, LoadEvent::Finished) => LoadState::Complete,
        (LoadState::Spawning, LoadEvent::Failed) => LoadState::Error,
        (LoadState::Opening, LoadEvent::Failed) => LoadState::Error,
        (LoadState::Reading, LoadEvent::Failed) => LoadState::Error,
        _ => state,
    }
}

/// The state after a run of events, the first event first.
pub open spec fn after_all(state: LoadState, events: Seq<LoadEvent>) -> LoadState
    decreases events.len(),
{
    if events.len() == 0 {
        state
    } else {
        after(after_all(state, events.drop_last()), events.last())
    }
}

impl LoadState {
    /// The state in which a worker starts.
    pub fn new() -> (r: LoadState)
        ensures
            r == LoadState::Spawning,
    {
        LoadState::Spawning
    }

    pub fn is_terminal(self) -> (r: bool)
        ensures
            r == is_final(self),
    {
        match self {
            LoadState::Complete => true,
            LoadState::Error => true,
            _ => false,
        }
    }

    /// The state after `event`.
    pub fn advance(self, event: LoadEvent) -> (r: LoadState)
        ensures
            r == after(self, event),
            r == self || moves_to(self, r),
            is_final(self) ==> r == self,
    {
        match self {
            LoadState::Spawning => match event {
                LoadEvent::Started => LoadState::Opening,
                LoadEvent::Failed => LoadState::Error,
                _ => self,
            },
            LoadState::Opening => match event {
                LoadEvent::Opened => LoadState::Reading,
                LoadEvent::Failed => LoadState::Error,
                _ => self,
            },
            LoadState::Reading => match event {
                LoadEvent::Finished => LoadState::Complete,
                LoadEvent::Failed => LoadState::Error,
                _ => self,
            },
            LoadState::Complete => self,
            LoadState::Error => self,
        }
    }
}

/// An event leaves the state where it is or moves it one step: to the next
/// stage or to error.  It never moves it back, and it never moves a final
/// state.
pub proof fn lemma_state_moves_forward_only(state: LoadState, event: LoadEvent)
    ensures
        after(state, event) == state || moves_to(state, after(state, event)),
        progress(state) <= progress(after(state, event)),
        is_final(state) ==> after(state, event) == state,
        moves_to(state, after(state, event)) ==> progress(state) < progress(after(state, event))
            || after(state, event) == LoadState::Error,
{
}

/// Whatever events arrive, in whatever order, the state never goes back,
/// and a final state stays what it is.
pub proof fn lemma_no_run_of_events_goes_back(state: LoadState, events: Seq<LoadEvent>)
    ensures
        progress(state) <= progress(after_all(state, events)),
        is_final(state) ==> after_all(state, events) == state,
    decreases events.len(),
{
    if events.len() > 0 {
        lemma_no_run_of_events_goes_back(state, events.drop_last());
    }
}

/// Complete is reached through opening and reading only, one after the
/// other: from spawning no single event, and no two, reach it.
pub proof fn lemma_no_stage_is_skipped(state: LoadState, to: LoadState)
    requires
        moves_to(state, to),
        to != LoadState::Error,
    ensures
        progress(to) == progress(state) + 1,
{
}

} // verus!
