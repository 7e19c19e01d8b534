//! The decisions of the interactive run, as a state machine.
//!
//! The program around this library does the outside work (asking the display
//! for its monitors, showing the file dialog, decoding, applying) and reports
//! how each step went as an event. The machine says what to do next and how
//! the run ends.

use vstd::prelude::*;

verus! {

/// Where a run stands.
#[derive(Clone, Copy, Debug, PartialEq, Eq, Structural)]
pub enum DriverState {
    Start,
    MonitorsEnumerated,
    FileSelected,
    ImageDecoded,
    Cropped,
    Applied,
    Done,
    NoMonitors,
    NoFileSelected,
    DecodeFailed,
    FitFailed,
    ApplyFailed,
}

/// How a step of outside work went.
#[derive(Clone, Copy, Debug, PartialEq, Eq, Structural)]
pub enum DriverEvent {
    /// The display reported this many monitors.
    MonitorsListed { count: usize },
    /// The file dialog was closed, with or without a choice.
    FilePicked { chosen: bool },
    /// The chosen file was read as a picture, or could not be.
    DecodeFinished { ok: bool },
    /// The picture was fitted over the desktop, or could not be.
    CropFinished { ok: bool },
    /// The picture was set as the background, or could not be.
    ApplyFinished { ok: bool },
    /// Nothing is left to do.
    Finished,
}

/// What the program does next.
#[derive(Clone, Copy, Debug, PartialEq, Eq, Structural)]
pub enum DriverAction {
    ListMonitors,
    PickFile,
    DecodeImage,
    FitAndCrop,
    ApplyWallpaper,
    Finish,
    Exit,
}

/// How a run ends.
#[derive(Clone, Copy, Debug, PartialEq, Eq, Structural)]
pub enum Outcome {
    /// The work was done, or there was nothing to do.
    Graceful,
    /// The work was attempted and failed.
    Failure,
}

/// The state that follows `state` on `event`. An event that the state does
/// not wait for changes nothing.
pub open spec fn next_state(state: DriverState, event: DriverEvent) -> DriverState {
    match (state, event) {
        (DriverState::Start, DriverEvent::MonitorsListed { count }) => if count == 0 {
            DriverState::NoMonitors
        } else {
            DriverState::MonitorsEnumerated
        },
        (DriverState::MonitorsEnumerated, DriverEvent::FilePicked { chosen }) => if chosen {
            DriverState::FileSelected
        } else {
            DriverState::NoFileSelected
        },
        (DriverState::FileSelected, DriverEvent::DecodeFinished { ok }) => if ok {
            DriverState::ImageDecoded
        } else {
            DriverState::DecodeFailed
        },
        (DriverState::ImageDecoded, DriverEvent::CropFinished { ok }) => if ok {
            DriverState::Cropped
        } else {
            DriverState::FitFailed
        },
        (DriverState::Cropped, DriverEvent::ApplyFinished { ok }) => if ok {
            DriverState::Applied
        } else {
            DriverState::ApplyFailed
        },
        (DriverState::Applied, DriverEvent::Finished) => DriverState::Done,
        _ => state,
    }
}

/// The work that a state asks for.
pub open spec fn action_of(state: DriverState) -> DriverAction {
    match state {
        DriverState::Start => DriverAction::ListMonitors,
        DriverState::MonitorsEnumerated => DriverAction::PickFile,
        DriverState::FileSelected => DriverAction::DecodeImage,
        DriverState::ImageDecoded => DriverAction::FitAndCrop,
        DriverState::Cropped => DriverAction::ApplyWallpaper,
        DriverState::Applied => DriverAction::Finish,
        _ => DriverAction::Exit,
    }
}

/// How the run ended, for a state in which it has ended.
pub open spec fn outcome_of(state: DriverState) -> Option<Outcome> {
    match state {
        DriverState::Done | DriverState::NoMonitors | DriverState::NoFileSelected => Some(
            Outcome::Graceful,
        ),
        DriverState::DecodeFailed | DriverState::FitFailed | DriverState::ApplyFailed => Some(
            Outcome::Failure,
        ),
        _ => None,
    }
}

/// The state that a run reaches from `state` on the events in their order.
pub open spec fn run(state: DriverState, events: Seq<DriverEvent>) -> DriverState
    decreases events.len(),
{
    if events.len() == 0 {
        state
    } else {
        run(next_state(state, events[0]), events.drop_first())
    }
}

/// The run has ended exactly in the states that ask for `Exit`, and an ended
/// run stays where it is whatever is reported to it.
pub proof fn lemma_ended_run_stays(state: DriverState, events: Seq<DriverEvent>)
    requires
        outcome_of(state) is Some,
    ensures
        action_of(state) == DriverAction::Exit,
        run(state, events) == state,
    decreases events.len(),
{
    if events.len() > 0 {
        lemma_ended_run_stays(state, events.drop_first());
    }
}

/// A state asks for the outside work or for `Exit`, never for both: the run
/// has ended if and only if the action is `Exit`.
pub proof fn lemma_exit_iff_ended(state: DriverState)
    ensures
        action_of(state) == DriverAction::Exit <==> outcome_of(state) is Some,
{
}

/// The picture is fitted only after it was decoded, and applied only after
/// it was fitted: the one step into each of the two states that ask for this
/// work is the success of the work before.
pub proof fn lemma_work_in_order(state: DriverState, event: DriverEvent)
    ensures
        action_of(state) == DriverAction::FitAndCrop <==> state == DriverState::ImageDecoded,
        action_of(state) == DriverAction::ApplyWallpaper <==> state == DriverState::Cropped,
        next_state(state, event) == DriverState::ImageDecoded && state != DriverState::ImageDecoded
            ==> state == DriverState::FileSelected && event == (DriverEvent::DecodeFinished {
            ok: true,
        }),
        next_state(state, event) == DriverState::Cropped && state != DriverState::Cropped ==> state
            == DriverState::ImageDecoded && event == (DriverEvent::CropFinished { ok: true }),
{
}

/// Without monitors the run ends at once and gracefully: whatever is
/// reported after an empty list of monitors, the run rests in `NoMonitors`,
/// which asks for neither fitting nor applying.
pub proof fn lemma_no_monitors_ends_run(rest: Seq<DriverEvent>)
    ensures
        run(DriverState::Start, seq![DriverEvent::MonitorsListed { count: 0 }] + rest)
            == DriverState::NoMonitors,
        outcome_of(DriverState::NoMonitors) == Some(Outcome::Graceful),
        action_of(DriverState::NoMonitors) == DriverAction::Exit,
{
    let events = seq![DriverEvent::MonitorsListed { count: 0 }] + rest;
    assert(events[0] == DriverEvent::MonitorsListed { count: 0 });
    assert(events.drop_first() =~= rest);
    lemma_ended_run_stays(DriverState::NoMonitors, rest);
}

/// Takes one step of the run.
pub fn advance(state: DriverState, event: DriverEvent) -> (next: DriverState)
    ensures
        next == next_state(state, event),
{
    match (state, event) {
        (DriverState::Start, DriverEvent::MonitorsListed { count }) => {
            if count == 0 {
                DriverState::NoMonitors
            } else {
                DriverState::MonitorsEnumerated
            }
        },
        (DriverState::MonitorsEnumerated, DriverEvent::FilePicked { chosen }) => {
            if chosen {
                DriverState::FileSelected
            } else {
                DriverState::NoFileSelected
            }
        },
        (DriverState::FileSelected, DriverEvent::DecodeFinished { ok }) => {
            if ok {
                DriverState::ImageDecoded
            } else {
                DriverState::DecodeFailed
            }
        },
        (DriverState::ImageDecoded, DriverEvent::CropFinished { ok }) => {
            if ok {
                DriverState::Cropped
            } else {
                DriverState::FitFailed
            }
        },
        (DriverState::Cropped, DriverEvent::ApplyFinished { ok }) => {
            if ok {
                DriverState::Applied
            } else {
                DriverState::ApplyFailed
            }
        },
        (DriverState::Applied, DriverEvent::Finished) => DriverState::Done,
        _ => state,
    }
}

/// Says what to do in a state.
pub fn next_action(state: DriverState) -> (action: DriverAction)
    ensures
        action == action_of(state),
{
    match state {
        DriverState::Start => DriverAction::ListMonitors,
        DriverState::MonitorsEnumerated => DriverAction::PickFile,
        DriverState::FileSelected => DriverAction::DecodeImage,
        DriverState::ImageDecoded => DriverAction::FitAndCrop,
        DriverState::Cropped => DriverAction::ApplyWallpaper,
        DriverState::Applied => DriverAction::Finish,
        _ => DriverAction::Exit,
    }
}

/// Says how the run ended, once it has.
pub fn outcome(state: DriverState) -> (ended: Option<Outcome>)
    ensures
        ended == outcome_of(state),
{
    match state {
        DriverState::Done | DriverState::NoMonitors | DriverState::NoFileSelected => Some(
            Outcome::Graceful,
        ),
        DriverState::DecodeFailed | DriverState::FitFailed | DriverState::ApplyFailed => Some(
            Outcome::Failure,
        ),
        _ => None,
    }
}

/// Takes the run from `state` through all the events, in their order.
pub fn run_events(state: DriverState, events: &[DriverEvent]) -> (reached: DriverState)
    ensures
        reached == run(state, events@),
{
    let mut current = state;
    let mut i: usize = 0;
    proof {
        assert(events@.skip(0) =~= events@);
    }
    while i < events.len()
        invariant
            i <= events.len(),
            run(current, events@.skip(i as int)) == run(state, events@),
        decreases events.len() - i,
    {
        proof {
            let rest = events@.skip(i as int);
            assert(rest[0] == events@[i as int]);
            assert(rest.drop_first() =~= events@.skip(i as int + 1));
        }
        current = advance(current, events[i]);
        i += 1;
    }
    current
}

/// The exit status of the process for an outcome: 0 for a graceful end, 1
/// for a failure.
pub fn exit_status(ended: Outcome) -> (status: u8)
    ensures
        status == 0 <==> ended == Outcome::Graceful,
        status == 1 <==> ended == Outcome::Failure,
{
    match ended {
        Outcome::Graceful => 0,
        Outcome::Failure => 1,
    }
}

} // verus!
