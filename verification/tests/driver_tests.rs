use wallspan::apply::{check_status, nul_terminated, step_result, ApplyError, ApplyStep};
use wallspan::report::{decode_failure_message, exit_message};
use wallspan::driver::{
    advance, exit_status, next_action, outcome, run_events, DriverAction, DriverEvent,
    DriverState, Outcome,
};

fn actions_along(events: &[DriverEvent]) -> Vec<DriverAction> {
    let mut state = DriverState::Start;
    let mut actions = vec![next_action(state)];
    for event in events {
        state = advance(state, *event);
        actions.push(next_action(state));
    }
    actions
}

#[test]
fn full_run_reaches_done() {
    let events = [
        DriverEvent::MonitorsListed { count: 2 },
        DriverEvent::FilePicked { chosen: true },
        DriverEvent::DecodeFinished { ok: true },
        DriverEvent::CropFinished { ok: true },
        DriverEvent::ApplyFinished { ok: true },
        DriverEvent::Finished,
    ];
    assert_eq!(
        actions_along(&events),
        vec![
            DriverAction::ListMonitors,
            DriverAction::PickFile,
            DriverAction::DecodeImage,
            DriverAction::FitAndCrop,
            DriverAction::ApplyWallpaper,
            DriverAction::Finish,
            DriverAction::Exit,
        ]
    );
    let end = run_events(DriverState::Start, &events);
    assert_eq!(end, DriverState::Done);
    assert_eq!(outcome(end), Some(Outcome::Graceful));
}

#[test]
fn states_follow_one_another() {
    let mut state = DriverState::Start;
    assert_eq!(outcome(state), None);
    state = advance(state, DriverEvent::MonitorsListed { count: 1 });
    assert_eq!(state, DriverState::MonitorsEnumerated);
    state = advance(state, DriverEvent::FilePicked { chosen: true });
    assert_eq!(state, DriverState::FileSelected);
    state = advance(state, DriverEvent::DecodeFinished { ok: true });
    assert_eq!(state, DriverState::ImageDecoded);
    state = advance(state, DriverEvent::CropFinished { ok: true });
    assert_eq!(state, DriverState::Cropped);
    state = advance(state, DriverEvent::ApplyFinished { ok: true });
    assert_eq!(state, DriverState::Applied);
    assert_eq!(outcome(state), None);
    state = advance(state, DriverEvent::Finished);
    assert_eq!(state, DriverState::Done);
}

#[test]
fn zero_monitors_exit_gracefully_without_work() {
    let events = [DriverEvent::MonitorsListed { count: 0 }];
    let actions = actions_along(&events);
    assert_eq!(actions, vec![DriverAction::ListMonitors, DriverAction::Exit]);
    assert!(!actions.contains(&DriverAction::FitAndCrop));
    assert!(!actions.contains(&DriverAction::ApplyWallpaper));
    let end = run_events(DriverState::Start, &events);
    assert_eq!(end, DriverState::NoMonitors);
    assert_eq!(outcome(end), Some(Outcome::Graceful));
    assert_eq!(exit_status(Outcome::Graceful), 0);
}

#[test]
fn cancelled_dialog_exits_gracefully() {
    let events = [DriverEvent::MonitorsListed { count: 3 }, DriverEvent::FilePicked { chosen: false }];
    let end = run_events(DriverState::Start, &events);
    assert_eq!(end, DriverState::NoFileSelected);
    assert_eq!(outcome(end), Some(Outcome::Graceful));
    assert_eq!(next_action(end), DriverAction::Exit);
}

#[test]
fn undecodable_file_fails_before_any_apply() {
    let events = [
        DriverEvent::MonitorsListed { count: 1 },
        DriverEvent::FilePicked { chosen: true },
        DriverEvent::DecodeFinished { ok: false },
    ];
    let actions = actions_along(&events);
    assert!(!actions.contains(&DriverAction::FitAndCrop));
    assert!(!actions.contains(&DriverAction::ApplyWallpaper));
    let end = run_events(DriverState::Start, &events);
    assert_eq!(end, DriverState::DecodeFailed);
    assert_eq!(outcome(end), Some(Outcome::Failure));
    assert_eq!(exit_status(Outcome::Failure), 1);
}

#[test]
fn failed_fit_and_failed_apply_are_failures() {
    let mut events = vec![
        DriverEvent::MonitorsListed { count: 1 },
        DriverEvent::FilePicked { chosen: true },
        DriverEvent::DecodeFinished { ok: true },
        DriverEvent::CropFinished { ok: false },
    ];
    let end = run_events(DriverState::Start, &events);
    assert_eq!(end, DriverState::FitFailed);
    assert_eq!(outcome(end), Some(Outcome::Failure));
    assert!(!actions_along(&events).contains(&DriverAction::ApplyWallpaper));

    events[3] = DriverEvent::CropFinished { ok: true };
    events.push(DriverEvent::ApplyFinished { ok: false });
    let end = run_events(DriverState::Start, &events);
    assert_eq!(end, DriverState::ApplyFailed);
    assert_eq!(outcome(end), Some(Outcome::Failure));
    assert_eq!(next_action(end), DriverAction::Exit);
}

#[test]
fn ended_run_ignores_further_events() {
    let ended = [
        DriverState::Done,
        DriverState::NoMonitors,
        DriverState::NoFileSelected,
        DriverState::DecodeFailed,
        DriverState::FitFailed,
        DriverState::ApplyFailed,
    ];
    let events = [
        DriverEvent::MonitorsListed { count: 0 },
        DriverEvent::MonitorsListed { count: 4 },
        DriverEvent::FilePicked { chosen: true },
        DriverEvent::FilePicked { chosen: false },
        DriverEvent::DecodeFinished { ok: true },
        DriverEvent::CropFinished { ok: true },
        DriverEvent::ApplyFinished { ok: true },
        DriverEvent::Finished,
    ];
    for state in ended {
        assert_eq!(next_action(state), DriverAction::Exit);
        for event in events {
            assert_eq!(advance(state, event), state);
        }
        assert_eq!(run_events(state, &events), state);
    }
}

#[test]
fn unexpected_event_changes_nothing() {
    assert_eq!(advance(DriverState::Start, DriverEvent::ApplyFinished { ok: true }), DriverState::Start);
    assert_eq!(advance(DriverState::FileSelected, DriverEvent::CropFinished { ok: true }), DriverState::FileSelected);
    assert_eq!(advance(DriverState::Cropped, DriverEvent::Finished), DriverState::Cropped);
    assert_eq!(run_events(DriverState::ImageDecoded, &[]), DriverState::ImageDecoded);
}

#[test]
fn refused_background_is_an_error() {
    assert_eq!(check_status(0), Err(ApplyError::Rejected));
    assert_eq!(check_status(1), Ok(()));
    assert_eq!(check_status(-1), Ok(()));
}

#[test]
fn each_failed_step_has_its_error() {
    assert_eq!(step_result(ApplyStep::WriteFile, false), Err(ApplyError::Serialize));
    assert_eq!(step_result(ApplyStep::WriteSettings, false), Err(ApplyError::Settings));
    assert_eq!(step_result(ApplyStep::SetBackground, false), Err(ApplyError::Rejected));
    assert_eq!(step_result(ApplyStep::WriteFile, true), Ok(()));
    assert_eq!(step_result(ApplyStep::WriteSettings, true), Ok(()));
    assert_eq!(step_result(ApplyStep::SetBackground, true), Ok(()));
}

#[test]
fn wide_string_ends_with_zero() {
    assert_eq!(nul_terminated(vec![]), vec![0]);
    assert_eq!(nul_terminated(vec![67, 58, 92, 119]), vec![67, 58, 92, 119, 0]);
}

#[test]
fn decode_failure_names_the_file() {
    let msg = decode_failure_message("C:\\Users\\me\\notes.txt", "Unsupported(format)");
    assert_eq!(
        msg,
        "Failed to open 'C:\\Users\\me\\notes.txt': Unsupported(format)\nPlease select a valid PNG/JPG/BMP file."
    );
    assert!(msg.contains("C:\\Users\\me\\notes.txt"));
    assert!(msg.contains("Unsupported(format)"));
    assert_ne!(msg, "C:\\Users\\me\\notes.txt");
}

#[test]
fn decode_failure_with_empty_parts() {
    assert_eq!(
        decode_failure_message("", ""),
        "Failed to open '': \nPlease select a valid PNG/JPG/BMP file."
    );
}

#[test]
fn early_exits_have_a_message() {
    assert_eq!(exit_message(DriverState::NoMonitors), Some("No monitors found. Exiting program."));
    assert_eq!(
        exit_message(DriverState::NoFileSelected),
        Some("No image file selected. Exiting program.")
    );
    assert_eq!(
        exit_message(DriverState::FitFailed),
        Some("Failed to fit the image to the monitors.")
    );
    assert_eq!(exit_message(DriverState::ApplyFailed), Some("Failed to set wallpaper"));
    assert_eq!(exit_message(DriverState::DecodeFailed), None);
    assert_eq!(exit_message(DriverState::Done), None);
    assert_eq!(exit_message(DriverState::Start), None);
    assert_eq!(exit_message(DriverState::Cropped), None);
}
