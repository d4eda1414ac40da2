use sqa::actions::{ParameterError, PlaybackState};
use sqa::actionview::{errors_panel, playback_state_update};
use sqa::duration::{Duration, DurationInfo};
use sqa::errors::BackendError;
use sqa::fade::fade_poll;
use sqa::pending::AsyncResult;
use sqa::playback::{poll_step, TimerStep};

#[test]
fn async_result_status() {
    let e: AsyncResult<u8> = AsyncResult::default();
    assert!(e.is_empty() && !e.is_waiting() && !e.is_complete());
    assert_eq!(e.as_result(), Err(BackendError::EmptyAsyncResult));
    let w: AsyncResult<u8> = AsyncResult::Waiting;
    assert!(w.is_waiting());
    assert_eq!(w.as_result(), Err(BackendError::WaitingAsyncResult));
    let mut p: AsyncResult<u8> = AsyncResult::Waiting;
    assert!(!p.on_polled(None));
    assert!(p.is_waiting());
    assert!(p.on_polled(Some(Ok(7))));
    assert!(p.is_complete());
    assert!(p.on_polled(Some(Ok(9))));
    assert_eq!(p.as_result(), Ok(7));
    assert_eq!(
        AsyncResult::<u8>::Result(Err(BackendError::Msg("x".into()))).as_result(),
        Err(BackendError::Msg("x".into()))
    );
}

#[test]
fn poll_step_rearms_timer_while_active() {
    let done: AsyncResult<()> = AsyncResult::Result(Ok(()));
    let info = DurationInfo { elapsed: Duration::new(3, 250_000_000), pos: true, est_duration: None };
    let active = PlaybackState::Active(Some(info));
    assert_eq!(
        poll_step(&done, &active, Some((Duration::new(3, 250_000_000), true)), false),
        (TimerStep::Rearm(750), true)
    );
    assert_eq!(poll_step(&done, &active, None, false), (TimerStep::Rearm(1000), true));
    assert_eq!(poll_step(&done, &PlaybackState::Loaded, None, false), (TimerStep::Clear, false));
    assert_eq!(poll_step(&done, &PlaybackState::Loaded, None, true), (TimerStep::Clear, true));
    assert_eq!(poll_step(&AsyncResult::<()>::Waiting, &PlaybackState::Loaded, None, false), (TimerStep::Keep, true));
    assert_eq!(poll_step(&AsyncResult::<()>::Empty, &active, None, false), (TimerStep::Keep, false));
}

#[test]
fn fade_poll_finishes_when_timer_fires() {
    assert_eq!(fade_poll(&AsyncResult::<()>::Result(Ok(()))), (Some(PlaybackState::Inactive), false));
    assert_eq!(fade_poll(&AsyncResult::<()>::Waiting), (None, true));
    assert_eq!(fade_poll(&AsyncResult::<()>::Empty), (None, true));
}

#[test]
fn property_window_header() {
    let errs = vec![
        ParameterError { name: "url".into(), err: "This field is required.".into() },
        ParameterError { name: "chans".into(), err: "Channel 2 does not exist.".into() },
    ];
    assert_eq!(
        playback_state_update(&PlaybackState::Unverified(errs)),
        Some(("gtk-dialog-error", "Action incomplete: 2 errors are present.".to_string()))
    );
    assert_eq!(
        playback_state_update(&PlaybackState::Inactive),
        Some(("gtk-media-stop", "Action inactive.".to_string()))
    );
    assert_eq!(playback_state_update(&PlaybackState::Errored("boom".into())), None);
}

#[test]
fn errors_tab_contents() {
    let errs = vec![
        ParameterError { name: "url".into(), err: "This field is required.".into() },
        ParameterError { name: "chans".into(), err: "Channel 2 does not exist.".into() },
    ];
    let p = errors_panel(&PlaybackState::Unverified(errs));
    assert_eq!(p.label, "Errors (2)");
    assert_eq!(p.entries, vec!["url: This field is required.".to_string(), "chans: Channel 2 does not exist.".to_string()]);
    assert!(!p.reset_offered && !p.can_run);
    let p = errors_panel(&PlaybackState::Errored("disk gone".into()));
    assert_eq!(p.label, "Errors (!!)");
    assert_eq!(
        p.entries,
        vec!["The following fatal error occurred, causing the action to stop:\n\tdisk gone\nBecause of this, this action is in an inconsistent state and must be reset to continue.".to_string()]
    );
    assert!(p.reset_offered && !p.can_run);
    let p = errors_panel(&PlaybackState::Loaded);
    assert_eq!(p.label, "Errors");
    assert!(p.entries.is_empty());
    assert!(!p.reset_offered && p.can_run);
}
