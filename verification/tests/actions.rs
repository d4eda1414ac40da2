use sqa::actions::{
    ActionMetadata, ActionParameters, AudioChannel, AudioParams, FadeLevel, FadeParams, OpaqueAction, ParameterError,
    PlaybackState,
};
use sqa::audio::{audio_desc, audio_verify_params, fit_chans, frame_budget, parse_url, spool_step, SpoolStep, SpoolerMessage};
use sqa::duration::{Duration, DurationInfo};
use sqa::errors::BackendError;
use sqa::fade::{fade_desc, fade_duration_info, fade_params_to_set, fade_verify_params, fade_wait, TargetLookup};
use sqa::playback::{
    execute_step, load_allowed, needs_verification, poll_delay_millis, state_after_execute, state_after_load,
    state_after_pause, state_after_verify, state_change_outcome, ExecuteStep, StateChangeOutcome,
};
use sqa::waveform::{waveform_range, waveform_step, WaveformRequest, WaveformStep};

fn texts(v: &[ParameterError]) -> Vec<(String, String)> {
    v.iter().map(|e| (e.name.clone(), e.err.clone())).collect()
}

fn fade(target: Option<u128>, master: bool) -> FadeParams {
    FadeParams {
        target,
        fades: vec![FadeLevel { enabled: true, level: 0 }],
        fade_master: FadeLevel { enabled: master, level: 0 },
        dur: Duration::new(5, 0),
    }
}

#[test]
fn fade_params_problems() {
    let r = fade_verify_params(&fade(None, false), TargetLookup::Audio);
    assert_eq!(
        texts(&r),
        vec![
            ("target".to_string(), "No target is specified.".to_string()),
            ("fades".to_string(), "Nothing is being faded.".to_string()),
        ]
    );
    let r = fade_verify_params(&fade(Some(1), true), TargetLookup::Missing);
    assert_eq!(texts(&r), vec![("target".to_string(), "No action with that UUID is present.".to_string())]);
    let r = fade_verify_params(&fade(Some(1), true), TargetLookup::NotAudio);
    assert_eq!(texts(&r), vec![("target".to_string(), "You must target an audio action.".to_string())]);
    assert!(fade_verify_params(&fade(Some(1), true), TargetLookup::Audio).is_empty());
}

#[test]
fn fade_fades_padded() {
    let p = fade_params_to_set(fade(Some(1), true), Some(3));
    assert_eq!(p.fades.len(), 3);
    assert_eq!(p.fades[2], FadeLevel { enabled: false, level: 0 });
    assert_eq!(p.fades[0], FadeLevel { enabled: true, level: 0 });
    assert_eq!(fade_params_to_set(fade(Some(1), true), Some(1)).fades.len(), 1);
    assert_eq!(fade_params_to_set(fade(Some(1), true), None).fades.len(), 1);
}

#[test]
fn fade_descriptions() {
    assert_eq!(fade_desc(None), "Fade [invalid]");
    assert_eq!(fade_desc(Some((Some("Intro".into()), "Play audio at a.wav".into()))), "Fade Intro");
    assert_eq!(fade_desc(Some((None, "Play audio at a.wav".into()))), "Fade Play audio at a.wav");
}

#[test]
fn fade_timing() {
    let d = Duration::new(5, 0);
    assert_eq!(fade_wait(10_000_000_000, 8_000_000_000, d).as_secs(), 7);
    assert_eq!(fade_wait(8_000_000_000, 10_000_000_000, d).as_secs(), 3);
    let w = fade_wait(0, 6_000_000_000, d);
    assert_eq!((w.as_secs(), w.subsec_nanos()), (0, 0));
    let i = fade_duration_info(10, 25, d);
    assert_eq!(i.duration.subsec_nanos(), 15);
    assert_eq!(i.start_time, 10);
    assert_eq!(fade_duration_info(30, 25, d).duration.subsec_nanos(), 0);
}

#[test]
fn urls_of_files() {
    let f = parse_url("file:///tmp/some%20song.wav").unwrap();
    assert_eq!(f.path, "/tmp/some song.wav");
    assert_eq!(f.file_name, "some song.wav");
    assert_eq!(
        parse_url("http://example.com/a.wav").unwrap_err(),
        BackendError::Msg("The URL scheme http is not yet supported; only file:// URLs currently work.".into())
    );
    assert_eq!(parse_url("file:///").unwrap_err(), BackendError::Msg("The URL provided contains no file name.".into()));
    assert!(matches!(parse_url("not a url"), Err(BackendError::Url(_))));
    assert_eq!(audio_desc(&Some(Ok(f))), "Play audio at some song.wav");
    assert_eq!(audio_desc(&None), "Play audio [invalid]");
}

#[test]
fn audio_params_problems() {
    let none = AudioParams { url: None, chans: vec![] };
    assert_eq!(
        texts(&audio_verify_params(&none, &None, &None, &vec![])),
        vec![("url".to_string(), "This field is required.".to_string())]
    );
    let p = AudioParams {
        url: Some("file:///a.wav".into()),
        chans: vec![
            AudioChannel { patch: Some(1), vol: 0 },
            AudioChannel { patch: Some(2), vol: 0 },
            AudioChannel { patch: None, vol: 0 },
        ],
    };
    let url = Some(Ok(parse_url("file:///a.wav").unwrap()));
    let r = audio_verify_params(&p, &url, &Some(Ok(2)), &vec![1]);
    assert_eq!(
        texts(&r),
        vec![
            ("chans".to_string(), "The file has fewer channels than expected (FIXME: better error message here)".to_string()),
            ("chans".to_string(), "Channel 1 does not exist.".to_string()),
        ]
    );
    let r = audio_verify_params(&p, &url, &Some(Ok(0)), &vec![1, 2]);
    assert_eq!(r[0].err, "What sort of file has exactly ZERO channels in it?!");
    let r = audio_verify_params(&p, &url, &Some(Err("no such file".into())), &vec![1, 2]);
    assert_eq!(texts(&r), vec![("url".to_string(), "Error opening URL: no such file".to_string())]);
    let r = audio_verify_params(&p, &url, &None, &vec![]);
    assert_eq!(texts(&r), vec![("url".to_string(), "Internal error: no file opened!".to_string())]);
    let bad = Some(Err(BackendError::Url("X".into())));
    let r = audio_verify_params(&p, &bad, &None, &vec![]);
    assert_eq!(texts(&r), vec![("url".to_string(), "Invalid URL: Error parsing URL: X".to_string())]);
}

#[test]
fn channels_fit_the_file() {
    let r = fit_chans(vec![], 3, &vec![7, 8]);
    assert_eq!(
        r,
        vec![
            AudioChannel { patch: Some(7), vol: 0 },
            AudioChannel { patch: Some(8), vol: 0 },
            AudioChannel { patch: None, vol: 0 },
        ]
    );
    let one = vec![AudioChannel { patch: Some(4), vol: 5 }];
    let r = fit_chans(one.clone(), 2, &vec![7]);
    assert_eq!(r, vec![AudioChannel { patch: Some(4), vol: 5 }, AudioChannel { patch: None, vol: 0 }]);
    assert_eq!(fit_chans(one.clone(), 1, &vec![]), one);
}

#[test]
fn spooling_decisions() {
    assert_eq!(spool_step(Some(SpoolerMessage::Quit), false, false), SpoolStep::Stop);
    assert_eq!(spool_step(Some(SpoolerMessage::Wakeup), true, true), SpoolStep::Wait);
    assert_eq!(spool_step(None, false, true), SpoolStep::ResumeFrame);
    assert_eq!(spool_step(None, false, false), SpoolStep::ReadFrames);
    assert_eq!(frame_budget(100, 40, 2), 120);
}

#[test]
fn waveform_requests() {
    let req = WaveformRequest { file: "file:///a.wav".into(), samples_per_pixel: 100, range_start: None, range_end: None };
    assert_eq!(waveform_step(true, true, &req), WaveformStep::InProgress);
    assert_eq!(waveform_step(false, true, &req), WaveformStep::Resend);
    assert!(matches!(waveform_step(false, false, &req), WaveformStep::Open(_)));
    let (s, e) = waveform_range(&req, Duration::new(9, 0)).unwrap();
    assert_eq!((s.as_secs(), e.as_secs()), (0, 9));
    let req2 = WaveformRequest { range_start: Some(Duration::new(9, 0)), ..req.clone() };
    assert_eq!(
        waveform_range(&req2, Duration::new(9, 0)).unwrap_err(),
        BackendError::Msg("Waveform request start point is greater than or equal to end point.".into())
    );
    let req3 = WaveformRequest { samples_per_pixel: 0, ..req };
    assert_eq!(
        waveform_range(&req3, Duration::new(9, 0)).unwrap_err(),
        BackendError::Msg("Waveform request asks for no samples.".into())
    );
}

#[test]
fn playback_state_changes() {
    assert_eq!(state_change_outcome(&PlaybackState::Inactive, &PlaybackState::Errored("x".into())), StateChangeOutcome::Apply);
    assert_eq!(state_change_outcome(&PlaybackState::Inactive, &PlaybackState::Loaded), StateChangeOutcome::Refused);
    assert_eq!(state_change_outcome(&PlaybackState::Loaded, &PlaybackState::Inactive), StateChangeOutcome::Reset);
    assert_eq!(state_change_outcome(&PlaybackState::Loaded, &PlaybackState::Unverified(vec![])), StateChangeOutcome::WrongChange);
    assert_eq!(state_change_outcome(&PlaybackState::Loading, &PlaybackState::Active(None)), StateChangeOutcome::Apply);
    assert!(load_allowed(&PlaybackState::Inactive));
    assert!(!load_allowed(&PlaybackState::Loaded));
    assert_eq!(state_after_load(Ok(true)), PlaybackState::Loaded);
    assert_eq!(state_after_load(Ok(false)), PlaybackState::Loading);
    assert_eq!(state_after_execute(Err("e".into())), PlaybackState::Errored("e".into()));
    assert_eq!(state_after_execute(Ok(false)), PlaybackState::Active(None));
    assert!(needs_verification(&PlaybackState::Unverified(vec![])));
    assert_eq!(state_after_verify(vec![]), PlaybackState::Inactive);
    let info = DurationInfo { elapsed: Duration::new(1, 0), pos: true, est_duration: None };
    assert_eq!(state_after_pause(PlaybackState::Active(None), true, Some(info)), PlaybackState::Paused(Some(info)));
    assert_eq!(state_after_pause(PlaybackState::Loaded, true, Some(info)), PlaybackState::Paused(None));
    assert_eq!(state_after_pause(PlaybackState::Loaded, false, None), PlaybackState::Loaded);
}

#[test]
fn execute_steps() {
    let pre = Duration::new(2, 0);
    assert_eq!(execute_step(&PlaybackState::Loaded, 100, &pre), ExecuteStep::Run(2_000_000_100));
    let info = DurationInfo { elapsed: Duration::new(0, 40), pos: true, est_duration: None };
    assert_eq!(execute_step(&PlaybackState::Paused(Some(info)), 100, &pre), ExecuteStep::Run(60));
    let info = DurationInfo { elapsed: Duration::new(0, 40), pos: false, est_duration: None };
    assert_eq!(execute_step(&PlaybackState::Paused(Some(info)), 100, &pre), ExecuteStep::Run(140));
    assert_eq!(execute_step(&PlaybackState::Loading, 100, &pre), ExecuteStep::StartWhenLoaded);
    assert_eq!(execute_step(&PlaybackState::Inactive, 100, &pre), ExecuteStep::LoadFirst);
    assert_eq!(execute_step(&PlaybackState::Active(None), 100, &pre), ExecuteStep::AlreadyActive);
    assert_eq!(execute_step(&PlaybackState::Errored("x".into()), 100, &pre), ExecuteStep::Refuse);
}

#[test]
fn poll_delays() {
    assert_eq!(poll_delay_millis(None), 1000);
    assert_eq!(poll_delay_millis(Some((Duration::new(3, 200_000_000), true))), 800);
    assert_eq!(poll_delay_millis(Some((Duration::new(3, 700_000_000), true))), 1300);
    assert_eq!(poll_delay_millis(Some((Duration::new(3, 700_000_000), false))), 700);
}

#[test]
fn opaque_action_names() {
    let a = OpaqueAction {
        state: PlaybackState::Inactive,
        params: ActionParameters::Fade(fade(None, true)),
        desc: "Fade [invalid]".into(),
        meta: ActionMetadata::default(),
        uu: 5,
    };
    assert_eq!(a.display_name(), "Fade [invalid]");
    assert_eq!(a.typ(), "fade");
}
