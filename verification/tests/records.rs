use sqa::action_manager::ActionManager;
use sqa::actions::{
    ActionMetadata, ActionParameters, AudioChannel, AudioParams, FadeLevel, FadeParams, OpaqueAction, ParameterError,
    PlaybackState,
};
use sqa::duration::Duration;
use sqa::records::{
    action_info, controller_load, create_action, describe, load_action, new_action, reset_action, set_params,
    update_metadata, update_params, LoadRefusal, execute_action, can_execute_at, fade_target_check,
    prior_state, pause_action, ExecuteRefusal,
};
use sqa::playback::ExecuteStep;
use sqa::mixer::Mixer;
use sqa::codec::Command;
use sqa::undo::PriorState;
use sqa::savefile::ActionKind;

const AUDIO: u128 = 0x1111;
const FADE: u128 = 0x2222;

fn audio_params(url: &str, chans: usize) -> ActionParameters {
    ActionParameters::Audio(AudioParams {
        url: Some(url.to_string()),
        chans: vec![AudioChannel { patch: None, vol: 0 }; chans],
    })
}

fn fade_params(target: Option<u128>, master: bool) -> ActionParameters {
    ActionParameters::Fade(FadeParams {
        target,
        fades: vec![FadeLevel { enabled: true, level: 0 }],
        fade_master: FadeLevel { enabled: master, level: 0 },
        dur: Duration::new(2, 0),
    })
}

fn texts(v: &[ParameterError]) -> Vec<(String, String)> {
    v.iter().map(|e| (e.name.clone(), e.err.clone())).collect()
}

fn no_media() -> Option<Result<usize, String>> {
    Some(Err("cannot open".to_string()))
}

#[test]
fn create_action_with_given_uuid() {
    let mut m: ActionManager<OpaqueAction> = ActionManager::new();
    assert_eq!(create_action(&mut m, "audio", Some(audio_params("file:///music/intro.wav", 2)), None, Some(AUDIO), None), Ok(AUDIO));
    let a = m.get(&AUDIO).unwrap();
    assert_eq!(a.state, PlaybackState::Inactive);
    assert_eq!(a.desc, "Play audio at intro.wav");
    assert_eq!(a.params, audio_params("file:///music/intro.wav", 2));
    assert_eq!(m.order(), &vec![AUDIO]);
    let e = create_action(&mut m, "audio", None, None, Some(AUDIO), None).unwrap_err();
    assert_eq!(e.message(), "UUID 00000000-0000-0000-0000-000000001111 already exists!");
    let e = create_action(&mut m, "video", None, None, None, None).unwrap_err();
    assert_eq!(e.message(), "Unknown action type: video");
    assert_eq!(m.order(), &vec![AUDIO]);
}

#[test]
fn create_action_with_fresh_uuid_and_metadata() {
    let mut m: ActionManager<OpaqueAction> = ActionManager::new();
    let meta = ActionMetadata { name: Some("Thunder".into()), prewait: Duration::new(1, 0), number: Some("4".into()) };
    let uu = create_action(&mut m, "fade", None, Some(meta.clone()), None, None).unwrap();
    let a = m.get(&uu).unwrap();
    assert_eq!(a.meta, meta);
    assert_eq!(a.desc, "Fade [invalid]");
    assert_eq!(
        a.params,
        ActionParameters::Fade(FadeParams {
            target: None,
            fades: vec![],
            fade_master: FadeLevel { enabled: false, level: 0 },
            dur: Duration::zero()
        })
    );
    // Parameters of the wrong kind are ignored.
    let uu2 = create_action(&mut m, "audio", Some(fade_params(None, true)), None, None, None).unwrap();
    assert_eq!(m.get(&uu2).unwrap().params, ActionParameters::Audio(AudioParams { url: None, chans: vec![] }));
    assert_eq!(m.order(), &vec![uu, uu2]);
}

#[test]
fn set_params_refuses_other_kind() {
    let m: ActionManager<OpaqueAction> = ActionManager::new();
    let mut a = new_action(ActionKind::Audio, AUDIO);
    let r = set_params(&mut a, fade_params(None, true), &m, None);
    assert_eq!(r.unwrap_err().message(), "wrong type of action parameters");
    assert_eq!(a.params, ActionParameters::Audio(AudioParams { url: None, chans: vec![] }));
}

#[test]
fn set_params_fits_channels_of_opened_file() {
    let m: ActionManager<OpaqueAction> = ActionManager::new();
    let mut a = new_action(ActionKind::Audio, AUDIO);
    let defs = vec![7u128];
    set_params(&mut a, audio_params("file:///a.wav", 0), &m, Some((2, &defs))).unwrap();
    assert_eq!(
        a.params,
        ActionParameters::Audio(AudioParams {
            url: Some("file:///a.wav".into()),
            chans: vec![AudioChannel { patch: Some(7), vol: 0 }, AudioChannel { patch: None, vol: 0 }],
        })
    );
    // The same URL again: the channels are kept as given.
    set_params(&mut a, audio_params("file:///a.wav", 1), &m, Some((2, &defs))).unwrap();
    assert_eq!(a.params, audio_params("file:///a.wav", 1));
}

#[test]
fn fade_fades_padded_to_old_target_channels() {
    let mut m: ActionManager<OpaqueAction> = ActionManager::new();
    create_action(&mut m, "audio", Some(audio_params("file:///a.wav", 3)), None, Some(AUDIO), None).unwrap();
    create_action(&mut m, "fade", Some(fade_params(Some(AUDIO), true)), None, Some(FADE), None).unwrap();
    assert_eq!(update_params(&mut m, FADE, fade_params(Some(AUDIO), true), None), Ok(()));
    match &m.get(&FADE).unwrap().params {
        ActionParameters::Fade(p) => assert_eq!(
            p.fades,
            vec![
                FadeLevel { enabled: true, level: 0 },
                FadeLevel { enabled: false, level: 0 },
                FadeLevel { enabled: false, level: 0 }
            ]
        ),
        _ => panic!("not a fade"),
    }
    assert_eq!(update_params(&mut m, 0x9999, fade_params(None, true), None), Err("No action found".to_string()));
    assert_eq!(
        update_params(&mut m, FADE, audio_params("file:///b.wav", 1), None),
        Err("wrong type of action parameters".to_string())
    );
}

#[test]
fn descriptions_of_actions() {
    let mut m: ActionManager<OpaqueAction> = ActionManager::new();
    create_action(&mut m, "audio", Some(audio_params("file:///music/Big%20Band.mp3", 1)), None, Some(AUDIO), None).unwrap();
    create_action(&mut m, "fade", Some(fade_params(Some(AUDIO), true)), None, Some(FADE), None).unwrap();
    assert_eq!(m.get(&AUDIO).unwrap().desc, "Play audio at Big Band.mp3");
    assert_eq!(describe(m.get(&FADE).unwrap(), &m), "Fade Play audio at Big Band.mp3");
    let meta = ActionMetadata { name: Some("Band".into()), prewait: Duration::zero(), number: None };
    assert_eq!(update_metadata(&mut m, AUDIO, meta), Ok(()));
    assert_eq!(describe(m.get(&FADE).unwrap(), &m), "Fade Band");
    let http = new_action(ActionKind::Audio, 5);
    let mut http = http;
    set_params(&mut http, audio_params("http://example.com/a.wav", 1), &m, None).unwrap();
    assert_eq!(describe(&http, &m), "Play audio [invalid]");
}

#[test]
fn action_info_checks_parameters() {
    let mut m: ActionManager<OpaqueAction> = ActionManager::new();
    create_action(&mut m, "audio", None, None, Some(AUDIO), None).unwrap();
    create_action(&mut m, "fade", Some(fade_params(Some(AUDIO), true)), None, Some(FADE), None).unwrap();
    let known: Vec<u128> = vec![];
    assert_eq!(action_info(&mut m, AUDIO, true, &no_media(), &known, None), Ok(()));
    match &m.get(&AUDIO).unwrap().state {
        PlaybackState::Unverified(v) => {
            assert_eq!(texts(v), vec![("url".to_string(), "This field is required.".to_string())])
        },
        s => panic!("unexpected state {:?}", s),
    }
    assert_eq!(action_info(&mut m, FADE, false, &no_media(), &known, None), Ok(()));
    assert_eq!(m.get(&FADE).unwrap().state, PlaybackState::Inactive);
    update_params(&mut m, AUDIO, audio_params("ftp://host/a.wav", 1), None).unwrap();
    action_info(&mut m, AUDIO, true, &no_media(), &known, None).unwrap();
    match &m.get(&AUDIO).unwrap().state {
        PlaybackState::Unverified(v) => assert_eq!(
            texts(v),
            vec![(
                "url".to_string(),
                "Invalid URL: The URL scheme ftp is not yet supported; only file:// URLs currently work.".to_string()
            )]
        ),
        s => panic!("unexpected state {:?}", s),
    }
    update_params(&mut m, AUDIO, audio_params("file:///a.wav", 1), None).unwrap();
    action_info(&mut m, AUDIO, true, &no_media(), &known, None).unwrap();
    match &m.get(&AUDIO).unwrap().state {
        PlaybackState::Unverified(v) => {
            assert_eq!(texts(v), vec![("url".to_string(), "Error opening URL: cannot open".to_string())])
        },
        s => panic!("unexpected state {:?}", s),
    }
    assert_eq!(action_info(&mut m, 0x9999, true, &no_media(), &known, None), Err("No action found".to_string()));
}

#[test]
fn create_audio_action_fits_channels_of_opened_file() {
    let mut m: ActionManager<OpaqueAction> = ActionManager::new();
    let defs = vec![5u128, 6u128];
    let uu = create_action(&mut m, "audio", Some(audio_params("file:///a.wav", 0)), None, None, Some((2, &defs))).unwrap();
    assert_eq!(
        m.get(&uu).unwrap().params,
        ActionParameters::Audio(AudioParams {
            url: Some("file:///a.wav".into()),
            chans: vec![AudioChannel { patch: Some(5), vol: 0 }, AudioChannel { patch: Some(6), vol: 0 }],
        })
    );
}

#[test]
fn load_and_reset_actions() {
    let mut m: ActionManager<OpaqueAction> = ActionManager::new();
    create_action(&mut m, "audio", Some(audio_params("file:///a.wav", 3)), None, Some(AUDIO), None).unwrap();
    create_action(&mut m, "fade", Some(fade_params(Some(AUDIO), true)), None, Some(FADE), None).unwrap();
    let known: Vec<u128> = vec![];
    let ctl = controller_load(m.get(&FADE).unwrap(), &no_media());
    assert_eq!(ctl, Ok(true));
    assert_eq!(load_action(&mut m, FADE, &no_media(), &known, None, ctl), Ok(()));
    assert_eq!(m.get(&FADE).unwrap().state, PlaybackState::Loaded);
    assert_eq!(load_action(&mut m, FADE, &no_media(), &known, None, Ok(true)), Err(LoadRefusal::WrongState));
    assert_eq!(reset_action(&mut m, FADE), Ok(()));
    assert_eq!(m.get(&FADE).unwrap().state, PlaybackState::Inactive);
    // The audio action's file could not be opened: its parameters are reported.
    let ctl = controller_load(m.get(&AUDIO).unwrap(), &no_media());
    assert_eq!(ctl, Err("cannot open".to_string()));
    assert_eq!(load_action(&mut m, AUDIO, &no_media(), &known, None, ctl), Err(LoadRefusal::WrongState));
    assert!(matches!(m.get(&AUDIO).unwrap().state, PlaybackState::Unverified(_)));
    assert_eq!(load_action(&mut m, 0x9999, &no_media(), &known, None, Ok(true)), Err(LoadRefusal::NoAction));
    assert_eq!(reset_action(&mut m, 0x9999), Err("No action found".to_string()));
    assert_eq!(controller_load(m.get(&AUDIO).unwrap(), &None), Err("File mysteriously disappeared".to_string()));
}

#[test]
fn execute_loads_then_runs() {
    let mut m: ActionManager<OpaqueAction> = ActionManager::new();
    create_action(&mut m, "audio", Some(audio_params("file:///a.wav", 1)), None, Some(AUDIO), None).unwrap();
    create_action(&mut m, "fade", Some(fade_params(Some(AUDIO), true)), None, Some(FADE), None).unwrap();
    let known: Vec<u128> = vec![];
    assert!(can_execute_at(&m, FADE, 1_000));
    // The fade loads at once, then runs, and its controller keeps going.
    let r = execute_action(&mut m, FADE, 1_000, &no_media(), &known, Ok(true), Ok(false));
    assert_eq!(r, Ok(ExecuteStep::Run(1_000)));
    assert_eq!(m.get(&FADE).unwrap().state, PlaybackState::Active(None));
    assert_eq!(m.interested_list(), vec![FADE]);
    // Running already: nothing to do.
    assert_eq!(execute_action(&mut m, FADE, 2_000, &no_media(), &known, Ok(true), Ok(true)), Ok(ExecuteStep::AlreadyActive));
    // The audio action's file cannot be opened: its parameters are refused.
    assert_eq!(
        execute_action(&mut m, AUDIO, 1_000, &no_media(), &known, Err("x".into()), Ok(true)),
        Err(ExecuteRefusal::WrongStateForLoading)
    );
    // A failing execute leaves the action errored, and a second execute is refused.
    reset_action(&mut m, FADE).unwrap();
    let r = execute_action(&mut m, FADE, 1_000, &no_media(), &known, Ok(true), Err("Target isn't running or loaded".into()));
    assert_eq!(r, Ok(ExecuteStep::Run(1_000)));
    assert_eq!(m.get(&FADE).unwrap().state, PlaybackState::Errored("Target isn't running or loaded".into()));
    assert_eq!(
        execute_action(&mut m, FADE, 1_000, &no_media(), &known, Ok(true), Ok(true)),
        Err(ExecuteRefusal::WrongStateForExecuting)
    );
    assert_eq!(execute_action(&mut m, 0x9999, 1, &no_media(), &known, Ok(true), Ok(true)), Err(ExecuteRefusal::NoAction));
}

#[test]
fn fade_target_checks() {
    let mut m: ActionManager<OpaqueAction> = ActionManager::new();
    create_action(&mut m, "audio", None, None, Some(AUDIO), None).unwrap();
    create_action(&mut m, "fade", None, None, Some(FADE), None).unwrap();
    assert_eq!(fade_target_check(0x9999, &m, true), Err("Failed to get action".to_string()));
    assert_eq!(fade_target_check(FADE, &m, true), Err("Action was wrong type".to_string()));
    assert_eq!(fade_target_check(AUDIO, &m, false), Err("Target isn't running or loaded".to_string()));
    assert_eq!(fade_target_check(AUDIO, &m, true), Ok(()));
}

#[test]
fn prior_state_lookups() {
    let mut m: ActionManager<OpaqueAction> = ActionManager::new();
    create_action(&mut m, "audio", Some(audio_params("file:///a.wav", 1)), None, Some(AUDIO), None).unwrap();
    let mixer = Mixer::new();
    match prior_state(&m, &mixer, &Command::DeleteAction { uuid: AUDIO }) {
        PriorState::Action(Some(a)) => assert_eq!(&a, m.get(&AUDIO).unwrap()),
        _ => panic!("expected the action"),
    }
    assert!(matches!(prior_state(&m, &mixer, &Command::DeleteAction { uuid: 7 }), PriorState::Action(None)));
    assert!(matches!(prior_state(&m, &mixer, &Command::ReorderAction { uuid: AUDIO, new_pos: 0 }), PriorState::Position(Some(0))));
    assert!(matches!(prior_state(&m, &mixer, &Command::Ping), PriorState::Nothing));
}

#[test]
fn pausing_keeps_progress_of_running_action() {
    let mut m: ActionManager<OpaqueAction> = ActionManager::new();
    create_action(&mut m, "fade", Some(fade_params(None, true)), None, Some(FADE), None).unwrap();
    assert_eq!(pause_action(&mut m, FADE, false, None), Ok(()));
    assert_eq!(m.get(&FADE).unwrap().state, PlaybackState::Inactive);
    assert_eq!(pause_action(&mut m, FADE, true, None), Ok(()));
    assert_eq!(m.get(&FADE).unwrap().state, PlaybackState::Paused(None));
    assert_eq!(pause_action(&mut m, 0x9999, true, None), Err("No action found".to_string()));
}
