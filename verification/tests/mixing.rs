use sqa::mixer::{default_channel_name, Channel, ChannelPlan, Mixer, MixerConf};
use sqa::savefile::{check_savefile_version, check_new_action, savefile_version_text, ActionKind, SavedAction};
use sqa::actions::{ActionMetadata, ActionParameters, AudioParams, OpaqueAction, PlaybackState};
use sqa::errors::BackendError;

fn chan(name: &str, uuid: u128, eid: usize, patch: Option<&str>) -> Channel {
    Channel { name: name.into(), uuid, eid, patch: patch.map(|p| p.to_string()) }
}

#[test]
fn default_channels() {
    assert_eq!(default_channel_name(3), "default-chan-3");
    let mut m = Mixer::new();
    m.add_default_channel(chan("default-chan-0", 1, 0, Some("system:playback_1")));
    m.add_default_channel(chan("default-chan-1", 2, 1, Some("system:playback_2")));
    assert_eq!(m.obtain_def(1), Some(2));
    assert_eq!(m.obtain_def(2), None);
    assert_eq!(m.obtain_channel(2), Some(1));
    assert_eq!(m.obtain_channel(9), None);
    let c = m.obtain_config();
    assert_eq!(c.defs, vec![1, 2]);
    assert_eq!(c.channels.len(), 2);
    assert_eq!(m.channel_uuids(), vec![1, 2]);
}

#[test]
fn applying_a_configuration() {
    let mut m = Mixer::new();
    m.add_default_channel(chan("a", 1, 0, Some("p1")));
    m.add_default_channel(chan("b", 2, 1, None));
    let conf = MixerConf {
        channels: vec![chan("b", 3, 0, None), chan("a", 1, 0, Some("p2")), chan("c", 2, 0, None)],
        defs: vec![3, 1, 7],
    };
    assert_eq!(m.clashes(&conf), vec![(2, 1)]);
    assert_eq!(m.plan_channel(&conf.channels[0]), ChannelPlan::New);
    assert_eq!(
        m.plan_channel(&conf.channels[1]),
        ChannelPlan::Existing { eid: 0, rename: false, unpatch: Some("p1".into()), patch: Some("p2".into()) }
    );
    assert_eq!(
        m.plan_channel(&conf.channels[2]),
        ChannelPlan::Existing { eid: 1, rename: true, unpatch: None, patch: None }
    );
    m.rename_channel(2, "c".into());
    m.add_channel(chan("b", 3, 5, None));
    let touched = vec![2, 1, 3];
    m.set_defs(&conf.defs, &touched);
    assert_eq!(m.obtain_config().defs, vec![3, 1]);
    assert_eq!(m.untouched_eids(&touched), Vec::<usize>::new());
    assert_eq!(m.untouched_eids(&vec![1]), vec![1, 5]);
    m.retain_touched(&vec![1, 3]);
    assert_eq!(m.channel_uuids(), vec![1, 3]);
    assert_eq!(m.obtain_config().channels[0].name, "a");
}

#[test]
fn savefile_checks() {
    assert_eq!(savefile_version_text(), "indev");
    assert_eq!(check_savefile_version("indev", false), Ok(()));
    assert_eq!(check_savefile_version("v2", true), Ok(()));
    assert_eq!(
        check_savefile_version("v2", false),
        Err(BackendError::Msg("Savefile version mismatch: our version is indev, but the savefile was saved with v2.".into()))
    );
    assert_eq!(check_new_action("audio", None, true), Ok(ActionKind::Audio));
    assert_eq!(check_new_action("fade", Some(1), false), Ok(ActionKind::Fade));
    assert_eq!(check_new_action("video", Some(1), true), Err(BackendError::Msg("Unknown action type: video".into())));
    assert_eq!(
        check_new_action("fade", Some(0x0123_4567_89ab_cdef_0123_4567_89ab_cdef), true),
        Err(BackendError::Msg("UUID 01234567-89ab-cdef-0123-456789abcdef already exists!".into()))
    );
    let opa = OpaqueAction {
        state: PlaybackState::Loaded,
        params: ActionParameters::Audio(AudioParams { url: None, chans: vec![] }),
        desc: "d".into(),
        meta: ActionMetadata::default(),
        uu: 4,
    };
    let s = SavedAction::of(opa);
    assert_eq!(s.typ, "audio");
}
