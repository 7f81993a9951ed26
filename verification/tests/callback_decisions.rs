use fmod_oxide::callbacks::{
    callback_result, create_instance_outcome, load_bank_outcome,
    event_callback_action, event_callback_tag, event_subscription_mask, system_callback_action,
    system_callback_tag, system_subscription_mask, EventCallbackTag, SystemCallbackTag,
    FMOD_STUDIO_EVENT_CALLBACK_CREATED, FMOD_STUDIO_EVENT_CALLBACK_DESTROYED,
    FMOD_STUDIO_EVENT_CALLBACK_NESTED_TIMELINE_BEAT, FMOD_STUDIO_EVENT_CALLBACK_STARTED,
    FMOD_STUDIO_SYSTEM_CALLBACK_BANK_UNLOAD, FMOD_STUDIO_SYSTEM_CALLBACK_PREUPDATE,
};

#[test]
fn event_tags_of_raw_kinds() {
    assert_eq!(event_callback_tag(0x1), Some(EventCallbackTag::Created));
    assert_eq!(event_callback_tag(0x2000), Some(EventCallbackTag::SoundPlayed));
    assert_eq!(
        event_callback_tag(FMOD_STUDIO_EVENT_CALLBACK_NESTED_TIMELINE_BEAT),
        Some(EventCallbackTag::NestedTimelineBeat)
    );
    assert_eq!(event_callback_tag(0x3), None);
    assert_eq!(event_callback_tag(0), None);
}

#[test]
fn system_tags_of_raw_kinds() {
    assert_eq!(system_callback_tag(0x2), Some(SystemCallbackTag::Postupdate));
    assert_eq!(system_callback_tag(0x10), Some(SystemCallbackTag::LiveupdateDisconnected));
    assert_eq!(system_callback_tag(0x20), None);
}

#[test]
fn subscriptions_always_include_cleanup() {
    assert_eq!(event_subscription_mask(FMOD_STUDIO_EVENT_CALLBACK_STARTED), 0xA);
    assert_eq!(event_subscription_mask(0), FMOD_STUDIO_EVENT_CALLBACK_DESTROYED);
    assert_eq!(system_subscription_mask(FMOD_STUDIO_SYSTEM_CALLBACK_PREUPDATE), 0x5);
}

#[test]
fn event_callback_runs_only_for_masked_kinds() {
    let a = event_callback_action(FMOD_STUDIO_EVENT_CALLBACK_STARTED, true, 0x8, false);
    assert_eq!(a.invoke, Some(EventCallbackTag::Started));
    assert!(!a.release_userdata);
    let b = event_callback_action(FMOD_STUDIO_EVENT_CALLBACK_CREATED, true, 0x8, false);
    assert_eq!(b.invoke, None);
    let c = event_callback_action(FMOD_STUDIO_EVENT_CALLBACK_STARTED, false, 0x8, false);
    assert_eq!(c.invoke, None);
}

#[test]
fn destroyed_instance_userdata_is_freed() {
    let a = event_callback_action(FMOD_STUDIO_EVENT_CALLBACK_DESTROYED, true, 0x8, true);
    assert_eq!(a.invoke, None);
    assert!(a.release_userdata);
    let b = event_callback_action(FMOD_STUDIO_EVENT_CALLBACK_DESTROYED, true, 0x2, false);
    assert_eq!(b.invoke, Some(EventCallbackTag::Destroyed));
    assert!(!b.release_userdata);
}

#[test]
fn bank_unload_frees_userdata() {
    let a = system_callback_action(FMOD_STUDIO_SYSTEM_CALLBACK_BANK_UNLOAD, false, 0);
    assert_eq!(a.invoke, None);
    assert!(a.release_bank_userdata);
    let b = system_callback_action(FMOD_STUDIO_SYSTEM_CALLBACK_PREUPDATE, true, 0x1);
    assert_eq!(b.invoke, Some(SystemCallbackTag::Preupdate));
    assert!(!b.release_bank_userdata);
}

#[test]
fn callback_answers_fmod_with_user_result() {
    assert_eq!(callback_result(None), 0);
    assert_eq!(callback_result(Some(Ok(()))), 0);
    assert_eq!(callback_result(Some(Err(31))), 31);
}

#[test]
fn command_replay_outcomes() {
    assert_eq!(create_instance_outcome(Ok(Some(0x1000))), (Some(0x1000), 0));
    assert_eq!(create_instance_outcome(Ok(None)), (None, 0));
    assert_eq!(create_instance_outcome(Err(74)), (None, 74));
    assert_eq!(load_bank_outcome(Ok(Some(7))), (Some(7), 0));
    assert_eq!(load_bank_outcome(Ok(None)), (None, 0));
    assert_eq!(load_bank_outcome(Err(18)), (None, 18));
}
