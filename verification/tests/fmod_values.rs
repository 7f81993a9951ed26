use fmod_oxide::core_enums::SpeakerMode;
use fmod_oxide::studio_enums::{
    EventProperty, InstanceType, LoadingState, ParameterKind, PlaybackState, StopMode,
};
use fmod_oxide::{DebugFlags, MemoryFlags};

#[test]
fn loading_state_values() {
    assert_eq!(LoadingState::from(0), LoadingState::Unloading);
    assert_eq!(LoadingState::from(3), LoadingState::Loaded);
    assert_eq!(LoadingState::from(4), LoadingState::Error);
    assert_eq!(u32::from(LoadingState::Loading), 2);
    for v in 0..5u32 {
        assert_eq!(LoadingState::from(v).into_raw(), v);
    }
}

#[test]
fn stop_mode_values() {
    assert_eq!(StopMode::from(0), StopMode::AllowFadeout);
    assert_eq!(StopMode::from(1), StopMode::Immediate);
    assert_eq!(u32::from(StopMode::Immediate), 1);
}

#[test]
fn parameter_kind_values() {
    assert_eq!(ParameterKind::from(0), ParameterKind::GameControlled);
    assert_eq!(ParameterKind::from(9), ParameterKind::AutomaticDistanceNormalized);
    assert_eq!(u32::from(ParameterKind::AutomaticSpeed), 7);
    for v in 0..10u32 {
        assert_eq!(ParameterKind::from(v).into_raw(), v);
    }
}

#[test]
fn playback_state_values() {
    assert_eq!(PlaybackState::from(1), PlaybackState::Sustaining);
    assert_eq!(u32::from(PlaybackState::Stopping), 4);
}

#[test]
fn event_property_values() {
    assert_eq!(EventProperty::from(5), EventProperty::Cooldown);
    assert_eq!(u32::from(EventProperty::MinimumDistance), 3);
}

#[test]
fn instance_type_values() {
    assert_eq!(InstanceType::from(0), InstanceType::NoInstance);
    assert_eq!(InstanceType::from(8), InstanceType::CommandReplay);
    assert_eq!(u32::from(InstanceType::Vca), 6);
    for v in 0..9u32 {
        assert_eq!(InstanceType::from(v).into_raw(), v);
    }
}

#[test]
fn speaker_mode_values() {
    assert_eq!(SpeakerMode::from(3), SpeakerMode::Stereo);
    assert_eq!(SpeakerMode::from(8), SpeakerMode::SevenPointOneFour);
    assert_eq!(u32::from(SpeakerMode::FivePointOne), 6);
}

#[test]
fn debug_flags_truncate_unknown_bits() {
    let f = DebugFlags::from_bits_truncate(DebugFlags::ERROR | DebugFlags::TRACE | 0x8000_0000);
    assert_eq!(f.bits(), 0x801);
    assert_eq!(u32::from(f), 0x801);
    assert!(DebugFlags::from_bits(0x8000_0000).is_none());
    assert_eq!(DebugFlags::from_bits(DebugFlags::LOG).unwrap().bits(), 4);
    assert_eq!(DebugFlags::from_bits_truncate(f.bits()), f);
    assert_eq!(DebugFlags::all().bits(), 0x70F07);
    assert!(DebugFlags::all().is_all());
    assert!(DebugFlags::empty().is_empty());
    assert_eq!(DebugFlags::from_bits_retain(0x8000_0000).bits(), 0x8000_0000);
}

#[test]
fn debug_flags_set_operations() {
    let error = DebugFlags::from_bits_truncate(DebugFlags::ERROR);
    let log = DebugFlags::from_bits_truncate(DebugFlags::LOG);
    let both = error.union(log);
    assert!(both.contains(error));
    assert!(both.contains(log));
    assert!(!error.contains(both));
    assert!(both.intersects(log));
    assert_eq!(both.intersection(log), log);
    assert_eq!(both.difference(log), error);
    let mut f = DebugFlags::empty();
    f.insert(both);
    assert_eq!(f, both);
    f.remove(error);
    assert_eq!(f, log);
    assert!(!f.intersects(error));
}

#[test]
fn memory_flags_keep_every_bit() {
    let f = MemoryFlags::from_bits_truncate(0x1234_5678);
    assert_eq!(f.bits(), 0x1234_5678);
    assert!(MemoryFlags::from_bits(0xFFFF_FFFF).is_some());
    assert!(MemoryFlags::from_bits_truncate(MemoryFlags::ALL).is_all());
    assert!(MemoryFlags::all().contains(MemoryFlags::from_bits_truncate(MemoryFlags::PLUGIN)));
    assert_eq!(MemoryFlags::NORMAL, 0);
    assert_eq!(MemoryFlags::PERSISTENT, 0x0020_0000);
}
