//! The value kinds of FMOD Studio and their raw FMOD values.

use vstd::prelude::*;

verus! {

/// The loading state of a bank or of sample data.
#[derive(Debug, Clone, Copy, PartialEq, Eq, Structural)]
pub enum LoadingState {
    /// Being unloaded.
    Unloading,
    /// Not loaded.
    Unloaded,
    /// Being loaded.
    Loading,
    /// Loaded and ready to use.
    Loaded,
    /// Failed to load.
    Error,
}

/// The raw FMOD value of [`LoadingState::Unloading`].
pub const FMOD_STUDIO_LOADING_STATE_UNLOADING: u32 = 0;

/// The raw FMOD value of [`LoadingState::Unloaded`].
pub const FMOD_STUDIO_LOADING_STATE_UNLOADED: u32 = 1;

/// The raw FMOD value of [`LoadingState::Loading`].
pub const FMOD_STUDIO_LOADING_STATE_LOADING: u32 = 2;

/// The raw FMOD value of [`LoadingState::Loaded`].
pub const FMOD_STUDIO_LOADING_STATE_LOADED: u32 = 3;

/// The raw FMOD value of [`LoadingState::Error`].
pub const FMOD_STUDIO_LOADING_STATE_ERROR: u32 = 4;

impl LoadingState {
    /// The variant that a raw FMOD value stands for.
    pub open spec fn spec_from(value: u32) -> LoadingState {
        if value == FMOD_STUDIO_LOADING_STATE_UNLOADING {
            LoadingState::Unloading
        } else if value == FMOD_STUDIO_LOADING_STATE_UNLOADED {
            LoadingState::Unloaded
        } else if value == FMOD_STUDIO_LOADING_STATE_LOADING {
            LoadingState::Loading
        } else if value == FMOD_STUDIO_LOADING_STATE_LOADED {
            LoadingState::Loaded
        } else {
            LoadingState::Error
        }
    }

    /// The raw FMOD value of a variant.
    pub open spec fn spec_raw(self) -> u32 {
        match self {
            LoadingState::Unloading => FMOD_STUDIO_LOADING_STATE_UNLOADING,
            LoadingState::Unloaded => FMOD_STUDIO_LOADING_STATE_UNLOADED,
            LoadingState::Loading => FMOD_STUDIO_LOADING_STATE_LOADING,
            LoadingState::Loaded => FMOD_STUDIO_LOADING_STATE_LOADED,
            LoadingState::Error => FMOD_STUDIO_LOADING_STATE_ERROR,
        }
    }

    /// Reads a raw FMOD value. FMOD only hands out the values of the
    /// variants; any other value is refused by the precondition.
    pub fn from(value: u32) -> (res: LoadingState)
        requires
            value < 5,
        ensures
            res == LoadingState::spec_from(value),
            res.spec_raw() == value,
    {
        if value == FMOD_STUDIO_LOADING_STATE_UNLOADING {
            LoadingState::Unloading
        } else if value == FMOD_STUDIO_LOADING_STATE_UNLOADED {
            LoadingState::Unloaded
        } else if value == FMOD_STUDIO_LOADING_STATE_LOADING {
            LoadingState::Loading
        } else if value == FMOD_STUDIO_LOADING_STATE_LOADED {
            LoadingState::Loaded
        } else {
            LoadingState::Error
        }
    }

    /// The raw FMOD value of this variant.
    pub fn into_raw(self) -> (res: u32)
        ensures
            res == self.spec_raw(),
            res < 5,
    {
        match self {
            LoadingState::Unloading => FMOD_STUDIO_LOADING_STATE_UNLOADING,
            LoadingState::Unloaded => FMOD_STUDIO_LOADING_STATE_UNLOADED,
            LoadingState::Loading => FMOD_STUDIO_LOADING_STATE_LOADING,
            LoadingState::Loaded => FMOD_STUDIO_LOADING_STATE_LOADED,
            LoadingState::Error => FMOD_STUDIO_LOADING_STATE_ERROR,
        }
    }
}

impl From<LoadingState> for u32 {
    fn from(value: LoadingState) -> (res: u32) {
        value.into_raw()
    }
}

impl vstd::std_specs::convert::FromSpecImpl<LoadingState> for u32 {
    open spec fn obeys_from_spec() -> bool {
        true
    }

    open spec fn from_spec(value: LoadingState) -> u32 {
        value.spec_raw()
    }
}

/// Law: reading back the raw value of a [`LoadingState`] gives the same variant,
/// and the raw value of what a value in range reads as is that value.
pub proof fn law_loading_state_round_trip(kind: LoadingState, value: u32)
    ensures
        LoadingState::spec_from(kind.spec_raw()) == kind,
        kind.spec_raw() < 5,
        value < 5 ==> LoadingState::spec_from(value).spec_raw() == value,
{
}

/// Law: each variant of [`LoadingState`] has the raw value that FMOD's
/// header gives it (`Unloading` is 0, `Unloaded` is 1, `Loading` is 2, `Loaded`
/// is 3, `Error` is 4), and reading that value gives the variant.
pub proof fn law_loading_state_values()
    ensures
        LoadingState::Unloading.spec_raw() == 0u32,
        LoadingState::spec_from(0u32) == LoadingState::Unloading,
        LoadingState::Unloaded.spec_raw() == 1u32,
        LoadingState::spec_from(1u32) == LoadingState::Unloaded,
        LoadingState::Loading.spec_raw() == 2u32,
        LoadingState::spec_from(2u32) == LoadingState::Loading,
        LoadingState::Loaded.spec_raw() == 3u32,
        LoadingState::spec_from(3u32) == LoadingState::Loaded,
        LoadingState::Error.spec_raw() == 4u32,
        LoadingState::spec_from(4u32) == LoadingState::Error,
{
}

/// How an event instance stops.
#[derive(Debug, Clone, Copy, PartialEq, Eq, Structural)]
pub enum StopMode {
    /// Allows AHDSR modulators to complete their release, and DSP effect tails to play out.
    AllowFadeout,
    /// Stops the event instance immediately.
    Immediate,
}

/// The raw FMOD value of [`StopMode::AllowFadeout`].
pub const FMOD_STUDIO_STOP_ALLOWFADEOUT: u32 = 0;

/// The raw FMOD value of [`StopMode::Immediate`].
pub const FMOD_STUDIO_STOP_IMMEDIATE: u32 = 1;

impl StopMode {
    /// The variant that a raw FMOD value stands for.
    pub open spec fn spec_from(value: u32) -> StopMode {
        if value == FMOD_STUDIO_STOP_ALLOWFADEOUT {
            StopMode::AllowFadeout
        } else {
            StopMode::Immediate
        }
    }

    /// The raw FMOD value of a variant.
    pub open spec fn spec_raw(self) -> u32 {
        match self {
            StopMode::AllowFadeout => FMOD_STUDIO_STOP_ALLOWFADEOUT,
            StopMode::Immediate => FMOD_STUDIO_STOP_IMMEDIATE,
        }
    }

    /// Reads a raw FMOD value. FMOD only hands out the values of the
    /// variants; any other value is refused by the precondition.
    pub fn from(value: u32) -> (res: StopMode)
        requires
            value < 2,
        ensures
            res == StopMode::spec_from(value),
            res.spec_raw() == value,
    {
        if value == FMOD_STUDIO_STOP_ALLOWFADEOUT {
            StopMode::AllowFadeout
        } else {
            StopMode::Immediate
        }
    }

    /// The raw FMOD value of this variant.
    pub fn into_raw(self) -> (res: u32)
        ensures
            res == self.spec_raw(),
            res < 2,
    {
        match self {
            StopMode::AllowFadeout => FMOD_STUDIO_STOP_ALLOWFADEOUT,
            StopMode::Immediate => FMOD_STUDIO_STOP_IMMEDIATE,
        }
    }
}

impl From<StopMode> for u32 {
    fn from(value: StopMode) -> (res: u32) {
        value.into_raw()
    }
}

impl vstd::std_specs::convert::FromSpecImpl<StopMode> for u32 {
    open spec fn obeys_from_spec() -> bool {
        true
    }

    open spec fn from_spec(value: StopMode) -> u32 {
        value.spec_raw()
    }
}

/// Law: reading back the raw value of a [`StopMode`] gives the same variant,
/// and the raw value of what a value in range reads as is that value.
pub proof fn law_stop_mode_round_trip(kind: StopMode, value: u32)
    ensures
        StopMode::spec_from(kind.spec_raw()) == kind,
        kind.spec_raw() < 2,
        value < 2 ==> StopMode::spec_from(value).spec_raw() == value,
{
}

/// Law: each variant of [`StopMode`] has the raw value that FMOD's header gives
/// it (`AllowFadeout` is 0, `Immediate` is 1), and reading that value gives the
/// variant.
pub proof fn law_stop_mode_values()
    ensures
        StopMode::AllowFadeout.spec_raw() == 0u32,
        StopMode::spec_from(0u32) == StopMode::AllowFadeout,
        StopMode::Immediate.spec_raw() == 1u32,
        StopMode::spec_from(1u32) == StopMode::Immediate,
{
}

/// The kind of an event parameter.
#[derive(Debug, Clone, Copy, PartialEq, Eq, Structural)]
pub enum ParameterKind {
    /// Set by the game.
    GameControlled,
    /// Distance between the event and the listener.
    AutomaticDistance,
    /// Angle between the event's forward vector and the vector to the listener.
    AutomaticEventConeAngle,
    /// Horizontal angle between the event's forward vector and the listener's forward vector.
    AutomaticEventOrientation,
    /// Horizontal angle between the listener's forward vector and the vector to the event.
    AutomaticDirection,
    /// Angle between the listener's horizontal plane and the vector to the event.
    AutomaticElevation,
    /// Horizontal angle between the listener's forward vector and the global positive Z axis.
    AutomaticListenerOrientation,
    /// Magnitude of the relative velocity of the event and the listener.
    AutomaticSpeed,
    /// Magnitude of the absolute velocity of the event.
    AutomaticSpeedAbsolute,
    /// Distance between the event and the listener, scaled to the event's distance range.
    AutomaticDistanceNormalized,
}

/// The raw FMOD value of [`ParameterKind::GameControlled`].
pub const FMOD_STUDIO_PARAMETER_GAME_CONTROLLED: u32 = 0;

/// The raw FMOD value of [`ParameterKind::AutomaticDistance`].
pub const FMOD_STUDIO_PARAMETER_AUTOMATIC_DISTANCE: u32 = 1;

/// The raw FMOD value of [`ParameterKind::AutomaticEventConeAngle`].
pub const FMOD_STUDIO_PARAMETER_AUTOMATIC_EVENT_CONE_ANGLE: u32 = 2;

/// The raw FMOD value of [`ParameterKind::AutomaticEventOrientation`].
pub const FMOD_STUDIO_PARAMETER_AUTOMATIC_EVENT_ORIENTATION: u32 = 3;

/// The raw FMOD value of [`ParameterKind::AutomaticDirection`].
pub const FMOD_STUDIO_PARAMETER_AUTOMATIC_DIRECTION: u32 = 4;

/// The raw FMOD value of [`ParameterKind::AutomaticElevation`].
pub const FMOD_STUDIO_PARAMETER_AUTOMATIC_ELEVATION: u32 = 5;

/// The raw FMOD value of [`ParameterKind::AutomaticListenerOrientation`].
pub const FMOD_STUDIO_PARAMETER_AUTOMATIC_LISTENER_ORIENTATION: u32 = 6;

/// The raw FMOD value of [`ParameterKind::AutomaticSpeed`].
pub const FMOD_STUDIO_PARAMETER_AUTOMATIC_SPEED: u32 = 7;

/// The raw FMOD value of [`ParameterKind::AutomaticSpeedAbsolute`].
pub const FMOD_STUDIO_PARAMETER_AUTOMATIC_SPEED_ABSOLUTE: u32 = 8;

/// The raw FMOD value of [`ParameterKind::AutomaticDistanceNormalized`].
pub const FMOD_STUDIO_PARAMETER_AUTOMATIC_DISTANCE_NORMALIZED: u32 = 9;

impl ParameterKind {
    /// The variant that a raw FMOD value stands for.
    pub open spec fn spec_from(value: u32) -> ParameterKind {
        if value == FMOD_STUDIO_PARAMETER_GAME_CONTROLLED {
            ParameterKind::GameControlled
        } else if value == FMOD_STUDIO_PARAMETER_AUTOMATIC_DISTANCE {
            ParameterKind::AutomaticDistance
        } else if value == FMOD_STUDIO_PARAMETER_AUTOMATIC_EVENT_CONE_ANGLE {
            ParameterKind::AutomaticEventConeAngle
        } else if value == FMOD_STUDIO_PARAMETER_AUTOMATIC_EVENT_ORIENTATION {
            ParameterKind::AutomaticEventOrientation
        } else if value == FMOD_STUDIO_PARAMETER_AUTOMATIC_DIRECTION {
            ParameterKind::AutomaticDirection
        } else if value == FMOD_STUDIO_PARAMETER_AUTOMATIC_ELEVATION {
            ParameterKind::AutomaticElevation
        } else if value == FMOD_STUDIO_PARAMETER_AUTOMATIC_LISTENER_ORIENTATION {
            ParameterKind::AutomaticListenerOrientation
        } else if value == FMOD_STUDIO_PARAMETER_AUTOMATIC_SPEED {
            ParameterKind::AutomaticSpeed
        } else if value == FMOD_STUDIO_PARAMETER_AUTOMATIC_SPEED_ABSOLUTE {
            ParameterKind::AutomaticSpeedAbsolute
        } else {
            ParameterKind::AutomaticDistanceNormalized
        }
    }

    /// The raw FMOD value of a variant.
    pub open spec fn spec_raw(self) -> u32 {
        match self {
            ParameterKind::GameControlled => FMOD_STUDIO_PARAMETER_GAME_CONTROLLED,
            ParameterKind::AutomaticDistance => FMOD_STUDIO_PARAMETER_AUTOMATIC_DISTANCE,
            ParameterKind::AutomaticEventConeAngle => FMOD_STUDIO_PARAMETER_AUTOMATIC_EVENT_CONE_ANGLE,
            ParameterKind::AutomaticEventOrientation => FMOD_STUDIO_PARAMETER_AUTOMATIC_EVENT_ORIENTATION,
            ParameterKind::AutomaticDirection => FMOD_STUDIO_PARAMETER_AUTOMATIC_DIRECTION,
            ParameterKind::AutomaticElevation => FMOD_STUDIO_PARAMETER_AUTOMATIC_ELEVATION,
            ParameterKind::AutomaticListenerOrientation => FMOD_STUDIO_PARAMETER_AUTOMATIC_LISTENER_ORIENTATION,
            ParameterKind::AutomaticSpeed => FMOD_STUDIO_PARAMETER_AUTOMATIC_SPEED,
            ParameterKind::AutomaticSpeedAbsolute => FMOD_STUDIO_PARAMETER_AUTOMATIC_SPEED_ABSOLUTE,
            ParameterKind::AutomaticDistanceNormalized => FMOD_STUDIO_PARAMETER_AUTOMATIC_DISTANCE_NORMALIZED,
        }
    }

    /// Reads a raw FMOD value. FMOD only hands out the values of the
    /// variants; any other value is refused by the precondition.
    pub fn from(value: u32) -> (res: ParameterKind)
        requires
            value < 10,
        ensures
            res == ParameterKind::spec_from(value),
            res.spec_raw() == value,
    {
        if value == FMOD_STUDIO_PARAMETER_GAME_CONTROLLED {
            ParameterKind::GameControlled
        } else if value == FMOD_STUDIO_PARAMETER_AUTOMATIC_DISTANCE {
            ParameterKind::AutomaticDistance
        } else if value == FMOD_STUDIO_PARAMETER_AUTOMATIC_EVENT_CONE_ANGLE {
            ParameterKind::AutomaticEventConeAngle
        } else if value == FMOD_STUDIO_PARAMETER_AUTOMATIC_EVENT_ORIENTATION {
            ParameterKind::AutomaticEventOrientation
        } else if value == FMOD_STUDIO_PARAMETER_AUTOMATIC_DIRECTION {
            ParameterKind::AutomaticDirection
        } else if value == FMOD_STUDIO_PARAMETER_AUTOMATIC_ELEVATION {
            ParameterKind::AutomaticElevation
        } else if value == FMOD_STUDIO_PARAMETER_AUTOMATIC_LISTENER_ORIENTATION {
            ParameterKind::AutomaticListenerOrientation
        } else if value == FMOD_STUDIO_PARAMETER_AUTOMATIC_SPEED {
            ParameterKind::AutomaticSpeed
        } else if value == FMOD_STUDIO_PARAMETER_AUTOMATIC_SPEED_ABSOLUTE {
            ParameterKind::AutomaticSpeedAbsolute
        } else {
            ParameterKind::AutomaticDistanceNormalized
        }
    }

    /// The raw FMOD value of this variant.
    pub fn into_raw(self) -> (res: u32)
        ensures
            res == self.spec_raw(),
            res < 10,
    {
        match self {
            ParameterKind::GameControlled => FMOD_STUDIO_PARAMETER_GAME_CONTROLLED,
            ParameterKind::AutomaticDistance => FMOD_STUDIO_PARAMETER_AUTOMATIC_DISTANCE,
            ParameterKind::AutomaticEventConeAngle => FMOD_STUDIO_PARAMETER_AUTOMATIC_EVENT_CONE_ANGLE,
            ParameterKind::AutomaticEventOrientation => FMOD_STUDIO_PARAMETER_AUTOMATIC_EVENT_ORIENTATION,
            ParameterKind::AutomaticDirection => FMOD_STUDIO_PARAMETER_AUTOMATIC_DIRECTION,
            ParameterKind::AutomaticElevation => FMOD_STUDIO_PARAMETER_AUTOMATIC_ELEVATION,
            ParameterKind::AutomaticListenerOrientation => FMOD_STUDIO_PARAMETER_AUTOMATIC_LISTENER_ORIENTATION,
            ParameterKind::AutomaticSpeed => FMOD_STUDIO_PARAMETER_AUTOMATIC_SPEED,
            ParameterKind::AutomaticSpeedAbsolute => FMOD_STUDIO_PARAMETER_AUTOMATIC_SPEED_ABSOLUTE,
            ParameterKind::AutomaticDistanceNormalized => FMOD_STUDIO_PARAMETER_AUTOMATIC_DISTANCE_NORMALIZED,
        }
    }
}

impl From<ParameterKind> for u32 {
    fn from(value: ParameterKind) -> (res: u32) {
        value.into_raw()
    }
}

impl vstd::std_specs::convert::FromSpecImpl<ParameterKind> for u32 {
    open spec fn obeys_from_spec() -> bool {
        true
    }

    open spec fn from_spec(value: ParameterKind) -> u32 {
        value.spec_raw()
    }
}

/// Law: reading back the raw value of a [`ParameterKind`] gives the same variant,
/// and the raw value of what a value in range reads as is that value.
pub proof fn law_parameter_kind_round_trip(kind: ParameterKind, value: u32)
    ensures
        ParameterKind::spec_from(kind.spec_raw()) == kind,
        kind.spec_raw() < 10,
        value < 10 ==> ParameterKind::spec_from(value).spec_raw() == value,
{
}

/// Law: each variant of [`ParameterKind`] has the raw value that FMOD's
/// header gives it (`GameControlled` is 0, `AutomaticDistance` is 1,
/// `AutomaticEventConeAngle` is 2, `AutomaticEventOrientation` is 3,
/// `AutomaticDirection` is 4, `AutomaticElevation` is 5,
/// `AutomaticListenerOrientation` is 6, `AutomaticSpeed` is 7,
/// `AutomaticSpeedAbsolute` is 8, `AutomaticDistanceNormalized` is 9), and
/// reading that value gives the variant.
pub proof fn law_parameter_kind_values()
    ensures
        ParameterKind::GameControlled.spec_raw() == 0u32,
        ParameterKind::spec_from(0u32) == ParameterKind::GameControlled,
        ParameterKind::AutomaticDistance.spec_raw() == 1u32,
        ParameterKind::spec_from(1u32) == ParameterKind::AutomaticDistance,
        ParameterKind::AutomaticEventConeAngle.spec_raw() == 2u32,
        ParameterKind::spec_from(2u32) == ParameterKind::AutomaticEventConeAngle,
        ParameterKind::AutomaticEventOrientation.spec_raw() == 3u32,
        ParameterKind::spec_from(3u32) == ParameterKind::AutomaticEventOrientation,
        ParameterKind::AutomaticDirection.spec_raw() == 4u32,
        ParameterKind::spec_from(4u32) == ParameterKind::AutomaticDirection,
        ParameterKind::AutomaticElevation.spec_raw() == 5u32,
        ParameterKind::spec_from(5u32) == ParameterKind::AutomaticElevation,
        ParameterKind::AutomaticListenerOrientation.spec_raw() == 6u32,
        ParameterKind::spec_from(6u32) == ParameterKind::AutomaticListenerOrientation,
        ParameterKind::AutomaticSpeed.spec_raw() == 7u32,
        ParameterKind::spec_from(7u32) == ParameterKind::AutomaticSpeed,
        ParameterKind::AutomaticSpeedAbsolute.spec_raw() == 8u32,
        ParameterKind::spec_from(8u32) == ParameterKind::AutomaticSpeedAbsolute,
        ParameterKind::AutomaticDistanceNormalized.spec_raw() == 9u32,
        ParameterKind::spec_from(9u32) == ParameterKind::AutomaticDistanceNormalized,
{
}

/// The playback state of an event instance or command replay.
#[derive(Debug, Clone, Copy, PartialEq, Eq, Structural)]
pub enum PlaybackState {
    /// Playing.
    Playing,
    /// Halted on a sustain point.
    Sustaining,
    /// Stopped.
    Stopped,
    /// About to start.
    Starting,
    /// About to stop.
    Stopping,
}

/// The raw FMOD value of [`PlaybackState::Playing`].
pub const FMOD_STUDIO_PLAYBACK_PLAYING: u32 = 0;

/// The raw FMOD value of [`PlaybackState::Sustaining`].
pub const FMOD_STUDIO_PLAYBACK_SUSTAINING: u32 = 1;

/// The raw FMOD value of [`PlaybackState::Stopped`].
pub const FMOD_STUDIO_PLAYBACK_STOPPED: u32 = 2;

/// The raw FMOD value of [`PlaybackState::Starting`].
pub const FMOD_STUDIO_PLAYBACK_STARTING: u32 = 3;

/// The raw FMOD value of [`PlaybackState::Stopping`].
pub const FMOD_STUDIO_PLAYBACK_STOPPING: u32 = 4;

impl PlaybackState {
    /// The variant that a raw FMOD value stands for.
    pub open spec fn spec_from(value: u32) -> PlaybackState {
        if value == FMOD_STUDIO_PLAYBACK_PLAYING {
            PlaybackState::Playing
        } else if value == FMOD_STUDIO_PLAYBACK_SUSTAINING {
            PlaybackState::Sustaining
        } else if value == FMOD_STUDIO_PLAYBACK_STOPPED {
            PlaybackState::Stopped
        } else if value == FMOD_STUDIO_PLAYBACK_STARTING {
            PlaybackState::Starting
        } else {
            PlaybackState::Stopping
        }
    }

    /// The raw FMOD value of a variant.
    pub open spec fn spec_raw(self) -> u32 {
        match self {
            PlaybackState::Playing => FMOD_STUDIO_PLAYBACK_PLAYING,
            PlaybackState::Sustaining => FMOD_STUDIO_PLAYBACK_SUSTAINING,
            PlaybackState::Stopped => FMOD_STUDIO_PLAYBACK_STOPPED,
            PlaybackState::Starting => FMOD_STUDIO_PLAYBACK_STARTING,
            PlaybackState::Stopping => FMOD_STUDIO_PLAYBACK_STOPPING,
        }
    }

    /// Reads a raw FMOD value. FMOD only hands out the values of the
    /// variants; any other value is refused by the precondition.
    pub fn from(value: u32) -> (res: PlaybackState)
        requires
            value < 5,
        ensures
            res == PlaybackState::spec_from(value),
            res.spec_raw() == value,
    {
        if value == FMOD_STUDIO_PLAYBACK_PLAYING {
            PlaybackState::Playing
        } else if value == FMOD_STUDIO_PLAYBACK_SUSTAINING {
            PlaybackState::Sustaining
        } else if value == FMOD_STUDIO_PLAYBACK_STOPPED {
            PlaybackState::Stopped
        } else if value == FMOD_STUDIO_PLAYBACK_STARTING {
            PlaybackState::Starting
        } else {
            PlaybackState::Stopping
        }
    }

    /// The raw FMOD value of this variant.
    pub fn into_raw(self) -> (res: u32)
        ensures
            res == self.spec_raw(),
            res < 5,
    {
        match self {
            PlaybackState::Playing => FMOD_STUDIO_PLAYBACK_PLAYING,
            PlaybackState::Sustaining => FMOD_STUDIO_PLAYBACK_SUSTAINING,
            PlaybackState::Stopped => FMOD_STUDIO_PLAYBACK_STOPPED,
            PlaybackState::Starting => FMOD_STUDIO_PLAYBACK_STARTING,
            PlaybackState::Stopping => FMOD_STUDIO_PLAYBACK_STOPPING,
        }
    }
}

impl From<PlaybackState> for u32 {
    fn from(value: PlaybackState) -> (res: u32) {
        value.into_raw()
    }
}

impl vstd::std_specs::convert::FromSpecImpl<PlaybackState> for u32 {
    open spec fn obeys_from_spec() -> bool {
        true
    }

    open spec fn from_spec(value: PlaybackState) -> u32 {
        value.spec_raw()
    }
}

/// Law: reading back the raw value of a [`PlaybackState`] gives the same variant,
/// and the raw value of what a value in range reads as is that value.
pub proof fn law_playback_state_round_trip(kind: PlaybackState, value: u32)
    ensures
        PlaybackState::spec_from(kind.spec_raw()) == kind,
        kind.spec_raw() < 5,
        value < 5 ==> PlaybackState::spec_from(value).spec_raw() == value,
{
}

/// Law: each variant of [`PlaybackState`] has the raw value that FMOD's
/// header gives it (`Playing` is 0, `Sustaining` is 1, `Stopped` is 2,
/// `Starting` is 3, `Stopping` is 4), and reading that value gives the variant.
pub proof fn law_playback_state_values()
    ensures
        PlaybackState::Playing.spec_raw() == 0u32,
        PlaybackState::spec_from(0u32) == PlaybackState::Playing,
        PlaybackState::Sustaining.spec_raw() == 1u32,
        PlaybackState::spec_from(1u32) == PlaybackState::Sustaining,
        PlaybackState::Stopped.spec_raw() == 2u32,
        PlaybackState::spec_from(2u32) == PlaybackState::Stopped,
        PlaybackState::Starting.spec_raw() == 3u32,
        PlaybackState::spec_from(3u32) == PlaybackState::Starting,
        PlaybackState::Stopping.spec_raw() == 4u32,
        PlaybackState::spec_from(4u32) == PlaybackState::Stopping,
{
}

/// A property of an event instance.
#[derive(Debug, Clone, Copy, PartialEq, Eq, Structural)]
pub enum EventProperty {
    /// Priority to set on core channels created by the event.
    ChannelPriority,
    /// Schedule delay in samples.
    ScheduleDelay,
    /// Schedule look-ahead on the timeline in samples.
    ScheduleLookahead,
    /// Override the event's 3D minimum distance.
    MinimumDistance,
    /// Override the event's 3D maximum distance.
    MaximumDistance,
    /// Override the event's cooldown.
    Cooldown,
}

/// The raw FMOD value of [`EventProperty::ChannelPriority`].
pub const FMOD_STUDIO_EVENT_PROPERTY_CHANNELPRIORITY: u32 = 0;

/// The raw FMOD value of [`EventProperty::ScheduleDelay`].
pub const FMOD_STUDIO_EVENT_PROPERTY_SCHEDULE_DELAY: u32 = 1;

/// The raw FMOD value of [`EventProperty::ScheduleLookahead`].
pub const FMOD_STUDIO_EVENT_PROPERTY_SCHEDULE_LOOKAHEAD: u32 = 2;

/// The raw FMOD value of [`EventProperty::MinimumDistance`].
pub const FMOD_STUDIO_EVENT_PROPERTY_MINIMUM_DISTANCE: u32 = 3;

/// The raw FMOD value of [`EventProperty::MaximumDistance`].
pub const FMOD_STUDIO_EVENT_PROPERTY_MAXIMUM_DISTANCE: u32 = 4;

/// The raw FMOD value of [`EventProperty::Cooldown`].
pub const FMOD_STUDIO_EVENT_PROPERTY_COOLDOWN: u32 = 5;

impl EventProperty {
    /// The variant that a raw FMOD value stands for.
    pub open spec fn spec_from(value: u32) -> EventProperty {
        if value == FMOD_STUDIO_EVENT_PROPERTY_CHANNELPRIORITY {
            EventProperty::ChannelPriority
        } else if value == FMOD_STUDIO_EVENT_PROPERTY_SCHEDULE_DELAY {
            EventProperty::ScheduleDelay
        } else if value == FMOD_STUDIO_EVENT_PROPERTY_SCHEDULE_LOOKAHEAD {
            EventProperty::ScheduleLookahead
        } else if value == FMOD_STUDIO_EVENT_PROPERTY_MINIMUM_DISTANCE {
            EventProperty::MinimumDistance
        } else if value == FMOD_STUDIO_EVENT_PROPERTY_MAXIMUM_DISTANCE {
            EventProperty::MaximumDistance
        } else {
            EventProperty::Cooldown
        }
    }

    /// The raw FMOD value of a variant.
    pub open spec fn spec_raw(self) -> u32 {
        match self {
            EventProperty::ChannelPriority => FMOD_STUDIO_EVENT_PROPERTY_CHANNELPRIORITY,
            EventProperty::ScheduleDelay => FMOD_STUDIO_EVENT_PROPERTY_SCHEDULE_DELAY,
            EventProperty::ScheduleLookahead => FMOD_STUDIO_EVENT_PROPERTY_SCHEDULE_LOOKAHEAD,
            EventProperty::MinimumDistance => FMOD_STUDIO_EVENT_PROPERTY_MINIMUM_DISTANCE,
            EventProperty::MaximumDistance => FMOD_STUDIO_EVENT_PROPERTY_MAXIMUM_DISTANCE,
            EventProperty::Cooldown => FMOD_STUDIO_EVENT_PROPERTY_COOLDOWN,
        }
    }

    /// Reads a raw FMOD value. FMOD only hands out the values of the
    /// variants; any other value is refused by the precondition.
    pub fn from(value: u32) -> (res: EventProperty)
        requires
            value < 6,
        ensures
            res == EventProperty::spec_from(value),
            res.spec_raw() == value,
    {
        if value == FMOD_STUDIO_EVENT_PROPERTY_CHANNELPRIORITY {
            EventProperty::ChannelPriority
        } else if value == FMOD_STUDIO_EVENT_PROPERTY_SCHEDULE_DELAY {
            EventProperty::ScheduleDelay
        } else if value == FMOD_STUDIO_EVENT_PROPERTY_SCHEDULE_LOOKAHEAD {
            EventProperty::ScheduleLookahead
        } else if value == FMOD_STUDIO_EVENT_PROPERTY_MINIMUM_DISTANCE {
            EventProperty::MinimumDistance
        } else if value == FMOD_STUDIO_EVENT_PROPERTY_MAXIMUM_DISTANCE {
            EventProperty::MaximumDistance
        } else {
            EventProperty::Cooldown
        }
    }

    /// The raw FMOD value of this variant.
    pub fn into_raw(self) -> (res: u32)
        ensures
            res == self.spec_raw(),
            res < 6,
    {
        match self {
            EventProperty::ChannelPriority => FMOD_STUDIO_EVENT_PROPERTY_CHANNELPRIORITY,
            EventProperty::ScheduleDelay => FMOD_STUDIO_EVENT_PROPERTY_SCHEDULE_DELAY,
            EventProperty::ScheduleLookahead => FMOD_STUDIO_EVENT_PROPERTY_SCHEDULE_LOOKAHEAD,
            EventProperty::MinimumDistance => FMOD_STUDIO_EVENT_PROPERTY_MINIMUM_DISTANCE,
            EventProperty::MaximumDistance => FMOD_STUDIO_EVENT_PROPERTY_MAXIMUM_DISTANCE,
            EventProperty::Cooldown => FMOD_STUDIO_EVENT_PROPERTY_COOLDOWN,
        }
    }
}

impl From<EventProperty> for u32 {
    fn from(value: EventProperty) -> (res: u32) {
        value.into_raw()
    }
}

impl vstd::std_specs::convert::FromSpecImpl<EventProperty> for u32 {
    open spec fn obeys_from_spec() -> bool {
        true
    }

    open spec fn from_spec(value: EventProperty) -> u32 {
        value.spec_raw()
    }
}

/// Law: reading back the raw value of a [`EventProperty`] gives the same variant,
/// and the raw value of what a value in range reads as is that value.
pub proof fn law_event_property_round_trip(kind: EventProperty, value: u32)
    ensures
        EventProperty::spec_from(kind.spec_raw()) == kind,
        kind.spec_raw() < 6,
        value < 6 ==> EventProperty::spec_from(value).spec_raw() == value,
{
}

/// Law: each variant of [`EventProperty`] has the raw value that FMOD's
/// header gives it (`ChannelPriority` is 0, `ScheduleDelay` is 1,
/// `ScheduleLookahead` is 2, `MinimumDistance` is 3, `MaximumDistance` is 4,
/// `Cooldown` is 5), and reading that value gives the variant.
pub proof fn law_event_property_values()
    ensures
        EventProperty::ChannelPriority.spec_raw() == 0u32,
        EventProperty::spec_from(0u32) == EventProperty::ChannelPriority,
        EventProperty::ScheduleDelay.spec_raw() == 1u32,
        EventProperty::spec_from(1u32) == EventProperty::ScheduleDelay,
        EventProperty::ScheduleLookahead.spec_raw() == 2u32,
        EventProperty::spec_from(2u32) == EventProperty::ScheduleLookahead,
        EventProperty::MinimumDistance.spec_raw() == 3u32,
        EventProperty::spec_from(3u32) == EventProperty::MinimumDistance,
        EventProperty::MaximumDistance.spec_raw() == 4u32,
        EventProperty::spec_from(4u32) == EventProperty::MaximumDistance,
        EventProperty::Cooldown.spec_raw() == 5u32,
        EventProperty::spec_from(5u32) == EventProperty::Cooldown,
{
}

/// The kind of a Studio API object.
#[derive(Debug, Clone, Copy, PartialEq, Eq, Structural)]
pub enum InstanceType {
    /// No object (the raw kind FMOD calls none).
    NoInstance,
    /// A Studio system.
    System,
    /// An event description.
    EventDescription,
    /// An event instance.
    EventInstance,
    /// A parameter instance.
    ParameterInstance,
    /// A bus.
    Bus,
    /// A VCA.
    Vca,
    /// A bank.
    Bank,
    /// A command replay.
    CommandReplay,
}

/// The raw FMOD value of [`InstanceType::NoInstance`].
pub const FMOD_STUDIO_INSTANCETYPE_NONE: u32 = 0;

/// The raw FMOD value of [`InstanceType::System`].
pub const FMOD_STUDIO_INSTANCETYPE_SYSTEM: u32 = 1;

/// The raw FMOD value of [`InstanceType::EventDescription`].
pub const FMOD_STUDIO_INSTANCETYPE_EVENTDESCRIPTION: u32 = 2;

/// The raw FMOD value of [`InstanceType::EventInstance`].
pub const FMOD_STUDIO_INSTANCETYPE_EVENTINSTANCE: u32 = 3;

/// The raw FMOD value of [`InstanceType::ParameterInstance`].
pub const FMOD_STUDIO_INSTANCETYPE_PARAMETERINSTANCE: u32 = 4;

/// The raw FMOD value of [`InstanceType::Bus`].
pub const FMOD_STUDIO_INSTANCETYPE_BUS: u32 = 5;

/// The raw FMOD value of [`InstanceType::Vca`].
pub const FMOD_STUDIO_INSTANCETYPE_VCA: u32 = 6;

/// The raw FMOD value of [`InstanceType::Bank`].
pub const FMOD_STUDIO_INSTANCETYPE_BANK: u32 = 7;

/// The raw FMOD value of [`InstanceType::CommandReplay`].
pub const FMOD_STUDIO_INSTANCETYPE_COMMANDREPLAY: u32 = 8;

impl InstanceType {
    /// The variant that a raw FMOD value stands for.
    pub open spec fn spec_from(value: u32) -> InstanceType {
        if value == FMOD_STUDIO_INSTANCETYPE_NONE {
            InstanceType::NoInstance
        } else if value == FMOD_STUDIO_INSTANCETYPE_SYSTEM {
            InstanceType::System
        } else if value == FMOD_STUDIO_INSTANCETYPE_EVENTDESCRIPTION {
            InstanceType::EventDescription
        } else if value == FMOD_STUDIO_INSTANCETYPE_EVENTINSTANCE {
            InstanceType::EventInstance
        } else if value == FMOD_STUDIO_INSTANCETYPE_PARAMETERINSTANCE {
            InstanceType::ParameterInstance
        } else if value == FMOD_STUDIO_INSTANCETYPE_BUS {
            InstanceType::Bus
        } else if value == FMOD_STUDIO_INSTANCETYPE_VCA {
            InstanceType::Vca
        } else if value == FMOD_STUDIO_INSTANCETYPE_BANK {
            InstanceType::Bank
        } else {
            InstanceType::CommandReplay
        }
    }

    /// The raw FMOD value of a variant.
    pub open spec fn spec_raw(self) -> u32 {
        match self {
            InstanceType::NoInstance => FMOD_STUDIO_INSTANCETYPE_NONE,
            InstanceType::System => FMOD_STUDIO_INSTANCETYPE_SYSTEM,
            InstanceType::EventDescription => FMOD_STUDIO_INSTANCETYPE_EVENTDESCRIPTION,
            InstanceType::EventInstance => FMOD_STUDIO_INSTANCETYPE_EVENTINSTANCE,
            InstanceType::ParameterInstance => FMOD_STUDIO_INSTANCETYPE_PARAMETERINSTANCE,
            InstanceType::Bus => FMOD_STUDIO_INSTANCETYPE_BUS,
            InstanceType::Vca => FMOD_STUDIO_INSTANCETYPE_VCA,
            InstanceType::Bank => FMOD_STUDIO_INSTANCETYPE_BANK,
            InstanceType::CommandReplay => FMOD_STUDIO_INSTANCETYPE_COMMANDREPLAY,
        }
    }

    /// Reads a raw FMOD value. FMOD only hands out the values of the
    /// variants; any other value is refused by the precondition.
    pub fn from(value: u32) -> (res: InstanceType)
        requires
            value < 9,
        ensures
            res == InstanceType::spec_from(value),
            res.spec_raw() == value,
    {
        if value == FMOD_STUDIO_INSTANCETYPE_NONE {
            InstanceType::NoInstance
        } else if value == FMOD_STUDIO_INSTANCETYPE_SYSTEM {
            InstanceType::System
        } else if value == FMOD_STUDIO_INSTANCETYPE_EVENTDESCRIPTION {
            InstanceType::EventDescription
        } else if value == FMOD_STUDIO_INSTANCETYPE_EVENTINSTANCE {
            InstanceType::EventInstance
        } else if value == FMOD_STUDIO_INSTANCETYPE_PARAMETERINSTANCE {
            InstanceType::ParameterInstance
        } else if value == FMOD_STUDIO_INSTANCETYPE_BUS {
            InstanceType::Bus
        } else if value == FMOD_STUDIO_INSTANCETYPE_VCA {
            InstanceType::Vca
        } else if value == FMOD_STUDIO_INSTANCETYPE_BANK {
            InstanceType::Bank
        } else {
            InstanceType::CommandReplay
        }
    }

    /// The raw FMOD value of this variant.
    pub fn into_raw(self) -> (res: u32)
        ensures
            res == self.spec_raw(),
            res < 9,
    {
        match self {
            InstanceType::NoInstance => FMOD_STUDIO_INSTANCETYPE_NONE,
            InstanceType::System => FMOD_STUDIO_INSTANCETYPE_SYSTEM,
            InstanceType::EventDescription => FMOD_STUDIO_INSTANCETYPE_EVENTDESCRIPTION,
            InstanceType::EventInstance => FMOD_STUDIO_INSTANCETYPE_EVENTINSTANCE,
            InstanceType::ParameterInstance => FMOD_STUDIO_INSTANCETYPE_PARAMETERINSTANCE,
            InstanceType::Bus => FMOD_STUDIO_INSTANCETYPE_BUS,
            InstanceType::Vca => FMOD_STUDIO_INSTANCETYPE_VCA,
            InstanceType::Bank => FMOD_STUDIO_INSTANCETYPE_BANK,
            InstanceType::CommandReplay => FMOD_STUDIO_INSTANCETYPE_COMMANDREPLAY,
        }
    }
}

impl From<InstanceType> for u32 {
    fn from(value: InstanceType) -> (res: u32) {
        value.into_raw()
    }
}

impl vstd::std_specs::convert::FromSpecImpl<InstanceType> for u32 {
    open spec fn obeys_from_spec() -> bool {
        true
    }

    open spec fn from_spec(value: InstanceType) -> u32 {
        value.spec_raw()
    }
}

/// Law: reading back the raw value of a [`InstanceType`] gives the same variant,
/// and the raw value of what a value in range reads as is that value.
pub proof fn law_instance_type_round_trip(kind: InstanceType, value: u32)
    ensures
        InstanceType::spec_from(kind.spec_raw()) == kind,
        kind.spec_raw() < 9,
        value < 9 ==> InstanceType::spec_from(value).spec_raw() == value,
{
}

/// Law: each variant of [`InstanceType`] has the raw value that FMOD's
/// header gives it (`NoInstance` is 0, `System` is 1, `EventDescription` is 2,
/// `EventInstance` is 3, `ParameterInstance` is 4, `Bus` is 5, `Vca` is 6,
/// `Bank` is 7, `CommandReplay` is 8), and reading that value gives the
/// variant.
pub proof fn law_instance_type_values()
    ensures
        InstanceType::NoInstance.spec_raw() == 0u32,
        InstanceType::spec_from(0u32) == InstanceType::NoInstance,
        InstanceType::System.spec_raw() == 1u32,
        InstanceType::spec_from(1u32) == InstanceType::System,
        InstanceType::EventDescription.spec_raw() == 2u32,
        InstanceType::spec_from(2u32) == InstanceType::EventDescription,
        InstanceType::EventInstance.spec_raw() == 3u32,
        InstanceType::spec_from(3u32) == InstanceType::EventInstance,
        InstanceType::ParameterInstance.spec_raw() == 4u32,
        InstanceType::spec_from(4u32) == InstanceType::ParameterInstance,
        InstanceType::Bus.spec_raw() == 5u32,
        InstanceType::spec_from(5u32) == InstanceType::Bus,
        InstanceType::Vca.spec_raw() == 6u32,
        InstanceType::spec_from(6u32) == InstanceType::Vca,
        InstanceType::Bank.spec_raw() == 7u32,
        InstanceType::spec_from(7u32) == InstanceType::Bank,
        InstanceType::CommandReplay.spec_raw() == 8u32,
        InstanceType::spec_from(8u32) == InstanceType::CommandReplay,
{
}

} // verus!
