//! The value kinds of the FMOD core and their raw FMOD values.

use vstd::prelude::*;

verus! {

/// The speaker layout of the mixer.
#[derive(Debug, Clone, Copy, PartialEq, Eq, Structural)]
pub enum SpeakerMode {
    /// The platform's default layout.
    Default,
    /// No speaker layout: channels go out as they are.
    Raw,
    /// One speaker.
    Mono,
    /// Two speakers: left and right.
    Stereo,
    /// Four speakers: front and surround pairs.
    Quad,
    /// Five speakers: front pair, center, surround pair.
    Surround,
    /// Six speakers: 5.1.
    FivePointOne,
    /// Eight speakers: 7.1.
    SevenPointOne,
    /// Twelve speakers: 7.1.4.
    SevenPointOneFour,
}

/// The raw FMOD value of [`SpeakerMode::Default`].
pub const FMOD_SPEAKERMODE_DEFAULT: u32 = 0;

/// The raw FMOD value of [`SpeakerMode::Raw`].
pub const FMOD_SPEAKERMODE_RAW: u32 = 1;

/// The raw FMOD value of [`SpeakerMode::Mono`].
pub const FMOD_SPEAKERMODE_MONO: u32 = 2;

/// The raw FMOD value of [`SpeakerMode::Stereo`].
pub const FMOD_SPEAKERMODE_STEREO: u32 = 3;

/// The raw FMOD value of [`SpeakerMode::Quad`].
pub const FMOD_SPEAKERMODE_QUAD: u32 = 4;

/// The raw FMOD value of [`SpeakerMode::Surround`].
pub const FMOD_SPEAKERMODE_SURROUND: u32 = 5;

/// The raw FMOD value of [`SpeakerMode::FivePointOne`].
pub const FMOD_SPEAKERMODE_5POINT1: u32 = 6;

/// The raw FMOD value of [`SpeakerMode::SevenPointOne`].
pub const FMOD_SPEAKERMODE_7POINT1: u32 = 7;

/// The raw FMOD value of [`SpeakerMode::SevenPointOneFour`].
pub const FMOD_SPEAKERMODE_7POINT1POINT4: u32 = 8;

impl SpeakerMode {
    /// The variant that a raw FMOD value stands for.
    pub open spec fn spec_from(value: u32) -> SpeakerMode {
        if value == FMOD_SPEAKERMODE_DEFAULT {
            SpeakerMode::Default
        } else if value == FMOD_SPEAKERMODE_RAW {
            SpeakerMode::Raw
        } else if value == FMOD_SPEAKERMODE_MONO {
            SpeakerMode::Mono
        } else if value == FMOD_SPEAKERMODE_STEREO {
            SpeakerMode::Stereo
        } else if value == FMOD_SPEAKERMODE_QUAD {
            SpeakerMode::Quad
        } else if value == FMOD_SPEAKERMODE_SURROUND {
            SpeakerMode::Surround
        } else if value == FMOD_SPEAKERMODE_5POINT1 {
            SpeakerMode::FivePointOne
        } else if value == FMOD_SPEAKERMODE_7POINT1 {
            SpeakerMode::SevenPointOne
        } else {
            SpeakerMode::SevenPointOneFour
        }
    }

    /// The raw FMOD value of a variant.
    pub open spec fn spec_raw(self) -> u32 {
        match self {
            SpeakerMode::Default => FMOD_SPEAKERMODE_DEFAULT,
            SpeakerMode::Raw => FMOD_SPEAKERMODE_RAW,
            SpeakerMode::Mono => FMOD_SPEAKERMODE_MONO,
            SpeakerMode::Stereo => FMOD_SPEAKERMODE_STEREO,
            SpeakerMode::Quad => FMOD_SPEAKERMODE_QUAD,
            SpeakerMode::Surround => FMOD_SPEAKERMODE_SURROUND,
            SpeakerMode::FivePointOne => FMOD_SPEAKERMODE_5POINT1,
            SpeakerMode::SevenPointOne => FMOD_SPEAKERMODE_7POINT1,
            SpeakerMode::SevenPointOneFour => FMOD_SPEAKERMODE_7POINT1POINT4,
        }
    }

    /// Reads a raw FMOD value. FMOD only hands out the values of the
    /// variants; any other value is refused by the precondition.
    pub fn from(value: u32) -> (res: SpeakerMode)
        requires
            value < 9,
        ensures
            res == SpeakerMode::spec_from(value),
            res.spec_raw() == value,
    {
        if value == FMOD_SPEAKERMODE_DEFAULT {
            SpeakerMode::Default
        } else if value == FMOD_SPEAKERMODE_RAW {
            SpeakerMode::Raw
        } else if value == FMOD_SPEAKERMODE_MONO {
            SpeakerMode::Mono
        } else if value == FMOD_SPEAKERMODE_STEREO {
            SpeakerMode::Stereo
        } else if value == FMOD_SPEAKERMODE_QUAD {
            SpeakerMode::Quad
        } else if value == FMOD_SPEAKERMODE_SURROUND {
            SpeakerMode::Surround
        } else if value == FMOD_SPEAKERMODE_5POINT1 {
            SpeakerMode::FivePointOne
        } else if value == FMOD_SPEAKERMODE_7POINT1 {
            SpeakerMode::SevenPointOne
        } else {
            SpeakerMode::SevenPointOneFour
        }
    }

    /// The raw FMOD value of this variant.
    pub fn into_raw(self) -> (res: u32)
        ensures
            res == self.spec_raw(),
            res < 9,
    {
        match self {
            SpeakerMode::Default => FMOD_SPEAKERMODE_DEFAULT,
            SpeakerMode::Raw => FMOD_SPEAKERMODE_RAW,
            SpeakerMode::Mono => FMOD_SPEAKERMODE_MONO,
            SpeakerMode::Stereo => FMOD_SPEAKERMODE_STEREO,
            SpeakerMode::Quad => FMOD_SPEAKERMODE_QUAD,
            SpeakerMode::Surround => FMOD_SPEAKERMODE_SURROUND,
            SpeakerMode::FivePointOne => FMOD_SPEAKERMODE_5POINT1,
            SpeakerMode::SevenPointOne => FMOD_SPEAKERMODE_7POINT1,
            SpeakerMode::SevenPointOneFour => FMOD_SPEAKERMODE_7POINT1POINT4,
        }
    }
}

impl From<SpeakerMode> for u32 {
    fn from(value: SpeakerMode) -> (res: u32) {
        value.into_raw()
    }
}

impl vstd::std_specs::convert::FromSpecImpl<SpeakerMode> for u32 {
    open spec fn obeys_from_spec() -> bool {
        true
    }

    open spec fn from_spec(value: SpeakerMode) -> u32 {
        value.spec_raw()
    }
}

/// Law: reading back the raw value of a [`SpeakerMode`] gives the same variant,
/// and the raw value of what a value in range reads as is that value.
pub proof fn law_speaker_mode_round_trip(kind: SpeakerMode, value: u32)
    ensures
        SpeakerMode::spec_from(kind.spec_raw()) == kind,
        kind.spec_raw() < 9,
        value < 9 ==> SpeakerMode::spec_from(value).spec_raw() == value,
{
}

/// Law: each variant of [`SpeakerMode`] has the raw value that FMOD's
/// header gives it (`Default` is 0, `Raw` is 1, `Mono` is 2, `Stereo` is 3,
/// `Quad` is 4, `Surround` is 5, `FivePointOne` is 6, `SevenPointOne` is 7,
/// `SevenPointOneFour` is 8), and reading that value gives the variant.
pub proof fn law_speaker_mode_values()
    ensures
        SpeakerMode::Default.spec_raw() == 0u32,
        SpeakerMode::spec_from(0u32) == SpeakerMode::Default,
        SpeakerMode::Raw.spec_raw() == 1u32,
        SpeakerMode::spec_from(1u32) == SpeakerMode::Raw,
        SpeakerMode::Mono.spec_raw() == 2u32,
        SpeakerMode::spec_from(2u32) == SpeakerMode::Mono,
        SpeakerMode::Stereo.spec_raw() == 3u32,
        SpeakerMode::spec_from(3u32) == SpeakerMode::Stereo,
        SpeakerMode::Quad.spec_raw() == 4u32,
        SpeakerMode::spec_from(4u32) == SpeakerMode::Quad,
        SpeakerMode::Surround.spec_raw() == 5u32,
        SpeakerMode::spec_from(5u32) == SpeakerMode::Surround,
        SpeakerMode::FivePointOne.spec_raw() == 6u32,
        SpeakerMode::spec_from(6u32) == SpeakerMode::FivePointOne,
        SpeakerMode::SevenPointOne.spec_raw() == 7u32,
        SpeakerMode::spec_from(7u32) == SpeakerMode::SevenPointOne,
        SpeakerMode::SevenPointOneFour.spec_raw() == 8u32,
        SpeakerMode::spec_from(8u32) == SpeakerMode::SevenPointOneFour,
{
}

} // verus!
