//! The decisions of the FMOD Studio callbacks that the bindings install:
//! which user callback to call, and when to free userdata.
//!
//! The callbacks themselves run inside FMOD; these functions decide, from
//! the raw callback type and the state that the bindings keep, what they do.

use vstd::prelude::*;

use crate::string_query::FMOD_OK;

verus! {

/// The kind of an event callback, without the data that comes with it.
#[derive(Debug, Clone, Copy, PartialEq, Eq, Structural)]
pub enum EventCallbackTag {
    /// An instance was created.
    Created,
    /// An instance is about to be destroyed.
    Destroyed,
    /// An instance is starting.
    Starting,
    /// An instance started playing.
    Started,
    /// An instance restarted.
    Restarted,
    /// An instance stopped.
    Stopped,
    /// An instance did not start.
    StartFailed,
    /// A programmer sound is to be created.
    CreateProgrammerSound,
    /// A programmer sound is to be destroyed.
    DestroyProgrammerSound,
    /// A DSP plugin instance was created.
    PluginCreated,
    /// A DSP plugin instance is about to be destroyed.
    PluginDestroyed,
    /// The timeline passed a named marker.
    TimelineMarker,
    /// The timeline hit a beat in a tempo section.
    TimelineBeat,
    /// A sound started playing.
    SoundPlayed,
    /// A sound stopped.
    SoundStopped,
    /// An instance became virtual.
    RealToVirtual,
    /// An instance became real.
    VirtualToReal,
    /// A command instrument started an instance.
    StartEventCommand,
    /// A nested timeline hit a beat.
    NestedTimelineBeat,
}

/// The raw bit of [`EventCallbackTag::Created`].
pub const FMOD_STUDIO_EVENT_CALLBACK_CREATED: u32 = 0x0000_0001;

/// The raw bit of [`EventCallbackTag::Destroyed`].
pub const FMOD_STUDIO_EVENT_CALLBACK_DESTROYED: u32 = 0x0000_0002;

/// The raw bit of [`EventCallbackTag::Starting`].
pub const FMOD_STUDIO_EVENT_CALLBACK_STARTING: u32 = 0x0000_0004;

/// The raw bit of [`EventCallbackTag::Started`].
pub const FMOD_STUDIO_EVENT_CALLBACK_STARTED: u32 = 0x0000_0008;

/// The raw bit of [`EventCallbackTag::Restarted`].
pub const FMOD_STUDIO_EVENT_CALLBACK_RESTARTED: u32 = 0x0000_0010;

/// The raw bit of [`EventCallbackTag::Stopped`].
pub const FMOD_STUDIO_EVENT_CALLBACK_STOPPED: u32 = 0x0000_0020;

/// The raw bit of [`EventCallbackTag::StartFailed`].
pub const FMOD_STUDIO_EVENT_CALLBACK_START_FAILED: u32 = 0x0000_0040;

/// The raw bit of [`EventCallbackTag::CreateProgrammerSound`].
pub const FMOD_STUDIO_EVENT_CALLBACK_CREATE_PROGRAMMER_SOUND: u32 = 0x0000_0080;

/// The raw bit of [`EventCallbackTag::DestroyProgrammerSound`].
pub const FMOD_STUDIO_EVENT_CALLBACK_DESTROY_PROGRAMMER_SOUND: u32 = 0x0000_0100;

/// The raw bit of [`EventCallbackTag::PluginCreated`].
pub const FMOD_STUDIO_EVENT_CALLBACK_PLUGIN_CREATED: u32 = 0x0000_0200;

/// The raw bit of [`EventCallbackTag::PluginDestroyed`].
pub const FMOD_STUDIO_EVENT_CALLBACK_PLUGIN_DESTROYED: u32 = 0x0000_0400;

/// The raw bit of [`EventCallbackTag::TimelineMarker`].
pub const FMOD_STUDIO_EVENT_CALLBACK_TIMELINE_MARKER: u32 = 0x0000_0800;

/// The raw bit of [`EventCallbackTag::TimelineBeat`].
pub const FMOD_STUDIO_EVENT_CALLBACK_TIMELINE_BEAT: u32 = 0x0000_1000;

/// The raw bit of [`EventCallbackTag::SoundPlayed`].
pub const FMOD_STUDIO_EVENT_CALLBACK_SOUND_PLAYED: u32 = 0x0000_2000;

/// The raw bit of [`EventCallbackTag::SoundStopped`].
pub const FMOD_STUDIO_EVENT_CALLBACK_SOUND_STOPPED: u32 = 0x0000_4000;

/// The raw bit of [`EventCallbackTag::RealToVirtual`].
pub const FMOD_STUDIO_EVENT_CALLBACK_REAL_TO_VIRTUAL: u32 = 0x0000_8000;

/// The raw bit of [`EventCallbackTag::VirtualToReal`].
pub const FMOD_STUDIO_EVENT_CALLBACK_VIRTUAL_TO_REAL: u32 = 0x0001_0000;

/// The raw bit of [`EventCallbackTag::StartEventCommand`].
pub const FMOD_STUDIO_EVENT_CALLBACK_START_EVENT_COMMAND: u32 = 0x0002_0000;

/// The raw bit of [`EventCallbackTag::NestedTimelineBeat`].
pub const FMOD_STUDIO_EVENT_CALLBACK_NESTED_TIMELINE_BEAT: u32 = 0x0004_0000;

/// The kind that a raw callback type stands for, where it stands for one.
pub open spec fn spec_event_callback_tag(kind: u32) -> Option<EventCallbackTag> {
    if kind == FMOD_STUDIO_EVENT_CALLBACK_CREATED {
        Some(EventCallbackTag::Created)
    } else if kind == FMOD_STUDIO_EVENT_CALLBACK_DESTROYED {
        Some(EventCallbackTag::Destroyed)
    } else if kind == FMOD_STUDIO_EVENT_CALLBACK_STARTING {
        Some(EventCallbackTag::Starting)
    } else if kind == FMOD_STUDIO_EVENT_CALLBACK_STARTED {
        Some(EventCallbackTag::Started)
    } else if kind == FMOD_STUDIO_EVENT_CALLBACK_RESTARTED {
        Some(EventCallbackTag::Restarted)
    } else if kind == FMOD_STUDIO_EVENT_CALLBACK_STOPPED {
        Some(EventCallbackTag::Stopped)
    } else if kind == FMOD_STUDIO_EVENT_CALLBACK_START_FAILED {
        Some(EventCallbackTag::StartFailed)
    } else if kind == FMOD_STUDIO_EVENT_CALLBACK_CREATE_PROGRAMMER_SOUND {
        Some(EventCallbackTag::CreateProgrammerSound)
    } else if kind == FMOD_STUDIO_EVENT_CALLBACK_DESTROY_PROGRAMMER_SOUND {
        Some(EventCallbackTag::DestroyProgrammerSound)
    } else if kind == FMOD_STUDIO_EVENT_CALLBACK_PLUGIN_CREATED {
        Some(EventCallbackTag::PluginCreated)
    } else if kind == FMOD_STUDIO_EVENT_CALLBACK_PLUGIN_DESTROYED {
        Some(EventCallbackTag::PluginDestroyed)
    } else if kind == FMOD_STUDIO_EVENT_CALLBACK_TIMELINE_MARKER {
        Some(EventCallbackTag::TimelineMarker)
    } else if kind == FMOD_STUDIO_EVENT_CALLBACK_TIMELINE_BEAT {
        Some(EventCallbackTag::TimelineBeat)
    } else if kind == FMOD_STUDIO_EVENT_CALLBACK_SOUND_PLAYED {
        Some(EventCallbackTag::SoundPlayed)
    } else if kind == FMOD_STUDIO_EVENT_CALLBACK_SOUND_STOPPED {
        Some(EventCallbackTag::SoundStopped)
    } else if kind == FMOD_STUDIO_EVENT_CALLBACK_REAL_TO_VIRTUAL {
        Some(EventCallbackTag::RealToVirtual)
    } else if kind == FMOD_STUDIO_EVENT_CALLBACK_VIRTUAL_TO_REAL {
        Some(EventCallbackTag::VirtualToReal)
    } else if kind == FMOD_STUDIO_EVENT_CALLBACK_START_EVENT_COMMAND {
        Some(EventCallbackTag::StartEventCommand)
    } else if kind == FMOD_STUDIO_EVENT_CALLBACK_NESTED_TIMELINE_BEAT {
        Some(EventCallbackTag::NestedTimelineBeat)
    } else {
        None
    }
}

/// The kind that a raw callback type stands for; `None` for a value that
/// is not one of FMOD's callback types.
pub fn event_callback_tag(kind: u32) -> (res: Option<EventCallbackTag>)
    ensures
        res == spec_event_callback_tag(kind),
{
    if kind == FMOD_STUDIO_EVENT_CALLBACK_CREATED {
        Some(EventCallbackTag::Created)
    } else if kind == FMOD_STUDIO_EVENT_CALLBACK_DESTROYED {
        Some(EventCallbackTag::Destroyed)
    } else if kind == FMOD_STUDIO_EVENT_CALLBACK_STARTING {
        Some(EventCallbackTag::Starting)
    } else if kind == FMOD_STUDIO_EVENT_CALLBACK_STARTED {
        Some(EventCallbackTag::Started)
    } else if kind == FMOD_STUDIO_EVENT_CALLBACK_RESTARTED {
        Some(EventCallbackTag::Restarted)
    } else if kind == FMOD_STUDIO_EVENT_CALLBACK_STOPPED {
        Some(EventCallbackTag::Stopped)
    } else if kind == FMOD_STUDIO_EVENT_CALLBACK_START_FAILED {
        Some(EventCallbackTag::StartFailed)
    } else if kind == FMOD_STUDIO_EVENT_CALLBACK_CREATE_PROGRAMMER_SOUND {
        Some(EventCallbackTag::CreateProgrammerSound)
    } else if kind == FMOD_STUDIO_EVENT_CALLBACK_DESTROY_PROGRAMMER_SOUND {
        Some(EventCallbackTag::DestroyProgrammerSound)
    } else if kind == FMOD_STUDIO_EVENT_CALLBACK_PLUGIN_CREATED {
        Some(EventCallbackTag::PluginCreated)
    } else if kind == FMOD_STUDIO_EVENT_CALLBACK_PLUGIN_DESTROYED {
        Some(EventCallbackTag::PluginDestroyed)
    } else if kind == FMOD_STUDIO_EVENT_CALLBACK_TIMELINE_MARKER {
        Some(EventCallbackTag::TimelineMarker)
    } else if kind == FMOD_STUDIO_EVENT_CALLBACK_TIMELINE_BEAT {
        Some(EventCallbackTag::TimelineBeat)
    } else if kind == FMOD_STUDIO_EVENT_CALLBACK_SOUND_PLAYED {
        Some(EventCallbackTag::SoundPlayed)
    } else if kind == FMOD_STUDIO_EVENT_CALLBACK_SOUND_STOPPED {
        Some(EventCallbackTag::SoundStopped)
    } else if kind == FMOD_STUDIO_EVENT_CALLBACK_REAL_TO_VIRTUAL {
        Some(EventCallbackTag::RealToVirtual)
    } else if kind == FMOD_STUDIO_EVENT_CALLBACK_VIRTUAL_TO_REAL {
        Some(EventCallbackTag::VirtualToReal)
    } else if kind == FMOD_STUDIO_EVENT_CALLBACK_START_EVENT_COMMAND {
        Some(EventCallbackTag::StartEventCommand)
    } else if kind == FMOD_STUDIO_EVENT_CALLBACK_NESTED_TIMELINE_BEAT {
        Some(EventCallbackTag::NestedTimelineBeat)
    } else {
        None
    }
}

/// The kind of a Studio system callback, without the data that comes with it.
#[derive(Debug, Clone, Copy, PartialEq, Eq, Structural)]
pub enum SystemCallbackTag {
    /// Before the Studio update.
    Preupdate,
    /// After the Studio update.
    Postupdate,
    /// A bank is being unloaded.
    BankUnload,
    /// Live update connected.
    LiveupdateConnected,
    /// Live update disconnected.
    LiveupdateDisconnected,
}

/// The raw bit of [`SystemCallbackTag::Preupdate`].
pub const FMOD_STUDIO_SYSTEM_CALLBACK_PREUPDATE: u32 = 0x0000_0001;

/// The raw bit of [`SystemCallbackTag::Postupdate`].
pub const FMOD_STUDIO_SYSTEM_CALLBACK_POSTUPDATE: u32 = 0x0000_0002;

/// The raw bit of [`SystemCallbackTag::BankUnload`].
pub const FMOD_STUDIO_SYSTEM_CALLBACK_BANK_UNLOAD: u32 = 0x0000_0004;

/// The raw bit of [`SystemCallbackTag::LiveupdateConnected`].
pub const FMOD_STUDIO_SYSTEM_CALLBACK_LIVEUPDATE_CONNECTED: u32 = 0x0000_0008;

/// The raw bit of [`SystemCallbackTag::LiveupdateDisconnected`].
pub const FMOD_STUDIO_SYSTEM_CALLBACK_LIVEUPDATE_DISCONNECTED: u32 = 0x0000_0010;

/// The kind that a raw callback type stands for, where it stands for one.
pub open spec fn spec_system_callback_tag(kind: u32) -> Option<SystemCallbackTag> {
    if kind == FMOD_STUDIO_SYSTEM_CALLBACK_PREUPDATE {
        Some(SystemCallbackTag::Preupdate)
    } else if kind == FMOD_STUDIO_SYSTEM_CALLBACK_POSTUPDATE {
        Some(SystemCallbackTag::Postupdate)
    } else if kind == FMOD_STUDIO_SYSTEM_CALLBACK_BANK_UNLOAD {
        Some(SystemCallbackTag::BankUnload)
    } else if kind == FMOD_STUDIO_SYSTEM_CALLBACK_LIVEUPDATE_CONNECTED {
        Some(SystemCallbackTag::LiveupdateConnected)
    } else if kind == FMOD_STUDIO_SYSTEM_CALLBACK_LIVEUPDATE_DISCONNECTED {
        Some(SystemCallbackTag::LiveupdateDisconnected)
    } else {
        None
    }
}

/// The kind that a raw callback type stands for; `None` for a value that
/// is not one of FMOD's callback types.
pub fn system_callback_tag(kind: u32) -> (res: Option<SystemCallbackTag>)
    ensures
        res == spec_system_callback_tag(kind),
{
    if kind == FMOD_STUDIO_SYSTEM_CALLBACK_PREUPDATE {
        Some(SystemCallbackTag::Preupdate)
    } else if kind == FMOD_STUDIO_SYSTEM_CALLBACK_POSTUPDATE {
        Some(SystemCallbackTag::Postupdate)
    } else if kind == FMOD_STUDIO_SYSTEM_CALLBACK_BANK_UNLOAD {
        Some(SystemCallbackTag::BankUnload)
    } else if kind == FMOD_STUDIO_SYSTEM_CALLBACK_LIVEUPDATE_CONNECTED {
        Some(SystemCallbackTag::LiveupdateConnected)
    } else if kind == FMOD_STUDIO_SYSTEM_CALLBACK_LIVEUPDATE_DISCONNECTED {
        Some(SystemCallbackTag::LiveupdateDisconnected)
    } else {
        None
    }
}

/// The raw callback mask that the bindings subscribe with for the user's
/// event callback mask: the user's mask, and always the destroyed callback,
/// so that the userdata of event instances is freed.
pub fn event_subscription_mask(mask: u32) -> (res: u32)
    ensures
        res == mask | FMOD_STUDIO_EVENT_CALLBACK_DESTROYED,
{
    mask | FMOD_STUDIO_EVENT_CALLBACK_DESTROYED
}

/// The raw callback mask that the bindings subscribe with for the user's
/// system callback mask: the user's mask, and always the bank-unload
/// callback, so that the userdata of banks is freed.
pub fn system_subscription_mask(mask: u32) -> (res: u32)
    ensures
        res == mask | FMOD_STUDIO_SYSTEM_CALLBACK_BANK_UNLOAD,
{
    mask | FMOD_STUDIO_SYSTEM_CALLBACK_BANK_UNLOAD
}

/// What the bindings do when FMOD calls back about an event.
#[derive(Debug, Clone, Copy, PartialEq, Eq)]
pub struct EventCallbackAction {
    /// The kind with which to call the user's callback, if it is to be called.
    pub invoke: Option<EventCallbackTag>,
    /// Whether to free the instance's userdata afterwards.
    pub release_userdata: bool,
}

/// What the bindings do when FMOD calls back about an event of kind `kind`:
/// the user's callback is called where there is one and its mask holds the
/// kind; the userdata is freed when an instance with its own userdata is
/// destroyed. A kind in the mask that is no FMOD callback type is refused
/// by the precondition (the bindings abort on it).
pub fn event_callback_action(
    kind: u32,
    has_callback: bool,
    callback_mask: u32,
    is_from_event_instance: bool,
) -> (res: EventCallbackAction)
    requires
        has_callback && callback_mask & kind == kind ==> spec_event_callback_tag(kind) is Some,
    ensures
        res.invoke == (if has_callback && callback_mask & kind == kind {
            spec_event_callback_tag(kind)
        } else {
            None
        }),
        res.release_userdata == (kind == FMOD_STUDIO_EVENT_CALLBACK_DESTROYED
            && is_from_event_instance),
{
    let invoke = if has_callback && callback_mask & kind == kind {
        event_callback_tag(kind)
    } else {
        None
    };
    EventCallbackAction {
        invoke: invoke,
        release_userdata: kind == FMOD_STUDIO_EVENT_CALLBACK_DESTROYED && is_from_event_instance,
    }
}

/// What the bindings do when FMOD calls back about the Studio system.
#[derive(Debug, Clone, Copy, PartialEq, Eq)]
pub struct SystemCallbackAction {
    /// The kind with which to call the user's callback, if it is to be called.
    pub invoke: Option<SystemCallbackTag>,
    /// Whether to free the userdata of the bank being unloaded and of its
    /// events.
    pub release_bank_userdata: bool,
}

/// What the bindings do when FMOD calls back about the Studio system with
/// kind `kind`: the user's callback is called where the system has userdata
/// with a callback whose mask holds the kind; a bank's userdata is freed
/// whenever a bank unloads. A kind in the mask that is no FMOD callback type
/// is refused by the precondition (the bindings abort on it).
pub fn system_callback_action(
    kind: u32,
    has_callback: bool,
    enabled_callbacks: u32,
) -> (res: SystemCallbackAction)
    requires
        has_callback && enabled_callbacks & kind == kind ==> spec_system_callback_tag(kind) is Some,
    ensures
        res.invoke == (if has_callback && enabled_callbacks & kind == kind {
            spec_system_callback_tag(kind)
        } else {
            None
        }),
        res.release_bank_userdata == (kind == FMOD_STUDIO_SYSTEM_CALLBACK_BANK_UNLOAD),
{
    let invoke = if has_callback && enabled_callbacks & kind == kind {
        system_callback_tag(kind)
    } else {
        None
    };
    SystemCallbackAction {
        invoke: invoke,
        release_bank_userdata: kind == FMOD_STUDIO_SYSTEM_CALLBACK_BANK_UNLOAD,
    }
}

/// Law: whatever event callback mask the user sets, the bindings subscribe
/// to the destroyed callback as well as to every kind the user asked for;
/// so when an instance with its own userdata is destroyed, FMOD calls back
/// and the userdata is freed, while the user's callback runs only if the
/// user asked for that kind.
pub proof fn law_event_userdata_always_freed(mask: u32)
    ensures
        (mask | FMOD_STUDIO_EVENT_CALLBACK_DESTROYED) & FMOD_STUDIO_EVENT_CALLBACK_DESTROYED
            == FMOD_STUDIO_EVENT_CALLBACK_DESTROYED,
        (mask | FMOD_STUDIO_EVENT_CALLBACK_DESTROYED) & mask == mask,
{
    assert((mask | 2u32) & 2u32 == 2u32) by (bit_vector);
    assert((mask | 2u32) & mask == mask) by (bit_vector);
}

/// Law: whatever system callback mask the user sets, the bindings subscribe
/// to bank unloading as well as to every kind the user asked for, so the
/// userdata of unloaded banks is always freed.
pub proof fn law_bank_userdata_always_freed(mask: u32)
    ensures
        (mask | FMOD_STUDIO_SYSTEM_CALLBACK_BANK_UNLOAD) & FMOD_STUDIO_SYSTEM_CALLBACK_BANK_UNLOAD
            == FMOD_STUDIO_SYSTEM_CALLBACK_BANK_UNLOAD,
        (mask | FMOD_STUDIO_SYSTEM_CALLBACK_BANK_UNLOAD) & mask == mask,
{
    assert((mask | 4u32) & 4u32 == 4u32) by (bit_vector);
    assert((mask | 4u32) & mask == mask) by (bit_vector);
}


/// Law: each kind of event callback is read from its own raw bit in
/// FMOD's header (the bit of `FMOD_STUDIO_EVENT_CALLBACK_X` reads as
/// `EventCallbackTag::X`), and no other raw value reads as a kind.
pub proof fn law_event_callback_bits()
    ensures
        spec_event_callback_tag(0x0000_0001u32) == Some(EventCallbackTag::Created),
        spec_event_callback_tag(0x0000_0002u32) == Some(EventCallbackTag::Destroyed),
        spec_event_callback_tag(0x0000_0004u32) == Some(EventCallbackTag::Starting),
        spec_event_callback_tag(0x0000_0008u32) == Some(EventCallbackTag::Started),
        spec_event_callback_tag(0x0000_0010u32) == Some(EventCallbackTag::Restarted),
        spec_event_callback_tag(0x0000_0020u32) == Some(EventCallbackTag::Stopped),
        spec_event_callback_tag(0x0000_0040u32) == Some(EventCallbackTag::StartFailed),
        spec_event_callback_tag(0x0000_0080u32) == Some(EventCallbackTag::CreateProgrammerSound),
        spec_event_callback_tag(0x0000_0100u32) == Some(EventCallbackTag::DestroyProgrammerSound),
        spec_event_callback_tag(0x0000_0200u32) == Some(EventCallbackTag::PluginCreated),
        spec_event_callback_tag(0x0000_0400u32) == Some(EventCallbackTag::PluginDestroyed),
        spec_event_callback_tag(0x0000_0800u32) == Some(EventCallbackTag::TimelineMarker),
        spec_event_callback_tag(0x0000_1000u32) == Some(EventCallbackTag::TimelineBeat),
        spec_event_callback_tag(0x0000_2000u32) == Some(EventCallbackTag::SoundPlayed),
        spec_event_callback_tag(0x0000_4000u32) == Some(EventCallbackTag::SoundStopped),
        spec_event_callback_tag(0x0000_8000u32) == Some(EventCallbackTag::RealToVirtual),
        spec_event_callback_tag(0x0001_0000u32) == Some(EventCallbackTag::VirtualToReal),
        spec_event_callback_tag(0x0002_0000u32) == Some(EventCallbackTag::StartEventCommand),
        spec_event_callback_tag(0x0004_0000u32) == Some(EventCallbackTag::NestedTimelineBeat),
        forall|kind: u32| spec_event_callback_tag(kind) is Some ==> {
            ||| kind == 0x0000_0001u32
            ||| kind == 0x0000_0002u32
            ||| kind == 0x0000_0004u32
            ||| kind == 0x0000_0008u32
            ||| kind == 0x0000_0010u32
            ||| kind == 0x0000_0020u32
            ||| kind == 0x0000_0040u32
            ||| kind == 0x0000_0080u32
            ||| kind == 0x0000_0100u32
            ||| kind == 0x0000_0200u32
            ||| kind == 0x0000_0400u32
            ||| kind == 0x0000_0800u32
            ||| kind == 0x0000_1000u32
            ||| kind == 0x0000_2000u32
            ||| kind == 0x0000_4000u32
            ||| kind == 0x0000_8000u32
            ||| kind == 0x0001_0000u32
            ||| kind == 0x0002_0000u32
            ||| kind == 0x0004_0000u32
        },
{
}

/// Law: each kind of system callback is read from its own raw bit in
/// FMOD's header (the bit of `FMOD_STUDIO_SYSTEM_CALLBACK_X` reads as
/// `SystemCallbackTag::X`), and no other raw value reads as a kind.
pub proof fn law_system_callback_bits()
    ensures
        spec_system_callback_tag(0x0000_0001u32) == Some(SystemCallbackTag::Preupdate),
        spec_system_callback_tag(0x0000_0002u32) == Some(SystemCallbackTag::Postupdate),
        spec_system_callback_tag(0x0000_0004u32) == Some(SystemCallbackTag::BankUnload),
        spec_system_callback_tag(0x0000_0008u32) == Some(SystemCallbackTag::LiveupdateConnected),
        spec_system_callback_tag(0x0000_0010u32) == Some(SystemCallbackTag::LiveupdateDisconnected),
        forall|kind: u32| spec_system_callback_tag(kind) is Some ==> {
            ||| kind == 0x0000_0001u32
            ||| kind == 0x0000_0002u32
            ||| kind == 0x0000_0004u32
            ||| kind == 0x0000_0008u32
            ||| kind == 0x0000_0010u32
        },
{
}

/// What an installed callback answers FMOD: the result of the user's
/// callback where it was called (`FMOD_OK` for success, else its error
/// code), and `FMOD_OK` where it was not. Freeing userdata never changes the
/// answer: an error while freeing a bank's userdata is only reported.
pub fn callback_result(user_result: Option<Result<(), u32>>) -> (res: u32)
    ensures
        res == match user_result {
            Some(Ok(())) => FMOD_OK,
            Some(Err(e)) => e,
            None => FMOD_OK,
        },
{
    match user_result {
        Some(Ok(())) => FMOD_OK,
        Some(Err(e)) => e,
        None => FMOD_OK,
    }
}

/// What the installed create-instance callback of a command replay hands
/// FMOD, from the user's answer: the instance to use (by its handle) where
/// the user created one, and the result code (`FMOD_OK`, or the user's
/// error, with no instance).
pub fn create_instance_outcome(result: Result<Option<u64>, u32>) -> (res: (Option<u64>, u32))
    ensures
        res == match result {
            Ok(Some(instance)) => (Some(instance), FMOD_OK),
            Ok(None) => (None::<u64>, FMOD_OK),
            Err(e) => (None::<u64>, e),
        },
{
    match result {
        Ok(Some(instance)) => (Some(instance), FMOD_OK),
        Ok(None) => (None, FMOD_OK),
        Err(e) => (None, e),
    }
}

/// What the installed load-bank callback of a command replay hands FMOD,
/// from the user's answer: the bank that was loaded (by its handle) where
/// the user loaded one, and the result code (`FMOD_OK`, or the user's error,
/// with no bank).
pub fn load_bank_outcome(result: Result<Option<u64>, u32>) -> (res: (Option<u64>, u32))
    ensures
        res == match result {
            Ok(Some(bank)) => (Some(bank), FMOD_OK),
            Ok(None) => (None::<u64>, FMOD_OK),
            Err(e) => (None::<u64>, e),
        },
{
    match result {
        Ok(Some(bank)) => (Some(bank), FMOD_OK),
        Ok(None) => (None, FMOD_OK),
        Err(e) => (None, e),
    }
}

} // verus!
