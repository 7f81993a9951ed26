//! Bit flags of the FMOD core: debug logging and memory kinds.

use vstd::prelude::*;

verus! {

/// Which log messages FMOD's logging build emits, and how they are shown.
///
/// A set of flag bits; the named flags are associated constants holding raw
/// bits, and `from_bits_truncate` makes a set of them.
#[derive(Debug, Clone, Copy, PartialEq, Eq, PartialOrd, Ord, Hash, Structural)]
pub struct DebugFlags {
    bits: u32,
}

impl View for DebugFlags {
    type V = u32;

    closed spec fn view(&self) -> u32 {
        self.bits
    }
}

impl DebugFlags {
    /// Log nothing.
    pub const NONE: u32 = 0x0000_0000;

    /// Log errors.
    pub const ERROR: u32 = 0x0000_0001;

    /// Log warnings and errors.
    pub const WARNING: u32 = 0x0000_0002;

    /// Log information, warnings and errors.
    pub const LOG: u32 = 0x0000_0004;

    /// Log memory operations.
    pub const MEMORY: u32 = 0x0000_0100;

    /// Log file system operations.
    pub const FILE: u32 = 0x0000_0200;

    /// Log codec initialization.
    pub const CODEC: u32 = 0x0000_0400;

    /// Log internal calls.
    pub const TRACE: u32 = 0x0000_0800;

    /// Show timestamps.
    pub const DISPLAY_TIMESTAMPS: u32 = 0x0001_0000;

    /// Show source file and line numbers.
    pub const DISPLAY_LINENUMBERS: u32 = 0x0002_0000;

    /// Show the thread that logged.
    pub const DISPLAY_THREAD: u32 = 0x0004_0000;

    /// The bits of all the named flags together.
    pub open spec fn spec_all_bits() -> u32 {
        0x0007_0F07
    }

    /// The set with no flag.
    pub fn empty() -> (res: DebugFlags)
        ensures
            res@ == 0,
    {
        DebugFlags { bits: 0 }
    }

    /// The set of all the named flags.
    pub fn all() -> (res: DebugFlags)
        ensures
            res@ == Self::spec_all_bits(),
    {
        DebugFlags { bits: 0x0007_0F07 }
    }

    /// The raw bits of the set.
    pub fn bits(&self) -> (res: u32)
        ensures
            res == self@,
    {
        self.bits
    }

    /// The set of the named flags among `bits`; other bits are dropped.
    pub fn from_bits_truncate(bits: u32) -> (res: DebugFlags)
        ensures
            res@ == bits & Self::spec_all_bits(),
    {
        DebugFlags { bits: bits & 0x0007_0F07 }
    }

    /// The set of `bits`, where every one of them is a named flag.
    pub fn from_bits(bits: u32) -> (res: Option<DebugFlags>)
        ensures
            res is Some <==> bits & !Self::spec_all_bits() == 0,
            res matches Some(f) ==> f@ == bits,
    {
        if bits & !0x0007_0F07u32 == 0 {
            Some(DebugFlags { bits: bits })
        } else {
            None
        }
    }

    /// The set of `bits`, named flags or not.
    pub fn from_bits_retain(bits: u32) -> (res: DebugFlags)
        ensures
            res@ == bits,
    {
        DebugFlags { bits: bits }
    }

    /// Whether no bit is set.
    pub fn is_empty(&self) -> (res: bool)
        ensures
            res == (self@ == 0),
    {
        self.bits == 0
    }

    /// Whether every named flag is set.
    pub fn is_all(&self) -> (res: bool)
        ensures
            res == (self@ & Self::spec_all_bits() == Self::spec_all_bits()),
    {
        self.bits & 0x0007_0F07 == 0x0007_0F07
    }

    /// Whether every bit of `other` is set in this set.
    pub fn contains(&self, other: DebugFlags) -> (res: bool)
        ensures
            res == (self@ & other@ == other@),
    {
        self.bits & other.bits == other.bits
    }

    /// Whether this set and `other` share a bit.
    pub fn intersects(&self, other: DebugFlags) -> (res: bool)
        ensures
            res == (self@ & other@ != 0),
    {
        self.bits & other.bits != 0
    }

    /// The bits set in either set.
    pub fn union(self, other: DebugFlags) -> (res: DebugFlags)
        ensures
            res@ == self@ | other@,
    {
        DebugFlags { bits: self.bits | other.bits }
    }

    /// The bits set in both sets.
    pub fn intersection(self, other: DebugFlags) -> (res: DebugFlags)
        ensures
            res@ == self@ & other@,
    {
        DebugFlags { bits: self.bits & other.bits }
    }

    /// The bits of this set that are not in `other`.
    pub fn difference(self, other: DebugFlags) -> (res: DebugFlags)
        ensures
            res@ == self@ & !other@,
    {
        DebugFlags { bits: self.bits & !other.bits }
    }

    /// Sets the bits of `other`.
    pub fn insert(&mut self, other: DebugFlags)
        ensures
            final(self)@ == old(self)@ | other@,
    {
        self.bits = self.bits | other.bits;
    }

    /// Clears the bits of `other`.
    pub fn remove(&mut self, other: DebugFlags)
        ensures
            final(self)@ == old(self)@ & !other@,
    {
        self.bits = self.bits & !other.bits;
    }
}

impl From<DebugFlags> for u32 {
    fn from(value: DebugFlags) -> (res: u32) {
        value.bits()
    }
}

impl vstd::std_specs::convert::FromSpecImpl<DebugFlags> for u32 {
    open spec fn obeys_from_spec() -> bool {
        true
    }

    open spec fn from_spec(value: DebugFlags) -> u32 {
        value@
    }
}

/// Law: truncating keeps only named flags and changes nothing a second time;
/// a set made of raw bits that are all named gives those bits back.
pub proof fn law_debug_flags_truncate(bits: u32)
    ensures
        (bits & DebugFlags::spec_all_bits()) & !DebugFlags::spec_all_bits() == 0,
        (bits & DebugFlags::spec_all_bits()) & DebugFlags::spec_all_bits() == bits & DebugFlags::spec_all_bits(),
        bits & !DebugFlags::spec_all_bits() == 0 ==> bits & DebugFlags::spec_all_bits() == bits,
{
    assert((bits & 0x0007_0F07u32) & !0x0007_0F07u32 == 0) by (bit_vector);
    assert((bits & 0x0007_0F07u32) & 0x0007_0F07u32 == bits & 0x0007_0F07u32) by (bit_vector);
    assert(bits & !0x0007_0F07u32 == 0 ==> bits & 0x0007_0F07u32 == bits) by (bit_vector);
}

/// Law: the set of all flags is exactly the named flags together, so
/// truncating keeps each named flag and drops every other bit.
pub proof fn law_debug_flags_all_named()
    ensures
        DebugFlags::spec_all_bits() == DebugFlags::ERROR | DebugFlags::WARNING | DebugFlags::LOG
            | DebugFlags::MEMORY | DebugFlags::FILE | DebugFlags::CODEC | DebugFlags::TRACE
            | DebugFlags::DISPLAY_TIMESTAMPS | DebugFlags::DISPLAY_LINENUMBERS
            | DebugFlags::DISPLAY_THREAD,
{
    assert(0x0007_0F07u32 == 0x0000_0001u32 | 0x0000_0002u32 | 0x0000_0004u32 | 0x0000_0100u32
        | 0x0000_0200u32 | 0x0000_0400u32 | 0x0000_0800u32 | 0x0001_0000u32 | 0x0002_0000u32
        | 0x0004_0000u32) by (bit_vector);
}

/// Law: a union contains both its parts; after `insert` the set contains
/// what was inserted, and after `remove` it shares no bit with it.
pub proof fn law_debug_flags_set_ops(a: u32, b: u32)
    ensures
        (a | b) & a == a,
        (a | b) & b == b,
        (a & !b) & b == 0,
{
    assert((a | b) & a == a) by (bit_vector);
    assert((a | b) & b == b) by (bit_vector);
    assert((a & !b) & b == 0) by (bit_vector);
}

/// The kinds of memory that FMOD allocates.
///
/// A set of flag bits; the named flags are associated constants holding raw
/// bits, and `from_bits_truncate` makes a set of them.
#[derive(Debug, Clone, Copy, PartialEq, Eq, PartialOrd, Ord, Hash, Structural)]
pub struct MemoryFlags {
    bits: u32,
}

impl View for MemoryFlags {
    type V = u32;

    closed spec fn view(&self) -> u32 {
        self.bits
    }
}

impl MemoryFlags {
    /// Standard memory.
    pub const NORMAL: u32 = 0x0000_0000;

    /// Stream file buffer, size controllable with the stream buffer size.
    pub const STREAM_FILE: u32 = 0x0000_0001;

    /// Stream decode buffer, size controllable with the decode buffer size.
    pub const STREAM_DECODE: u32 = 0x0000_0002;

    /// Sample data buffer: raw audio data.
    pub const SAMPLEDATA: u32 = 0x0000_0004;

    /// Deprecated DSP buffer kind.
    pub const DSP_BUFFER: u32 = 0x0000_0008;

    /// Memory allocated by a third-party plugin.
    pub const PLUGIN: u32 = 0x0000_0010;

    /// Persistent memory, not affected by freeing sounds or reverb.
    pub const PERSISTENT: u32 = 0x0020_0000;

    /// All kinds of memory.
    pub const ALL: u32 = 0xFFFF_FFFF;

    /// The bits of all the named flags together.
    pub open spec fn spec_all_bits() -> u32 {
        0xFFFF_FFFF
    }

    /// The set with no flag.
    pub fn empty() -> (res: MemoryFlags)
        ensures
            res@ == 0,
    {
        MemoryFlags { bits: 0 }
    }

    /// The set of all the named flags.
    pub fn all() -> (res: MemoryFlags)
        ensures
            res@ == Self::spec_all_bits(),
    {
        MemoryFlags { bits: 0xFFFF_FFFF }
    }

    /// The raw bits of the set.
    pub fn bits(&self) -> (res: u32)
        ensures
            res == self@,
    {
        self.bits
    }

    /// The set of the named flags among `bits`; other bits are dropped.
    pub fn from_bits_truncate(bits: u32) -> (res: MemoryFlags)
        ensures
            res@ == bits & Self::spec_all_bits(),
    {
        MemoryFlags { bits: bits & 0xFFFF_FFFF }
    }

    /// The set of `bits`, where every one of them is a named flag.
    pub fn from_bits(bits: u32) -> (res: Option<MemoryFlags>)
        ensures
            res is Some <==> bits & !Self::spec_all_bits() == 0,
            res matches Some(f) ==> f@ == bits,
    {
        if bits & !0xFFFF_FFFFu32 == 0 {
            Some(MemoryFlags { bits: bits })
        } else {
            None
        }
    }

    /// The set of `bits`, named flags or not.
    pub fn from_bits_retain(bits: u32) -> (res: MemoryFlags)
        ensures
            res@ == bits,
    {
        MemoryFlags { bits: bits }
    }

    /// Whether no bit is set.
    pub fn is_empty(&self) -> (res: bool)
        ensures
            res == (self@ == 0),
    {
        self.bits == 0
    }

    /// Whether every named flag is set.
    pub fn is_all(&self) -> (res: bool)
        ensures
            res == (self@ & Self::spec_all_bits() == Self::spec_all_bits()),
    {
        self.bits & 0xFFFF_FFFF == 0xFFFF_FFFF
    }

    /// Whether every bit of `other` is set in this set.
    pub fn contains(&self, other: MemoryFlags) -> (res: bool)
        ensures
            res == (self@ & other@ == other@),
    {
        self.bits & other.bits == other.bits
    }

    /// Whether this set and `other` share a bit.
    pub fn intersects(&self, other: MemoryFlags) -> (res: bool)
        ensures
            res == (self@ & other@ != 0),
    {
        self.bits & other.bits != 0
    }

    /// The bits set in either set.
    pub fn union(self, other: MemoryFlags) -> (res: MemoryFlags)
        ensures
            res@ == self@ | other@,
    {
        MemoryFlags { bits: self.bits | other.bits }
    }

    /// The bits set in both sets.
    pub fn intersection(self, other: MemoryFlags) -> (res: MemoryFlags)
        ensures
            res@ == self@ & other@,
    {
        MemoryFlags { bits: self.bits & other.bits }
    }

    /// The bits of this set that are not in `other`.
    pub fn difference(self, other: MemoryFlags) -> (res: MemoryFlags)
        ensures
            res@ == self@ & !other@,
    {
        MemoryFlags { bits: self.bits & !other.bits }
    }

    /// Sets the bits of `other`.
    pub fn insert(&mut self, other: MemoryFlags)
        ensures
            final(self)@ == old(self)@ | other@,
    {
        self.bits = self.bits | other.bits;
    }

    /// Clears the bits of `other`.
    pub fn remove(&mut self, other: MemoryFlags)
        ensures
            final(self)@ == old(self)@ & !other@,
    {
        self.bits = self.bits & !other.bits;
    }
}

impl From<MemoryFlags> for u32 {
    fn from(value: MemoryFlags) -> (res: u32) {
        value.bits()
    }
}

impl vstd::std_specs::convert::FromSpecImpl<MemoryFlags> for u32 {
    open spec fn obeys_from_spec() -> bool {
        true
    }

    open spec fn from_spec(value: MemoryFlags) -> u32 {
        value@
    }
}

/// Law: truncating keeps only named flags and changes nothing a second time;
/// a set made of raw bits that are all named gives those bits back.
pub proof fn law_memory_flags_truncate(bits: u32)
    ensures
        (bits & MemoryFlags::spec_all_bits()) & !MemoryFlags::spec_all_bits() == 0,
        (bits & MemoryFlags::spec_all_bits()) & MemoryFlags::spec_all_bits() == bits & MemoryFlags::spec_all_bits(),
        bits & !MemoryFlags::spec_all_bits() == 0 ==> bits & MemoryFlags::spec_all_bits() == bits,
{
    assert((bits & 0xFFFF_FFFFu32) & !0xFFFF_FFFFu32 == 0) by (bit_vector);
    assert((bits & 0xFFFF_FFFFu32) & 0xFFFF_FFFFu32 == bits & 0xFFFF_FFFFu32) by (bit_vector);
    assert(bits & !0xFFFF_FFFFu32 == 0 ==> bits & 0xFFFF_FFFFu32 == bits) by (bit_vector);
}

/// Law: the set of all memory kinds is FMOD's `ALL` value, which holds
/// every named kind.
pub proof fn law_memory_flags_all_named()
    ensures
        MemoryFlags::spec_all_bits() == MemoryFlags::ALL,
        MemoryFlags::ALL & (MemoryFlags::STREAM_FILE | MemoryFlags::STREAM_DECODE
            | MemoryFlags::SAMPLEDATA | MemoryFlags::DSP_BUFFER | MemoryFlags::PLUGIN
            | MemoryFlags::PERSISTENT) == MemoryFlags::STREAM_FILE | MemoryFlags::STREAM_DECODE
            | MemoryFlags::SAMPLEDATA | MemoryFlags::DSP_BUFFER | MemoryFlags::PLUGIN
            | MemoryFlags::PERSISTENT,
{
    let named: u32 = 0x0000_0001u32 | 0x0000_0002u32 | 0x0000_0004u32 | 0x0000_0008u32
        | 0x0000_0010u32 | 0x0020_0000u32;
    assert(0xFFFF_FFFFu32 & named == named) by (bit_vector);
}

/// Law: a union contains both its parts; after `insert` the set contains
/// what was inserted, and after `remove` it shares no bit with it.
pub proof fn law_memory_flags_set_ops(a: u32, b: u32)
    ensures
        (a | b) & a == a,
        (a | b) & b == b,
        (a & !b) & b == 0,
{
    assert((a | b) & a == a) by (bit_vector);
    assert((a | b) & b == b) by (bit_vector);
    assert((a & !b) & b == 0) by (bit_vector);
}

} // verus!
