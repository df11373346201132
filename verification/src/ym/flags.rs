//! Flags of a song and of its frames.
use vstd::prelude::*;
use vstd::std_specs::convert::FromSpecImpl;

verus! {

/// The voice that an effect control field selects.
#[derive(Debug, Clone, Copy, PartialEq, Eq, Structural)]
pub enum FxChannel {
    Idle,
    RunOnA,
    RunOnB,
    RunOnC,
}

/// The kind of special effect that a `YM6!` effect control field selects.
#[derive(Debug, Clone, Copy, PartialEq, Eq, Structural)]
pub enum FxType {
    SidVoice,
    DigiDrum,
    SinusSid,
    SyncBuzz,
}

/// The attributes of a song: how its frames are laid out and how its samples are encoded.
#[derive(Debug, Clone, Copy, PartialEq, Eq, Structural)]
pub struct SongAttributes {
    bits: u32,
}

/// The effect control bits, which live in the high nibble of frame registers 1 and 3.
#[derive(Debug, Clone, Copy, PartialEq, Eq, Structural)]
pub struct FxCtrlFlags {
    bits: u8,
}

/// Frame data is stored register by register.
pub const INTERLEAVED: u32 = 0x0000_0001;

/// `DIGI-DRUM` samples are signed.
pub const DIGIDRUM_SIGNED: u32 = 0x0000_0002;

/// `DIGI-DRUM` samples are 4-bit already.
pub const DIGIDRUM_4BIT: u32 = 0x0000_0004;

/// The bits of [`SongAttributes`] that carry a meaning.
pub const SONG_ATTRIBUTES_MASK: u32 = 0x0000_0007;

/// The bits of registers 1 and 3 that hold the coarse period of a voice.
pub const COARSE_PERIOD_MASK: u8 = 0b0000_1111;

/// The bits that select the voice of an effect.
pub const CHAN_CONTROL_MASK: u8 = 0b0011_0000;

/// The effect runs on voice A.
pub const CHAN_A: u8 = 0b0001_0000;

/// The effect runs on voice B.
pub const CHAN_B: u8 = 0b0010_0000;

/// The effect runs on voice C.
pub const CHAN_C: u8 = 0b0011_0000;

/// In `YM4!` and `YM5!` frames: the timer of the `SID voice` starts over.
pub const MFP_TIMER_RESTART: u8 = 0b0100_0000;

/// In `YM6!` frames: the bits that select the kind of effect.
pub const FX_TYPE_MASK: u8 = 0b1100_0000;

/// The effect is a `SID voice`.
pub const FX_TYPE_SID_VOICE: u8 = 0b0000_0000;

/// The effect is a `DIGI-DRUM`.
pub const FX_TYPE_DIGI_DRUM: u8 = 0b0100_0000;

/// The effect is a `Sinus SID`.
pub const FX_TYPE_SINUS_SID: u8 = 0b1000_0000;

/// The effect is a `Sync Buzzer`.
pub const FX_TYPE_SYNC_BUZZ: u8 = 0b1100_0000;

/// The voice that the channel control bits of `bits` select.
pub open spec fn channel_of(bits: u8) -> FxChannel {
    let sel = bits & CHAN_CONTROL_MASK;
    if sel == CHAN_A {
        FxChannel::RunOnA
    } else if sel == CHAN_B {
        FxChannel::RunOnB
    } else if sel == CHAN_C {
        FxChannel::RunOnC
    } else {
        FxChannel::Idle
    }
}

/// The effect that the two highest bits of `bits` select.
pub open spec fn fx_type_of(bits: u8) -> FxType {
    let sel = bits & FX_TYPE_MASK;
    if sel == FX_TYPE_SID_VOICE {
        FxType::SidVoice
    } else if sel == FX_TYPE_DIGI_DRUM {
        FxType::DigiDrum
    } else if sel == FX_TYPE_SINUS_SID {
        FxType::SinusSid
    } else {
        FxType::SyncBuzz
    }
}

impl View for SongAttributes {
    type V = u32;

    closed spec fn view(&self) -> u32 {
        self.bits
    }
}

impl SongAttributes {
    /// No attribute set.
    pub fn empty() -> (res: Self)
        ensures
            res@ == 0,
    {
        SongAttributes { bits: 0 }
    }

    /// The attributes that `bits` holds; bits without a meaning are dropped.
    pub fn from_bits_truncate(bits: u32) -> (res: Self)
        ensures
            res@ == bits & SONG_ATTRIBUTES_MASK,
    {
        SongAttributes { bits: bits & SONG_ATTRIBUTES_MASK }
    }

    /// The raw bits.
    pub fn bits(&self) -> (res: u32)
        ensures
            res == self@,
    {
        self.bits
    }

    /// Returns `true` if frame data was layed out interleaved.
    pub fn is_interleaved(self) -> (res: bool)
        ensures
            res == (self@ & INTERLEAVED != 0),
    {
        self.bits & INTERLEAVED != 0
    }

    /// Returns `true` if `DIGI-DRUM` data was 4-bit.
    pub fn is_4bit(self) -> (res: bool)
        ensures
            res == (self@ & DIGIDRUM_4BIT != 0),
    {
        self.bits & DIGIDRUM_4BIT != 0
    }

    /// Returns `true` if `DIGI-DRUM` data was signed.
    pub fn is_signed(self) -> (res: bool)
        ensures
            res == (self@ & DIGIDRUM_SIGNED != 0),
    {
        self.bits & DIGIDRUM_SIGNED != 0
    }
}

impl Default for SongAttributes {
    fn default() -> (res: Self)
        ensures
            res@ == 0,
    {
        SongAttributes::empty()
    }
}

impl View for FxCtrlFlags {
    type V = u8;

    closed spec fn view(&self) -> u8 {
        self.bits
    }
}

impl FxCtrlFlags {
    /// The flags that `bits` holds. Every bit has a meaning, so none is dropped.
    pub fn from_bits_truncate(bits: u8) -> (res: Self)
        ensures
            res@ == bits,
    {
        FxCtrlFlags { bits }
    }

    /// The raw bits.
    pub fn bits(&self) -> (res: u8)
        ensures
            res == self@,
    {
        self.bits
    }

    /// The channel number that the flags select, if any.
    pub open spec fn spec_channel(self) -> Option<u8> {
        channel_of(self@).spec_channel()
    }

    /// Returns the tuple of timer restart boolean and the channel number `[0, 2]` if an
    /// effect is active. Otherwise returns `None`.
    pub fn ts_channel(self) -> (res: Option<(bool, u8)>)
        ensures
            res == match self.spec_channel() {
                Some(ch) => Some((self@ & MFP_TIMER_RESTART != 0, ch)),
                None => None,
            },
            res matches Some((_, ch)) ==> ch < 3,
    {
        match FxChannel::from(self).channel() {
            Some(ch) => Some((self.bits & MFP_TIMER_RESTART != 0, ch)),
            None => None,
        }
    }

    /// Returns the channel number `[0, 2]` if an effect is active. Otherwise returns `None`.
    pub fn dd_channel(self) -> (res: Option<u8>)
        ensures
            res == self.spec_channel(),
            res matches Some(ch) ==> ch < 3,
    {
        FxChannel::from(self).channel()
    }

    /// Returns the tuple of the effect type and the channel number `[0, 2]` if an
    /// effect is active. Otherwise returns `None`.
    pub fn fx6_channel(self) -> (res: Option<(FxType, u8)>)
        ensures
            res == match self.spec_channel() {
                Some(ch) => Some((fx_type_of(self@), ch)),
                None => None,
            },
            res matches Some((_, ch)) ==> ch < 3,
    {
        match FxChannel::from(self).channel() {
            Some(ch) => Some((FxType::from(self), ch)),
            None => None,
        }
    }
}

impl From<FxCtrlFlags> for FxChannel {
    fn from(flags: FxCtrlFlags) -> (res: Self) {
        let sel: u8 = flags.bits & CHAN_CONTROL_MASK;
        if sel == CHAN_A {
            FxChannel::RunOnA
        } else if sel == CHAN_B {
            FxChannel::RunOnB
        } else if sel == CHAN_C {
            FxChannel::RunOnC
        } else {
            FxChannel::Idle
        }
    }
}

impl FromSpecImpl<FxCtrlFlags> for FxChannel {
    open spec fn obeys_from_spec() -> bool {
        true
    }

    open spec fn from_spec(flags: FxCtrlFlags) -> Self {
        channel_of(flags@)
    }
}

impl From<FxCtrlFlags> for FxType {
    fn from(flags: FxCtrlFlags) -> (res: Self) {
        let sel: u8 = flags.bits & FX_TYPE_MASK;
        if sel == FX_TYPE_SID_VOICE {
            FxType::SidVoice
        } else if sel == FX_TYPE_DIGI_DRUM {
            FxType::DigiDrum
        } else if sel == FX_TYPE_SINUS_SID {
            FxType::SinusSid
        } else {
            FxType::SyncBuzz
        }
    }
}

impl FromSpecImpl<FxCtrlFlags> for FxType {
    open spec fn obeys_from_spec() -> bool {
        true
    }

    open spec fn from_spec(flags: FxCtrlFlags) -> Self {
        fx_type_of(flags@)
    }
}

impl FxChannel {
    /// The channel number of a voice: 0 for A, 1 for B, 2 for C.
    pub open spec fn spec_channel(self) -> Option<u8> {
        match self {
            FxChannel::Idle => None,
            FxChannel::RunOnA => Some(0u8),
            FxChannel::RunOnB => Some(1u8),
            FxChannel::RunOnC => Some(2u8),
        }
    }

    /// Returns the channel number `[0, 2]` of the selected voice, or `None` when idle.
    pub fn channel(self) -> (res: Option<u8>)
        ensures
            res == self.spec_channel(),
            res matches Some(ch) ==> ch < 3,
    {
        match self {
            FxChannel::Idle => None,
            FxChannel::RunOnA => Some(0),
            FxChannel::RunOnB => Some(1),
            FxChannel::RunOnC => Some(2),
        }
    }
}

} // verus!
