//! The song model: versions, frames and the song itself.
use vstd::prelude::*;

pub mod archive;
pub mod effects;
pub mod flags;
pub mod laws;
pub mod mixer;
pub mod parse;
pub mod playback;
pub mod registers;
pub mod replay;
pub mod song;

use crate::ym::flags::FxCtrlFlags;

verus! {

/// The largest number of `DIGI-DRUM` samples that a song can carry.
pub const MAX_DD_SAMPLES: usize = 32;

/// The frequency of the MFP timer that paces the special effects, in Hz.
pub const MFP_TIMER_FREQUENCY: u32 = 2_457_600;

/// The YM file dialects.
#[derive(Debug, Clone, Copy, PartialEq, Eq, Structural)]
pub enum YmVersion {
    Ym2,
    Ym3,
    Ym4,
    Ym5,
    Ym6,
}

impl YmVersion {
    /// Returns the name under which the version is displayed.
    pub fn name(&self) -> (res: &'static str)
        ensures
            res@ == match *self {
                YmVersion::Ym2 => "Ym2!"@,
                YmVersion::Ym3 => "Ym3!"@,
                YmVersion::Ym4 => "Ym4!"@,
                YmVersion::Ym5 => "Ym5!"@,
                YmVersion::Ym6 => "Ym6!"@,
            },
    {
        match self {
            YmVersion::Ym2 => "Ym2!",
            YmVersion::Ym3 => "Ym3!",
            YmVersion::Ym4 => "Ym4!",
            YmVersion::Ym5 => "Ym5!",
            YmVersion::Ym6 => "Ym6!",
        }
    }
}

/// The state of the AY/YM chipset registers for one frame, with the effect control data.
///
/// ```text
/// X - AY/YM register data.
/// S - Controls special effects.
/// P - Frequency pre-divisor.
/// F - Frequency divisor.
/// - - Unused.
/// ----------------------------------------------------------
///      b7 b6 b5 b4 b3 b2 b1 b0  Register description
///  0:  X  X  X  X  X  X  X  X   Fine period voice A
///  1:  S  S  S  S  X  X  X  X   Coarse period voice A
///  2:  X  X  X  X  X  X  X  X   Fine period voice B
///  3:  S  S  S  S  X  X  X  X   Coarse period voice B
///  4:  X  X  X  X  X  X  X  X   Fine period voice C
///  5:  -  -  -  -  X  X  X  X   Coarse period voice C
///  6:  P  P  P  X  X  X  X  X   Noise period
///  7:  X  X  X  X  X  X  X  X   Mixer control
///  8:  P  P  P  X  X  X  X  X   Volume voice A
///  9:  -  -  -  X  X  X  X  X   Volume voice B
/// 10:  -  -  -  X  X  X  X  X   Volume voice C
/// 11:  X  X  X  X  X  X  X  X   Envelope fine period
/// 12:  X  X  X  X  X  X  X  X   Envelope coarse period
/// 13:  x  x  x  x  X  X  X  X   Envelope shape
/// ----------------------------------------------------------
/// virtual registers that hold the effect divisors:
/// ----------------------------------------------------------
/// 14:  F  F  F  F  F  F  F  F   Frequency divisor for S in 1
/// 15:  F  F  F  F  F  F  F  F   Frequency divisor for S in 3
/// ```
///
/// The pre-divisor `P` in register 6 and the divisor in register 14 belong to the effect
/// that register 1 controls; register 8 and register 15 belong to the one that register 3
/// controls.
///
/// The numbers are those of the bytes of a frame. The player writes the bytes 0 to 5 to the
/// registers of the same numbers and the mixer control byte to register 6; the noise
/// period is not written.
#[derive(Debug, Clone, Copy)]
pub struct YmFrame {
    /// Frame data.
    pub data: [u8; 16],
}

/// The pre-divisor that the three highest bits of `prediv3` select.
pub open spec fn prediv_of(prediv3: u8) -> int {
    let sel = prediv3 >> 5;
    if sel == 0 {
        0
    } else if sel == 1 {
        4
    } else if sel == 2 {
        10
    } else if sel == 3 {
        16
    } else if sel == 4 {
        50
    } else if sel == 5 {
        64
    } else if sel == 6 {
        100
    } else {
        200
    }
}

/// The timer divisor that a pre-divisor selector and a divisor byte stand for: their
/// product, or nothing where the product is zero and the timer is off.
pub open spec fn timer_divisor_of(prediv3: u8, div8: u8) -> Option<u32> {
    if prediv_of(prediv3) * div8 == 0 {
        None
    } else {
        Some((prediv_of(prediv3) * div8) as u32)
    }
}

/// Calculates the timer divisor from the pre-divisor selector in the three highest bits of
/// `prediv3` and the divisor `div8`. Returns `None` if the timer is off.
pub fn calculate_timer_divisor(prediv3: u8, div8: u8) -> (res: Option<u32>)
    ensures
        res == timer_divisor_of(prediv3, div8),
        res matches Some(d) ==> 0 < d <= 51000,
{
    let sel: u8 = prediv3 >> 5;
    assert(sel < 8) by (bit_vector)
        requires
            sel == prediv3 >> 5,
    ;
    let prediv: u32 = if sel == 0 {
        0
    } else if sel == 1 {
        4
    } else if sel == 2 {
        10
    } else if sel == 3 {
        16
    } else if sel == 4 {
        50
    } else if sel == 5 {
        64
    } else if sel == 6 {
        100
    } else {
        200
    };
    assert(prediv * div8 <= 51000) by (nonlinear_arith)
        requires
            prediv <= 200,
            div8 <= 255,
    ;
    let divisor: u32 = prediv * (div8 as u32);
    if divisor == 0 {
        None
    } else {
        Some(divisor)
    }
}

impl Default for YmFrame {
    /// A frame whose registers are all zero.
    fn default() -> (res: Self)
        ensures
            res@ == Seq::new(16, |i: int| 0u8),
    {
        let res = YmFrame { data: [0u8;16] };
        assert(res@ =~= Seq::new(16, |i: int| 0u8));
        res
    }
}

/// The volume that register `8 + (chan & 3)` of the frame `bytes` holds, in its five lowest
/// bits.
pub open spec fn frame_vol(bytes: Seq<u8>, chan: u8) -> u8 {
    bytes[8 + (chan & 3)] & 0x1f
}

impl YmFrame {
    /// The frame's sixteen bytes.
    pub open spec fn view(&self) -> Seq<u8> {
        self.data@
    }

    /// The volume that register `8 + (chan & 3)` holds, in its five lowest bits.
    pub open spec fn spec_vol(&self, chan: u8) -> u8 {
        frame_vol(self@, chan)
    }

    /// Returns special effect control flags from the register 1.
    pub fn fx0(&self) -> (res: FxCtrlFlags)
        ensures
            res@ == self@[1],
    {
        FxCtrlFlags::from_bits_truncate(self.data[1])
    }

    /// Returns special effect control flags from the register 3.
    pub fn fx1(&self) -> (res: FxCtrlFlags)
        ensures
            res@ == self@[3],
    {
        FxCtrlFlags::from_bits_truncate(self.data[3])
    }

    /// Returns the value of the volume register for the indicated `chan`.
    ///
    /// The 2 lowest `chan` bits indicates the voice channel:
    /// ```text
    ///  b1 b0 voice channel
    ///  0  0  A
    ///  0  1  B
    ///  1  0  C
    /// ```
    /// With both bits set no voice is meant, and the five lowest bits of register 11 are
    /// returned.
    pub fn vol(&self, chan: u8) -> (res: u8)
        ensures
            res == self.spec_vol(chan),
            res < 32,
    {
        let voice: u8 = chan & 3;
        assert(voice < 4) by (bit_vector)
            requires
                voice == chan & 3,
        ;
        let v: u8 = self.data[(8 + voice) as usize];
        assert(v & 0x1f < 32) by (bit_vector);
        v & 0x1f
    }

    /// Calculates the timer divisor for the special effect `fx0`.
    pub fn timer_divisor0(&self) -> (res: Option<u32>)
        ensures
            res == timer_divisor_of(self@[6], self@[14]),
            res matches Some(d) ==> 0 < d <= 51000,
    {
        calculate_timer_divisor(self.data[6], self.data[14])
    }

    /// Calculates the timer divisor for the special effect `fx1`.
    pub fn timer_divisor1(&self) -> (res: Option<u32>)
        ensures
            res == timer_divisor_of(self@[8], self@[15]),
            res matches Some(d) ==> 0 < d <= 51000,
    {
        calculate_timer_divisor(self.data[8], self.data[15])
    }
}

} // verus!
