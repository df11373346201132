//! What playing a frame means: the state of a song, the register changes that a frame
//! causes and the state that it leaves behind.
//!
//! Everything here is specification. The player in [`crate::ym::song`] is proved to do what
//! these functions say.
use vstd::prelude::*;

use crate::ym::effects::{
    DigiDrumState, RegChange, SidVoiceState, SinusSidState, SyncBuzzerState, ENV_PER_COARSE_REG,
    ENV_PER_FINE_REG, ENV_REG, FRAME_SPAN, MIXER_BYTE, MIXER_REG, VOL_A_REG,
};
use crate::ym::flags::{channel_of, fx_type_of, FxType, MFP_TIMER_RESTART};
use crate::ym::mixer::MixerState;
use crate::ym::{frame_vol, timer_divisor_of, YmVersion, MAX_DD_SAMPLES};

verus! {

/// Where each of the 40 samples that every `YM2!` song shares ends in the sample data.
pub const YM2_SAMPLE_ENDS: [usize; 40] = [
    631,
    1262,
    1752,
    2242,
    2941,
    3446,
    4173,
    4653,
    6761,
    10992,
    11370,
    12897,
    13155,
    13413,
    13864,
    15659,
    15930,
    16563,
    17942,
    18089,
    18228,
    18313,
    18463,
    18970,
    19200,
    19320,
    19591,
    19884,
    20275,
    20666,
    21057,
    21464,
    21871,
    22278,
    22595,
    23002,
    23313,
    23772,
    24101,
    24757,
];

/// The number of sample values that the 40 samples of a `YM2!` song take up.
pub const YM2_SAMPLES_LEN: usize = 24757;

/// The mixer bits that switch the tone and the noise of voice `v` off.
pub open spec fn mixer_mask(v: int) -> u8 {
    if v == 0 {
        0b001001
    } else if v == 1 {
        0b010010
    } else {
        0b100100
    }
}

/// `lanes` with one more lane, if there is one.
pub open spec fn with_lane(lanes: Seq<Seq<RegChange>>, lane: Option<Seq<RegChange>>) -> Seq<
    Seq<RegChange>,
> {
    match lane {
        Some(changes) => lanes.push(changes),
        None => lanes,
    }
}

/// The effect that register 1 of the frame `bytes` asks for: the voice, the timer divisor
/// and the volume register of that voice. `None` if no voice is selected or the timer is off.
pub open spec fn effect0(bytes: Seq<u8>) -> Option<(u8, u32, u8)> {
    match (channel_of(bytes[1]).spec_channel(), timer_divisor_of(bytes[6], bytes[14])) {
        (Some(chan), Some(divisor)) => Some((chan, divisor, frame_vol(bytes, chan))),
        _ => None,
    }
}

/// The effect that register 3 of the frame `bytes` asks for, as [`effect0`].
pub open spec fn effect1(bytes: Seq<u8>) -> Option<(u8, u32, u8)> {
    match (channel_of(bytes[3]).spec_channel(), timer_divisor_of(bytes[8], bytes[15])) {
        (Some(chan), Some(divisor)) => Some((chan, divisor, frame_vol(bytes, chan))),
        _ => None,
    }
}

/// The three effect units of a voice.
#[verifier::ext_equal]
pub struct VoiceState {
    pub sid: SidVoiceState,
    pub sinus: SinusSidState,
    pub drum: DigiDrumState,
}

impl VoiceState {
    /// All units at rest.
    pub open spec fn idle() -> Self {
        VoiceState {
            sid: SidVoiceState::idle(),
            sinus: SinusSidState::idle(),
            drum: DigiDrumState::idle(),
        }
    }

    /// The units are well-formed and a playing drum stays within `samples` sample values.
    pub open spec fn wf(self, samples: nat) -> bool {
        &&& self.sid.wf()
        &&& self.sinus.wf()
        &&& self.drum.wf()
        &&& self.drum.active() ==> self.drum.end <= samples
    }

    /// What the start of a frame makes of the voice: the `SID voice` and the `Sinus SID`
    /// are switched off, the drum plays on.
    pub open spec fn stopped(self) -> Self {
        VoiceState { sid: self.sid.stopped(), sinus: self.sinus.stopped(), drum: self.drum }
    }

    /// The unit that drives the volume of the voice in a frame: the first active one of
    /// `SID voice`, `Sinus SID` and `DIGI-DRUM`. `None` if all are at rest.
    pub open spec fn source(self) -> Option<FxType> {
        if self.sid.active {
            Some(FxType::SidVoice)
        } else if self.sinus.active {
            Some(FxType::SinusSid)
        } else if self.drum.active() {
            Some(FxType::DigiDrum)
        } else {
            None
        }
    }

    /// The changes that the driving unit makes to the volume register `reg` within a
    /// frame. `None` if all units are at rest.
    pub open spec fn lane(self, reg: u8, samples: Seq<u8>, end_vol: u8) -> Option<
        Seq<RegChange>,
    > {
        match self.source() {
            Some(FxType::SidVoice) => Some(self.sid.events(FRAME_SPAN as nat, reg)),
            Some(FxType::SinusSid) => Some(self.sinus.events(FRAME_SPAN as nat, reg)),
            Some(_) => Some(self.drum.events(FRAME_SPAN as nat, reg, samples, end_vol)),
            None => None,
        }
    }

    /// The voice after a frame. The square wave of the `SID voice` always moves on. The
    /// other two units move on only if they are active and no unit before them is.
    pub open spec fn after_frame(self) -> Self {
        VoiceState {
            sid: self.sid.after_frame(FRAME_SPAN as nat),
            sinus: if self.sid.active {
                self.sinus
            } else {
                self.sinus.after_frame(FRAME_SPAN as nat)
            },
            drum: if self.sid.active || self.sinus.active {
                self.drum
            } else {
                self.drum.after_frame(FRAME_SPAN as nat)
            },
        }
    }
}

/// The state of a song: what the file says and where the player stands.
#[verifier::ext_equal]
pub struct SongState {
    pub version: YmVersion,
    pub created: Option<chrono::NaiveDateTime>,
    pub song_attrs: u32,
    pub title: Seq<char>,
    pub author: Seq<char>,
    pub comments: Seq<char>,
    pub chipset_frequency: u32,
    pub frame_frequency: u16,
    pub loop_frame: u32,
    /// The frames, each of them as its sixteen bytes.
    pub frames: Seq<Seq<u8>>,
    pub dd_samples: Seq<u8>,
    pub dd_samples_ends: Seq<usize>,
    pub cursor: nat,
    pub voices: Seq<VoiceState>,
    pub buzzer: SyncBuzzerState,
}

impl SongState {
    /// A song as it is made from its frames: no author, no comments, no attributes and no
    /// samples, a chipset clock of 2 MHz, 50 frames a second, the cursor at the first frame
    /// and every effect unit at rest.
    pub open spec fn fresh(
        version: YmVersion,
        frames: Seq<Seq<u8>>,
        loop_frame: u32,
        title: Seq<char>,
        created: Option<chrono::NaiveDateTime>,
    ) -> Self {
        SongState {
            version,
            created,
            song_attrs: 0,
            title,
            author: Seq::empty(),
            comments: Seq::empty(),
            chipset_frequency: 2_000_000,
            frame_frequency: 50,
            loop_frame,
            frames,
            dd_samples: Seq::empty(),
            dd_samples_ends: Seq::new(MAX_DD_SAMPLES as nat, |i: int| 0usize),
            cursor: 0,
            voices: Seq::new(3, |v: int| VoiceState::idle()),
            buzzer: SyncBuzzerState::idle(),
        }
    }

    /// The song can be played: it has frames of sixteen bytes, the cursor is at one of them, the frame
    /// frequency is not zero, no sample ends behind the sample data, a `YM2!` song has the
    /// sample values of its 40 samples, and the effect units are well-formed.
    pub open spec fn wf(self) -> bool {
        &&& 1 <= self.frames.len() <= usize::MAX
        &&& forall|i: int| 0 <= i < self.frames.len() ==> (#[trigger] self.frames[i]).len() == 16
        &&& self.cursor < self.frames.len()
        &&& self.frame_frequency > 0
        &&& self.dd_samples.len() <= usize::MAX
        &&& self.dd_samples_ends.len() == MAX_DD_SAMPLES
        &&& forall|i: int|
            0 <= i < MAX_DD_SAMPLES ==> #[trigger] self.dd_samples_ends[i] <= self.dd_samples.len()
        &&& self.version == YmVersion::Ym2 ==> self.dd_samples.len() >= YM2_SAMPLES_LEN
        &&& self.voices.len() == 3
        &&& forall|v: int| 0 <= v < 3 ==> (#[trigger] self.voices[v]).wf(self.dd_samples.len())
        &&& self.buzzer.wf()
    }

    /// The frame at the cursor.
    pub open spec fn frame(self) -> Seq<u8> {
        self.frames[self.cursor as int]
    }

    /// The step of a timer with the given divisor, in time units: one tick of the MFP timer
    /// lasts as many units as there are frames in a second.
    pub open spec fn timer_step(self, divisor: nat) -> nat {
        divisor * (self.frame_frequency as nat)
    }

    /// Where the sample data of `sample` begins: where the sample before it ends.
    pub open spec fn sample_start(self, sample: int) -> nat {
        if sample == 0 {
            0
        } else {
            self.dd_samples_ends[sample - 1] as nat
        }
    }

    /// The song with the state of voice `chan` replaced.
    pub open spec fn with_voice(self, chan: int, voice: VoiceState) -> Self {
        SongState { voices: self.voices.update(chan, voice), ..self }
    }

    /// What the start of a frame makes of the song: on every voice the `SID voice` and the
    /// `Sinus SID` are switched off, and so is the buzzer. Drums play on.
    pub open spec fn stopped(self) -> Self {
        SongState {
            voices: Seq::new(3, |v: int| self.voices[v].stopped()),
            buzzer: self.buzzer.stopped(),
            ..self
        }
    }

    /// The song with the cursor at the first frame and every effect unit stopped and put
    /// back to where a song that was made anew has it: what is played from here depends on
    /// nothing that was played before.
    pub open spec fn rewound(self) -> Self {
        SongState {
            cursor: 0,
            voices: Seq::new(3, |v: int| VoiceState::idle()),
            buzzer: SyncBuzzerState::idle(),
            ..self
        }
    }

    /// The song after the effect `fx` has been started on voice `chan`, with the timer
    /// divisor `divisor` and the value `vol` of the volume register of that voice: the four
    /// lowest bits of `vol` are the level or the envelope shape, and for a drum `vol` is the
    /// number of the sample.
    pub open spec fn fx_started(self, fx: FxType, chan: int, divisor: nat, vol: u8) -> Self {
        let step = self.timer_step(divisor);
        let voice = self.voices[chan];
        match fx {
            FxType::SidVoice => self.with_voice(
                chan,
                VoiceState { sid: voice.sid.started(vol & 0x0f, step), ..voice },
            ),
            FxType::DigiDrum => self.with_voice(
                chan,
                VoiceState {
                    drum: voice.drum.started(
                        self.sample_start(vol as int),
                        self.dd_samples_ends[vol as int] as nat,
                        step,
                    ),
                    ..voice
                },
            ),
            FxType::SinusSid => self.with_voice(
                chan,
                VoiceState { sinus: voice.sinus.started(vol & 0x0f, step), ..voice },
            ),
            FxType::SyncBuzz => SongState { buzzer: self.buzzer.started(vol & 0x0f, step), ..self },
        }
    }

    /// The effects that a `YM2!` frame starts: a drum on voice C if the highest bit of its
    /// volume register is set. The seven other bits are the number of the sample, which
    /// has to be one of the 40, and register 12 is a quarter of the timer divisor, which
    /// must not be zero.
    pub open spec fn ym2_started(self) -> Self {
        let vol_c = self.frame()[10];
        let sample = (vol_c & 0x7f) as int;
        let prediv = self.frame()[12];
        if vol_c & 0x80 == 0x80 && sample < 40 && prediv != 0 {
            let start = if sample == 0 {
                0
            } else {
                YM2_SAMPLE_ENDS@[sample - 1] as nat
            };
            let voice = self.voices[2];
            self.with_voice(
                2,
                VoiceState {
                    drum: voice.drum.started(
                        start,
                        YM2_SAMPLE_ENDS@[sample] as nat,
                        self.timer_step((4 * prediv) as nat),
                    ),
                    ..voice
                },
            )
        } else {
            self
        }
    }

    /// The effects that a `YM4!` or `YM5!` frame starts: register 1 asks for a `SID voice`,
    /// whose timer and phase start over if the restart bit is set, and register 3 for a
    /// drum.
    pub open spec fn ym5_started(self) -> Self {
        let frame = self.frame();
        let first = match effect0(frame) {
            Some((chan, divisor, vol)) => {
                let voice = self.voices[chan as int];
                let song = if frame[1] & MFP_TIMER_RESTART != 0 {
                    self.with_voice(chan as int, VoiceState { sid: voice.sid.restarted(), ..voice })
                } else {
                    self
                };
                song.fx_started(FxType::SidVoice, chan as int, divisor as nat, vol)
            },
            None => self,
        };
        match effect1(frame) {
            Some((chan, divisor, vol)) => first.fx_started(
                FxType::DigiDrum,
                chan as int,
                divisor as nat,
                vol,
            ),
            None => first,
        }
    }

    /// The effects that a `YM6!` frame starts: registers 1 and 3 each ask for one effect of
    /// any kind, that of register 1 being started first.
    pub open spec fn ym6_started(self) -> Self {
        let frame = self.frame();
        let first = match effect0(frame) {
            Some((chan, divisor, vol)) => self.fx_started(
                fx_type_of(frame[1]),
                chan as int,
                divisor as nat,
                vol,
            ),
            None => self,
        };
        match effect1(frame) {
            Some((chan, divisor, vol)) => first.fx_started(
                fx_type_of(frame[3]),
                chan as int,
                divisor as nat,
                vol,
            ),
            None => first,
        }
    }

    /// The song once the frame at the cursor has set up its effects: those that last one
    /// frame only are switched off, then the frame starts what it asks for.
    pub open spec fn dispatched(self) -> Self {
        match self.version {
            YmVersion::Ym2 => self.stopped().ym2_started(),
            YmVersion::Ym3 => self.stopped(),
            YmVersion::Ym4 | YmVersion::Ym5 => self.stopped().ym5_started(),
            YmVersion::Ym6 => self.stopped().ym6_started(),
        }
    }

    /// The writes to the envelope registers that open a frame. Nothing is written to the
    /// envelope shape register where the frame holds `0xff` for it. A `YM2!` frame then
    /// writes nothing at all, and else a coarse period of zero and the shape `0x10`.
    pub open spec fn envelope_writes(self) -> Seq<RegChange> {
        let frame = self.frame();
        if self.version == YmVersion::Ym2 {
            if frame[13] != 0xff {
                seq![
                    (0u64, ENV_PER_FINE_REG, frame[11]),
                    (0u64, ENV_PER_COARSE_REG, 0u8),
                    (0u64, ENV_REG, 0x10u8),
                ]
            } else {
                Seq::empty()
            }
        } else {
            let periods = seq![
                (0u64, ENV_PER_FINE_REG, frame[11]),
                (0u64, ENV_PER_COARSE_REG, frame[12]),
            ];
            if frame[13] != 0xff {
                periods.push((0u64, ENV_REG, frame[13]))
            } else {
                periods
            }
        }
    }

    /// The writes of the frame's tone periods to registers 0 to 5.
    pub open spec fn base_writes(self) -> Seq<RegChange> {
        Seq::new(MIXER_REG as nat, |r: int| (0u64, r as u8, self.frame()[r]))
    }

    /// The number of the volume register of voice `v`.
    pub open spec fn vol_reg(v: int) -> u8 {
        (VOL_A_REG + v) as u8
    }

    /// The changes that an effect makes to the volume of voice `v`, once the frame at the
    /// cursor has set up its effects. `None` if no effect drives that voice.
    pub open spec fn voice_plan(self, v: int) -> Option<Seq<RegChange>> {
        self.voices[v].lane(
            Self::vol_reg(v),
            self.dd_samples,
            frame_vol(self.frame(), Self::vol_reg(v)),
        )
    }

    /// The write of the frame's volume for voice `v`, once the frame at the cursor has set
    /// up its effects: it is made if no effect drives that voice.
    pub open spec fn volume_plan(self, v: int) -> Seq<RegChange> {
        if self.voices[v].source() is None {
            seq![(0u64, Self::vol_reg(v), frame_vol(self.frame(), Self::vol_reg(v)))]
        } else {
            Seq::empty()
        }
    }

    /// The mixer bits of voice `v` if its drum is active, once the frame at the cursor has
    /// set up its effects: whether the frame has started the drum or an earlier one has,
    /// and whether the drum drives the voice or waits for another unit. Else no bit.
    pub open spec fn mask_plan(self, v: int) -> u8 {
        if self.voices[v].drum.active() {
            mixer_mask(v)
        } else {
            0
        }
    }

    /// The value for the mixer register, once the frame at the cursor has set up its
    /// effects: the mixer byte of the frame, with the tone and the noise switched off on
    /// every voice whose drum is active.
    pub open spec fn mixer_plan(self) -> u8 {
        self.frame()[MIXER_BYTE as int] | self.mask_plan(0) | self.mask_plan(1) | self.mask_plan(2)
    }

    /// The changes that the buzzer makes to the envelope shape, once the frame at the
    /// cursor has set up its effects. `None` if the buzzer is at rest.
    pub open spec fn buzzer_plan(self) -> Option<Seq<RegChange>> {
        if self.buzzer.active {
            Some(self.buzzer.events(FRAME_SPAN as nat))
        } else {
            None
        }
    }

    /// The lanes that are mixed, once the frame at the cursor has set up its effects:
    /// those of the voices A, B and C and that of the buzzer, in this order, as far as they
    /// exist.
    pub open spec fn lanes_plan(self) -> Seq<Seq<RegChange>> {
        with_lane(
            with_lane(
                with_lane(with_lane(Seq::empty(), self.voice_plan(0)), self.voice_plan(1)),
                self.voice_plan(2),
            ),
            self.buzzer_plan(),
        )
    }

    /// The mixer that holds the lanes of [`Self::lanes_plan`], before it has handed out
    /// anything.
    pub open spec fn mixing_plan(self) -> MixerState {
        MixerState {
            lanes: self.lanes_plan(),
            heads: Seq::new(self.lanes_plan().len(), |i: int| 0usize),
        }
    }

    /// The register changes of the frame at the cursor that follow the envelope writes,
    /// once the frame has set up its effects: at time zero registers 0 to 5, the mixer
    /// register and the volume of each voice that no effect drives; then the changes that
    /// the effects make, merged in the order of their timestamps.
    pub open spec fn frame_plan(self) -> Seq<RegChange> {
        self.base_writes() + seq![(0u64, MIXER_REG, self.mixer_plan())] + self.volume_plan(0)
            + self.volume_plan(1) + self.volume_plan(2) + self.mixing_plan().merged()
    }

    /// The song after its effect units have played one frame.
    pub open spec fn played(self) -> Self {
        SongState {
            voices: Seq::new(3, |v: int| self.voices[v].after_frame()),
            buzzer: self.buzzer.after_frame(FRAME_SPAN as nat),
            ..self
        }
    }

    /// The song with its cursor moved on by one frame.
    pub open spec fn advanced(self) -> Self {
        SongState { cursor: self.next_cursor(), ..self }
    }

    /// The changes that an effect makes to the volume of voice `v` in the frame at the
    /// cursor. `None` if no effect drives that voice.
    pub open spec fn voice_lane(self, v: int) -> Option<Seq<RegChange>> {
        self.dispatched().voice_plan(v)
    }

    /// Whether the drum of voice `v` is active in the frame at the cursor: whether this
    /// frame starts it, or an earlier frame has started it and sample values are left.
    pub open spec fn drum_active(self, v: int) -> bool {
        self.dispatched().voices[v].drum.active()
    }

    /// The value that the frame at the cursor writes to the mixer register.
    pub open spec fn mixer_byte(self) -> u8 {
        self.dispatched().mixer_plan()
    }

    /// The register changes of the frame at the cursor, in the order in which they are
    /// recorded: the envelope writes, then what [`Self::frame_plan`] says of the song once
    /// the frame has set up its effects.
    pub open spec fn events(self) -> Seq<RegChange> {
        self.envelope_writes() + self.dispatched().frame_plan()
    }

    /// Whether the cursor is at the last frame.
    pub open spec fn at_last_frame(self) -> bool {
        self.cursor + 1 == self.frames.len()
    }

    /// Where the cursor goes after the frame: to the next frame or, after the last one, to
    /// the loop frame, which is taken to be the last frame if it lies behind it.
    pub open spec fn next_cursor(self) -> nat {
        if self.at_last_frame() {
            if self.loop_frame < self.frames.len() {
                self.loop_frame as nat
            } else {
                (self.frames.len() - 1) as nat
            }
        } else {
            self.cursor + 1
        }
    }

    /// The song after the frame at the cursor has been played: the frame has set up its
    /// effects, the effect units have played it and the cursor has moved on.
    pub open spec fn next(self) -> Self {
        self.dispatched().played().advanced()
    }
}

} // verus!
