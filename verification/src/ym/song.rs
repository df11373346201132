//! The song and its player.
use chrono::NaiveDateTime;
use core::ops::Range;
use vstd::prelude::*;

use crate::ym::effects::{
    DigiDrum, RegChange, SidVoice, SinusSid, SyncBuzzer, ENV_PER_COARSE_REG, ENV_PER_FINE_REG,
    ENV_REG, FRAME_SPAN, MIXER_BYTE, MIXER_REG, TIME_MAX, VOL_A_REG,
};
use crate::ym::flags::{FxType, SongAttributes};
use crate::ym::mixer::Mixer;
use crate::ym::parse::frames_of;
use crate::ym::playback::{with_lane, SongState, VoiceState, YM2_SAMPLES_LEN, YM2_SAMPLE_ENDS};
use crate::ym::{YmFrame, YmVersion, MAX_DD_SAMPLES};

verus! {

/// `chrono::NaiveDateTime`: a date and a time without a time zone. A song carries the value
/// that it was given as it is; nothing is read from it.
#[verifier::external_type_specification]
#[verifier::external_body]
pub struct ExNaiveDateTime(NaiveDateTime);

/// The 4-bit values that `packed` holds, two to a byte: the high nibble of each byte, then
/// its low nibble.
pub open spec fn nibbles(packed: Seq<u8>) -> Seq<u8> {
    Seq::new(
        2 * packed.len(),
        |i: int|
            if i % 2 == 0 {
                packed[i / 2] >> 4
            } else {
                packed[i / 2] & 0x0f
            },
    )
}

/// Splits each byte of `packed` into its high and its low nibble.
pub fn unpack_ym2_samples(packed: &[u8]) -> (res: Vec<u8>)
    ensures
        res@ == nibbles(packed@),
{
    let mut samples: Vec<u8> = Vec::new();
    let mut i: usize = 0;
    while i < packed.len()
        invariant
            i <= packed@.len(),
            samples@.len() == 2 * i,
            forall|k: int| 0 <= k < 2 * i ==> samples@[k] == nibbles(packed@)[k],
        decreases packed.len() - i,
    {
        let byte: u8 = packed[i];
        samples.push(byte >> 4);
        samples.push(byte & 0x0f);
        i = i + 1;
    }
    assert(samples@ =~= nibbles(packed@));
    samples
}

/// The chipset clock of a song that does not name one, in Hz.
pub const DEFAULT_CHIPSET_FREQUENCY: u32 = 2_000_000;

/// The frame frequency of a song that does not name one, in Hz.
pub const DEFAULT_FRAME_FREQUENCY: u16 = 50;

/// The **YM** music file.
///
/// The YM-file consist of [YmFrame]s that represent the state of the AY/YM chipset registers and
/// contain additional information about special effects.
///
/// Depending on the [YmSong::version] special effects are being encoded differently.
#[derive(Debug, Clone)]
pub struct YmSong {
    /// YM-file version.
    pub version: YmVersion,
    /// The last modification timestamp of the YM-file from the LHA envelope.
    pub created: Option<NaiveDateTime>,
    /// The song attributes.
    pub song_attrs: SongAttributes,
    /// The song title or a file name.
    pub title: String,
    /// The song author.
    pub author: String,
    /// The comment.
    pub comments: String,
    /// The number of cycles per second of the AY/YM chipset clock.
    pub chipset_frequency: u32,
    /// The number of frames played each second.
    pub frame_frequency: u16,
    /// The loop frame index.
    pub loop_frame: u32,
    /// The AY/YM state frames.
    pub frames: Vec<YmFrame>,
    /// `DIGI-DRUM` samples.
    pub dd_samples: Vec<u8>,
    /// `DIGI-DRUM` sample end indexes in [YmSong::dd_samples].
    pub dd_samples_ends: [usize; MAX_DD_SAMPLES],
    /// The index of the frame that is played next. The player keeps it below the number
    /// of frames.
    pub cursor: usize,
    /// The effect units of the voices A, B and C.
    pub voice_effects: [(SidVoice, SinusSid, DigiDrum); 3],
    /// The `Sync Buzzer`, which all voices share.
    pub buzzer: SyncBuzzer,
}

impl YmSong {
    /// The states of the effect units of the voices A, B and C.
    pub open spec fn voices(&self) -> Seq<VoiceState> {
        Seq::new(
            3,
            |v: int|
                VoiceState {
                    sid: self.voice_effects@[v].0@,
                    sinus: self.voice_effects@[v].1@,
                    drum: self.voice_effects@[v].2@,
                },
        )
    }

    /// The state of the song: what its fields hold, the frames as their bytes and the
    /// effect units as their states.
    pub open spec fn view(&self) -> SongState {
        SongState {
            version: self.version,
            created: self.created,
            song_attrs: self.song_attrs@,
            title: self.title@,
            author: self.author@,
            comments: self.comments@,
            chipset_frequency: self.chipset_frequency,
            frame_frequency: self.frame_frequency,
            loop_frame: self.loop_frame,
            frames: Seq::new(self.frames@.len(), |i: int| self.frames@[i]@),
            dd_samples: self.dd_samples@,
            dd_samples_ends: self.dd_samples_ends@,
            cursor: self.cursor as nat,
            voices: self.voices(),
            buzzer: self.buzzer@,
        }
    }

    /// Creates a new instance of `YmSong` from the given `frames` and other meta data.
    pub fn new(
        version: YmVersion,
        frames: Vec<YmFrame>,
        loop_frame: u32,
        title: String,
        created: Option<NaiveDateTime>,
    ) -> (res: YmSong)
        ensures
            res@ == SongState::fresh(version, frames_of(frames@), loop_frame, title@, created),
            frames@.len() > 0 && version != YmVersion::Ym2 ==> res@.wf(),
    {
        let res = YmSong {
            version,
            created,
            song_attrs: SongAttributes::empty(),
            title,
            author: String::new(),
            comments: String::new(),
            chipset_frequency: DEFAULT_CHIPSET_FREQUENCY,
            frame_frequency: DEFAULT_FRAME_FREQUENCY,
            loop_frame,
            frames,
            dd_samples: Vec::new(),
            dd_samples_ends: [0usize;MAX_DD_SAMPLES],
            cursor: 0,
            voice_effects: [(SidVoice::default(), SinusSid::default(), DigiDrum::default());3],
            buzzer: SyncBuzzer::default(),
        };
        proof {
            let fresh = SongState::fresh(
                version,
                frames_of(frames@),
                loop_frame,
                title@,
                created,
            );
            assert(res@.frames =~= fresh.frames);
            assert(res@.voices =~= fresh.voices);
            assert(res@.dd_samples_ends =~= fresh.dd_samples_ends);
            assert(res@.author =~= fresh.author);
            assert(res@.comments =~= fresh.comments);
            assert(res@.dd_samples =~= fresh.dd_samples);
            assert(res.frames@.len() == res.frames.len());
        }
        res
    }

    /// Returns `YmSong` with the `author` and `comments` set from the given arguments.
    pub fn with_meta(self, author: String, comments: String) -> (res: YmSong)
        ensures
            res@ == (SongState { author: author@, comments: comments@, ..self@ }),
    {
        let mut song = self;
        song.author = author;
        song.comments = comments;
        song
    }

    /// Returns `YmSong` with the `song_attrs`, `dd_samples` and `dd_samples_ends` set from the given arguments.
    pub fn with_samples(
        self,
        song_attrs: SongAttributes,
        dd_samples: Vec<u8>,
        dd_samples_ends: [usize; MAX_DD_SAMPLES],
    ) -> (res: YmSong)
        ensures
            res@ == (SongState {
                song_attrs: song_attrs@,
                dd_samples: dd_samples@,
                dd_samples_ends: dd_samples_ends@,
                ..self@
            }),
    {
        let mut song = self;
        song.song_attrs = song_attrs;
        song.dd_samples = dd_samples;
        song.dd_samples_ends = dd_samples_ends;
        song
    }

    /// Returns `YmSong` with the sample values that `packed` holds, two to a byte. This is
    /// how a `YM2!` song gets the sample values of its 40 samples, which no file holds:
    /// they are the same for every such song. Until it has them it cannot be played.
    pub fn with_ym2_samples(self, packed: &[u8]) -> (res: YmSong)
        ensures
            res@ == (SongState { dd_samples: nibbles(packed@), ..self@ }),
    {
        let mut song = self;
        song.dd_samples = unpack_ym2_samples(packed);
        song
    }

    /// Returns `YmSong` with the `chipset_frequency` and `frame_frequency` set from the given arguments.
    pub fn with_frequency(self, chipset_frequency: u32, frame_frequency: u16) -> (res: YmSong)
        ensures
            res@ == (SongState { chipset_frequency, frame_frequency, ..self@ }),
    {
        let mut song = self;
        song.chipset_frequency = chipset_frequency;
        song.frame_frequency = frame_frequency;
        song
    }

    /// Returns the song duration in nanoseconds, rounded down.
    pub fn song_duration(&self) -> (res: u128)
        requires
            self@.frame_frequency > 0,
        ensures
            res == (self@.frames.len() * 1_000_000_000) as int / (self@.frame_frequency as int),
    {
        let count: u128 = self.frames.len() as u128;
        count * 1_000_000_000 / (self.frame_frequency as u128)
    }

    /// Returns the AY/YM chipset clock frequency.
    pub fn clock_frequency(&self) -> (res: u32)
        ensures
            res == self@.chipset_frequency,
    {
        self.chipset_frequency
    }

    /// Calculates the timer interval in time units, from the given `divisor`.
    pub fn timer_interval(&self, divisor: u32) -> (res: u64)
        ensures
            res == self@.timer_step(divisor as nat),
            res <= TIME_MAX,
            divisor > 0 && self@.frame_frequency > 0 ==> res > 0,
    {
        assert(divisor * self.frame_frequency <= 0xffff_ffff * 0xffff) by (nonlinear_arith)
            requires
                divisor <= 0xffff_ffff,
                self.frame_frequency <= 0xffff,
        ;
        assert(divisor > 0 && self.frame_frequency > 0 ==> divisor * self.frame_frequency > 0)
            by (nonlinear_arith);
        (divisor as u64) * (self.frame_frequency as u64)
    }

    /// Returns the indicated sample data range in the [YmSong::dd_samples] for the given `sample`.
    pub fn sample_data_range(&self, sample: usize) -> (res: Range<usize>)
        requires
            sample < MAX_DD_SAMPLES,
        ensures
            res.start == self@.sample_start(sample as int),
            res.end == self@.dd_samples_ends[sample as int],
    {
        let end: usize = self.dd_samples_ends[sample];
        let start: usize = if sample == 0 {
            0
        } else {
            self.dd_samples_ends[sample - 1]
        };
        start..end
    }

    /// Switches the effect units of voice `v` off that last for one frame only.
    fn stop_voice(&mut self, v: usize)
        requires
            v < 3,
        ensures
            final(self)@ == old(self)@.with_voice(v as int, old(self)@.voices[v as int].stopped()),
    {
        self.voice_effects[v].0.stop();
        self.voice_effects[v].1.stop();
        assert(self@.voices =~= old(self)@.voices.update(
            v as int,
            old(self)@.voices[v as int].stopped(),
        ));
    }

    /// Resets the state of the player: the cursor goes back to the first frame, and every
    /// effect unit is stopped and put back to where a new song has it, so that the song is
    /// played as it was played the first time.
    pub fn reset(&mut self)
        ensures
            final(self)@ == old(self)@.rewound(),
            old(self)@.wf() ==> final(self)@.wf(),
    {
        self.cursor = 0;
        self.voice_effects = [(SidVoice::default(), SinusSid::default(), DigiDrum::default());3];
        self.buzzer = SyncBuzzer::default();
        assert(self@.voices =~= old(self)@.rewound().voices);
        proof {
            if old(self)@.wf() {
                assert forall|v: int| 0 <= v < 3 implies (#[trigger] self@.voices[v]).wf(
                    self@.dd_samples.len(),
                ) by {}
            }
        }
    }

    /// Returns the current frame cursor value.
    pub fn cursor(&self) -> (res: u32)
        ensures
            res == self@.cursor % 0x1_0000_0000,
    {
        let wide: u64 = self.cursor as u64;
        let low: u64 = wide & 0xffff_ffff;
        assert(low == wide % 0x1_0000_0000) by (bit_vector)
            requires
                low == wide & 0xffff_ffff,
        ;
        low as u32
    }

    /// Starts the effect `fx` on the voice `chan`, with a timer of the given `divisor`.
    /// `vol` is the value of the volume register of that voice: its four lowest bits are
    /// the level or the envelope shape, and for a drum it is the number of the sample.
    fn fx_update(&mut self, fx: FxType, chan: u8, divisor: u32, vol: u8)
        requires
            old(self)@.wf(),
            chan < 3,
            divisor > 0,
            vol < 32,
        ensures
            final(self)@ == old(self)@.fx_started(fx, chan as int, divisor as nat, vol),
            final(self)@.wf(),
    {
        let ghost before = self@;
        let ghost goal = before.fx_started(fx, chan as int, divisor as nat, vol);
        let step = self.timer_interval(divisor);
        match fx {
            FxType::SidVoice => {
                self.voice_effects[chan as usize].0.start(vol & 0x0f, step);
            },
            FxType::DigiDrum => {
                let range = self.sample_data_range(vol as usize);
                self.voice_effects[chan as usize].2.start(range.start, range.end, step);
            },
            FxType::SinusSid => {
                self.voice_effects[chan as usize].1.start(vol & 0x0f, step);
            },
            FxType::SyncBuzz => {
                self.buzzer.start(vol & 0x0f, step);
            },
        }
        assert(self@.voices =~= goal.voices);
    }

    /// Records the envelope writes of a `YM2!` frame and starts the drum that it asks for.
    pub fn play_ym2_frame(&mut self, rec: &mut Vec<RegChange>)
        requires
            old(self)@.wf(),
            old(self)@.version == YmVersion::Ym2,
        ensures
            final(self)@ == old(self)@.ym2_started(),
            final(self)@.wf(),
            final(rec)@ == old(rec)@ + old(self)@.envelope_writes(),
    {
        let ghost before = self@;
        let frame = self.frames[self.cursor];
        let shape: u8 = frame.data[ENV_REG as usize];
        if shape != 0xff {
            rec.push((0, ENV_PER_FINE_REG, frame.data[ENV_PER_FINE_REG as usize]));
            rec.push((0, ENV_PER_COARSE_REG, 0));
            rec.push((0, ENV_REG, 0x10));
        }
        assert(rec@ =~= old(rec)@ + before.envelope_writes());
        let vol_c: u8 = frame.data[10];
        if vol_c & 0x80 == 0x80 {
            let sample: usize = (vol_c & 0x7f) as usize;
            let prediv: u32 = frame.data[ENV_PER_COARSE_REG as usize] as u32;
            if sample < 40 {
                proof {
                    lemma_ym2_sample_ends(sample as int);
                }
                let end: usize = YM2_SAMPLE_ENDS[sample];
                if prediv != 0 {
                    let step = self.timer_interval(4 * prediv);
                    let start: usize = if sample == 0 {
                        0
                    } else {
                        YM2_SAMPLE_ENDS[sample - 1]
                    };
                    self.voice_effects[2].2.start(start, end, step);
                }
            }
        }
        assert(self@.voices =~= before.ym2_started().voices);
    }

    /// Records the envelope writes of a frame of any version but `YM2!`.
    pub fn play_ym3_frame(&self, rec: &mut Vec<RegChange>)
        requires
            self@.wf(),
            self@.version != YmVersion::Ym2,
        ensures
            final(rec)@ == old(rec)@ + self@.envelope_writes(),
    {
        let frame = self.frames[self.cursor];
        rec.push((0, ENV_PER_FINE_REG, frame.data[ENV_PER_FINE_REG as usize]));
        rec.push((0, ENV_PER_COARSE_REG, frame.data[ENV_PER_COARSE_REG as usize]));
        let shape: u8 = frame.data[ENV_REG as usize];
        if shape != 0xff {
            rec.push((0, ENV_REG, shape));
        }
        assert(rec@ =~= old(rec)@ + self@.envelope_writes());
    }

    /// Records the envelope writes of a `YM4!` or `YM5!` frame and starts the effects that
    /// it asks for.
    pub fn play_ym5_frame(&mut self, rec: &mut Vec<RegChange>)
        requires
            old(self)@.wf(),
            old(self)@.version != YmVersion::Ym2,
        ensures
            final(self)@ == old(self)@.ym5_started(),
            final(self)@.wf(),
            final(rec)@ == old(rec)@ + old(self)@.envelope_writes(),
    {
        let ghost before = self@;
        self.play_ym3_frame(rec);
        let frame = self.frames[self.cursor];
        let ts = match frame.fx0().ts_channel() {
            Some((reset_sid, chan)) => match frame.timer_divisor0() {
                Some(divisor) => Some((reset_sid, chan, divisor, frame.vol(chan))),
                None => None,
            },
            None => None,
        };
        let dd = match frame.fx1().dd_channel() {
            Some(chan) => match frame.timer_divisor1() {
                Some(divisor) => Some((chan, divisor, frame.vol(chan))),
                None => None,
            },
            None => None,
        };
        if let Some((reset_sid, chan, divisor, vol)) = ts {
            if reset_sid {
                self.voice_effects[chan as usize].0.reset();
                proof {
                    let voice = before.voices[chan as int];
                    assert(self@.voices =~= before.voices.update(
                        chan as int,
                        VoiceState { sid: voice.sid.restarted(), ..voice },
                    ));
                }
            }
            self.fx_update(FxType::SidVoice, chan, divisor, vol);
        }
        if let Some((chan, divisor, vol)) = dd {
            self.fx_update(FxType::DigiDrum, chan, divisor, vol);
        }
    }

    /// Records the envelope writes of a `YM6!` frame and starts the effects that it asks
    /// for.
    pub fn play_ym6_frame(&mut self, rec: &mut Vec<RegChange>)
        requires
            old(self)@.wf(),
            old(self)@.version != YmVersion::Ym2,
        ensures
            final(self)@ == old(self)@.ym6_started(),
            final(self)@.wf(),
            final(rec)@ == old(rec)@ + old(self)@.envelope_writes(),
    {
        self.play_ym3_frame(rec);
        let frame = self.frames[self.cursor];
        let fx0 = match frame.fx0().fx6_channel() {
            Some((fx, chan)) => match frame.timer_divisor0() {
                Some(divisor) => Some((fx, chan, divisor, frame.vol(chan))),
                None => None,
            },
            None => None,
        };
        let fx1 = match frame.fx1().fx6_channel() {
            Some((fx, chan)) => match frame.timer_divisor1() {
                Some(divisor) => Some((fx, chan, divisor, frame.vol(chan))),
                None => None,
            },
            None => None,
        };
        if let Some((fx, chan, divisor, vol)) = fx0 {
            self.fx_update(fx, chan, divisor, vol);
        }
        if let Some((fx, chan, divisor, vol)) = fx1 {
            self.fx_update(fx, chan, divisor, vol);
        }
    }

    /// Lets the effect units of voice `v` play the frame at the cursor.
    ///
    /// The changes that the driving unit makes to the volume register are added to `mixer`
    /// as a lane. If no unit drives the voice, the write of the frame's volume is added to
    /// `volumes` instead. Returns the mixer bits of the voice if its drum is active, else
    /// 0.
    fn mix_voice(&mut self, v: u8, mixer: &mut Mixer, volumes: &mut Vec<RegChange>) -> (mask: u8)
        requires
            old(self)@.wf(),
            v < 3,
            old(mixer)@.wf(),
            old(mixer)@.lanes.len() <= v,
        ensures
            final(self)@ == old(self)@.with_voice(
                v as int,
                old(self)@.voices[v as int].after_frame(),
            ),
            final(self)@.wf(),
            final(mixer)@.wf(),
            final(mixer)@.lanes == with_lane(old(mixer)@.lanes, old(self)@.voice_plan(v as int)),
            old(mixer)@.untouched() ==> final(mixer)@.untouched(),
            final(volumes)@ == old(volumes)@ + old(self)@.volume_plan(v as int),
            mask == old(self)@.mask_plan(v as int),
    {
        let ghost before = self@;
        let ghost voice = before.voices[v as int];
        let frame = self.frames[self.cursor];
        let reg: u8 = VOL_A_REG + v;
        let end_vol: u8 = frame.vol(reg);
        let mask: u8 = if !self.voice_effects[v as usize].2.is_active() {
            0
        } else if v == 0 {
            0b001001
        } else if v == 1 {
            0b010010
        } else {
            0b100100
        };
        let lane = match self.voice_effects[v as usize].0.iter_frame(FRAME_SPAN, reg) {
            Some(lane) => Some(lane),
            None => match self.voice_effects[v as usize].1.iter_frame(FRAME_SPAN, reg) {
                Some(lane) => Some(lane),
                None => match self.voice_effects[v as usize].2.iter_frame(
                    FRAME_SPAN,
                    reg,
                    self.dd_samples.as_slice(),
                    end_vol,
                ) {
                    Some(lane) => Some(lane),
                    None => None,
                },
            },
        };
        assert(self@.voices =~= before.voices.update(v as int, voice.after_frame()));
        match lane {
            Some(lane) => {
                mixer.push(lane);
                assert(volumes@ =~= old(volumes)@ + before.volume_plan(v as int));
            },
            None => {
                volumes.push((0, reg, end_vol));
                assert(volumes@ =~= old(volumes)@ + before.volume_plan(v as int));
            },
        }
        mask
    }

    /// Switches off the effects that last for one frame only, records the envelope writes
    /// of the frame at the cursor and starts the effects that the frame asks for.
    fn dispatch(&mut self, rec: &mut Vec<RegChange>)
        requires
            old(self)@.wf(),
        ensures
            final(self)@ == old(self)@.dispatched(),
            final(self)@.wf(),
            final(rec)@ == old(rec)@ + old(self)@.envelope_writes(),
    {
        let ghost before = self@;
        self.stop_voice(0);
        self.stop_voice(1);
        self.stop_voice(2);
        self.buzzer.stop();
        assert(self@.voices =~= before.stopped().voices);
        match self.version {
            YmVersion::Ym2 => self.play_ym2_frame(rec),
            YmVersion::Ym3 => self.play_ym3_frame(rec),
            YmVersion::Ym4 | YmVersion::Ym5 => self.play_ym5_frame(rec),
            YmVersion::Ym6 => self.play_ym6_frame(rec),
        }
    }

    /// Records the frame's registers 0 to 5.
    fn record_base(&self, rec: &mut Vec<RegChange>)
        requires
            self@.wf(),
        ensures
            final(rec)@ == old(rec)@ + self@.base_writes(),
    {
        let frame = self.frames[self.cursor];
        let mut reg: u8 = 0;
        while reg < MIXER_REG
            invariant
                reg <= MIXER_REG,
                frame@ == self@.frame(),
                rec@ == old(rec)@ + self@.base_writes().take(reg as int),
            decreases MIXER_REG - reg,
        {
            rec.push((0, reg, frame.data[reg as usize]));
            assert(self@.base_writes().take(reg + 1) =~= self@.base_writes().take(
                reg as int,
            ).push((0u64, reg, frame@[reg as int])));
            reg = reg + 1;
        }
        assert(self@.base_writes().take(MIXER_REG as int) =~= self@.base_writes());
    }

    /// Lets the effect units of the three voices play the frame at the cursor, once the
    /// frame has set up its effects: see [`Self::mix_voice`]. Returns the mixer bits of the
    /// voices whose drums are active.
    fn mix_voices(&mut self, mixer: &mut Mixer, volumes: &mut Vec<RegChange>) -> (mask: u8)
        requires
            old(self)@.wf(),
            old(mixer)@.wf(),
            old(mixer)@.lanes.len() == 0,
            old(volumes)@.len() == 0,
        ensures
            final(self)@ == (SongState {
                voices: Seq::new(3, |v: int| old(self)@.voices[v].after_frame()),
                ..old(self)@
            }),
            final(self)@.wf(),
            final(mixer)@.wf(),
            final(mixer)@.untouched(),
            final(mixer)@.lanes == with_lane(
                with_lane(
                    with_lane(Seq::empty(), old(self)@.voice_plan(0)),
                    old(self)@.voice_plan(1),
                ),
                old(self)@.voice_plan(2),
            ),
            final(volumes)@ == old(self)@.volume_plan(0) + old(self)@.volume_plan(1) + old(
                self,
            )@.volume_plan(2),
            mask == old(self)@.mask_plan(0) | old(self)@.mask_plan(1) | old(self)@.mask_plan(2),
    {
        let ghost s0 = self@;
        assert(mixer@.lanes =~= Seq::<Seq<RegChange>>::empty());
        assert(volumes@ =~= Seq::<RegChange>::empty());
        let mask_a = self.mix_voice(0, mixer, volumes);
        let ghost s1 = self@;
        assert(s1.voices[1] == s0.voices[1] && s1.voices[2] == s0.voices[2]);
        assert(volumes@ =~= s0.volume_plan(0));
        let mask_b = self.mix_voice(1, mixer, volumes);
        let ghost s2 = self@;
        assert(s2.voices[2] == s0.voices[2]);
        let mask_c = self.mix_voice(2, mixer, volumes);
        assert(self@.voices =~= Seq::new(3, |v: int| s0.voices[v].after_frame()));
        mask_a | mask_b | mask_c
    }

    /// Lets the effect units play the frame at the cursor, once the frame has set up its
    /// effects, and records what follows the envelope writes.
    fn play_frame(&mut self, rec: &mut Vec<RegChange>)
        requires
            old(self)@.wf(),
        ensures
            final(self)@ == old(self)@.played(),
            final(self)@.wf(),
            final(rec)@ == old(rec)@ + old(self)@.frame_plan(),
    {
        let ghost before = self@;
        self.record_base(rec);
        let frame = self.frames[self.cursor];
        let mut mixer = Mixer::new();
        let mut volumes: Vec<RegChange> = Vec::new();
        let mask = self.mix_voices(&mut mixer, &mut volumes);
        let chan_mix: u8 = frame.data[MIXER_BYTE] | mask;
        assert(chan_mix == before.mixer_plan()) by {
            let f = frame.data[MIXER_BYTE as int];
            let a = before.mask_plan(0);
            let b = before.mask_plan(1);
            let c = before.mask_plan(2);
            assert(f | (a | b | c) == f | a | b | c) by (bit_vector);
        }
        rec.push((0, MIXER_REG, chan_mix));
        rec.append(&mut volumes);
        let ghost recorded = rec@;
        assert(recorded =~= old(rec)@ + before.base_writes() + seq![
            (0u64, MIXER_REG, before.mixer_plan()),
        ] + before.volume_plan(0) + before.volume_plan(1) + before.volume_plan(2));
        if let Some(lane) = self.buzzer.iter_frame(FRAME_SPAN) {
            mixer.push(lane);
        }
        proof {
            assert(mixer@.lanes == before.lanes_plan());
            assert(mixer@.heads =~= before.mixing_plan().heads);
        }
        mixer.drain_into(rec);
        assert(rec@ =~= old(rec)@ + before.frame_plan());
    }

    /// Moves the cursor on by one frame. Returns `true` if it was at the last frame.
    fn advance(&mut self) -> (done: bool)
        requires
            old(self)@.wf(),
        ensures
            final(self)@ == old(self)@.advanced(),
            final(self)@.wf(),
            done == old(self)@.at_last_frame(),
    {
        let nframes: usize = self.frames.len();
        if self.cursor + 1 == nframes {
            let loop_frame: usize = self.loop_frame as usize;
            self.cursor = if loop_frame < nframes {
                loop_frame
            } else {
                nframes - 1
            };
            true
        } else {
            self.cursor = self.cursor + 1;
            false
        }
    }

    /// Produces the changes to the AY/YM chipset registers for the current frame indicated by
    /// the cursor and advances the cursor forward one frame.
    ///
    /// At the start of the frame the envelope registers are written, then the registers 0 to 5
    /// as the frame holds them, then the mixer byte of the frame to register 6. Register 7
    /// is never written.
    ///
    /// Each change is added to `rec` as a tuple of:
    /// * The timestamp relative to the current frame, where `0` is the beginning of the
    ///   frame and [`FRAME_SPAN`] is its end. The timestamp is always less than
    ///   [`FRAME_SPAN`].
    /// * The modified register's number `[0, 13]`.
    /// * The modified register's new value.
    ///
    /// The changes are always being added in the ascending order of the timestamp.
    ///
    /// Returns `true` if this was the last frame before the cursor has been set to the loop frame.
    /// Otherwise returns `false`.
    ///
    /// This method can be used to populate changes to the AY/YM chipset or an emulator, to play
    /// the YM-file song.
    pub fn produce_next_ay_frame(&mut self, rec: &mut Vec<RegChange>) -> (done: bool)
        requires
            old(self)@.wf(),
        ensures
            final(self)@ == old(self)@.next(),
            final(self)@.wf(),
            final(rec)@ == old(rec)@ + old(self)@.events(),
            done == old(self)@.at_last_frame(),
    {
        let ghost before = self@;
        self.dispatch(rec);
        self.play_frame(rec);
        assert(rec@ =~= old(rec)@ + before.events());
        self.advance()
    }
}

/// What the state of a song says of its fields: the state has as many frames and sample
/// values as the fields hold, and its cursor is the field. A song that can be played has
/// a frame, and its cursor is at one of its frames.
pub proof fn lemma_song_view(song: &YmSong)
    ensures
        song@.frames.len() == song.frames@.len(),
        forall|i: int| 0 <= i < song.frames@.len() ==> song@.frames[i] == song.frames@[i].data@,
        song@.dd_samples == song.dd_samples@,
        song@.dd_samples_ends == song.dd_samples_ends@,
        song@.cursor == song.cursor,
        song@.version == song.version,
        song@.loop_frame == song.loop_frame,
        song@.frame_frequency == song.frame_frequency,
        song@.chipset_frequency == song.chipset_frequency,
        song@.wf() ==> song.frames@.len() >= 1 && song.cursor < song.frames@.len()
            && song.frame_frequency > 0,
{
}

/// Every sample of a `YM2!` song ends within the sample values that such a song has, and
/// no sample ends before the one before it.
pub proof fn lemma_ym2_sample_ends(i: int)
    requires
        0 <= i < 40,
    ensures
        YM2_SAMPLE_ENDS@[i] <= YM2_SAMPLES_LEN,
        i > 0 ==> YM2_SAMPLE_ENDS@[i - 1] <= YM2_SAMPLE_ENDS@[i],
{
    let t = YM2_SAMPLE_ENDS@;
    assert(t[0] <= t[1] <= t[2] <= t[3] <= t[4] <= t[5] <= t[6] <= t[7] <= t[8] <= t[9]);
    assert(t[9] <= t[10] <= t[11] <= t[12] <= t[13] <= t[14] <= t[15] <= t[16] <= t[17] <= t[18]
        <= t[19]);
    assert(t[19] <= t[20] <= t[21] <= t[22] <= t[23] <= t[24] <= t[25] <= t[26] <= t[27] <= t[28]
        <= t[29]);
    assert(t[29] <= t[30] <= t[31] <= t[32] <= t[33] <= t[34] <= t[35] <= t[36] <= t[37] <= t[38]
        <= t[39] <= YM2_SAMPLES_LEN);
}

} // verus!
