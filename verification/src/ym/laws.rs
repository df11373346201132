//! Laws of the player and of the parser.
//!
//! The functions of this module are proofs: they state what follows from the definitions in
//! [`crate::ym::effects`], [`crate::ym::playback`] and [`crate::ym::parse`], for every song
//! and every file.
use chrono::NaiveDateTime;
use vstd::prelude::*;

use crate::ym::effects::{
    lemma_timer_frame, DigiDrumState, RegChange, SidVoiceState, SinusSidState, SyncBuzzerState,
    sinus_level, TimerState, FRAME_SPAN, SINUS_SID, TIME_MAX,
};
use crate::ym::flags::FxType;
use crate::ym::mixer::{lemma_merged_all, lemma_merged_ordered, ordered, MixerState};
use crate::ym::flags::INTERLEAVED;
use crate::ym::parse::{
    body_of, early_song, header_of, later_song, lemma_nul_from, lemma_samples_from, parsed,
    signature_of, text_end, ParseError,
};
use crate::ym::playback::{
    effect0, effect1, with_lane, SongState, VoiceState, YM2_SAMPLES_LEN, YM2_SAMPLE_ENDS,
};
use crate::ym::song::{lemma_ym2_sample_ends, nibbles};
use crate::ym::{YmVersion, MAX_DD_SAMPLES};

verus! {

/// The `Sinus SID` table has its peak at the start of the period and its trough in the
/// middle, and its second half mirrors the first. So do the levels that are made of it.
pub proof fn lemma_sinus_sid_table(k: int, vol: int)
    requires
        0 <= k < 8,
    ensures
        SINUS_SID@[0] == 255,
        SINUS_SID@[4] == 0,
        SINUS_SID@[k] == SINUS_SID@[(8 - k) % 8],
        sinus_level(k, vol) == sinus_level((8 - k) % 8, vol),
{
    assert(((8 - k) % 8) % 8 == (8 - k) % 8);
}

/// Whether `changes` come at the ticks of `timer`, one for each tick from the first on,
/// within the frame that ends at `limit`.
pub open spec fn paced(changes: Seq<RegChange>, timer: TimerState, limit: nat) -> bool {
    &&& changes.len() <= timer.ticks(limit)
    &&& forall|k: int| 0 <= k < changes.len() ==> (#[trigger] changes[k]).0 == timer.tick(k)
}

/// Changes that come at the ticks of a timer come at strictly increasing times, all of them
/// within the frame.
pub proof fn lemma_paced(changes: Seq<RegChange>, timer: TimerState, limit: nat)
    requires
        timer.step > 0,
        paced(changes, timer, limit),
    ensures
        forall|k: int| 0 <= k < changes.len() ==> (#[trigger] changes[k]).0 < limit,
        forall|j: int, k: int|
            0 <= j < k < changes.len() ==> (#[trigger] changes[j]).0 < (#[trigger] changes[k]).0,
        ordered(changes),
        changes.len() <= limit,
{
    lemma_timer_frame(timer, limit);
    if changes.len() > 0 {
        let last = changes.len() - 1;
        assert(changes[last].0 == timer.tick(last));
        assert(timer.tick(last) < limit);
        assert(last * timer.step >= last) by (nonlinear_arith)
            requires
                last >= 0,
                timer.step >= 1,
        ;
    }
    assert forall|k: int| 0 <= k < changes.len() implies (#[trigger] changes[k]).0 < limit by {
        assert(timer.tick(k) < limit);
    }
    assert forall|j: int, k: int| 0 <= j < k < changes.len() implies (#[trigger] changes[j]).0 < (
    #[trigger] changes[k]).0 by {
        assert(timer.tick(j) < timer.tick(k));
    }
    assert forall|j: int, k: int| 0 <= j <= k < changes.len() implies changes[j].0
        <= changes[k].0 by {
        if j < k {
            assert(changes[j].0 < changes[k].0);
        }
    }
}

/// Every unit writes at the ticks of its timer.
pub proof fn lemma_units_paced(
    sid: SidVoiceState,
    sinus: SinusSidState,
    drum: DigiDrumState,
    buzzer: SyncBuzzerState,
    limit: nat,
    reg: u8,
    samples: Seq<u8>,
    end_vol: u8,
)
    requires
        limit <= TIME_MAX,
        sid.timer.wf(),
        sinus.timer.wf(),
        drum.timer.wf(),
        buzzer.timer.wf(),
    ensures
        paced(sid.events(limit, reg), sid.timer, limit),
        paced(sinus.events(limit, reg), sinus.timer, limit),
        drum.active() ==> paced(drum.events(limit, reg, samples, end_vol), drum.timer, limit),
        paced(buzzer.events(limit), buzzer.timer, limit),
{
    lemma_tick_range(sid.timer, limit);
    lemma_tick_range(sinus.timer, limit);
    lemma_tick_range(drum.timer, limit);
    lemma_tick_range(buzzer.timer, limit);
}

/// The ticks of a frame fit into 64 bits.
proof fn lemma_tick_range(timer: TimerState, limit: nat)
    requires
        limit <= TIME_MAX,
        timer.wf(),
    ensures
        forall|k: int| 0 <= k < timer.ticks(limit) ==> 0 <= #[trigger] timer.tick(k) < limit,
{
    if timer.step > 0 {
        lemma_timer_frame(timer, limit);
    }
}

/// A drum whose sample ends within the frame writes each value that is left and then, at
/// the very next tick, the volume that it was given: this is its last change, and after the
/// frame the drum is at rest.
pub proof fn lemma_drum_ends(
    drum: DigiDrumState,
    limit: nat,
    reg: u8,
    samples: Seq<u8>,
    end_vol: u8,
)
    requires
        drum.wf(),
        limit <= TIME_MAX,
        drum.ends_before(limit),
    ensures
        drum.events(limit, reg, samples, end_vol).len() == drum.left() + 1,
        drum.events(limit, reg, samples, end_vol).last() == (
            drum.timer.tick(drum.left() as int) as u64,
            reg,
            end_vol,
        ),
        forall|k: int|
            0 <= k < drum.left() ==> (#[trigger] drum.events(limit, reg, samples, end_vol)[k]).2
                == samples[drum.cur + k],
        drum.timer.tick(drum.left() as int) < limit,
        !drum.after_frame(limit).active(),
{
    lemma_timer_frame(drum.timer, limit);
}

/// The square wave of a `SID voice` goes on alike whether the voice is switched on or off.
pub proof fn lemma_sid_voice_at_rest(sid: SidVoiceState, limit: nat)
    ensures
        sid.stopped().after_frame(limit) == sid.after_frame(limit).stopped(),
        sid.after_frame(limit).cur == (sid.cur != (sid.timer.ticks(limit) % 2 == 1)),
        sid.after_frame(limit).timer == sid.timer.after(limit),
{
}

/// Setting up the effects of a frame changes nothing but the effect units, and leaves a
/// song that can be played one that can be played.
pub proof fn lemma_dispatched(song: SongState)
    requires
        song.wf(),
    ensures
        song.dispatched().wf(),
        song.dispatched() == (SongState {
            voices: song.dispatched().voices,
            buzzer: song.dispatched().buzzer,
            ..song
        }),
{
    let stopped = song.stopped();
    assert(stopped.wf());
    match song.version {
        YmVersion::Ym2 => {
            let sample = (song.frame()[10] & 0x7f) as int;
            if sample < 40 {
                lemma_ym2_sample_ends(sample);
            }
            lemma_step(stopped, 4 * song.frame()[12]);
        },
        YmVersion::Ym3 => {},
        YmVersion::Ym4 | YmVersion::Ym5 => {
            lemma_ym5_started(stopped);
        },
        YmVersion::Ym6 => {
            lemma_ym6_started(stopped);
        },
    }
}

/// The step of a timer whose divisor is not zero is not zero, and it is not too long.
proof fn lemma_step(song: SongState, divisor: int)
    requires
        song.frame_frequency > 0,
        0 <= divisor <= u32::MAX,
    ensures
        song.timer_step(divisor as nat) <= TIME_MAX,
        divisor > 0 ==> song.timer_step(divisor as nat) > 0,
{
    let f = song.frame_frequency as int;
    assert(divisor * f <= 0xffff_ffff * 0xffff) by (nonlinear_arith)
        requires
            0 <= divisor <= 0xffff_ffff,
            0 < f <= 0xffff,
    ;
    assert(divisor > 0 ==> divisor * f > 0) by (nonlinear_arith)
        requires
            f > 0,
    ;
}

/// Starting an effect changes nothing but the effect units, and leaves a song that can be
/// played one that can be played.
proof fn lemma_fx_started(song: SongState, fx: FxType, chan: int, divisor: nat, vol: u8)
    requires
        song.wf(),
        0 <= chan < 3,
        0 < divisor <= u32::MAX,
        vol < 32,
    ensures
        song.fx_started(fx, chan, divisor, vol).wf(),
        song.fx_started(fx, chan, divisor, vol) == (SongState {
            voices: song.fx_started(fx, chan, divisor, vol).voices,
            buzzer: song.fx_started(fx, chan, divisor, vol).buzzer,
            ..song
        }),
{
    lemma_step(song, divisor as int);
    let after = song.fx_started(fx, chan, divisor, vol);
    assert(song.dd_samples_ends[vol as int] <= song.dd_samples.len());
    assert forall|v: int| 0 <= v < 3 implies (#[trigger] after.voices[v]).wf(
        after.dd_samples.len(),
    ) by {
        assert(song.voices[v].wf(song.dd_samples.len()));
    }
}

/// An effect that a frame asks for has a voice, a divisor that is not zero and a volume of
/// five bits.
pub proof fn lemma_effect(frame: Seq<u8>)
    ensures
        effect0(frame) matches Some((chan, divisor, vol)) ==> chan < 3 && 0 < divisor && vol < 32,
        effect1(frame) matches Some((chan, divisor, vol)) ==> chan < 3 && 0 < divisor && vol < 32,
{
    let a = frame[8];
    let b = frame[9];
    let c = frame[10];
    let d = frame[11];
    assert(a & 0x1f < 32 && b & 0x1f < 32 && c & 0x1f < 32 && d & 0x1f < 32) by (bit_vector);
    assert(forall|chan: u8| (#[trigger] (chan & 3)) < 4) by (bit_vector);
}

proof fn lemma_ym5_started(song: SongState)
    requires
        song.wf(),
    ensures
        song.ym5_started().wf(),
        song.ym5_started() == (SongState {
            voices: song.ym5_started().voices,
            buzzer: song.ym5_started().buzzer,
            ..song
        }),
{
    let frame = song.frame();
    lemma_effect(frame);
    let first = match effect0(frame) {
        Some((chan, divisor, vol)) => {
            let voice = song.voices[chan as int];
            let restarted = song.with_voice(
                chan as int,
                VoiceState { sid: voice.sid.restarted(), ..voice },
            );
            let chosen = if frame[1] & crate::ym::flags::MFP_TIMER_RESTART != 0 {
                restarted
            } else {
                song
            };
            assert(voice.wf(song.dd_samples.len()));
            assert forall|v: int| 0 <= v < 3 implies (#[trigger] chosen.voices[v]).wf(
                chosen.dd_samples.len(),
            ) by {
                assert(song.voices[v].wf(song.dd_samples.len()));
            }
            lemma_fx_started(chosen, FxType::SidVoice, chan as int, divisor as nat, vol);
            chosen.fx_started(FxType::SidVoice, chan as int, divisor as nat, vol)
        },
        None => song,
    };
    match effect1(frame) {
        Some((chan, divisor, vol)) => {
            lemma_fx_started(first, FxType::DigiDrum, chan as int, divisor as nat, vol);
        },
        None => {},
    }
}

proof fn lemma_ym6_started(song: SongState)
    requires
        song.wf(),
    ensures
        song.ym6_started().wf(),
        song.ym6_started() == (SongState {
            voices: song.ym6_started().voices,
            buzzer: song.ym6_started().buzzer,
            ..song
        }),
{
    let frame = song.frame();
    lemma_effect(frame);
    let first = match effect0(frame) {
        Some((chan, divisor, vol)) => {
            let fx = crate::ym::flags::fx_type_of(frame[1]);
            lemma_fx_started(song, fx, chan as int, divisor as nat, vol);
            song.fx_started(fx, chan as int, divisor as nat, vol)
        },
        None => song,
    };
    match effect1(frame) {
        Some((chan, divisor, vol)) => {
            let fx = crate::ym::flags::fx_type_of(frame[3]);
            lemma_fx_started(first, fx, chan as int, divisor as nat, vol);
        },
        None => {},
    }
}

/// The timestamps of `changes` never go back and all of them lie within a frame.
pub open spec fn in_frame_order(changes: Seq<RegChange>) -> bool {
    &&& ordered(changes)
    &&& forall|k: int| 0 <= k < changes.len() ==> (#[trigger] changes[k]).0 < FRAME_SPAN
}

/// What holds of every lane that an effect unit fills: it is in the order of its
/// timestamps, which lie within the frame, and has one change for a unit of time at most.
pub open spec fn lane_order(lane: Seq<RegChange>) -> bool {
    in_frame_order(lane) && lane.len() <= FRAME_SPAN
}

/// The lane of a voice is in the order of its timestamps, which lie within the frame.
proof fn lemma_voice_lane(song: SongState, v: int)
    requires
        song.wf(),
        0 <= v < 3,
    ensures
        song.voice_plan(v) matches Some(lane) ==> lane_order(lane),
{
    let voice = song.voices[v];
    assert(voice.wf(song.dd_samples.len()));
    let reg = SongState::vol_reg(v);
    let end_vol = crate::ym::frame_vol(song.frame(), reg);
    lemma_units_paced(
        voice.sid,
        voice.sinus,
        voice.drum,
        song.buzzer,
        FRAME_SPAN as nat,
        reg,
        song.dd_samples,
        end_vol,
    );
    match voice.source() {
        Some(FxType::SidVoice) => {
            lemma_paced(voice.sid.events(FRAME_SPAN as nat, reg), voice.sid.timer, FRAME_SPAN as nat);
        },
        Some(FxType::SinusSid) => {
            lemma_paced(
                voice.sinus.events(FRAME_SPAN as nat, reg),
                voice.sinus.timer,
                FRAME_SPAN as nat,
            );
        },
        Some(_) => {
            lemma_paced(
                voice.drum.events(FRAME_SPAN as nat, reg, song.dd_samples, end_vol),
                voice.drum.timer,
                FRAME_SPAN as nat,
            );
        },
        None => {},
    }
}

/// Every lane that is mixed is in the order of its timestamps, which lie within the frame.
pub proof fn lemma_lanes_plan(song: SongState)
    requires
        song.wf(),
    ensures
        song.mixing_plan().wf(),
        song.mixing_plan().untouched(),
        forall|i: int|
            0 <= i < song.lanes_plan().len() ==> lane_order(#[trigger] song.lanes_plan()[i]),
{
    lemma_voice_lane(song, 0);
    lemma_voice_lane(song, 1);
    lemma_voice_lane(song, 2);
    lemma_units_paced(
        song.voices[0].sid,
        song.voices[0].sinus,
        song.voices[0].drum,
        song.buzzer,
        FRAME_SPAN as nat,
        0,
        song.dd_samples,
        0,
    );
    assert(song.voices[0].wf(song.dd_samples.len()));
    if song.buzzer.active {
        lemma_paced(song.buzzer.events(FRAME_SPAN as nat), song.buzzer.timer, FRAME_SPAN as nat);
    }
    let a = with_lane(Seq::empty(), song.voice_plan(0));
    let b = with_lane(a, song.voice_plan(1));
    let c = with_lane(b, song.voice_plan(2));
    let d = with_lane(c, song.buzzer_plan());
    assert(forall|i: int| 0 <= i < a.len() ==> lane_order(#[trigger] a[i]));
    assert(forall|i: int| 0 <= i < b.len() ==> lane_order(#[trigger] b[i]));
    assert(forall|i: int| 0 <= i < c.len() ==> lane_order(#[trigger] c[i]));
    assert(forall|i: int| 0 <= i < d.len() ==> lane_order(#[trigger] d[i]));
    assert(a.len() <= 1 && b.len() <= 2 && c.len() <= 3 && d.len() <= 4);
}

/// Changes at time zero, followed by changes in the order of their timestamps, are in the
/// order of their timestamps.
proof fn lemma_zero_prefix(opening: Seq<RegChange>, rest: Seq<RegChange>)
    requires
        forall|k: int| 0 <= k < opening.len() ==> (#[trigger] opening[k]).0 == 0,
        in_frame_order(rest),
    ensures
        in_frame_order(opening + rest),
{
    let all = opening + rest;
    assert forall|k: int| 0 <= k < all.len() implies (#[trigger] all[k]).0 < FRAME_SPAN by {
        if k >= opening.len() {
            assert(all[k] == rest[k - opening.len()]);
        }
    }
    assert forall|j: int, k: int| 0 <= j <= k < all.len() implies all[j].0 <= all[k].0 by {
        if j >= opening.len() {
            assert(all[j] == rest[j - opening.len()]);
            assert(all[k] == rest[k - opening.len()]);
        }
    }
}

/// What the mixer hands out in a frame is in the order of its timestamps, which lie
/// within the frame.
proof fn lemma_mixed_in_frame_order(song: SongState)
    requires
        song.wf(),
    ensures
        in_frame_order(song.mixing_plan().merged()),
{
    lemma_lanes_plan(song);
    let mixer = song.mixing_plan();
    assert forall|i: int| 0 <= i < mixer.lanes.len() implies ordered(#[trigger] mixer.lanes[i]) by {
        assert(lane_order(song.lanes_plan()[i]));
    }
    lemma_merged_ordered(mixer);
    let within = |change: RegChange| change.0 < FRAME_SPAN;
    assert forall|i: int, k: int|
        0 <= i < mixer.lanes.len() && mixer.heads[i] <= k < mixer.lanes[i].len() implies within(
        #[trigger] mixer.lanes[i][k],
    ) by {
        assert(lane_order(song.lanes_plan()[i]));
    }
    lemma_merged_all(mixer, within);
    let merged = mixer.merged();
    assert forall|k: int| 0 <= k < merged.len() implies (#[trigger] merged[k]).0 < FRAME_SPAN by {
        assert(within(merged[k]));
    }
}

/// Once a frame has set up its effects, what it records behind the envelope writes is in
/// the order of its timestamps, which lie within the frame.
proof fn lemma_frame_plan_in_order(song: SongState)
    requires
        song.wf(),
    ensures
        in_frame_order(song.frame_plan()),
{
    lemma_mixed_in_frame_order(song);
    let opening = song.base_writes() + seq![
        (0u64, crate::ym::effects::MIXER_REG, song.mixer_plan()),
    ] + song.volume_plan(0) + song.volume_plan(1) + song.volume_plan(2);
    assert(forall|k: int| 0 <= k < opening.len() ==> (#[trigger] opening[k]).0 == 0);
    lemma_zero_prefix(opening, song.mixing_plan().merged());
    assert(song.frame_plan() =~= opening + song.mixing_plan().merged());
}

/// The envelope writes are made at time zero.
proof fn lemma_envelope_at_zero(song: SongState)
    ensures
        forall|k: int|
            0 <= k < song.envelope_writes().len() ==> (#[trigger] song.envelope_writes()[k]).0
                == 0,
{
}

/// Within a frame the register changes are recorded in the order of their timestamps, and
/// every timestamp lies within the frame.
pub proof fn lemma_events_in_frame_order(song: SongState)
    requires
        song.wf(),
    ensures
        in_frame_order(song.events()),
{
    lemma_dispatched(song);
    lemma_frame_plan_in_order(song.dispatched());
    lemma_envelope_at_zero(song);
    lemma_zero_prefix(song.envelope_writes(), song.dispatched().frame_plan());
}

/// The song after `count` frames have been played.
pub open spec fn after_frames(song: SongState, count: nat) -> SongState
    decreases count,
{
    if count == 0 {
        song
    } else {
        after_frames(song, (count - 1) as nat).next()
    }
}

/// The register changes of the next `count` frames.
pub open spec fn events_of_frames(song: SongState, count: nat) -> Seq<RegChange>
    decreases count,
{
    if count == 0 {
        Seq::empty()
    } else {
        events_of_frames(song, (count - 1) as nat) + after_frames(
            song,
            (count - 1) as nat,
        ).events()
    }
}

/// Playing a frame changes nothing but the cursor and the effect units, and leaves a song
/// that can be played one that can be played.
pub proof fn lemma_next(song: SongState)
    requires
        song.wf(),
    ensures
        song.next().wf(),
        song.next() == (SongState {
            cursor: song.next_cursor(),
            voices: song.next().voices,
            buzzer: song.next().buzzer,
            ..song
        }),
        song.next_cursor() < song.frames.len(),
{
    lemma_dispatched(song);
    let set_up = song.dispatched();
    let played = set_up.played();
    assert forall|v: int| 0 <= v < 3 implies (#[trigger] played.voices[v]).wf(
        played.dd_samples.len(),
    ) by {
        let voice = set_up.voices[v];
        assert(voice.wf(set_up.dd_samples.len()));
        lemma_voice_after_frame(voice, set_up.dd_samples.len());
    }
    if set_up.buzzer.timer.step > 0 {
        lemma_timer_frame(set_up.buzzer.timer, FRAME_SPAN as nat);
    }
}

/// A voice stays well-formed over a frame.
proof fn lemma_voice_after_frame(voice: VoiceState, samples: nat)
    requires
        voice.wf(samples),
    ensures
        voice.after_frame().wf(samples),
{
    if voice.sid.timer.step > 0 {
        lemma_timer_frame(voice.sid.timer, FRAME_SPAN as nat);
    }
    if voice.sinus.timer.step > 0 {
        lemma_timer_frame(voice.sinus.timer, FRAME_SPAN as nat);
    }
    if voice.drum.timer.step > 0 {
        lemma_timer_frame(voice.drum.timer, FRAME_SPAN as nat);
    }
}

/// Played from its first frame, a song is at frame `k` after `k` frames, as long as it has
/// that many, and the frame that it plays then is the last one only if `k` is the number
/// of the last frame. After as many frames as the song has, the cursor is at the loop
/// frame, or at the last frame if the loop frame lies behind it.
pub proof fn lemma_full_pass(song: SongState, k: nat)
    requires
        song.wf(),
        song.cursor == 0,
        k <= song.frames.len(),
    ensures
        after_frames(song, k).wf(),
        after_frames(song, k).frames == song.frames,
        after_frames(song, k).loop_frame == song.loop_frame,
        k < song.frames.len() ==> after_frames(song, k).cursor == k,
        k < song.frames.len() ==> (after_frames(song, k).at_last_frame() <==> k + 1
            == song.frames.len()),
        k == song.frames.len() ==> after_frames(song, k).cursor == if song.loop_frame
            < song.frames.len() {
            song.loop_frame as nat
        } else {
            (song.frames.len() - 1) as nat
        },
    decreases k,
{
    if k > 0 {
        lemma_full_pass(song, (k - 1) as nat);
        lemma_next(after_frames(song, (k - 1) as nat));
    }
}

/// The changes of `changes` that are made to the register `reg`, in their order.
pub open spec fn on_reg(changes: Seq<RegChange>, reg: u8) -> Seq<RegChange> {
    changes.filter(|change: RegChange| change.1 == reg)
}

/// Whether every change of `changes` is made to the register `reg`.
pub open spec fn all_on_reg(changes: Seq<RegChange>, reg: u8) -> bool {
    forall|k: int| 0 <= k < changes.len() ==> (#[trigger] changes[k]).1 == reg
}

/// Whether no change of `changes` is made to the register `reg`.
pub open spec fn none_on_reg(changes: Seq<RegChange>, reg: u8) -> bool {
    forall|k: int| 0 <= k < changes.len() ==> (#[trigger] changes[k]).1 != reg
}

/// The changes that two sequences make to a register are those that the first makes,
/// followed by those that the second makes.
pub proof fn lemma_on_reg_add(a: Seq<RegChange>, b: Seq<RegChange>, reg: u8)
    ensures
        on_reg(a + b, reg) == on_reg(a, reg) + on_reg(b, reg),
{
    Seq::filter_distributes_over_add(a, b, |change: RegChange| change.1 == reg);
}

/// Of changes that are all made to one register, all are made to that register.
pub proof fn lemma_on_reg_all(changes: Seq<RegChange>, reg: u8)
    requires
        all_on_reg(changes, reg),
    ensures
        on_reg(changes, reg) == changes,
    decreases changes.len(),
{
    reveal(Seq::filter);
    if changes.len() > 0 {
        let front = changes.drop_last();
        assert forall|k: int| 0 <= k < front.len() implies (#[trigger] front[k]).1 == reg by {
            assert(front[k] == changes[k]);
        }
        lemma_on_reg_all(front, reg);
        assert(changes.last().1 == reg);
        assert(front.push(changes.last()) =~= changes);
    } else {
        assert(on_reg(changes, reg) =~= changes);
    }
}

/// Of changes none of which is made to a register, none is made to that register.
pub proof fn lemma_on_reg_none(changes: Seq<RegChange>, reg: u8)
    requires
        none_on_reg(changes, reg),
    ensures
        on_reg(changes, reg) == Seq::<RegChange>::empty(),
    decreases changes.len(),
{
    reveal(Seq::filter);
    if changes.len() > 0 {
        let front = changes.drop_last();
        assert forall|k: int| 0 <= k < front.len() implies (#[trigger] front[k]).1 != reg by {
            assert(front[k] == changes[k]);
        }
        lemma_on_reg_none(front, reg);
        assert(changes.last().1 != reg);
    } else {
        assert(on_reg(changes, reg) =~= Seq::<RegChange>::empty());
    }
}

/// If the changes to a register are all in one lane, the mixer hands them out in the order
/// in which that lane has them. `lane` is the number of that lane; if it is the number of
/// no lane, no change is made to the register.
pub proof fn lemma_merged_on_reg(m: MixerState, reg: u8, lane: int)
    requires
        m.wf(),
        forall|i: int, k: int|
            0 <= i < m.lanes.len() && i != lane && m.heads[i] <= k < m.lanes[i].len() ==> (
            #[trigger] m.lanes[i][k]).1 != reg,
    ensures
        on_reg(m.merged(), reg) == if 0 <= lane < m.lanes.len() {
            on_reg(m.rest(lane), reg)
        } else {
            Seq::<RegChange>::empty()
        },
    decreases m.pending(),
{
    crate::ym::mixer::lemma_merged_unfold(m);
    crate::ym::mixer::lemma_best(m, m.lanes.len() as int);
    match m.pick() {
        Some(p) => {
            let rest = m.advance(p);
            let first = m.head(p);
            lemma_merged_on_reg(rest, reg, lane);
            lemma_on_reg_add(seq![first], rest.merged(), reg);
            if p == lane {
                assert(m.rest(lane) =~= seq![first] + rest.rest(lane));
                lemma_on_reg_add(seq![first], rest.rest(lane), reg);
            } else {
                assert(m.lanes[p][m.heads[p] as int].1 != reg);
                assert(none_on_reg(seq![first], reg));
                lemma_on_reg_none(seq![first], reg);
                if 0 <= lane < m.lanes.len() {
                    assert(m.rest(lane) =~= rest.rest(lane));
                }
                assert(on_reg(m.merged(), reg) =~= on_reg(rest.merged(), reg));
            }
        },
        None => {
            if 0 <= lane < m.lanes.len() {
                assert(!m.live(lane));
                assert(m.heads[lane] <= m.lanes[lane].len());
                assert(m.rest(lane) =~= Seq::<RegChange>::empty());
            }
            assert(none_on_reg(Seq::<RegChange>::empty(), reg));
            lemma_on_reg_none(Seq::<RegChange>::empty(), reg);
        },
    }
}

/// The song with the cursor at its last frame.
pub open spec fn at_end(song: SongState) -> SongState {
    SongState { cursor: (song.frames.len() - 1) as nat, ..song }
}

/// A song that was parsed has a frame, its cursor is at the first frame, none of its
/// samples ends behind its sample values, and from its last frame it loops to one of its
/// frames. It can be played, a `YM2!` song once it has been given sample values for its 40
/// samples.
pub proof fn lemma_parsed_song(data: Seq<u8>, title: Seq<char>, created: Option<NaiveDateTime>)
    requires
        data.len() <= usize::MAX,
    ensures
        parsed(data, title, created) matches Ok((song, _)) ==> {
            &&& song.frames.len() >= 1
            &&& song.cursor == 0
            &&& song.dd_samples_ends.len() == MAX_DD_SAMPLES
            &&& forall|i: int|
                0 <= i < MAX_DD_SAMPLES ==> #[trigger] song.dd_samples_ends[i]
                    <= song.dd_samples.len()
            &&& forall|i: int, j: int|
                0 <= i <= j < MAX_DD_SAMPLES && song.dd_samples_ends[j] != 0
                    ==> song.dd_samples_ends[i] <= song.dd_samples_ends[j]
            &&& at_end(song).next_cursor() <= song.frames.len() - 1
            &&& song.version != YmVersion::Ym2 ==> song.wf()
            &&& song.version == YmVersion::Ym2 ==> forall|packed: Seq<u8>|
                YM2_SAMPLES_LEN <= 2 * packed.len() <= usize::MAX ==> (SongState {
                    dd_samples: #[trigger] nibbles(packed),
                    ..song
                }).wf()
        },
{
    if data.len() >= 4 {
        match signature_of(data) {
            None => {},
            Some(YmVersion::Ym2) => {
                lemma_early_song(data, YmVersion::Ym2, title, created);
            },
            Some(YmVersion::Ym3) => {
                lemma_early_song(data, YmVersion::Ym3, title, created);
            },
            Some(version) => {
                lemma_later_song(data, version, created);
            },
        }
    }
}

/// A song that was made from its frames can be played if it has one.
proof fn lemma_fresh(
    version: YmVersion,
    frames: Seq<Seq<u8>>,
    loop_frame: u32,
    title: Seq<char>,
    created: Option<NaiveDateTime>,
)
    requires
        1 <= frames.len() <= usize::MAX,
        forall|i: int| 0 <= i < frames.len() ==> (#[trigger] frames[i]).len() == 16,
    ensures
        version != YmVersion::Ym2 ==> SongState::fresh(
            version,
            frames,
            loop_frame,
            title,
            created,
        ).wf(),
        forall|packed: Seq<u8>|
            YM2_SAMPLES_LEN <= 2 * packed.len() <= usize::MAX ==> (SongState {
                dd_samples: #[trigger] nibbles(packed),
                ..SongState::fresh(version, frames, loop_frame, title, created)
            }).wf(),
{
    let song = SongState::fresh(version, frames, loop_frame, title, created);
    assert forall|v: int| 0 <= v < 3 implies (#[trigger] song.voices[v]).wf(0) by {}
    assert forall|packed: Seq<u8>|
        YM2_SAMPLES_LEN <= 2 * packed.len() <= usize::MAX implies (SongState {
        dd_samples: #[trigger] nibbles(packed),
        ..song
    }).wf() by {
        let with = SongState { dd_samples: nibbles(packed), ..song };
        assert forall|v: int| 0 <= v < 3 implies (#[trigger] with.voices[v]).wf(
            with.dd_samples.len(),
        ) by {}
    }
}

proof fn lemma_early_song(
    data: Seq<u8>,
    version: YmVersion,
    title: Seq<char>,
    created: Option<NaiveDateTime>,
)
    requires
        4 <= data.len() <= usize::MAX,
    ensures
        early_song(data, version, title, created) matches Ok(song) ==> {
            &&& song == SongState::fresh(
                version,
                song.frames,
                song.loop_frame,
                title,
                created,
            )
            &&& 1 <= song.frames.len() <= usize::MAX
            &&& forall|i: int| 0 <= i < song.frames.len() ==> (#[trigger] song.frames[i]).len() == 16
            &&& version != YmVersion::Ym2 ==> song.wf()
            &&& forall|packed: Seq<u8>|
                YM2_SAMPLES_LEN <= 2 * packed.len() <= usize::MAX ==> (SongState {
                    dd_samples: #[trigger] nibbles(packed),
                    ..song
                }).wf()
        },
{
    if let Ok(song) = early_song(data, version, title, created) {
        lemma_fresh(version, song.frames, song.loop_frame, title, created);
    }
}

proof fn lemma_later_song(data: Seq<u8>, version: YmVersion, created: Option<NaiveDateTime>)
    requires
        4 <= data.len() <= usize::MAX,
        version != YmVersion::Ym2,
    ensures
        later_song(data, version, created) matches Ok((song, _)) ==> {
            &&& song.version == version
            &&& song.frames.len() >= 1
            &&& song.cursor == 0
            &&& song.dd_samples_ends.len() == MAX_DD_SAMPLES
            &&& forall|i: int|
                0 <= i < MAX_DD_SAMPLES ==> #[trigger] song.dd_samples_ends[i]
                    <= song.dd_samples.len()
            &&& forall|i: int, j: int|
                0 <= i <= j < MAX_DD_SAMPLES && song.dd_samples_ends[j] != 0
                    ==> song.dd_samples_ends[i] <= song.dd_samples_ends[j]
            &&& song.wf()
        },
{
    if let Ok(header) = header_of(data, version) {
        if let Ok(body) = body_of(data, header) {
            lemma_samples_from(data, header.next, header.nsamples);
            let song = later_song(data, version, created)->Ok_0.0;
            let table = body.samples;
            assert(song.dd_samples.len() == table.data.len());
            assert(header.nframes >= 1);
            assert(header.nframes <= u32::MAX);
            assert(song.frames.len() == header.nframes);
            let author_at = text_end(data, table.next) + 1;
            let comments_at = text_end(data, author_at) + 1;
            let frames_at = text_end(data, comments_at) + 1;
            lemma_nul_from(data, table.next);
            lemma_nul_from(data, author_at);
            lemma_nul_from(data, comments_at);
            assert(0 <= frames_at <= data.len());
            assert forall|i: int| 0 <= i < song.frames.len() implies (#[trigger] song.frames[i]).len()
                == 16 by {
                if header.attrs & INTERLEAVED == 0 {
                    assert(frames_at + 16 * header.nframes <= data.len());
                    assert(song.frames[i] == data.subrange(
                        frames_at + 16 * i,
                        frames_at + 16 * i + 16,
                    ));
                }
            }
            assert forall|v: int| 0 <= v < 3 implies (#[trigger] song.voices[v]).wf(
                song.dd_samples.len(),
            ) by {}
            assert forall|i: int, j: int|
                0 <= i <= j < MAX_DD_SAMPLES && song.dd_samples_ends[j] != 0 implies song.dd_samples_ends[i]
                <= song.dd_samples_ends[j] by {
                if j >= header.nsamples {
                    assert(table.ends[j] == 0);
                }
            }
        }
    }
}

/// A `YM2!` or `YM3!` file is refused for its size if what follows its signature is not as
/// long as a whole number of frames, with or without a loop frame, and for having no data if
/// that number is zero. Any other such file holds a song.
pub proof fn lemma_early_file_size(
    data: Seq<u8>,
    title: Seq<char>,
    created: Option<NaiveDateTime>,
)
    requires
        data.len() >= 4,
        signature_of(data) == Some(YmVersion::Ym2) || signature_of(data) == Some(YmVersion::Ym3),
    ensures
        ({
            let size = data.len() - 4;
            let res = parsed(data, title, created);
            if size % 14 != 0 && size % 14 != 4 {
                res == Err::<(SongState, crate::ym::parse::EndTag), ParseError>(
                    ParseError::WrongFileSize,
                )
            } else if size == 0 || size == 4 {
                res == Err::<(SongState, crate::ym::parse::EndTag), ParseError>(
                    ParseError::NoYmData,
                )
            } else {
                res matches Ok((song, _)) && song.frames.len() == size / 14 && (size % 14 == 0
                    ==> song.loop_frame == 0)
            }
        }),
{
}

/// The envelope writes of a frame. A `YM2!` frame writes nothing if its envelope shape is
/// `0xff`, and else its envelope fine period, a coarse period of zero and the shape `0x10`.
/// A frame of another version writes its two envelope periods and then its envelope shape,
/// unless that is `0xff`.
pub proof fn lemma_envelope_writes(song: SongState)
    ensures
        song.envelope_writes() =~= if song.version == YmVersion::Ym2 {
            if song.frame()[13] == 0xff {
                Seq::<RegChange>::empty()
            } else {
                seq![(0u64, 11u8, song.frame()[11]), (0u64, 12u8, 0u8), (0u64, 13u8, 0x10u8)]
            }
        } else if song.frame()[13] == 0xff {
            seq![(0u64, 11u8, song.frame()[11]), (0u64, 12u8, song.frame()[12])]
        } else {
            seq![
                (0u64, 11u8, song.frame()[11]),
                (0u64, 12u8, song.frame()[12]),
                (0u64, 13u8, song.frame()[13]),
            ]
        },
{
}

/// A `YM2!` frame whose volume register of voice C has its highest bit set starts the drum
/// of voice C, if the other bits are the number of one of the 40 samples and register 12
/// is not zero: the drum plays that sample from its start, its timer stands at the start
/// of the frame and ticks every four MFP timer ticks times register 12. Nothing else is
/// started. Sample 0 is played from 0 up to 631.
pub proof fn lemma_ym2_drum(song: SongState)
    requires
        song.version == YmVersion::Ym2,
        song.voices.len() == 3,
        song.frame()[10] & 0x80 == 0x80,
        (song.frame()[10] & 0x7f) < 40,
        song.frame()[12] != 0,
    ensures
        ({
            let sample = (song.frame()[10] & 0x7f) as int;
            let drum = song.dispatched().voices[2].drum;
            &&& drum.timer.current == 0
            &&& drum.timer.step == song.timer_step((4 * song.frame()[12]) as nat)
            &&& drum.cur == if sample == 0 {
                0
            } else {
                YM2_SAMPLE_ENDS@[sample - 1] as nat
            }
            &&& drum.end == YM2_SAMPLE_ENDS@[sample]
            &&& sample == 0 ==> drum.cur == 0 && drum.end == 631
            &&& song.dispatched().voices[2].sid == song.voices[2].sid.stopped()
            &&& song.dispatched().voices[2].sinus == song.voices[2].sinus.stopped()
            &&& song.dispatched().voices[0] == song.voices[0].stopped()
            &&& song.dispatched().voices[1] == song.voices[1].stopped()
            &&& song.dispatched().buzzer == song.buzzer.stopped()
        }),
{
}

/// A `YM6!` frame whose register 1 asks for a `Sync Buzzer`, and whose register 3 asks for
/// nothing, starts the buzzer with the four lowest bits of the volume of the voice that
/// register 1 names as the envelope shape, and with a step of as many MFP timer ticks as
/// the divisor says. No unit of a voice is started.
pub proof fn lemma_ym6_buzzer(song: SongState)
    requires
        song.version == YmVersion::Ym6,
        song.voices.len() == 3,
        effect0(song.frame()) is Some,
        crate::ym::flags::fx_type_of(song.frame()[1]) == FxType::SyncBuzz,
        effect1(song.frame()) is None,
    ensures
        ({
            let (chan, divisor, vol) = effect0(song.frame())->Some_0;
            &&& song.dispatched().buzzer.active
            &&& song.dispatched().buzzer.shape == (vol & 0x0f) & 0x0f
            &&& song.dispatched().buzzer.timer.step == song.timer_step(divisor as nat)
            &&& song.dispatched().buzzer.timer.current == song.buzzer.timer.current
            &&& forall|v: int|
                0 <= v < 3 ==> #[trigger] song.dispatched().voices[v] == song.voices[v].stopped()
        }),
{
}

/// The frame with `0b1101_0000` in register 1, `0b1000_0000` in register 6, 100 in register
/// 14, a volume of 7 for voice A and nothing in register 3 asks for a buzzer whose timer
/// has the divisor 5000 and whose envelope shape is 7.
pub proof fn lemma_buzzer_frame(frame: Seq<u8>)
    requires
        frame[1] == 0b1101_0000,
        frame[6] == 0b1000_0000,
        frame[14] == 100,
        frame[8] == 7,
        frame[3] == 0,
    ensures
        effect0(frame) == Some((0u8, 5000u32, 7u8)),
        crate::ym::flags::fx_type_of(frame[1]) == FxType::SyncBuzz,
        effect1(frame) is None,
        (7u8 & 0x0f) & 0x0f == 7,
{
    assert(0b1101_0000u8 & 0b0011_0000 == 0b0001_0000) by (bit_vector);
    assert(0b1101_0000u8 & 0b1100_0000 == 0b1100_0000) by (bit_vector);
    assert(0b1000_0000u8 >> 5 == 4) by (bit_vector);
    assert(0u8 & 3 == 0) by (bit_vector);
    assert(7u8 & 0x1f == 7) by (bit_vector);
    assert((7u8 & 0x0f) & 0x0f == 7) by (bit_vector);
    assert(0u8 & 0b0011_0000 == 0) by (bit_vector);
}

} // verus!
