//! What a frame writes to each register.
//!
//! The functions of this module are proofs. They single out, from the register changes of a
//! frame, those that are made to one register.
use vstd::prelude::*;

use crate::ym::effects::{
    RegChange, ENV_PER_COARSE_REG, ENV_PER_FINE_REG, ENV_REG, FRAME_SPAN, MIXER_BYTE, MIXER_REG,
};
use crate::ym::flags::FxType;
use crate::ym::frame_vol;
use crate::ym::laws::{
    all_on_reg, lemma_dispatched, lemma_lanes_plan, lemma_merged_on_reg, lemma_on_reg_add,
    lemma_on_reg_all, lemma_on_reg_none, none_on_reg, on_reg,
};
use crate::ym::playback::{mixer_mask, SongState};
use crate::ym::YmVersion;

verus! {

/// One if there is a lane, zero if there is none.
pub open spec fn lane_count(lane: Option<Seq<RegChange>>) -> int {
    if lane is Some {
        1
    } else {
        0
    }
}

/// The number that the lane of a unit has among the lanes that are mixed, once the frame at
/// the cursor has set up its effects: `unit` is 0, 1 or 2 for the voices A, B and C, and 3
/// for the buzzer. If the unit has no lane the number is that of no lane.
pub open spec fn lane_number(song: SongState, unit: int) -> int {
    let a = lane_count(song.voice_plan(0));
    let b = lane_count(song.voice_plan(1));
    let c = lane_count(song.voice_plan(2));
    if unit == 0 && song.voice_plan(0) is Some {
        0
    } else if unit == 1 && song.voice_plan(1) is Some {
        a
    } else if unit == 2 && song.voice_plan(2) is Some {
        a + b
    } else if unit == 3 && song.buzzer_plan() is Some {
        a + b + c
    } else {
        -1
    }
}

/// The register that a unit writes to: the volume register of a voice, or the envelope
/// shape register for the buzzer.
pub open spec fn unit_reg(unit: int) -> u8 {
    if unit == 3 {
        ENV_REG
    } else {
        SongState::vol_reg(unit)
    }
}

/// The lane of a unit, if it has one.
pub open spec fn unit_plan(song: SongState, unit: int) -> Option<Seq<RegChange>> {
    if unit == 3 {
        song.buzzer_plan()
    } else {
        song.voice_plan(unit)
    }
}

/// The lane of a unit holds changes to the register of that unit only.
proof fn lemma_unit_plan(song: SongState, unit: int)
    requires
        0 <= unit <= 3,
    ensures
        unit_plan(song, unit) matches Some(lane) ==> all_on_reg(lane, unit_reg(unit)),
{
}

/// Among the lanes that are mixed, the lane of a unit stands at its number, and every other
/// lane is that of another unit.
proof fn lemma_lane_numbers(song: SongState, unit: int)
    requires
        0 <= unit <= 3,
    ensures
        unit_plan(song, unit) matches Some(lane) ==> 0 <= lane_number(song, unit)
            < song.lanes_plan().len() && song.lanes_plan()[lane_number(song, unit)] == lane,
        unit_plan(song, unit) is None ==> lane_number(song, unit) == -1,
        forall|i: int|
            0 <= i < song.lanes_plan().len() && i != lane_number(song, unit) ==> none_on_reg(
                #[trigger] song.lanes_plan()[i],
                unit_reg(unit),
            ),
{
    lemma_unit_plan(song, 0);
    lemma_unit_plan(song, 1);
    lemma_unit_plan(song, 2);
    lemma_unit_plan(song, 3);
    let lanes = song.lanes_plan();
    let reg = unit_reg(unit);
    assert forall|i: int| 0 <= i < lanes.len() && i != lane_number(song, unit) implies none_on_reg(
        #[trigger] lanes[i],
        reg,
    ) by {
        let other: int = if i == lane_number(song, 0) {
            0
        } else if i == lane_number(song, 1) {
            1
        } else if i == lane_number(song, 2) {
            2
        } else {
            3
        };
        assert(i == lane_number(song, other));
        assert(unit_plan(song, other) == Some(lanes[i]));
        assert(all_on_reg(lanes[i], unit_reg(other)));
        assert(unit_reg(other) != reg);
    }
}

/// Once a frame has set up its effects, the changes that the mixer hands out for the
/// register of a unit are those of the lane of that unit, in their order.
proof fn lemma_mixed_on_unit(song: SongState, unit: int)
    requires
        song.wf(),
        0 <= unit <= 3,
    ensures
        on_reg(song.mixing_plan().merged(), unit_reg(unit)) == match unit_plan(song, unit) {
            Some(lane) => lane,
            None => Seq::<RegChange>::empty(),
        },
{
    lemma_lanes_plan(song);
    lemma_lane_numbers(song, unit);
    lemma_unit_plan(song, unit);
    let mixer = song.mixing_plan();
    let reg = unit_reg(unit);
    let number = lane_number(song, unit);
    assert forall|i: int, k: int|
        0 <= i < mixer.lanes.len() && i != number && mixer.heads[i] <= k
            < mixer.lanes[i].len() implies (#[trigger] mixer.lanes[i][k]).1 != reg by {
        assert(none_on_reg(song.lanes_plan()[i], reg));
    }
    lemma_merged_on_reg(mixer, reg, number);
    if let Some(lane) = unit_plan(song, unit) {
        assert(mixer.rest(number) =~= lane);
        lemma_on_reg_all(lane, reg);
    }
}

/// Once a frame has set up its effects, the mixer hands out no change to a register that is
/// not that of a unit.
proof fn lemma_mixed_on_other(song: SongState, reg: u8)
    requires
        song.wf(),
        reg != unit_reg(0),
        reg != unit_reg(1),
        reg != unit_reg(2),
        reg != unit_reg(3),
    ensures
        on_reg(song.mixing_plan().merged(), reg) == Seq::<RegChange>::empty(),
{
    lemma_lanes_plan(song);
    lemma_unit_plan(song, 0);
    lemma_unit_plan(song, 1);
    lemma_unit_plan(song, 2);
    lemma_unit_plan(song, 3);
    let mixer = song.mixing_plan();
    assert forall|i: int, k: int|
        0 <= i < mixer.lanes.len() && i != -1 && mixer.heads[i] <= k
            < mixer.lanes[i].len() implies (#[trigger] mixer.lanes[i][k]).1 != reg by {
        let other: int = if i == lane_number(song, 0) {
            0
        } else if i == lane_number(song, 1) {
            1
        } else if i == lane_number(song, 2) {
            2
        } else {
            3
        };
        assert(i == lane_number(song, other));
        assert(unit_plan(song, other) == Some(mixer.lanes[i]));
        assert(all_on_reg(mixer.lanes[i], unit_reg(other)));
    }
    lemma_merged_on_reg(mixer, reg, -1);
}

/// The changes that a frame makes to a register are those that each part of the frame
/// makes to it, in the order of the parts.
proof fn lemma_events_on_reg(song: SongState, reg: u8)
    ensures
        on_reg(song.events(), reg) == on_reg(song.envelope_writes(), reg) + on_reg(
            song.dispatched().base_writes(),
            reg,
        ) + on_reg(
            seq![(0u64, MIXER_REG, song.dispatched().mixer_plan())],
            reg,
        ) + on_reg(song.dispatched().volume_plan(0), reg) + on_reg(
            song.dispatched().volume_plan(1),
            reg,
        ) + on_reg(song.dispatched().volume_plan(2), reg) + on_reg(
            song.dispatched().mixing_plan().merged(),
            reg,
        ),
{
    let set_up = song.dispatched();
    let a = song.envelope_writes();
    let b = set_up.base_writes();
    let c = seq![(0u64, MIXER_REG, set_up.mixer_plan())];
    let d = set_up.volume_plan(0);
    let e = set_up.volume_plan(1);
    let f = set_up.volume_plan(2);
    let g = set_up.mixing_plan().merged();
    assert(song.events() =~= a + (b + (c + (d + (e + (f + g))))));
    lemma_on_reg_add(a, b + (c + (d + (e + (f + g)))), reg);
    lemma_on_reg_add(b, c + (d + (e + (f + g))), reg);
    lemma_on_reg_add(c, d + (e + (f + g)), reg);
    lemma_on_reg_add(d, e + (f + g), reg);
    lemma_on_reg_add(e, f + g, reg);
    lemma_on_reg_add(f, g, reg);
}

/// The changes that a sequence of at most three changes makes to a register.
proof fn lemma_on_reg_few(changes: Seq<RegChange>, reg: u8)
    requires
        changes.len() <= 3,
    ensures
        changes.len() == 0 ==> on_reg(changes, reg) == changes,
        all_on_reg(changes, reg) ==> on_reg(changes, reg) == changes,
        none_on_reg(changes, reg) ==> on_reg(changes, reg) == Seq::<RegChange>::empty(),
{
    if all_on_reg(changes, reg) {
        lemma_on_reg_all(changes, reg);
    }
    if none_on_reg(changes, reg) {
        lemma_on_reg_none(changes, reg);
    }
}

/// Of the writes of the frame's registers 0 to 5, one is made to each of these registers.
proof fn lemma_base_on_reg(song: SongState, reg: u8)
    ensures
        on_reg(song.base_writes(), reg) == if reg < MIXER_REG {
            seq![(0u64, reg, song.frame()[reg as int])]
        } else {
            Seq::<RegChange>::empty()
        },
{
    let base = song.base_writes();
    if reg < MIXER_REG {
        let before = base.take(reg as int);
        let one = seq![base[reg as int]];
        let behind = base.skip(reg + 1);
        assert(base =~= before + (one + behind));
        lemma_on_reg_add(before, one + behind, reg);
        lemma_on_reg_add(one, behind, reg);
        assert(none_on_reg(before, reg));
        assert(none_on_reg(behind, reg));
        assert(all_on_reg(one, reg));
        lemma_on_reg_none(before, reg);
        lemma_on_reg_none(behind, reg);
        lemma_on_reg_all(one, reg);
        assert(on_reg(base, reg) =~= one);
    } else {
        assert(none_on_reg(base, reg));
        lemma_on_reg_none(base, reg);
    }
}

/// What the mixer write and the volume writes make to a register.
proof fn lemma_opening_on_reg(song: SongState, reg: u8)
    ensures
        on_reg(seq![(0u64, MIXER_REG, song.mixer_plan())], reg) == if reg
            == MIXER_REG {
            seq![(0u64, MIXER_REG, song.mixer_plan())]
        } else {
            Seq::<RegChange>::empty()
        },
        forall|v: int|
            0 <= v < 3 ==> #[trigger] on_reg(song.volume_plan(v), reg) == if reg
                == SongState::vol_reg(v) {
                song.volume_plan(v)
            } else {
                Seq::<RegChange>::empty()
            },
{
    lemma_on_reg_few(seq![(0u64, MIXER_REG, song.mixer_plan())], reg);
    assert forall|v: int| 0 <= v < 3 implies #[trigger] on_reg(song.volume_plan(v), reg) == if reg
        == SongState::vol_reg(v) {
        song.volume_plan(v)
    } else {
        Seq::<RegChange>::empty()
    } by {
        lemma_on_reg_few(song.volume_plan(v), reg);
    }
}

/// The changes that a frame makes to an envelope register are those that its envelope
/// writes make, followed by those that the mixer hands out.
proof fn lemma_envelope_on_reg(song: SongState, reg: u8)
    requires
        song.wf(),
        11 <= reg <= 13,
    ensures
        on_reg(song.events(), reg) == on_reg(song.envelope_writes(), reg) + on_reg(
            song.dispatched().mixing_plan().merged(),
            reg,
        ),
{
    let set_up = song.dispatched();
    lemma_events_on_reg(song, reg);
    lemma_base_on_reg(set_up, reg);
    lemma_opening_on_reg(set_up, reg);
    assert(on_reg(set_up.volume_plan(0), reg) == Seq::<RegChange>::empty());
    assert(on_reg(set_up.volume_plan(1), reg) == Seq::<RegChange>::empty());
    assert(on_reg(set_up.volume_plan(2), reg) == Seq::<RegChange>::empty());
    assert(on_reg(song.events(), reg) =~= on_reg(song.envelope_writes(), reg) + on_reg(
        set_up.mixing_plan().merged(),
        reg,
    ));
}

/// Only a `YM6!` frame starts the buzzer.
proof fn lemma_no_buzzer(song: SongState)
    requires
        song.wf(),
    ensures
        song.version != YmVersion::Ym6 ==> !song.dispatched().buzzer.active,
{
}

/// Every frame writes each of the registers 0 to 5 once, at time zero: the value that the
/// frame holds for it.
pub proof fn lemma_base_register(song: SongState, reg: u8)
    requires
        song.wf(),
        reg < MIXER_REG,
    ensures
        on_reg(song.events(), reg) == seq![(0u64, reg, song.frame()[reg as int])],
{
    lemma_dispatched(song);
    let set_up = song.dispatched();
    lemma_events_on_reg(song, reg);
    lemma_base_on_reg(set_up, reg);
    lemma_mixed_on_other(set_up, reg);
    assert(none_on_reg(song.envelope_writes(), reg));
    lemma_on_reg_none(song.envelope_writes(), reg);
    lemma_opening_on_reg(set_up, reg);
    assert(on_reg(song.events(), reg) =~= seq![(0u64, reg, song.frame()[reg as int])]);
}

/// Every frame writes the mixer byte once, at time zero, to register 6.
pub proof fn lemma_mixer_register(song: SongState)
    requires
        song.wf(),
    ensures
        on_reg(song.events(), MIXER_REG) == seq![(0u64, MIXER_REG, song.mixer_byte())],
{
    let reg = MIXER_REG;
    lemma_dispatched(song);
    let set_up = song.dispatched();
    lemma_events_on_reg(song, reg);
    lemma_base_on_reg(set_up, reg);
    lemma_mixed_on_other(set_up, reg);
    assert(none_on_reg(song.envelope_writes(), reg));
    lemma_on_reg_none(song.envelope_writes(), reg);
    lemma_opening_on_reg(set_up, reg);
    assert(on_reg(song.events(), reg) =~= seq![(0u64, reg, song.mixer_byte())]);
}

/// Once a frame has set up its effects, the value for the mixer register has the tone and
/// the noise bit set for every voice whose drum is active, and every other bit as the
/// mixer byte of the frame has it.
pub proof fn lemma_mixer_plan(song: SongState)
    ensures
        forall|v: int|
            0 <= v < 3 && (#[trigger] song.voices[v]).drum.active() ==> song.mixer_plan()
                & mixer_mask(v) == mixer_mask(v),
        forall|v: int|
            0 <= v < 3 && !(#[trigger] song.voices[v]).drum.active() ==> song.mixer_plan()
                & mixer_mask(v) == song.frame()[MIXER_BYTE as int] & mixer_mask(v),
        song.mixer_plan() & 0xc0 == song.frame()[MIXER_BYTE as int] & 0xc0,
{
    let f = song.frame()[MIXER_BYTE as int];
    let a = song.mask_plan(0);
    let b = song.mask_plan(1);
    let c = song.mask_plan(2);
    let m = song.mixer_plan();
    assert(m == f | a | b | c);
    assert(a == 0 || a == 0x09);
    assert(b == 0 || b == 0x12);
    assert(c == 0 || c == 0x24);
    assert(m & 0x09 == (if a == 0 {
        f & 0x09
    } else {
        0x09
    })) by (bit_vector)
        requires
            m == f | a | b | c,
            a == 0 || a == 0x09,
            b == 0 || b == 0x12,
            c == 0 || c == 0x24,
    ;
    assert(m & 0x12 == (if b == 0 {
        f & 0x12
    } else {
        0x12
    })) by (bit_vector)
        requires
            m == f | a | b | c,
            a == 0 || a == 0x09,
            b == 0 || b == 0x12,
            c == 0 || c == 0x24,
    ;
    assert(m & 0x24 == (if c == 0 {
        f & 0x24
    } else {
        0x24
    })) by (bit_vector)
        requires
            m == f | a | b | c,
            a == 0 || a == 0x09,
            b == 0 || b == 0x12,
            c == 0 || c == 0x24,
    ;
    assert(m & 0xc0 == f & 0xc0) by (bit_vector)
        requires
            m == f | a | b | c,
            a == 0 || a == 0x09,
            b == 0 || b == 0x12,
            c == 0 || c == 0x24,
    ;
}

/// The mixer byte that a frame writes has the tone and the noise bit set for every voice
/// whose drum is active in the frame, whether the frame has started it or an earlier one
/// has, and whether the drum drives the voice or not. Every other bit is as the mixer
/// byte of the frame has it.
pub proof fn lemma_mixer_bits(song: SongState)
    requires
        song.wf(),
    ensures
        forall|v: int|
            0 <= v < 3 && #[trigger] song.drum_active(v) ==> song.mixer_byte() & mixer_mask(v)
                == mixer_mask(v),
        forall|v: int|
            0 <= v < 3 && !#[trigger] song.drum_active(v) ==> song.mixer_byte() & mixer_mask(v)
                == song.frame()[MIXER_BYTE as int] & mixer_mask(v),
        song.mixer_byte() & 0xc0 == song.frame()[MIXER_BYTE as int] & 0xc0,
{
    lemma_dispatched(song);
    let set_up = song.dispatched();
    lemma_mixer_plan(set_up);
    assert(set_up.frame() == song.frame());
    assert forall|v: int| 0 <= v < 3 && #[trigger] song.drum_active(v) implies song.mixer_byte()
        & mixer_mask(v) == mixer_mask(v) by {
        assert(set_up.voices[v].drum.active());
    }
    assert forall|v: int| 0 <= v < 3 && !#[trigger] song.drum_active(v) implies song.mixer_byte()
        & mixer_mask(v) == song.frame()[MIXER_BYTE as int] & mixer_mask(v) by {
        assert(!set_up.voices[v].drum.active());
    }
}

/// No frame writes register 7.
pub proof fn lemma_register_seven(song: SongState)
    requires
        song.wf(),
    ensures
        on_reg(song.events(), 7) == Seq::<RegChange>::empty(),
{
    let reg = 7u8;
    lemma_dispatched(song);
    let set_up = song.dispatched();
    lemma_events_on_reg(song, reg);
    lemma_base_on_reg(set_up, reg);
    lemma_mixed_on_other(set_up, reg);
    assert(none_on_reg(song.envelope_writes(), reg));
    lemma_on_reg_none(song.envelope_writes(), reg);
    lemma_opening_on_reg(set_up, reg);
    assert(on_reg(song.events(), reg) =~= Seq::<RegChange>::empty());
}

/// In every frame, one unit at most drives the volume of a voice: the first active one of
/// `SID voice`, `Sinus SID` and `DIGI-DRUM`. The changes that the frame makes to the volume
/// register of the voice are those of that unit and no others. If no unit is active, the
/// one change is the write of the frame's volume at time zero.
pub proof fn lemma_volume_register(song: SongState, v: int)
    requires
        song.wf(),
        0 <= v < 3,
    ensures
        on_reg(song.events(), SongState::vol_reg(v)) == match song.voice_lane(v) {
            Some(lane) => lane,
            None => seq![
                (
                    0u64,
                    SongState::vol_reg(v),
                    frame_vol(song.frame(), SongState::vol_reg(v)),
                ),
            ],
        },
        song.voice_lane(v) == ({
            let voice = song.dispatched().voices[v];
            let reg = SongState::vol_reg(v);
            match voice.source() {
                Some(FxType::SidVoice) => Some(voice.sid.events(FRAME_SPAN as nat, reg)),
                Some(FxType::SinusSid) => Some(voice.sinus.events(FRAME_SPAN as nat, reg)),
                Some(_) => Some(
                    voice.drum.events(
                        FRAME_SPAN as nat,
                        reg,
                        song.dd_samples,
                        frame_vol(song.frame(), reg),
                    ),
                ),
                None => None,
            }
        }),
{
    let reg = SongState::vol_reg(v);
    lemma_dispatched(song);
    let set_up = song.dispatched();
    lemma_events_on_reg(song, reg);
    lemma_base_on_reg(set_up, reg);
    lemma_mixed_on_unit(set_up, v);
    assert(none_on_reg(song.envelope_writes(), reg));
    lemma_on_reg_none(song.envelope_writes(), reg);
    lemma_opening_on_reg(set_up, reg);
    assert(on_reg(set_up.volume_plan(0), reg) == if v == 0 {
        set_up.volume_plan(0)
    } else {
        Seq::<RegChange>::empty()
    });
    assert(on_reg(set_up.volume_plan(1), reg) == if v == 1 {
        set_up.volume_plan(1)
    } else {
        Seq::<RegChange>::empty()
    });
    assert(on_reg(set_up.volume_plan(2), reg) == if v == 2 {
        set_up.volume_plan(2)
    } else {
        Seq::<RegChange>::empty()
    });
    assert(on_reg(song.events(), reg) =~= set_up.volume_plan(v) + match set_up.voice_plan(v) {
        Some(lane) => lane,
        None => Seq::<RegChange>::empty(),
    });
}

/// A frame whose envelope shape is `0xff` does not write the envelope shape register at its
/// start, and a `YM2!` frame then writes none of the envelope registers.
pub proof fn lemma_envelope_shape_skipped(song: SongState)
    requires
        song.frame()[13] == 0xff,
    ensures
        none_on_reg(song.envelope_writes(), ENV_REG),
        song.version == YmVersion::Ym2 ==> song.envelope_writes().len() == 0,
{
}

/// The envelope period registers are written at the start of a frame only.
pub proof fn lemma_envelope_period_registers(song: SongState, reg: u8)
    requires
        song.wf(),
        reg == ENV_PER_FINE_REG || reg == ENV_PER_COARSE_REG,
    ensures
        on_reg(song.events(), reg) == on_reg(song.envelope_writes(), reg),
{
    lemma_dispatched(song);
    lemma_envelope_on_reg(song, reg);
    lemma_mixed_on_other(song.dispatched(), reg);
    assert(on_reg(song.envelope_writes(), reg) + Seq::<RegChange>::empty() =~= on_reg(
        song.envelope_writes(),
        reg,
    ));
}

/// The envelope shape register is written at the start of a frame and wherever the
/// buzzer writes it, which only a `YM6!` frame can start. A frame of another version
/// whose envelope shape is `0xff` does not write the register at all.
pub proof fn lemma_envelope_shape_register(song: SongState)
    requires
        song.wf(),
    ensures
        on_reg(song.events(), ENV_REG) == on_reg(song.envelope_writes(), ENV_REG)
            + match song.dispatched().buzzer_plan() {
            Some(lane) => lane,
            None => Seq::<RegChange>::empty(),
        },
        song.version != YmVersion::Ym6 ==> song.dispatched().buzzer_plan() is None,
        song.version != YmVersion::Ym6 && song.frame()[13] == 0xff ==> on_reg(
            song.events(),
            ENV_REG,
        ) == Seq::<RegChange>::empty(),
{
    lemma_dispatched(song);
    lemma_envelope_on_reg(song, ENV_REG);
    lemma_mixed_on_unit(song.dispatched(), 3);
    lemma_no_buzzer(song);
    if song.version != YmVersion::Ym6 && song.frame()[13] == 0xff {
        lemma_envelope_shape_skipped(song);
        lemma_on_reg_none(song.envelope_writes(), ENV_REG);
        assert(on_reg(song.events(), ENV_REG) =~= Seq::<RegChange>::empty());
    }
}

/// Whether every change of `changes` is made to one of the registers 0 to 13.
pub open spec fn in_range(changes: Seq<RegChange>) -> bool {
    forall|k: int| 0 <= k < changes.len() ==> (#[trigger] changes[k]).1 <= ENV_REG
}

/// Once a frame has set up its effects, every change that the mixer hands out is made to
/// one of the registers 0 to 13.
proof fn lemma_mixed_in_range(song: SongState)
    requires
        song.wf(),
    ensures
        in_range(song.mixing_plan().merged()),
{
    lemma_lanes_plan(song);
    lemma_unit_plan(song, 0);
    lemma_unit_plan(song, 1);
    lemma_unit_plan(song, 2);
    lemma_unit_plan(song, 3);
    let mixer = song.mixing_plan();
    let known = |change: RegChange| change.1 <= ENV_REG;
    assert forall|i: int, k: int|
        0 <= i < mixer.lanes.len() && mixer.heads[i] <= k < mixer.lanes[i].len() implies known(
        #[trigger] mixer.lanes[i][k],
    ) by {
        let unit: int = if i == lane_number(song, 0) {
            0
        } else if i == lane_number(song, 1) {
            1
        } else if i == lane_number(song, 2) {
            2
        } else {
            3
        };
        assert(i == lane_number(song, unit));
        assert(unit_plan(song, unit) == Some(mixer.lanes[i]));
        assert(all_on_reg(mixer.lanes[i], unit_reg(unit)));
    }
    crate::ym::mixer::lemma_merged_all(mixer, known);
    let merged = mixer.merged();
    assert forall|k: int| 0 <= k < merged.len() implies (#[trigger] merged[k]).1 <= ENV_REG by {
        assert(known(merged[k]));
    }
}

/// Changes to the registers 0 to 13, followed by more of them, are changes to the
/// registers 0 to 13.
proof fn lemma_in_range_add(a: Seq<RegChange>, b: Seq<RegChange>)
    requires
        in_range(a),
        in_range(b),
    ensures
        in_range(a + b),
{
    let all = a + b;
    assert forall|k: int| 0 <= k < all.len() implies (#[trigger] all[k]).1 <= ENV_REG by {
        if k >= a.len() {
            assert(all[k] == b[k - a.len()]);
        } else {
            assert(all[k] == a[k]);
        }
    }
}

/// Once a frame has set up its effects, what it records behind the envelope writes is
/// made to the registers 0 to 13.
proof fn lemma_frame_plan_in_range(song: SongState)
    requires
        song.wf(),
    ensures
        in_range(song.frame_plan()),
{
    lemma_mixed_in_range(song);
    let opening = song.base_writes() + seq![(0u64, MIXER_REG, song.mixer_plan())]
        + song.volume_plan(0) + song.volume_plan(1) + song.volume_plan(2);
    assert(in_range(opening));
    lemma_in_range_add(opening, song.mixing_plan().merged());
    assert(song.frame_plan() =~= opening + song.mixing_plan().merged());
}

/// The envelope writes are made to the envelope registers.
proof fn lemma_envelope_in_range(song: SongState)
    ensures
        in_range(song.envelope_writes()),
{
}

/// Every change of a frame is made to one of the registers 0 to 13.
pub proof fn lemma_registers_in_range(song: SongState)
    requires
        song.wf(),
    ensures
        in_range(song.events()),
{
    lemma_dispatched(song);
    lemma_frame_plan_in_range(song.dispatched());
    lemma_envelope_in_range(song);
    lemma_in_range_add(song.envelope_writes(), song.dispatched().frame_plan());
}

} // verus!
