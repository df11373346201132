//! Special effects.
//!
//! Each effect unit owns a timer. Once per frame the unit is asked for the register changes
//! that its timer's ticks cause within that frame, which it returns in the order of their
//! timestamps.
//!
//! # Time
//!
//! Time is counted in whole units of which [`FRAME_SPAN`] make up one frame, whatever the
//! frame frequency is. One tick of the MFP timer then lasts as many units as the song plays
//! frames per second, so a timer set up with a whole divisor ticks at a whole number of units
//! and no timestamp is ever rounded.
use vstd::prelude::*;

verus! {

/// The number of the register that the mixer byte of a frame is written to. The registers
/// before it are written as the frame holds them.
pub const MIXER_REG: u8 = 6;

/// Where a frame holds its mixer byte.
pub const MIXER_BYTE: usize = 7;

/// The number of the volume register of voice A.
pub const VOL_A_REG: u8 = 8;

/// The number of the volume register of voice B.
pub const VOL_B_REG: u8 = 9;

/// The number of the volume register of voice C.
pub const VOL_C_REG: u8 = 10;

/// The number of the envelope fine period register.
pub const ENV_PER_FINE_REG: u8 = 11;

/// The number of the envelope coarse period register.
pub const ENV_PER_COARSE_REG: u8 = 12;

/// The number of the envelope shape register.
pub const ENV_REG: u8 = 13;

/// The length of one frame, in time units.
pub const FRAME_SPAN: u64 = 2_457_600;

/// The largest timer step and the longest span of time that the effects accept.
pub const TIME_MAX: u64 = 0x4000_0000_0000_0000;

/// The number of entries in the `Sinus SID` level table.
pub const SINUS_SID_PERIOD: usize = 8;

/// One period of `(cos(2 * PI * n / 8) * 0.5 + 0.5) * 255`, rounded to the nearest whole
/// number, a half being rounded up. The second half of the period mirrors the first.
pub const SINUS_SID: [u8; 8] = [255, 218, 128, 37, 0, 37, 128, 218];

/// A register change: the timestamp within the frame, the register number and the new value.
pub type RegChange = (u64, u8, u8);

/// The state of a timer: where its next tick falls and how far apart its ticks are.
#[verifier::ext_equal]
pub struct TimerState {
    pub current: nat,
    pub step: nat,
}

impl TimerState {
    /// Both fields are small enough for a frame to be played without overflow.
    pub open spec fn wf(self) -> bool {
        self.current <= TIME_MAX && self.step <= TIME_MAX
    }

    /// The number of ticks that fall before `limit`. A timer whose step is zero was never
    /// set up and does not tick.
    pub open spec fn ticks(self, limit: nat) -> nat {
        if self.step > 0 && self.current < limit {
            ((limit - self.current - 1) / (self.step as int) + 1) as nat
        } else {
            0
        }
    }

    /// The time of tick number `k`, counted from zero.
    pub open spec fn tick(self, k: int) -> int {
        self.current + k * self.step
    }

    /// The timer after the frame that ends at `limit`: it has ticked [`Self::ticks`] times
    /// and what it ran past the end of the frame is carried over into the next one. A timer
    /// that was never set up stands still.
    pub open spec fn after(self, limit: nat) -> TimerState {
        if self.step == 0 {
            self
        } else {
            TimerState {
                current: (self.current + self.ticks(limit) * self.step - limit) as nat,
                step: self.step,
            }
        }
    }

    /// The timestamps of the ticks that fall before `limit`.
    pub open spec fn times(self, limit: nat) -> Seq<u64> {
        Seq::new(self.ticks(limit), |k: int| self.tick(k) as u64)
    }
}

/// Tick number `k` falls before `limit` exactly if `k` is less than the number of ticks.
pub proof fn lemma_tick_before_limit(t: TimerState, limit: nat, k: int)
    requires
        t.step > 0,
        0 <= k,
    ensures
        (k < t.ticks(limit)) <==> (t.tick(k) < limit),
{
    let s = t.step as int;
    if t.current < limit {
        let d = limit - t.current - 1;
        let q = d / s;
        assert(d == s * q + d % s) by {
            vstd::arithmetic::div_mod::lemma_fundamental_div_mod(d, s);
        }
        assert(0 <= d % s < s) by {
            vstd::arithmetic::div_mod::lemma_mod_bound(d, s);
        }
        assert(0 <= q) by {
            vstd::arithmetic::div_mod::lemma_div_pos_is_pos(d, s);
        }
        if k <= q {
            assert(k * s <= q * s) by (nonlinear_arith)
                requires
                    k <= q,
                    0 < s,
            ;
            assert(s * q == q * s) by (nonlinear_arith);
        } else {
            assert(k * s >= (q + 1) * s) by (nonlinear_arith)
                requires
                    k >= q + 1,
                    0 < s,
            ;
            assert((q + 1) * s == s * q + s) by (nonlinear_arith);
        }
    } else {
        assert(k * s >= 0) by (nonlinear_arith)
            requires
                0 <= k,
                0 < s,
        ;
    }
}

/// Within a frame the ticks of a timer come at strictly increasing times, all of them
/// before the end of the frame, and the timer ends the frame less than one step past it.
pub proof fn lemma_timer_frame(t: TimerState, limit: nat)
    requires
        t.step > 0,
    ensures
        forall|k: int| 0 <= k < t.ticks(limit) ==> t.current <= #[trigger] t.tick(k) < limit,
        forall|j: int, k: int|
            0 <= j < k < t.ticks(limit) ==> #[trigger] t.tick(j) < #[trigger] t.tick(k),
        t.current >= limit ==> t.after(limit).current == t.current - limit,
        t.current < limit ==> t.after(limit).current < t.step,
        t.current + t.ticks(limit) * t.step >= limit,
{
    let s = t.step as int;
    let n = t.ticks(limit) as int;
    assert forall|k: int| 0 <= k < n implies t.current <= #[trigger] t.tick(k) < limit by {
        lemma_tick_before_limit(t, limit, k);
        assert(k * s >= 0) by (nonlinear_arith)
            requires
                0 <= k,
                0 < s,
        ;
    }
    assert forall|j: int, k: int| 0 <= j < k < n implies #[trigger] t.tick(j) < #[trigger] t.tick(
        k,
    ) by {
        assert(j * s < k * s) by (nonlinear_arith)
            requires
                j < k,
                0 < s,
        ;
    }
    lemma_tick_before_limit(t, limit, n);
    if t.current < limit {
        lemma_tick_before_limit(t, limit, n - 1);
        assert(n * s == (n - 1) * s + s) by (nonlinear_arith);
    } else {
        assert(n * s == 0) by (nonlinear_arith)
            requires
                n == 0,
        ;
    }
}

/// The timer type, used by all of the special effects.
///
/// A timer ticks every `step` units of time. Its next tick comes `current` units after the
/// start of the frame, and what it runs past the end of a frame is carried over into the
/// next one, so that the ticks keep their pace over the frames.
#[derive(Debug, Clone, Copy)]
pub struct Timer {
    current: u64,
    step: u64,
}

impl View for Timer {
    type V = TimerState;

    closed spec fn view(&self) -> TimerState {
        TimerState { current: self.current as nat, step: self.step as nat }
    }
}

impl Default for Timer {
    fn default() -> (res: Self)
        ensures
            res@ == (TimerState { current: 0, step: 0 }),
    {
        Timer { current: 0, step: 0 }
    }
}

impl Timer {
    /// Puts the next tick at the very start of a frame.
    pub fn reset(&mut self)
        ensures
            final(self)@ == (TimerState { current: 0, step: old(self)@.step }),
    {
        self.current = 0;
    }

    /// Sets the distance between two ticks.
    pub fn set_step(&mut self, step: u64)
        requires
            0 < step <= TIME_MAX,
        ensures
            final(self)@ == (TimerState { current: old(self)@.current, step: step as nat }),
    {
        self.step = step;
    }

    /// Lets the frame that ends at `limit` pass without looking at the ticks.
    ///
    /// Returns the number of ticks that fell into the frame.
    pub fn fast_forward(&mut self, limit: u64) -> (res: u64)
        requires
            old(self)@.wf(),
            limit <= TIME_MAX,
        ensures
            final(self)@ == old(self)@.after(limit as nat),
            res == old(self)@.ticks(limit as nat),
            final(self)@.wf(),
    {
        let step: u64 = self.step;
        if step == 0 {
            return 0;
        }
        proof {
            lemma_timer_frame(self@, limit as nat);
        }
        if self.current >= limit {
            self.current = self.current - limit;
            return 0;
        }
        let ghost before = self@;
        let count: u64 = (limit - self.current - 1) / step + 1;
        assert(count == before.ticks(limit as nat));
        assert(count * step < limit + step) by {
            assert(before.after(limit as nat).current < before.step);
        }
        let ahead: u64 = count * step;
        self.current = self.current + ahead - limit;
        count
    }

    /// Runs the timer through the frame that ends at `limit`.
    ///
    /// Returns the timestamps of the ticks that fell into the frame, in ascending order.
    pub fn run_frame(&mut self, limit: u64) -> (res: Vec<u64>)
        requires
            old(self)@.wf(),
            old(self)@.step > 0,
            limit <= TIME_MAX,
        ensures
            final(self)@ == old(self)@.after(limit as nat),
            res@ == old(self)@.times(limit as nat),
            final(self)@.wf(),
    {
        let ghost before = self@;
        let step: u64 = self.step;
        let mut out: Vec<u64> = Vec::new();
        proof {
            lemma_timer_frame(before, limit as nat);
            lemma_tick_before_limit(before, limit as nat, 0);
        }
        while self.current < limit
            invariant
                before.wf(),
                before.step == step,
                step > 0,
                limit <= TIME_MAX,
                self.step == step,
                out@.len() <= before.ticks(limit as nat),
                self.current == before.tick(out@.len() as int),
                forall|k: int| 0 <= k < out@.len() ==> out@[k] == before.tick(k),
            decreases limit + step - self.current,
        {
            let ghost k = out@.len() as int;
            proof {
                lemma_tick_before_limit(before, limit as nat, k);
                lemma_tick_before_limit(before, limit as nat, k + 1);
                assert((k + 1) * step == k * step + step) by (nonlinear_arith);
            }
            out.push(self.current);
            self.current = self.current + step;
        }
        proof {
            lemma_tick_before_limit(before, limit as nat, out@.len() as int);
            assert(out@.len() == before.ticks(limit as nat));
            assert(out@ =~= before.times(limit as nat));
        }
        self.current = self.current - limit;
        out
    }
}

/// The level that the `Sinus SID` effect gives a voice at the given `phase` of its period,
/// for the amplitude `vol`: the table entry scaled down from 255 to `vol`, rounded.
pub open spec fn sinus_level(phase: int, vol: int) -> int {
    (SINUS_SID@[phase % 8] * vol + 127) / 255
}

/// Scales the `Sinus SID` table entry at `phase`, taken modulo the period, to the amplitude
/// `vol`.
pub fn sinus_sid(phase: usize, vol: u16) -> (res: u8)
    requires
        vol <= 255,
    ensures
        res == sinus_level(phase as int, vol as int),
        res <= vol,
{
    let index: usize = phase & 7;
    assert(index == phase % 8) by (bit_vector)
        requires
            index == phase & 7,
    ;
    let entry: u16 = SINUS_SID[index] as u16;
    assert(entry * vol <= 255 * vol <= 65025) by (nonlinear_arith)
        requires
            entry <= 255,
            vol <= 255,
    ;
    let level: u16 = (entry * vol + 127) / 255;
    level as u8
}

/// The state of a `Sync Buzzer`.
#[verifier::ext_equal]
pub struct SyncBuzzerState {
    pub timer: TimerState,
    pub shape: u8,
    pub active: bool,
}

impl SyncBuzzerState {
    /// A buzzer at rest, with a timer that was never set up.
    pub open spec fn idle() -> Self {
        SyncBuzzerState { timer: TimerState { current: 0, step: 0 }, shape: 0, active: false }
    }

    pub open spec fn wf(self) -> bool {
        self.timer.wf() && (self.active ==> self.timer.step > 0)
    }

    /// The buzzer with its effect switched off.
    pub open spec fn stopped(self) -> Self {
        SyncBuzzerState { active: false, ..self }
    }

    /// The buzzer set up to write the four lowest bits of `shape` every `step` units.
    pub open spec fn started(self, shape: u8, step: nat) -> Self {
        SyncBuzzerState {
            timer: TimerState { current: self.timer.current, step },
            shape: shape & 0x0f,
            active: true,
        }
    }

    /// The register changes of the frame that ends at `limit`: the envelope shape is
    /// written again at every tick.
    pub open spec fn events(self, limit: nat) -> Seq<RegChange> {
        Seq::new(self.timer.ticks(limit), |k: int| (self.timer.tick(k) as u64, ENV_REG, self.shape))
    }

    /// The buzzer after the frame that ends at `limit`. At rest it does not change.
    pub open spec fn after_frame(self, limit: nat) -> Self {
        if self.active {
            SyncBuzzerState { timer: self.timer.after(limit), ..self }
        } else {
            self
        }
    }
}

/// The `Sync Buzzer` effect writes periodically into the AY/YM register 13 a set up shape value,
/// which resets the chipset's internal volume envelope control timer.
#[derive(Debug, Clone, Copy)]
pub struct SyncBuzzer {
    timer: Timer,
    shape: u8,
    active: bool,
}

impl View for SyncBuzzer {
    type V = SyncBuzzerState;

    closed spec fn view(&self) -> SyncBuzzerState {
        SyncBuzzerState { timer: self.timer@, shape: self.shape, active: self.active }
    }
}

impl Default for SyncBuzzer {
    fn default() -> (res: Self)
        ensures
            res@ == SyncBuzzerState::idle(),
    {
        SyncBuzzer { timer: Timer::default(), shape: 0, active: false }
    }
}

impl SyncBuzzer {
    pub fn stop(&mut self)
        ensures
            final(self)@ == old(self)@.stopped(),
    {
        self.active = false;
    }

    pub fn start(&mut self, shape: u8, step: u64)
        requires
            0 < step <= TIME_MAX,
        ensures
            final(self)@ == old(self)@.started(shape, step as nat),
    {
        self.timer.set_step(step);
        self.shape = shape & 0x0f;
        self.active = true;
    }

    /// Plays the frame that ends at `limit`. Returns the register changes of the frame in
    /// ascending order of their timestamps, or `None` if the effect is not active.
    pub fn iter_frame(&mut self, limit: u64) -> (res: Option<Vec<RegChange>>)
        requires
            old(self)@.wf(),
            limit <= TIME_MAX,
        ensures
            final(self)@ == old(self)@.after_frame(limit as nat),
            final(self)@.wf(),
            match res {
                Some(changes) => old(self)@.active && changes@ == old(self)@.events(limit as nat),
                None => !old(self)@.active,
            },
    {
        if !self.active {
            return None;
        }
        let ghost before = self@;
        let times = self.timer.run_frame(limit);
        let mut out: Vec<RegChange> = Vec::new();
        let mut i: usize = 0;
        while i < times.len()
            invariant
                i <= times.len(),
                times@ == before.timer.times(limit as nat),
                self.shape == before.shape,
                out@.len() == i,
                forall|k: int| 0 <= k < i ==> out@[k] == before.events(limit as nat)[k],
            decreases times.len() - i,
        {
            out.push((times[i], ENV_REG, self.shape));
            i = i + 1;
        }
        assert(out@ =~= before.events(limit as nat));
        Some(out)
    }
}

/// The state of a `SID voice`.
#[verifier::ext_equal]
pub struct SidVoiceState {
    pub timer: TimerState,
    pub vol: u8,
    /// Whether the next tick silences the voice.
    pub cur: bool,
    pub active: bool,
}

impl SidVoiceState {
    /// A voice at rest, with a timer that was never set up.
    pub open spec fn idle() -> Self {
        SidVoiceState {
            timer: TimerState { current: 0, step: 0 },
            vol: 0,
            cur: false,
            active: false,
        }
    }

    pub open spec fn wf(self) -> bool {
        self.timer.wf() && (self.active ==> self.timer.step > 0)
    }

    /// The voice with its effect switched off.
    pub open spec fn stopped(self) -> Self {
        SidVoiceState { active: false, ..self }
    }

    /// The voice with its timer and the phase of its square wave started over.
    pub open spec fn restarted(self) -> Self {
        SidVoiceState {
            timer: TimerState { current: 0, step: self.timer.step },
            cur: false,
            ..self
        }
    }

    /// The voice set up to switch between `vol` and silence every `step` units. Neither the
    /// timer nor the phase starts over.
    pub open spec fn started(self, vol: u8, step: nat) -> Self {
        SidVoiceState {
            timer: TimerState { current: self.timer.current, step },
            vol,
            active: true,
            ..self
        }
    }

    /// The level that tick number `k` of a frame sets: the levels alternate, beginning
    /// with silence if `cur` is set and with the volume if not.
    pub open spec fn level(self, k: int) -> u8 {
        if self.cur == (k % 2 == 0) {
            0
        } else {
            self.vol
        }
    }

    /// The register changes of the frame that ends at `limit`, written to `reg`.
    pub open spec fn events(self, limit: nat, reg: u8) -> Seq<RegChange> {
        Seq::new(self.timer.ticks(limit), |k: int| (self.timer.tick(k) as u64, reg, self.level(k)))
    }

    /// The voice after the frame that ends at `limit`. Its square wave goes on at rest too:
    /// the timer moves on and the phase flips once for every tick of the frame.
    pub open spec fn after_frame(self, limit: nat) -> Self {
        SidVoiceState {
            timer: self.timer.after(limit),
            cur: self.cur != (self.timer.ticks(limit) % 2 == 1),
            ..self
        }
    }
}

/// The `SID voice` effect modulates the channel's volume alternating between 0 and some set up value.
#[derive(Debug, Clone, Copy)]
pub struct SidVoice {
    timer: Timer,
    vol: u8,
    cur: bool,
    active: bool,
}

impl View for SidVoice {
    type V = SidVoiceState;

    closed spec fn view(&self) -> SidVoiceState {
        SidVoiceState { timer: self.timer@, vol: self.vol, cur: self.cur, active: self.active }
    }
}

impl Default for SidVoice {
    fn default() -> (res: Self)
        ensures
            res@ == SidVoiceState::idle(),
    {
        SidVoice { timer: Timer::default(), vol: 0, cur: false, active: false }
    }
}

impl SidVoice {
    pub fn is_active(&self) -> (res: bool)
        ensures
            res == self@.active,
    {
        self.active
    }

    pub fn stop(&mut self)
        ensures
            final(self)@ == old(self)@.stopped(),
    {
        self.active = false;
    }

    pub fn reset(&mut self)
        ensures
            final(self)@ == old(self)@.restarted(),
    {
        self.timer.reset();
        self.cur = false;
    }

    pub fn start(&mut self, vol: u8, step: u64)
        requires
            0 < step <= TIME_MAX,
        ensures
            final(self)@ == old(self)@.started(vol, step as nat),
    {
        self.timer.set_step(step);
        self.vol = vol;
        self.active = true;
    }

    /// Plays the frame that ends at `limit`. Returns the changes to the register `reg` in
    /// ascending order of their timestamps, or `None` if the effect is not active. At rest
    /// the frame passes all the same, so that the square wave keeps its phase.
    pub fn iter_frame(&mut self, limit: u64, reg: u8) -> (res: Option<Vec<RegChange>>)
        requires
            old(self)@.wf(),
            limit <= TIME_MAX,
        ensures
            final(self)@ == old(self)@.after_frame(limit as nat),
            final(self)@.wf(),
            match res {
                Some(changes) => old(self)@.active && changes@ == old(self)@.events(
                    limit as nat,
                    reg,
                ),
                None => !old(self)@.active,
            },
    {
        let ghost before = self@;
        if !self.active {
            let count = self.timer.fast_forward(limit);
            if count % 2 == 1 {
                self.cur = !self.cur;
            }
            return None;
        }
        let times = self.timer.run_frame(limit);
        let mut out: Vec<RegChange> = Vec::new();
        let mut i: usize = 0;
        while i < times.len()
            invariant
                i <= times.len(),
                times@ == before.timer.times(limit as nat),
                self.vol == before.vol,
                self.active == before.active,
                self.timer@ == before.timer.after(limit as nat),
                self.cur == (before.cur != (i % 2 == 1)),
                out@.len() == i,
                forall|k: int| 0 <= k < i ==> out@[k] == before.events(limit as nat, reg)[k],
            decreases times.len() - i,
        {
            let level: u8 = if self.cur {
                0
            } else {
                self.vol
            };
            out.push((times[i], reg, level));
            self.cur = !self.cur;
            i = i + 1;
        }
        assert(out@ =~= before.events(limit as nat, reg));
        Some(out)
    }
}

/// The state of a `Sinus SID`.
#[verifier::ext_equal]
pub struct SinusSidState {
    pub timer: TimerState,
    pub amplitude: u8,
    pub phase: u8,
    pub active: bool,
}

impl SinusSidState {
    /// A unit at rest, with a timer that was never set up.
    pub open spec fn idle() -> Self {
        SinusSidState {
            timer: TimerState { current: 0, step: 0 },
            amplitude: 0,
            phase: 0,
            active: false,
        }
    }

    pub open spec fn wf(self) -> bool {
        self.timer.wf() && (self.active ==> self.timer.step > 0) && self.phase < 8
    }

    /// The unit with its effect switched off.
    pub open spec fn stopped(self) -> Self {
        SinusSidState { active: false, ..self }
    }

    /// The unit set up to move one table entry on every `step` units. Neither the timer nor
    /// the phase starts over.
    pub open spec fn started(self, amplitude: u8, step: nat) -> Self {
        SinusSidState {
            timer: TimerState { current: self.timer.current, step },
            amplitude,
            active: true,
            ..self
        }
    }

    /// The register changes of the frame that ends at `limit`, written to `reg`.
    pub open spec fn events(self, limit: nat, reg: u8) -> Seq<RegChange> {
        Seq::new(
            self.timer.ticks(limit),
            |k: int|
                (
                    self.timer.tick(k) as u64,
                    reg,
                    sinus_level(self.phase + k, self.amplitude as int) as u8,
                ),
        )
    }

    /// The unit after the frame that ends at `limit`. At rest it does not change.
    pub open spec fn after_frame(self, limit: nat) -> Self {
        if self.active {
            SinusSidState {
                timer: self.timer.after(limit),
                phase: ((self.phase + self.timer.ticks(limit)) % 8) as u8,
                ..self
            }
        } else {
            self
        }
    }
}

/// The `Sinus SID` effect modulates the channel's volume, by applying the scaled sinusoid shape with
/// the period of 8 samples, with the set up amplitude.
#[derive(Debug, Clone, Copy)]
pub struct SinusSid {
    timer: Timer,
    amplitude: u8,
    phase: u8,
    active: bool,
}

impl View for SinusSid {
    type V = SinusSidState;

    closed spec fn view(&self) -> SinusSidState {
        SinusSidState {
            timer: self.timer@,
            amplitude: self.amplitude,
            phase: self.phase,
            active: self.active,
        }
    }
}

impl Default for SinusSid {
    fn default() -> (res: Self)
        ensures
            res@ == SinusSidState::idle(),
    {
        SinusSid { timer: Timer::default(), amplitude: 0, phase: 0, active: false }
    }
}

impl SinusSid {
    pub fn is_active(&self) -> (res: bool)
        ensures
            res == self@.active,
    {
        self.active
    }

    pub fn stop(&mut self)
        ensures
            final(self)@ == old(self)@.stopped(),
    {
        self.active = false;
    }

    pub fn start(&mut self, amplitude: u8, step: u64)
        requires
            0 < step <= TIME_MAX,
        ensures
            final(self)@ == old(self)@.started(amplitude, step as nat),
    {
        self.timer.set_step(step);
        self.amplitude = amplitude;
        self.active = true;
    }

    /// Plays the frame that ends at `limit`. Returns the changes to the register `reg` in
    /// ascending order of their timestamps, or `None` if the effect is not active.
    pub fn iter_frame(&mut self, limit: u64, reg: u8) -> (res: Option<Vec<RegChange>>)
        requires
            old(self)@.wf(),
            limit <= TIME_MAX,
        ensures
            final(self)@ == old(self)@.after_frame(limit as nat),
            final(self)@.wf(),
            match res {
                Some(changes) => old(self)@.active && changes@ == old(self)@.events(
                    limit as nat,
                    reg,
                ),
                None => !old(self)@.active,
            },
    {
        if !self.active {
            return None;
        }
        let ghost before = self@;
        let times = self.timer.run_frame(limit);
        let mut out: Vec<RegChange> = Vec::new();
        let mut i: usize = 0;
        while i < times.len()
            invariant
                i <= times.len(),
                times@ == before.timer.times(limit as nat),
                before.phase < 8,
                self.amplitude == before.amplitude,
                self.active == before.active,
                self.timer@ == before.timer.after(limit as nat),
                self.phase == (before.phase + i) % 8,
                out@.len() == i,
                forall|k: int| 0 <= k < i ==> out@[k] == before.events(limit as nat, reg)[k],
            decreases times.len() - i,
        {
            let phase: u8 = self.phase;
            let level: u8 = sinus_sid(phase as usize, self.amplitude as u16);
            assert(sinus_level(phase as int, self.amplitude as int) == sinus_level(
                before.phase + i,
                self.amplitude as int,
            )) by {
                assert((phase as int) % 8 == (before.phase + i) % 8);
            }
            out.push((times[i], reg, level));
            let bumped: u8 = phase + 1;
            let next: u8 = bumped & 7;
            assert(next == bumped % 8) by (bit_vector)
                requires
                    next == bumped & 7,
            ;
            self.phase = next;
            i = i + 1;
        }
        assert(out@ =~= before.events(limit as nat, reg));
        Some(out)
    }
}

/// The state of a `DIGI-DRUM`: its timer and the part of the sample data that it still has
/// to play.
#[verifier::ext_equal]
pub struct DigiDrumState {
    pub timer: TimerState,
    pub cur: nat,
    pub end: nat,
}

impl DigiDrumState {
    /// A drum at rest, with a timer that was never set up.
    pub open spec fn idle() -> Self {
        DigiDrumState { timer: TimerState { current: 0, step: 0 }, cur: 0, end: 0 }
    }

    /// The drum plays as long as sample data is left.
    pub open spec fn active(self) -> bool {
        self.cur < self.end
    }

    pub open spec fn wf(self) -> bool {
        self.timer.wf() && (self.active() ==> self.timer.step > 0)
    }

    /// The drum with its effect switched off.
    pub open spec fn stopped(self) -> Self {
        DigiDrumState { end: 0, ..self }
    }

    /// The drum set up to play the sample data from `start` up to `end`, one value every
    /// `step` units, beginning at the start of the frame.
    pub open spec fn started(self, start: nat, end: nat, step: nat) -> Self {
        DigiDrumState { timer: TimerState { current: 0, step }, cur: start, end }
    }

    /// The number of sample values that are left to play.
    pub open spec fn left(self) -> nat {
        (self.end - self.cur) as nat
    }

    /// Whether the sample ends in the frame that ends at `limit`: whether the frame has a
    /// tick left once the sample values are used up.
    pub open spec fn ends_before(self, limit: nat) -> bool {
        self.active() && self.timer.ticks(limit) > self.left()
    }

    /// The register changes of the frame that ends at `limit`, written to `reg`: one sample
    /// value for each tick and, at the first tick that finds the sample used up, the
    /// volume `end_vol`, after which nothing follows.
    pub open spec fn events(self, limit: nat, reg: u8, samples: Seq<u8>, end_vol: u8) -> Seq<
        RegChange,
    > {
        Seq::new(
            if self.ends_before(limit) {
                self.left() + 1
            } else {
                self.timer.ticks(limit)
            },
            |k: int|
                (
                    self.timer.tick(k) as u64,
                    reg,
                    if k < self.left() {
                        samples[self.cur + k]
                    } else {
                        end_vol
                    },
                ),
        )
    }

    /// The drum after the frame that ends at `limit`. At rest it does not change. Where
    /// the sample has ended it is at rest, with its next tick at the start of the frame.
    pub open spec fn after_frame(self, limit: nat) -> Self {
        if !self.active() {
            self
        } else if self.ends_before(limit) {
            DigiDrumState {
                timer: TimerState { current: 0, step: self.timer.step },
                cur: self.end,
                end: self.end,
            }
        } else {
            DigiDrumState {
                timer: self.timer.after(limit),
                cur: self.cur + self.timer.ticks(limit),
                end: self.end,
            }
        }
    }
}

/// The `DIGI-DRUM` effect modulates the channel's volume level, by applying to it 4-bit sample values.
#[derive(Debug, Clone, Copy)]
pub struct DigiDrum {
    timer: Timer,
    cur: usize,
    end: usize,
}

impl View for DigiDrum {
    type V = DigiDrumState;

    closed spec fn view(&self) -> DigiDrumState {
        DigiDrumState { timer: self.timer@, cur: self.cur as nat, end: self.end as nat }
    }
}

impl Default for DigiDrum {
    fn default() -> (res: Self)
        ensures
            res@ == DigiDrumState::idle(),
    {
        DigiDrum { timer: Timer::default(), cur: 0, end: 0 }
    }
}

impl DigiDrum {
    pub fn is_active(&self) -> (res: bool)
        ensures
            res == self@.active(),
    {
        self.cur < self.end
    }

    pub fn stop(&mut self)
        ensures
            final(self)@ == old(self)@.stopped(),
    {
        self.end = 0;
    }

    pub fn start(&mut self, start: usize, end: usize, step: u64)
        requires
            0 < step <= TIME_MAX,
        ensures
            final(self)@ == old(self)@.started(start as nat, end as nat, step as nat),
    {
        self.timer.reset();
        self.timer.set_step(step);
        self.cur = start;
        self.end = end;
    }

    /// Plays the frame that ends at `limit`. Returns the changes to the register `reg` in
    /// ascending order of their timestamps, or `None` if the effect is not active.
    ///
    /// The values are taken from `dd_samples`. If the sample ends within the frame,
    /// `end_vol` is written at the tick after its last value and the effect stops.
    pub fn iter_frame(&mut self, limit: u64, reg: u8, dd_samples: &[u8], end_vol: u8) -> (res:
        Option<Vec<RegChange>>)
        requires
            old(self)@.wf(),
            limit <= TIME_MAX,
            old(self)@.active() ==> old(self)@.end <= dd_samples@.len(),
        ensures
            final(self)@ == old(self)@.after_frame(limit as nat),
            final(self)@.wf(),
            match res {
                Some(changes) => old(self)@.active() && changes@ == old(self)@.events(
                    limit as nat,
                    reg,
                    dd_samples@,
                    end_vol,
                ),
                None => !old(self)@.active(),
            },
    {
        if self.cur >= self.end {
            return None;
        }
        let ghost before = self@;
        let times = self.timer.run_frame(limit);
        let total: usize = dd_samples.len();
        let left: usize = self.end - self.cur;
        let ends: bool = times.len() > left;
        let count: usize = if ends {
            left
        } else {
            times.len()
        };
        let mut out: Vec<RegChange> = Vec::new();
        let mut i: usize = 0;
        while i < count
            invariant
                i <= count <= times.len(),
                count <= left,
                left == before.left(),
                before.cur + left == before.end,
                before.end <= total == dd_samples@.len(),
                self.cur == before.cur,
                times@ == before.timer.times(limit as nat),
                out@.len() == i,
                forall|k: int|
                    0 <= k < i ==> out@[k] == before.events(
                        limit as nat,
                        reg,
                        dd_samples@,
                        end_vol,
                    )[k],
            decreases count - i,
        {
            out.push((times[i], reg, dd_samples[self.cur + i]));
            i = i + 1;
        }
        if ends {
            out.push((times[left], reg, end_vol));
            self.timer.reset();
            self.cur = self.end;
        } else {
            self.cur = self.cur + count;
        }
        assert(out@ =~= before.events(limit as nat, reg, dd_samples@, end_vol));
        Some(out)
    }
}

} // verus!
