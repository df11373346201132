//! The mixer: it merges the register changes of several effect units into one stream that
//! is ordered by time.
use arrayvec::ArrayVec;
use vstd::prelude::*;

use crate::ym::effects::RegChange;

verus! {

/// The most lanes that a mixer takes: one for each voice and one for the buzzer.
pub const MIXER_LANES: usize = 4;

/// `arrayvec::ArrayVec`: a vector that holds up to `CAP` elements in place.
#[verifier::external_type_specification]
#[verifier::external_body]
#[verifier::reject_recursive_types(T)]
pub struct ExArrayVec<T, const CAP: usize>(ArrayVec<T, CAP>);

/// The lanes that an `ArrayVec` of lanes holds, in the order in which they were pushed.
pub uninterp spec fn lanes_of(v: ArrayVec<Vec<RegChange>, 4>) -> Seq<Seq<RegChange>>;

/// `ArrayVec::new`: the new vector holds nothing.
#[verifier::external_body]
fn lanes_new() -> (res: ArrayVec<Vec<RegChange>, 4>)
    ensures
        lanes_of(res) == Seq::<Seq<RegChange>>::empty(),
{
    ArrayVec::new()
}

/// `ArrayVec::push`: the element is added behind those that the vector holds. The vector
/// must have room for it.
#[verifier::external_body]
fn lanes_push(v: &mut ArrayVec<Vec<RegChange>, 4>, lane: Vec<RegChange>)
    requires
        lanes_of(*old(v)).len() < MIXER_LANES,
    ensures
        lanes_of(*final(v)) == lanes_of(*old(v)).push(lane@),
{
    v.push(lane)
}

/// `ArrayVec::len`: the number of elements that the vector holds.
#[verifier::external_body]
fn lanes_len(v: &ArrayVec<Vec<RegChange>, 4>) -> (res: usize)
    ensures
        res == lanes_of(*v).len(),
        res <= MIXER_LANES,
{
    v.len()
}

/// Indexing an `ArrayVec`, which goes through its `Deref` to a slice: the element at `i`.
#[verifier::external_body]
fn lanes_get(v: &ArrayVec<Vec<RegChange>, 4>, i: usize) -> (res: &Vec<RegChange>)
    requires
        i < lanes_of(*v).len(),
    ensures
        res@ == lanes_of(*v)[i as int],
{
    &v[i]
}

/// Whether the timestamps of `lane` never go back.
pub open spec fn ordered(lane: Seq<RegChange>) -> bool {
    forall|j: int, k: int| 0 <= j <= k < lane.len() ==> lane[j].0 <= lane[k].0
}

/// The state of a mixer: its lanes and, for each lane, how many of its changes have been
/// handed out.
pub struct MixerState {
    pub lanes: Seq<Seq<RegChange>>,
    pub heads: Seq<usize>,
}

impl MixerState {
    pub open spec fn wf(self) -> bool {
        &&& self.lanes.len() == self.heads.len()
        &&& self.lanes.len() <= MIXER_LANES
        &&& forall|i: int|
            0 <= i < self.lanes.len() ==> self.heads[i] <= (#[trigger] self.lanes[i]).len()
                && self.lanes[i].len() <= usize::MAX
    }

    /// Whether the mixer has handed out nothing yet.
    pub open spec fn untouched(self) -> bool {
        forall|i: int| 0 <= i < self.heads.len() ==> self.heads[i] == 0
    }

    /// Whether lane `i` has a change left.
    pub open spec fn live(self, i: int) -> bool {
        self.heads[i] < self.lanes[i].len()
    }

    /// The next change of lane `i`.
    pub open spec fn head(self, i: int) -> RegChange {
        self.lanes[i][self.heads[i] as int]
    }

    /// What is left of lane `i`.
    pub open spec fn rest(self, i: int) -> Seq<RegChange> {
        self.lanes[i].skip(self.heads[i] as int)
    }

    /// The number of changes that the first `n` lanes have left.
    pub open spec fn pending_among(self, n: int) -> nat
        decreases n,
    {
        if n <= 0 {
            0
        } else {
            self.pending_among(n - 1) + (self.lanes[n - 1].len() - self.heads[n - 1]) as nat
        }
    }

    /// The number of changes that are left in all lanes.
    pub open spec fn pending(self) -> nat {
        self.pending_among(self.lanes.len() as int)
    }

    /// Among the first `n` lanes, the one whose next change comes earliest; among lanes
    /// whose next changes come at the same time, the first. `None` if none of them has a
    /// change left.
    pub open spec fn best(self, n: int) -> Option<int>
        decreases n,
    {
        if n <= 0 {
            None
        } else {
            match self.best(n - 1) {
                Some(p) => if self.live(n - 1) && self.head(n - 1).0 < self.head(p).0 {
                    Some(n - 1)
                } else {
                    Some(p)
                },
                None => if self.live(n - 1) {
                    Some(n - 1)
                } else {
                    None
                },
            }
        }
    }

    /// The lane that hands out the next change.
    pub open spec fn pick(self) -> Option<int> {
        self.best(self.lanes.len() as int)
    }

    /// The mixer after lane `p` has handed out its next change.
    pub open spec fn advance(self, p: int) -> MixerState {
        MixerState { lanes: self.lanes, heads: self.heads.update(p, (self.heads[p] + 1) as usize) }
    }

    /// The first `n` changes that the mixer hands out, or all of them if it has fewer.
    pub open spec fn merged_first(self, n: nat) -> Seq<RegChange>
        decreases n,
    {
        if n == 0 {
            Seq::empty()
        } else {
            match self.pick() {
                Some(p) => seq![self.head(p)] + self.advance(p).merged_first((n - 1) as nat),
                None => Seq::empty(),
            }
        }
    }

    /// Every change that the mixer has left, in the order in which it hands them out.
    pub open spec fn merged(self) -> Seq<RegChange> {
        self.merged_first(self.pending())
    }
}

/// What `best` returns: a lane that has a change left, whose next change is no later than
/// that of any other lane and earlier than that of any lane before it; and nothing only if no
/// lane has a change left.
pub proof fn lemma_best(m: MixerState, n: int)
    requires
        m.wf(),
        0 <= n <= m.lanes.len(),
    ensures
        match m.best(n) {
            Some(p) => {
                &&& 0 <= p < n
                &&& m.live(p)
                &&& forall|i: int| 0 <= i < n && m.live(i) ==> m.head(p).0 <= m.head(i).0
                &&& forall|i: int| 0 <= i < p && m.live(i) ==> m.head(p).0 < m.head(i).0
            },
            None => forall|i: int| 0 <= i < n ==> !m.live(i),
        },
    decreases n,
{
    if n > 0 {
        lemma_best(m, n - 1);
    }
}

/// Handing out a change of a lane among the first `n` leaves one change less in them.
proof fn lemma_advance_pending(m: MixerState, p: int, n: int)
    requires
        m.wf(),
        0 <= p < m.lanes.len(),
        m.live(p),
        0 <= n <= m.lanes.len(),
    ensures
        m.advance(p).wf(),
        m.advance(p).pending_among(n) + (if p < n {
            1int
        } else {
            0int
        }) == m.pending_among(n),
    decreases n,
{
    if n > 0 {
        lemma_advance_pending(m, p, n - 1);
    }
}

/// A lane with a change left means that changes are pending.
proof fn lemma_live_pending(m: MixerState, p: int, n: int)
    requires
        m.wf(),
        0 <= p < n <= m.lanes.len(),
        m.live(p),
    ensures
        m.pending_among(n) > 0,
    decreases n,
{
    if n - 1 > p {
        lemma_live_pending(m, p, n - 1);
    }
}

/// The changes that a mixer has left are the next change of the picked lane, followed by
/// what the mixer has left after that lane has moved on; and none if no lane is picked.
pub proof fn lemma_merged_unfold(m: MixerState)
    requires
        m.wf(),
    ensures
        match m.pick() {
            Some(p) => {
                &&& 0 <= p < m.lanes.len()
                &&& m.live(p)
                &&& m.advance(p).wf()
                &&& m.advance(p).pending() + 1 == m.pending()
                &&& m.merged() == seq![m.head(p)] + m.advance(p).merged()
            },
            None => m.merged() == Seq::<RegChange>::empty(),
        },
{
    let n = m.lanes.len() as int;
    lemma_best(m, n);
    match m.pick() {
        Some(p) => {
            lemma_advance_pending(m, p, n);
            lemma_live_pending(m, p, n);
        },
        None => {},
    }
}

/// The mixer hands out as many changes as its lanes have left.
pub proof fn lemma_merged_len(m: MixerState)
    requires
        m.wf(),
    ensures
        m.merged().len() == m.pending(),
    decreases m.pending(),
{
    lemma_merged_unfold(m);
    if let Some(p) = m.pick() {
        lemma_merged_len(m.advance(p));
    } else {
        lemma_best(m, m.lanes.len() as int);
        lemma_none_pending(m, m.lanes.len() as int);
    }
}

/// Lanes without a change left have nothing pending.
proof fn lemma_none_pending(m: MixerState, n: int)
    requires
        m.wf(),
        0 <= n <= m.lanes.len(),
        forall|i: int| 0 <= i < n ==> !m.live(i),
    ensures
        m.pending_among(n) == 0,
    decreases n,
{
    if n > 0 {
        lemma_none_pending(m, n - 1);
        assert(!m.live(n - 1));
        assert(m.heads[n - 1] <= m.lanes[n - 1].len());
    }
}

/// What holds of every change that is left in a lane holds of every change that the mixer
/// hands out.
pub proof fn lemma_merged_all(m: MixerState, pred: spec_fn(RegChange) -> bool)
    requires
        m.wf(),
        forall|i: int, k: int|
            0 <= i < m.lanes.len() && m.heads[i] <= k < m.lanes[i].len() ==> pred(
                #[trigger] m.lanes[i][k],
            ),
    ensures
        forall|j: int| 0 <= j < m.merged().len() ==> pred(#[trigger] m.merged()[j]),
    decreases m.pending(),
{
    lemma_merged_unfold(m);
    if let Some(p) = m.pick() {
        lemma_merged_all(m.advance(p), pred);
        assert(pred(m.lanes[p][m.heads[p] as int]));
    }
}

/// If the timestamps of no lane go back, those of the changes that the mixer hands out do
/// not go back either.
pub proof fn lemma_merged_ordered(m: MixerState)
    requires
        m.wf(),
        forall|i: int| 0 <= i < m.lanes.len() ==> ordered(#[trigger] m.lanes[i]),
    ensures
        ordered(m.merged()),
    decreases m.pending(),
{
    lemma_merged_unfold(m);
    if let Some(p) = m.pick() {
        let rest = m.advance(p);
        let first = m.head(p);
        lemma_merged_ordered(rest);
        lemma_best(m, m.lanes.len() as int);
        let later = |change: RegChange| first.0 <= change.0;
        assert forall|i: int, k: int|
            0 <= i < rest.lanes.len() && rest.heads[i] <= k < rest.lanes[i].len() implies later(
            #[trigger] rest.lanes[i][k],
        ) by {
            assert(ordered(m.lanes[i]));
            assert(m.live(i));
            assert(m.head(p).0 <= m.head(i).0);
            assert(m.lanes[i][m.heads[i] as int].0 <= m.lanes[i][k].0);
        }
        lemma_merged_all(rest, later);
        let all = m.merged();
        assert forall|j: int, k: int| 0 <= j <= k < all.len() implies all[j].0 <= all[k].0 by {
            if j == 0 {
                if k > 0 {
                    assert(all[k] == rest.merged()[k - 1]);
                    assert(later(rest.merged()[k - 1]));
                }
            } else {
                assert(all[j] == rest.merged()[j - 1]);
                assert(all[k] == rest.merged()[k - 1]);
            }
        }
    }
}

/// Merges the register changes of up to four lanes, each of them in the order of its
/// timestamps, into one stream in that order.
pub struct Mixer {
    iters: ArrayVec<Vec<RegChange>, 4>,
    heads: Vec<usize>,
}

impl View for Mixer {
    type V = MixerState;

    closed spec fn view(&self) -> MixerState {
        MixerState { lanes: lanes_of(self.iters), heads: self.heads@ }
    }
}

impl Mixer {
    /// A mixer without lanes.
    pub fn new() -> (res: Self)
        ensures
            res@.wf(),
            res@.lanes == Seq::<Seq<RegChange>>::empty(),
            res@.heads == Seq::<usize>::empty(),
    {
        Mixer { iters: lanes_new(), heads: Vec::new() }
    }

    /// The number of lanes.
    pub fn len(&self) -> (res: usize)
        ensures
            res == self@.lanes.len(),
    {
        lanes_len(&self.iters)
    }

    /// Adds a lane behind those that the mixer has. Where changes of two lanes come at the
    /// same time, those of the lane that was added first are handed out first.
    pub fn push(&mut self, lane: Vec<RegChange>)
        requires
            old(self)@.wf(),
            old(self)@.lanes.len() < MIXER_LANES,
        ensures
            final(self)@.wf(),
            final(self)@.lanes == old(self)@.lanes.push(lane@),
            final(self)@.heads == old(self)@.heads.push(0),
    {
        assert(lane@.len() == lane.len());
        lanes_push(&mut self.iters, lane);
        self.heads.push(0);
    }

    /// Hands out the earliest change that is left in any lane, or `None` if none is left.
    pub fn next(&mut self) -> (res: Option<RegChange>)
        requires
            old(self)@.wf(),
        ensures
            final(self)@.wf(),
            match old(self)@.pick() {
                Some(p) => res == Some(old(self)@.head(p)) && final(self)@ == old(self)@.advance(
                    p,
                ),
                None => res is None && final(self)@ == old(self)@,
            },
    {
        let ghost before = self@;
        let count: usize = lanes_len(&self.iters);
        let mut found: Option<(usize, RegChange)> = None;
        let mut i: usize = 0;
        while i < count
            invariant
                i <= count == before.lanes.len(),
                before.wf(),
                self@ == before,
                match found {
                    Some((p, change)) => before.best(i as int) == Some(p as int) && p < i
                        && before.live(p as int) && change == before.head(p as int),
                    None => before.best(i as int) is None,
                },
            decreases count - i,
        {
            let lane = lanes_get(&self.iters, i);
            let head: usize = self.heads[i];
            if head < lane.len() {
                let change: RegChange = lane[head];
                found = match found {
                    Some((p, least)) => if change.0 < least.0 {
                        Some((i, change))
                    } else {
                        Some((p, least))
                    },
                    None => Some((i, change)),
                };
            }
            i = i + 1;
        }
        match found {
            Some((p, change)) => {
                let head: usize = self.heads[p];
                self.heads.set(p, head + 1);
                proof {
                    lemma_merged_unfold(before);
                    assert(self@.heads =~= before.advance(p as int).heads);
                }
                Some(change)
            },
            None => None,
        }
    }

    /// Hands out every change that is left, in the order of [`Self::next`], and adds them
    /// to `rec`.
    pub fn drain_into(&mut self, rec: &mut Vec<RegChange>)
        requires
            old(self)@.wf(),
        ensures
            final(self)@.wf(),
            final(self)@.pick() is None,
            final(self)@.lanes == old(self)@.lanes,
            final(rec)@ == old(rec)@ + old(self)@.merged(),
    {
        let ghost start = rec@;
        let ghost all = self@.merged();
        proof {
            lemma_merged_unfold(self@);
        }
        loop
            invariant_except_break
                self@.wf(),
                self@.lanes == old(self)@.lanes,
                rec@ + self@.merged() == start + all,
            ensures
                self@.wf(),
                self@.pick() is None,
                self@.lanes == old(self)@.lanes,
                rec@ == start + all,
            decreases self@.pending(),
        {
            let ghost prior = self@;
            let ghost sofar = rec@;
            proof {
                lemma_merged_unfold(prior);
            }
            match self.next() {
                Some(change) => {
                    rec.push(change);
                    assert(rec@ + self@.merged() =~= sofar + prior.merged());
                },
                None => {
                    assert(rec@ + Seq::<RegChange>::empty() =~= rec@);
                    break ;
                },
            }
        }
    }
}

} // verus!
