//! The 24 h history ring and the decimation that makes it fit one message.
//!
//! `metrics.history` locates every sample as `start_ts + N * interval_ms`
//! instead of carrying a timestamp per sample, so the run it returns must be
//! on a fixed cadence. A hole (sleep, hibernation, a restart) or a burst of
//! samples stored closer than the cadence ends the run rather than being
//! papered over.

use std::collections::VecDeque;
use vstd::prelude::*;
use crate::metrics::{Sample, SampleView};

verus! {

/// Spacing between stored samples, and the interval an undecimated history
/// reports.
pub const RING_INTERVAL_MS: u32 = 30_000;

/// 24 h at [`RING_INTERVAL_MS`].
pub const RING_CAPACITY: usize = 2_880;

/// Upper bound on the samples one `metrics.history` may carry, so that a
/// backfill fits the session's 64 KiB message cap.
pub const MAX_HISTORY_SAMPLES: usize = 512;

/// Widest spacing two samples may have and still be declared consecutive.
pub const MAX_STEP_MS: i64 = 45_000;

/// Narrowest spacing two samples may have and still be declared consecutive.
pub const MIN_STEP_MS: i64 = 15_000;

/// A contiguous, fixed-cadence run of samples: sample `N` is at
/// `start_ts + N * interval_ms`.
#[derive(Debug, Clone, PartialEq)]
pub struct History<C> {
    /// Timestamp of `samples[0]`.
    pub start_ts: i64,
    /// Spacing after decimation.
    pub interval_ms: u32,
    pub samples: Vec<Sample<C>>,
}

/// Fixed-capacity history, oldest evicted first.
#[derive(Debug)]
pub struct RingBuffer<C> {
    samples: VecDeque<Sample<C>>,
    capacity: usize,
}

/// Whether the step from `older` to `newer` is on the ring's cadence.
pub open spec fn on_cadence(older: int, newer: int) -> bool {
    MIN_STEP_MS <= newer - older <= MAX_STEP_MS
}

/// The start of the newest run of `s` within the window that opens at
/// `horizon`: walking back from the newest sample, a sample joins the run
/// while it is no older than `horizon` and its step to the sample after it is
/// on cadence. The run is `s[run_start(..)..]`; it is empty when the start is
/// `s.len()`.
pub open spec fn run_start_from<C>(s: Seq<SampleView<C>>, horizon: int, a: int) -> int
    recommends
        0 <= a <= s.len(),
    decreases a,
{
    if a <= 0 {
        0
    } else if s[a - 1].ts_ms >= horizon && (a == s.len() || on_cadence(s[a - 1].ts_ms as int, s[a].ts_ms as int)) {
        run_start_from(s, horizon, a - 1)
    } else {
        a
    }
}

/// The start of the newest on-cadence run of `s` inside the window.
pub open spec fn run_start<C>(s: Seq<SampleView<C>>, horizon: int) -> int {
    run_start_from(s, horizon, s.len() as int)
}

/// The window's lower edge for a request of `backfill_seconds` at `now_ms`,
/// saturating at the bottom of the `i64` range.
pub open spec fn horizon_of(backfill_seconds: u32, now_ms: i64) -> int {
    if now_ms - backfill_seconds * 1000 < i64::MIN { i64::MIN as int } else { now_ms - backfill_seconds * 1000 }
}

/// Every how-many-th sample a run of `len` samples keeps so that at most
/// [`MAX_HISTORY_SAMPLES`] remain: `ceil(len / 512)`, and never less than one.
pub open spec fn decimation_factor(len: int) -> int {
    if len <= 0 { 1 } else { (len - 1) / (MAX_HISTORY_SAMPLES as int) + 1 }
}

/// The interval a run decimated by `factor` declares, saturating at `u32::MAX`.
pub open spec fn decimated_interval(factor: int) -> int {
    if RING_INTERVAL_MS * factor > u32::MAX { u32::MAX as int } else { RING_INTERVAL_MS * factor }
}

/// The samples from `a` up to the walk's starting point `b` all lie inside the
/// window, and every one of them that has a successor is on cadence with it.
pub proof fn lemma_run_start_from<C>(s: Seq<SampleView<C>>, horizon: int, b: int)
    requires
        0 <= b <= s.len(),
    ensures
        0 <= run_start_from(s, horizon, b) <= b,
        forall|k: int| run_start_from(s, horizon, b) <= k < b ==> #[trigger] s[k].ts_ms >= horizon,
        forall|k: int| run_start_from(s, horizon, b) <= k < b && k + 1 < s.len() && (k + 1 < b || b == s.len() || on_cadence(s[b - 1].ts_ms as int, s[b].ts_ms as int))
            ==> on_cadence(#[trigger] s[k].ts_ms as int, s[k + 1].ts_ms as int),
    decreases b,
{
    if b > 0 {
        if s[b - 1].ts_ms >= horizon && (b == s.len() || on_cadence(s[b - 1].ts_ms as int, s[b].ts_ms as int)) {
            lemma_run_start_from(s, horizon, b - 1);
        }
    }
}

/// The newest run lies inside the window, is on cadence throughout, and is as
/// long as it can be: the sample before it is either outside the window or off
/// the cadence.
pub proof fn lemma_run_is_the_newest_on_cadence_window<C>(s: Seq<SampleView<C>>, horizon: int)
    ensures
        0 <= run_start(s, horizon) <= s.len(),
        forall|k: int| run_start(s, horizon) <= k < s.len() ==> #[trigger] s[k].ts_ms >= horizon,
        forall|k: int| run_start(s, horizon) <= k < s.len() - 1
            ==> on_cadence(#[trigger] s[k].ts_ms as int, s[k + 1].ts_ms as int),
        run_start(s, horizon) > 0 && run_start(s, horizon) < s.len() ==> {
            let a = run_start(s, horizon);
            s[a - 1].ts_ms < horizon || !on_cadence(s[a - 1].ts_ms as int, s[a].ts_ms as int)
        },
        run_start(s, horizon) > 0 && run_start(s, horizon) == s.len() ==> s.last().ts_ms < horizon,
{
    lemma_run_start_from(s, horizon, s.len() as int);
    lemma_run_start_stops(s, horizon, s.len() as int);
}

/// The run [`RingBuffer::history`] returns is the longest newest stretch of
/// stored samples that all lie inside the window and whose every step to the
/// next sample is between 15 s and 45 s (inclusive): a jittering sampler's
/// steps of, say, 30.5 s continue the run, and only a step outside that band
/// or a sample older than the window ends it. In particular, when every
/// stored sample is inside the window and every step is within the band, the
/// run is all of them.
pub proof fn a_run_continues_across_every_step_between_15_and_45_seconds<C>(s: Seq<SampleView<C>>, horizon: int)
    ensures
        0 <= run_start(s, horizon) <= s.len(),
        forall|k: int| run_start(s, horizon) <= k < s.len() ==> #[trigger] s[k].ts_ms >= horizon,
        forall|k: int| run_start(s, horizon) <= k < s.len() - 1
            ==> 15_000 <= s[k + 1].ts_ms - #[trigger] s[k].ts_ms <= 45_000,
        run_start(s, horizon) > 0 ==> {
            let a = run_start(s, horizon);
            ||| s[a - 1].ts_ms < horizon
            ||| (a < s.len() && !(15_000 <= s[a].ts_ms - s[a - 1].ts_ms <= 45_000))
        },
        (forall|k: int| 0 <= k < s.len() ==> #[trigger] s[k].ts_ms >= horizon)
            && (forall|k: int| 0 <= k < s.len() - 1 ==> 15_000 <= s[k + 1].ts_ms - #[trigger] s[k].ts_ms <= 45_000)
            ==> run_start(s, horizon) == 0,
{
    lemma_run_is_the_newest_on_cadence_window(s, horizon);
    let a = run_start(s, horizon);
    if a > 0 && a < s.len() {
        assert(s[a - 1].ts_ms < horizon || !on_cadence(s[a - 1].ts_ms as int, s[a].ts_ms as int));
    }
    if (forall|k: int| 0 <= k < s.len() ==> #[trigger] s[k].ts_ms >= horizon)
        && (forall|k: int| 0 <= k < s.len() - 1 ==> 15_000 <= s[k + 1].ts_ms - #[trigger] s[k].ts_ms <= 45_000) {
        if a > 0 {
            assert(s[a - 1].ts_ms >= horizon);
            if a < s.len() {
                assert(15_000 <= s[a - 1 + 1].ts_ms - s[a - 1].ts_ms <= 45_000);
            }
        }
    }
}

proof fn lemma_run_start_stops<C>(s: Seq<SampleView<C>>, horizon: int, b: int)
    requires
        0 <= b <= s.len(),
    ensures
        ({
            let a = run_start_from(s, horizon, b);
            a > 0 ==> !(s[a - 1].ts_ms >= horizon && (a == s.len() || on_cadence(s[a - 1].ts_ms as int, s[a].ts_ms as int)))
        }),
    decreases b,
{
    if b > 0 {
        if s[b - 1].ts_ms >= horizon && (b == s.len() || on_cadence(s[b - 1].ts_ms as int, s[b].ts_ms as int)) {
            lemma_run_start_stops(s, horizon, b - 1);
        }
    }
}

/// Within an on-cadence stretch, samples `d` steps apart are between
/// `d * MIN_STEP_MS` and `d * MAX_STEP_MS` apart in time.
pub proof fn lemma_cadence_spacing<C>(s: Seq<SampleView<C>>, lo: int, k1: int, k2: int)
    requires
        0 <= lo <= k1 <= k2 < s.len(),
        forall|k: int| lo <= k < s.len() - 1 ==> on_cadence(#[trigger] s[k].ts_ms as int, s[k + 1].ts_ms as int),
    ensures
        (k2 - k1) * MIN_STEP_MS <= s[k2].ts_ms - s[k1].ts_ms <= (k2 - k1) * MAX_STEP_MS,
    decreases k2 - k1,
{
    if k1 < k2 {
        lemma_cadence_spacing(s, lo, k1, k2 - 1);
        assert(on_cadence(s[k2 - 1].ts_ms as int, s[k2].ts_ms as int));
        assert((k2 - k1) * MIN_STEP_MS == (k2 - 1 - k1) * MIN_STEP_MS + MIN_STEP_MS) by (nonlinear_arith);
        assert((k2 - k1) * MAX_STEP_MS == (k2 - 1 - k1) * MAX_STEP_MS + MAX_STEP_MS) by (nonlinear_arith);
    }
}

/// A run of `len` samples decimated by its factor into `count` samples, one
/// per `factor` positions, never exceeds [`MAX_HISTORY_SAMPLES`].
pub proof fn lemma_decimation_fits(len: int, count: int)
    requires
        len >= 1,
        count >= 1,
        (count - 1) * decimation_factor(len) < len,
    ensures
        count <= MAX_HISTORY_SAMPLES,
{
    let f = decimation_factor(len);
    assert(len <= (MAX_HISTORY_SAMPLES as int) * f) by (nonlinear_arith)
        requires f == (len - 1) / 512 + 1, len >= 1;
    assert(count <= MAX_HISTORY_SAMPLES) by (nonlinear_arith)
        requires (count - 1) * f < len, len <= 512 * f, f >= 1;
}

/// What a ring of capacity `cap` holding `s` holds after one more sample `x`:
/// `x` becomes the newest, and when the ring was full its oldest is evicted.
pub open spec fn push_step<C>(s: Seq<SampleView<C>>, cap: nat, x: SampleView<C>) -> Seq<SampleView<C>> {
    if s.len() == cap { s.drop_first().push(x) } else { s.push(x) }
}

/// What a ring of capacity `cap` holding `s` holds after `xs` are pushed onto
/// it in order.
pub open spec fn pushes<C>(s: Seq<SampleView<C>>, cap: nat, xs: Seq<SampleView<C>>) -> Seq<SampleView<C>>
    decreases xs.len(),
{
    if xs.len() == 0 { s } else { push_step(pushes(s, cap, xs.drop_last()), cap, xs.last()) }
}

/// The last `min(xs.len(), cap)` of `xs`, in order: what a ring of capacity
/// `cap` keeps of the samples `xs` pushed into it.
pub open spec fn newest<C>(xs: Seq<SampleView<C>>, cap: nat) -> Seq<SampleView<C>> {
    xs.subrange(if xs.len() > cap { xs.len() - cap } else { 0 }, xs.len() as int)
}

/// One more push keeps the ring holding the newest of what it was pushed:
/// if it held the last `min(m, cap)` of `xs`, after `x` it holds the last
/// `min(m + 1, cap)` of `xs` followed by `x`.
pub proof fn one_more_push_keeps_the_newest<C>(cap: nat, xs: Seq<SampleView<C>>, x: SampleView<C>)
    requires
        cap >= 1,
    ensures
        push_step(newest(xs, cap), cap, x) == newest(xs.push(x), cap),
{
    let m = xs.len() as int;
    let before = newest(xs, cap);
    let after = newest(xs.push(x), cap);
    if before.len() == cap {
        assert(before.drop_first().push(x) =~= after);
    } else {
        assert(before.push(x) =~= after);
    }
}

/// A ring of capacity `cap` that starts empty and is pushed `xs` holds exactly
/// the last `min(xs.len(), cap)` of them, in the order they were pushed: it
/// never grows past its capacity, it evicts oldest first, and its newest is
/// the last one pushed.
pub proof fn a_ring_keeps_the_newest_samples_in_order<C>(cap: nat, xs: Seq<SampleView<C>>)
    requires
        cap >= 1,
    ensures
        pushes(Seq::<SampleView<C>>::empty(), cap, xs) == newest(xs, cap),
        pushes(Seq::<SampleView<C>>::empty(), cap, xs).len() == if xs.len() > cap { cap } else { xs.len() },
        xs.len() > 0 ==> pushes(Seq::<SampleView<C>>::empty(), cap, xs).last() == xs.last(),
    decreases xs.len(),
{
    if xs.len() > 0 {
        let prev = xs.drop_last();
        a_ring_keeps_the_newest_samples_in_order(cap, prev);
        one_more_push_keeps_the_newest(cap, prev, xs.last());
        assert(prev.push(xs.last()) =~= xs);
    } else {
        assert(newest(xs, cap) =~= Seq::<SampleView<C>>::empty());
    }
}

impl<C> RingBuffer<C> {
    /// The ring's invariant: it keeps at least one sample and never more than
    /// its capacity.
    pub closed spec fn wf(&self) -> bool {
        &&& self.capacity >= 1
        &&& self.samples@.len() <= self.capacity
    }

    /// The stored samples, oldest first.
    pub closed spec fn stored(&self) -> Seq<SampleView<C>> {
        self.samples@.map_values(|s: Sample<C>| s@)
    }

    /// How many samples the ring keeps before it evicts the oldest.
    pub closed spec fn spec_capacity(&self) -> nat {
        self.capacity as nat
    }

    /// A ring holding at most [`RING_CAPACITY`] samples.
    pub fn new() -> (r: Self)
        ensures
            r.wf(),
            r.stored().len() == 0,
            r.spec_capacity() == RING_CAPACITY,
    {
        Self::with_capacity(RING_CAPACITY)
    }

    /// A ring holding at most `capacity` samples, and at least one.
    pub fn with_capacity(capacity: usize) -> (r: Self)
        ensures
            r.wf(),
            r.stored().len() == 0,
            r.spec_capacity() == if capacity == 0 { 1 } else { capacity },
    {
        let reserve = if capacity < RING_CAPACITY { capacity } else { RING_CAPACITY };
        let samples: VecDeque<Sample<C>> = VecDeque::with_capacity(reserve);
        let r = Self { samples, capacity: if capacity == 0 { 1 } else { capacity } };
        assert(r.stored() =~= Seq::<SampleView<C>>::empty());
        r
    }

    /// Samples currently stored.
    pub fn len(&self) -> (n: usize)
        ensures
            n == self.stored().len(),
    {
        self.samples.len()
    }

    /// Whether nothing is stored.
    pub fn is_empty(&self) -> (b: bool)
        ensures
            b == (self.stored().len() == 0),
    {
        self.samples.len() == 0
    }

    /// Store `sample` as the newest, evicting the oldest when full.
    pub fn push(&mut self, sample: Sample<C>)
        requires
            old(self).wf(),
        ensures
            final(self).wf(),
            final(self).spec_capacity() == old(self).spec_capacity(),
            final(self).stored() == push_step(old(self).stored(), old(self).spec_capacity(), sample@),
            forall|xs: Seq<SampleView<C>>| #![trigger newest(xs, old(self).spec_capacity())]
                old(self).stored() == newest(xs, old(self).spec_capacity())
                ==> final(self).stored() == newest(xs.push(sample@), old(self).spec_capacity()),
            final(self).stored().len() <= final(self).spec_capacity(),
    {
        let ghost before = self.samples@;
        let ghost stored_before = self.stored();
        let ghost cap = self.spec_capacity();
        if self.samples.len() == self.capacity {
            let _evicted = self.samples.pop_front();
            assert(self.samples@ =~= before.drop_first());
        }
        self.samples.push_back(sample);
        proof {
            if before.len() == self.capacity {
                assert(self.samples@.map_values(|s: Sample<C>| s@)
                    =~= before.map_values(|s: Sample<C>| s@).drop_first().push(sample@));
            } else {
                assert(self.samples@.map_values(|s: Sample<C>| s@)
                    =~= before.map_values(|s: Sample<C>| s@).push(sample@));
            }
            assert forall|xs: Seq<SampleView<C>>| #![trigger newest(xs, cap)]
                stored_before == newest(xs, cap) implies self.stored() == newest(xs.push(sample@), cap) by {
                one_more_push_keeps_the_newest(cap, xs, sample@);
            }
        }
    }

    /// The newest stored sample, if any.
    pub fn latest(&self) -> (r: Option<&Sample<C>>)
        ensures
            match r {
                None => self.stored().len() == 0,
                Some(s) => self.stored().len() > 0 && s@ == self.stored().last(),
            },
    {
        let n = self.samples.len();
        if n == 0 {
            None
        } else {
            Some(&self.samples[n - 1])
        }
    }
}

/// What [`RingBuffer::history`] promises of its samples follows from how they
/// were picked: at most [`MAX_HISTORY_SAMPLES`] of them, all inside the
/// window, sample `j` between `j * factor` minimum and maximum cadence steps
/// after the first.
pub proof fn lemma_history_laws<C>(s: Seq<SampleView<C>>, horizon: int, picked: Seq<SampleView<C>>)
    requires
        ({
            let a = run_start(s, horizon);
            let f = decimation_factor(s.len() - a);
            &&& 0 <= a < s.len()
            &&& picked.len() > 0
            &&& a + (picked.len() - 1) * f < s.len()
            &&& forall|j: int| 0 <= j < picked.len() ==> #[trigger] picked[j] == s[a + j * f]
        }),
    ensures
        ({
            let a = run_start(s, horizon);
            let f = decimation_factor(s.len() - a);
            &&& picked.len() <= MAX_HISTORY_SAMPLES
            &&& forall|j: int| 0 <= j < picked.len() ==> #[trigger] picked[j].ts_ms >= horizon
            &&& forall|j: int| 0 <= j < picked.len() ==> {
                &&& s[a].ts_ms + j * f * MIN_STEP_MS <= #[trigger] picked[j].ts_ms
                &&& picked[j].ts_ms <= s[a].ts_ms + j * f * MAX_STEP_MS
            }
        }),
{
    let a = run_start(s, horizon);
    let f = decimation_factor(s.len() - a);
    lemma_run_is_the_newest_on_cadence_window(s, horizon);
    lemma_decimation_fits(s.len() - a, picked.len() as int);
    assert forall|j: int| 0 <= j < picked.len() implies {
        &&& #[trigger] picked[j].ts_ms >= horizon
        &&& s[a].ts_ms + j * f * MIN_STEP_MS <= picked[j].ts_ms
        &&& picked[j].ts_ms <= s[a].ts_ms + j * f * MAX_STEP_MS
    } by {
        assert(0 <= j * f) by (nonlinear_arith) requires j >= 0, f >= 1;
        assert(j * f <= (picked.len() - 1) * f) by (nonlinear_arith)
            requires j <= picked.len() - 1, f >= 1;
        lemma_cadence_spacing(s, a, a, a + j * f);
        assert((a + j * f - a) * MIN_STEP_MS == j * f * MIN_STEP_MS) by (nonlinear_arith);
        assert((a + j * f - a) * MAX_STEP_MS == j * f * MAX_STEP_MS) by (nonlinear_arith);
    }
}

impl<C: Copy> RingBuffer<C> {
    /// Where the newest on-cadence run inside the window starts.
    fn run_start_index(&self, horizon: i128) -> (a: usize)
        ensures
            a == run_start(self.stored(), horizon as int),
            a <= self.stored().len(),
    {
        let ghost s = self.stored();
        let ghost hz = horizon as int;
        let n = self.samples.len();
        let mut a: usize = n;
        loop
            invariant
                n == s.len(),
                s == self.stored(),
                0 <= a <= n,
                hz == horizon,
                run_start(s, hz) == run_start_from(s, hz, a as int),
            ensures
                run_start(s, hz) == a,
                a <= n,
            decreases a,
        {
            if a == 0 {
                break;
            }
            let ts: i64 = self.samples[a - 1].ts_ms;
            assert(ts == s[a - 1].ts_ms);
            if (ts as i128) < horizon {
                break;
            }
            if a < n {
                let newer: i64 = self.samples[a].ts_ms;
                assert(newer == s[a as int].ts_ms);
                let step: i128 = newer as i128 - ts as i128;
                if step < MIN_STEP_MS as i128 || step > MAX_STEP_MS as i128 {
                    break;
                }
            }
            a = a - 1;
        }
        a
    }

    /// Copies of every `factor`-th stored sample from `a` on.
    fn decimate(&self, a: usize, factor: usize) -> (out: Vec<Sample<C>>)
        requires
            a < self.stored().len(),
            factor >= 1,
        ensures
            out@.len() > 0,
            a + (out@.len() - 1) * factor < self.stored().len() <= a + out@.len() * factor,
            forall|j: int| 0 <= j < out@.len() ==> #[trigger] out@[j]@ == self.stored()[a + j * factor],
    {
        let ghost s = self.stored();
        let n = self.samples.len();
        let mut out: Vec<Sample<C>> = Vec::new();
        let mut i: usize = a;
        assert(a + out@.len() * factor == a) by (nonlinear_arith)
            requires out@.len() == 0;
        loop
            invariant_except_break
                a <= i < n,
                i == a + out@.len() * factor,
            invariant
                n == s.len(),
                s == self.stored(),
                factor >= 1,
                forall|j: int| 0 <= j < out@.len() ==> #[trigger] out@[j]@ == s[a + j * factor],
            ensures
                out@.len() > 0,
                a + (out@.len() - 1) * factor < n <= a + out@.len() * factor,
                forall|j: int| 0 <= j < out@.len() ==> #[trigger] out@[j]@ == s[a + j * factor],
            decreases n - i,
        {
            let copy = self.samples[i].duplicate();
            let ghost k = out@.len();
            out.push(copy);
            assert(out@[k as int]@ == s[a + k * factor]);
            assert(a + (out@.len() - 1) * factor == i) by (nonlinear_arith)
                requires out@.len() == k + 1, i == a + k * factor;
            assert(a + out@.len() * factor == i + factor) by (nonlinear_arith)
                requires out@.len() == k + 1, i == a + k * factor;
            if n - i <= factor {
                break;
            }
            i = i + factor;
        }
        out
    }

    /// The most recent `backfill_seconds` of history, as one contiguous run.
    ///
    /// Walks back from the newest sample and stops at the first one outside
    /// the window or off the cadence, so the run always satisfies the
    /// fixed-cadence contract; then keeps every `factor`-th sample of it,
    /// starting with the oldest, so that no more than
    /// [`MAX_HISTORY_SAMPLES`] remain. `None` when nothing is in range.
    pub fn history(&self, backfill_seconds: u32, now_ms: i64) -> (r: Option<History<C>>)
        requires
            self.wf(),
        ensures
            ({
                let s = self.stored();
                let a = run_start(s, horizon_of(backfill_seconds, now_ms));
                let f = decimation_factor(s.len() - a);
                match r {
                    None => backfill_seconds == 0 || a == s.len(),
                    Some(h) => {
                        &&& backfill_seconds != 0
                        &&& 0 <= a < s.len()
                        &&& h.samples@.len() > 0
                        &&& forall|j: int| 0 <= j < h.samples@.len() ==> #[trigger] h.samples@[j]@ == s[a + j * f]
                        &&& a + (h.samples@.len() - 1) * f < s.len() <= a + h.samples@.len() * f
                        &&& h.start_ts == s[a].ts_ms
                        &&& h.interval_ms == decimated_interval(f)
                        &&& h.samples@.len() <= MAX_HISTORY_SAMPLES
                        &&& forall|j: int| 0 <= j < h.samples@.len()
                            ==> #[trigger] h.samples@[j].ts_ms >= horizon_of(backfill_seconds, now_ms)
                        &&& forall|j: int| 0 <= j < h.samples@.len() ==> {
                            &&& h.start_ts + j * f * MIN_STEP_MS <= #[trigger] h.samples@[j].ts_ms
                            &&& h.samples@[j].ts_ms <= h.start_ts + j * f * MAX_STEP_MS
                        }
                    },
                }
            }),
    {
        let ghost s = self.stored();
        if backfill_seconds == 0 {
            return None;
        }
        let reach: i128 = (backfill_seconds as i128) * 1000;
        let lowest: i128 = now_ms as i128 - reach;
        let horizon: i128 = if lowest < i64::MIN as i128 { i64::MIN as i128 } else { lowest };
        let ghost hz = horizon_of(backfill_seconds, now_ms);
        assert(horizon == hz);

        let n = self.samples.len();
        let a = self.run_start_index(horizon);
        if a == n {
            return None;
        }
        let len = n - a;
        let factor: usize = (len - 1) / MAX_HISTORY_SAMPLES + 1;
        assert(factor == decimation_factor(len as int));
        let out = self.decimate(a, factor);

        let factor32: u32 = if factor > u32::MAX as usize { u32::MAX } else { factor as u32 };
        let wide: u64 = (RING_INTERVAL_MS as u64) * (factor32 as u64);
        let interval_ms: u32 = if wide > u32::MAX as u64 { u32::MAX } else { wide as u32 };
        proof {
            if factor > u32::MAX as usize {
                assert(RING_INTERVAL_MS * factor > u32::MAX) by (nonlinear_arith)
                    requires factor > u32::MAX as usize;
                assert(RING_INTERVAL_MS * (u32::MAX as int) > u32::MAX) by (nonlinear_arith);
            } else {
                assert(factor32 == factor);
            }
            assert(interval_ms == decimated_interval(factor as int));
            let picked = out@.map_values(|x: Sample<C>| x@);
            assert forall|j: int| 0 <= j < picked.len() implies #[trigger] picked[j] == s[a + j * factor] by {
                assert(out@[j]@ == s[a + j * factor]);
            }
            lemma_history_laws(s, hz, picked);
            assert forall|j: int| 0 <= j < out@.len() implies {
                &&& #[trigger] out@[j].ts_ms >= hz
                &&& s[a as int].ts_ms + j * factor * MIN_STEP_MS <= out@[j].ts_ms
                &&& out@[j].ts_ms <= s[a as int].ts_ms + j * factor * MAX_STEP_MS
            } by {
                assert(out@[j]@ == picked[j]);
                assert(picked[j].ts_ms >= hz);
                assert(s[a as int].ts_ms + j * factor * MIN_STEP_MS <= picked[j].ts_ms);
                assert(picked[j].ts_ms <= s[a as int].ts_ms + j * factor * MAX_STEP_MS);
            }
            assert(a + 0 * factor == a) by (nonlinear_arith);
            assert(out@[0]@ == s[a + 0 * factor]);
        }
        let start_ts = out[0].ts_ms;
        Some(History { start_ts, interval_ms, samples: out })
    }
}

} // verus!
