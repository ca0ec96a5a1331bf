//! The schedule clock: a stateful cursor over a schedule expression.
//!
//! A clock holds the expression, the last-fired time, the next-fire time and
//! a derived minimum inter-fire interval. `init_at` samples the schedule's
//! next occurrences; `cmp_and_to_next` is the single mutation point that
//! advances the cursor on a due tick.

use crate::schedule_expr::{cron_occurrences, ExprShape, ScheduleExpr, MAX_TIMESTAMP};
use crate::BronzeError;
use vstd::prelude::*;

verus! {

/// How many future occurrences `init_at` samples: the first becomes the
/// next-fire time, the gaps among the rest give the interval floor.
pub const INIT_SAMPLES: usize = 21;

/// A point in time, in unix seconds.
#[derive(Debug, Clone, Copy, PartialEq, Eq, Structural)]
pub struct ScheduleTime {
    secs: i64,
}

impl View for ScheduleTime {
    type V = int;

    closed spec fn view(&self) -> int {
        self.secs as int
    }
}

/// Relies on chrono's `Utc::now` and `DateTime::timestamp`: the current time
/// as unix seconds. Nothing is assumed of the machine clock's value.
#[verifier::external_body]
fn now_timestamp() -> i64 {
    chrono::Utc::now().timestamp()
}

impl ScheduleTime {
    /// A time from unix seconds.
    pub fn new(secs: i64) -> (r: ScheduleTime)
        ensures
            r@ == secs as int,
    {
        ScheduleTime { secs }
    }

    /// The current time, clamped into the range the clocks work with.
    pub fn from_now() -> (r: ScheduleTime)
        ensures
            0 <= r@ <= MAX_TIMESTAMP as int,
    {
        let t = now_timestamp();
        let c: i64 = if t < 0 {
            0
        } else if t > MAX_TIMESTAMP {
            MAX_TIMESTAMP
        } else {
            t
        };
        ScheduleTime { secs: c }
    }

    /// The time as unix seconds.
    pub fn secs(&self) -> (r: i64)
        ensures
            r as int == self@,
    {
        self.secs
    }
}

/// `u` is the earliest member of `occ` strictly after `t`.
pub open spec fn is_next_occ(occ: Set<int>, t: int, u: int) -> bool {
    occ.contains(u) && u > t && (forall|v: int| occ.contains(v) && v > t ==> v >= u)
}

/// The earliest member of `occ` strictly after `t`, if any.
pub open spec fn next_occ(occ: Set<int>, t: int) -> Option<int> {
    if exists|u: int| is_next_occ(occ, t, u) {
        Some(choose|u: int| is_next_occ(occ, t, u))
    } else {
        None
    }
}

/// The earliest occurrence is unique.
pub proof fn lemma_next_occ_unique(occ: Set<int>, t: int, u: int)
    requires
        is_next_occ(occ, t, u),
    ensures
        next_occ(occ, t) == Some(u),
{
    let v = choose|v: int| is_next_occ(occ, t, v);
    assert(is_next_occ(occ, t, v));
    assert(v >= u);
    assert(u >= v);
}

/// The first computed next-fire is the earliest occurrence of the schedule
/// strictly after the given time.
pub proof fn lemma_next_fire_earliest(occ: Set<int>, t: int)
    requires
        next_occ(occ, t) is Some,
    ensures
        is_next_occ(occ, t, next_occ(occ, t)->0),
{
}

/// The `n`-th occurrence strictly after `t` (counting from 0).
pub open spec fn nth_occ(occ: Set<int>, t: int, n: nat) -> Option<int>
    decreases n,
{
    if n == 0 {
        next_occ(occ, t)
    } else {
        match nth_occ(occ, t, (n - 1) as nat) {
            Some(u) => next_occ(occ, u),
            None => None,
        }
    }
}

/// Once the occurrences run out, they stay out.
pub proof fn lemma_nth_occ_none_mono(occ: Set<int>, t: int, k: nat, m: nat)
    requires
        nth_occ(occ, t, k) is None,
        k <= m,
    ensures
        nth_occ(occ, t, m) is None,
    decreases m,
{
    if m > k {
        lemma_nth_occ_none_mono(occ, t, k, (m - 1) as nat);
    }
}

/// The gap between the `k`-th and the `(k-1)`-th occurrence after `t`.
pub open spec fn occ_gap(occ: Set<int>, t: int, k: nat) -> int
    recommends
        k >= 1,
{
    nth_occ(occ, t, k)->0 - nth_occ(occ, t, (k - 1) as nat)->0
}

/// The minimum gap among the occurrences with indices 1 through `k`.
pub open spec fn min_gap_through(occ: Set<int>, t: int, k: nat) -> int
    recommends
        k >= 2,
    decreases k,
{
    if k <= 2 {
        occ_gap(occ, t, 2)
    } else {
        vstd::math::min(min_gap_through(occ, t, (k - 1) as nat), occ_gap(occ, t, k))
    }
}

/// The occurrence times a schedule expression stands for: cron rules fire at
/// their occurrence set; presets never fire through the clock.
pub open spec fn occ_of_shape(e: ExprShape) -> Set<int> {
    match e {
        ExprShape::Cron(src) => cron_occurrences(src),
        ExprShape::Preset(_) => Set::empty(),
    }
}

/// The mathematical state of a schedule clock.
#[verifier::ext_equal]
pub struct ClockShape {
    pub expr: ExprShape,
    pub min_interval: Option<int>,
    pub last_run: Option<int>,
    pub next_run: Option<int>,
}

/// The clock's timestamps stay inside the range the cron boundary works with.
pub open spec fn clock_wf(c: ClockShape) -> bool {
    &&& (c.next_run is Some ==> 0 <= c.next_run->0 <= MAX_TIMESTAMP as int)
    &&& (c.last_run is Some ==> 0 <= c.last_run->0 <= MAX_TIMESTAMP as int)
}

/// What one `cmp_and_to_next` tick does to a clock: nothing when not due;
/// when due, the old next-fire becomes the last-fired time and the next
/// occurrence strictly after it (if any) becomes the new next-fire. A fire is
/// reported only when a new next-fire was found.
pub open spec fn spec_advance(c: ClockShape, from: int) -> (ClockShape, bool) {
    match c.next_run {
        None => (c, false),
        Some(nr) => if from < nr {
            (c, false)
        } else {
            let fired = ClockShape { last_run: Some(nr), ..c };
            match next_occ(occ_of_shape(c.expr), nr) {
                Some(u) => ((ClockShape { next_run: Some(u), ..fired }), true),
                None => (fired, false),
            }
        },
    }
}

/// Advancing is idempotent per tick: when a call with a given `now` does not
/// fire, a second call with the same `now` does not fire either; and a call
/// that fires strictly increases the next-fire time.
pub proof fn lemma_advance_idempotent_per_tick(c: ClockShape, now: int)
    ensures
        !spec_advance(c, now).1 ==> !spec_advance(spec_advance(c, now).0, now).1,
        spec_advance(c, now).1 ==> spec_advance(c, now).0.next_run->0 > c.next_run->0,
{
    let (c1, fired) = spec_advance(c, now);
    if !fired {
        assert(c1.next_run == c.next_run);
        assert(c1.expr == c.expr);
    } else {
        let nr = c.next_run->0;
        let u = next_occ(occ_of_shape(c.expr), nr)->0;
        assert(is_next_occ(occ_of_shape(c.expr), nr, u));
    }
}

/// A schedule clock: the expression, the observed minimum inter-fire
/// interval, the last-fired time and the next-fire time.
#[derive(Debug)]
pub struct ScheduleTimeHolder {
    expr: ScheduleExpr,
    min_interval: Option<i64>,
    last_run: Option<ScheduleTime>,
    next_run: Option<ScheduleTime>,
}

impl View for ScheduleTimeHolder {
    type V = ClockShape;

    closed spec fn view(&self) -> ClockShape {
        ClockShape {
            expr: self.expr@,
            min_interval: match self.min_interval {
                Some(i) => Some(i as int),
                None => None,
            },
            last_run: match self.last_run {
                Some(t) => Some(t@),
                None => None,
            },
            next_run: match self.next_run {
                Some(t) => Some(t@),
                None => None,
            },
        }
    }
}

/// Read and write access to a clock's cursor times.
pub trait ScheduleTimeOp {
    /// The last time the schedule fired.
    fn last_run(&self) -> Option<ScheduleTime>;

    /// The next time the schedule is due.
    fn next_run(&self) -> Option<ScheduleTime>;

    /// Overwrites the last-fired time.
    fn set_last_run(&mut self, t: &ScheduleTime);

    /// Overwrites the next-fire time.
    fn set_next_run(&mut self, t: &ScheduleTime);
}

impl ScheduleTimeOp for ScheduleTimeHolder {
    fn last_run(&self) -> (r: Option<ScheduleTime>)
        ensures
            match r {
                Some(t) => self@.last_run == Some(t@),
                None => self@.last_run is None,
            },
    {
        self.last_run
    }

    fn next_run(&self) -> (r: Option<ScheduleTime>)
        ensures
            match r {
                Some(t) => self@.next_run == Some(t@),
                None => self@.next_run is None,
            },
    {
        self.next_run
    }

    fn set_last_run(&mut self, t: &ScheduleTime)
        ensures
            final(self)@ == (ClockShape { last_run: Some(t@), ..old(self)@ }),
    {
        self.last_run = Some(*t);
    }

    fn set_next_run(&mut self, t: &ScheduleTime)
        ensures
            final(self)@ == (ClockShape { next_run: Some(t@), ..old(self)@ }),
    {
        self.next_run = Some(*t);
    }
}

impl ScheduleTimeHolder {
    /// A fresh, uninitialized clock for the given expression.
    pub fn new(expr: ScheduleExpr) -> (r: ScheduleTimeHolder)
        ensures
            r@ == (ClockShape {
                expr: expr@,
                min_interval: None,
                last_run: None,
                next_run: None,
            }),
            clock_wf(r@),
    {
        ScheduleTimeHolder { expr, min_interval: None, last_run: None, next_run: None }
    }

    /// An independent copy with the same state.
    pub fn duplicate(&self) -> (r: ScheduleTimeHolder)
        ensures
            r@ == self@,
    {
        ScheduleTimeHolder {
            expr: self.expr.duplicate(),
            min_interval: self.min_interval,
            last_run: self.last_run,
            next_run: self.next_run,
        }
    }

    /// Initializes the cursor at time `now`: the earliest occurrence strictly
    /// after `now` becomes the next-fire time, and the minimum gap among the
    /// following twenty occurrences becomes the interval floor. Fails on a
    /// preset expression, or when the rule yields too few occurrences.
    pub fn init_at(&mut self, now: ScheduleTime) -> (r: Result<(), BronzeError>)
        requires
            0 <= now@ <= MAX_TIMESTAMP as int,
            clock_wf(old(self)@),
        ensures
            clock_wf(final(self)@),
            final(self)@.expr == old(self)@.expr,
            final(self)@.last_run == old(self)@.last_run,
            r is Ok <==> old(self)@.expr is Cron && nth_occ(
                occ_of_shape(old(self)@.expr),
                now@,
                (INIT_SAMPLES - 1) as nat,
            ) is Some,
            r is Ok ==> final(self)@.next_run == nth_occ(occ_of_shape(old(self)@.expr), now@, 0)
                && final(self)@.min_interval == Some(
                min_gap_through(occ_of_shape(old(self)@.expr), now@, (INIT_SAMPLES - 1) as nat),
            ),
            r is Err ==> *final(self) == *old(self)
                && (r->Err_0 == BronzeError::NotCron <==> !(old(self)@.expr is Cron))
                && (r->Err_0 == BronzeError::ScheduleExhausted <==> old(self)@.expr is Cron),
    {
        let ghost occ = occ_of_shape(self@.expr);
        let first_opt: Option<i64> = match &self.expr {
            ScheduleExpr::Preset(_) => {
                return Err(BronzeError::NotCron);
            },
            ScheduleExpr::Cron(c) => c.next_after(now.secs()),
        };
        let first = match first_opt {
            Some(f) => f,
            None => {
                proof {
                    assert(next_occ(occ, now@) is None) by {
                        if exists|u: int| is_next_occ(occ, now@, u) {
                            let u = choose|u: int| is_next_occ(occ, now@, u);
                        }
                    }
                    lemma_nth_occ_none_mono(occ, now@, 0, (INIT_SAMPLES - 1) as nat);
                }
                return Err(BronzeError::ScheduleExhausted);
            },
        };
        proof {
            lemma_next_occ_unique(occ, now@, first as int);
        }
        let mut prev: i64 = first;
        let mut k: usize = 1;
        let mut best: i64 = 0;
        while k < INIT_SAMPLES
            invariant
                0 <= now@ <= MAX_TIMESTAMP as int,
                clock_wf(old(self)@),
                occ == occ_of_shape(self@.expr),
                *self == *old(self),
                self@.expr is Cron,
                1 <= k <= INIT_SAMPLES,
                nth_occ(occ, now@, (k - 1) as nat) == Some(prev as int),
                now@ < prev < 4200000000,
                k >= 3 ==> best == min_gap_through(occ, now@, (k - 1) as nat) && best >= 0,
            decreases INIT_SAMPLES - k,
        {
            let nxt_opt: Option<i64> = match &self.expr {
                ScheduleExpr::Cron(c) => c.next_after(prev),
                ScheduleExpr::Preset(_) => None,
            };
            let nxt = match nxt_opt {
                Some(n) => n,
                None => {
                    proof {
                        assert(next_occ(occ, prev as int) is None) by {
                            if exists|u: int| is_next_occ(occ, prev as int, u) {
                                let u = choose|u: int| is_next_occ(occ, prev as int, u);
                            }
                        }
                        lemma_nth_occ_none_mono(occ, now@, k as nat, (INIT_SAMPLES - 1) as nat);
                    }
                    return Err(BronzeError::ScheduleExhausted);
                },
            };
            proof {
                lemma_next_occ_unique(occ, prev as int, nxt as int);
                assert(nth_occ(occ, now@, k as nat) == Some(nxt as int));
            }
            if k >= 2 {
                let gap = nxt - prev;
                if k == 2 || gap < best {
                    best = gap;
                } else {
                }
                proof {
                    assert(best == min_gap_through(occ, now@, k as nat));
                }
            }
            prev = nxt;
            k = k + 1;
        }
        self.next_run = Some(ScheduleTime::new(first));
        self.min_interval = Some(best);
        Ok(())
    }

    /// Initializes the cursor at the current time.
    pub fn init(&mut self) -> (r: Result<(), BronzeError>)
        requires
            clock_wf(old(self)@),
        ensures
            clock_wf(final(self)@),
            final(self)@.expr == old(self)@.expr,
            r is Ok ==> exists|now: int|
                0 <= now <= MAX_TIMESTAMP as int && nth_occ(
                    occ_of_shape(old(self)@.expr),
                    now,
                    (INIT_SAMPLES - 1) as nat,
                ) is Some && final(self)@.next_run == nth_occ(occ_of_shape(old(self)@.expr), now, 0)
                && final(self)@.min_interval == Some(
                    min_gap_through(occ_of_shape(old(self)@.expr), now, (INIT_SAMPLES - 1) as nat),
                ),
            r is Ok ==> old(self)@.expr is Cron && final(self)@.next_run is Some
                && final(self)@.min_interval is Some,
            final(self)@.last_run == old(self)@.last_run,
            !(old(self)@.expr is Cron) ==> r is Err,
            r is Err ==> *final(self) == *old(self)
                && (r->Err_0 == BronzeError::NotCron <==> !(old(self)@.expr is Cron))
                && (r->Err_0 == BronzeError::ScheduleExhausted <==> old(self)@.expr is Cron),
    {
        let now = ScheduleTime::from_now();
        let ghost nowv = now@;
        let r = self.init_at(now);
        proof {
            if r is Ok {
                if nth_occ(occ_of_shape(old(self)@.expr), nowv, 0) is None {
                    lemma_nth_occ_none_mono(
                        occ_of_shape(old(self)@.expr),
                        nowv,
                        0,
                        (INIT_SAMPLES - 1) as nat,
                    );
                }
                assert(0 <= nowv <= MAX_TIMESTAMP as int && nth_occ(
                    occ_of_shape(old(self)@.expr),
                    nowv,
                    (INIT_SAMPLES - 1) as nat,
                ) is Some && self@.next_run == nth_occ(occ_of_shape(old(self)@.expr), nowv, 0)
                    && self@.min_interval == Some(
                    min_gap_through(occ_of_shape(old(self)@.expr), nowv, (INIT_SAMPLES - 1) as nat),
                ));
            }
        }
        r
    }

    /// The single mutation point of the clock: advances the cursor when `from`
    /// has reached the next-fire time, per `spec_advance`.
    pub fn cmp_and_to_next(&mut self, from: &ScheduleTime) -> (r: bool)
        requires
            clock_wf(old(self)@),
        ensures
            clock_wf(final(self)@),
            final(self)@ == spec_advance(old(self)@, from@).0,
            r == spec_advance(old(self)@, from@).1,
    {
        let nr = match &self.next_run {
            Some(t) => *t,
            None => {
                return false;
            },
        };
        if from.secs() >= nr.secs() {
            self.last_run = Some(nr);
            let nxt_opt: Option<i64> = match &self.expr {
                ScheduleExpr::Cron(c) => c.next_after(nr.secs()),
                ScheduleExpr::Preset(_) => None,
            };
            match nxt_opt {
                Some(n) => {
                    proof {
                        lemma_next_occ_unique(occ_of_shape(self@.expr), nr@, n as int);
                    }
                    self.next_run = Some(ScheduleTime::new(n));
                    true
                },
                None => {
                    proof {
                        let occ = occ_of_shape(self@.expr);
                        assert(next_occ(occ, nr@) is None) by {
                            if exists|u: int| is_next_occ(occ, nr@, u) {
                                let u = choose|u: int| is_next_occ(occ, nr@, u);
                            }
                        }
                    }
                    false
                },
            }
        } else {
            false
        }
    }

    /// The observed minimum inter-fire interval, in seconds.
    pub fn min_interval(&self) -> (r: Option<i64>)
        ensures
            match r {
                Some(i) => self@.min_interval == Some(i as int),
                None => self@.min_interval is None,
            },
    {
        self.min_interval
    }
}

} // verus!
