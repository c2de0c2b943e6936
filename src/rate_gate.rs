use vstd::prelude::*;
use ratelimit_meter::{DirectRateLimiter, NonConformance, GCRA};

verus! {

/// A GCRA bucket of ratelimit_meter on the monotonic clock. Its bounds and
/// its state are known through `bucket_capacity`, `bucket_window` and
/// `bucket_tat`.
#[verifier::external_body]
pub struct Bucket {
    inner: DirectRateLimiter<GCRA>,
}

/// Cells the bucket lets through per window.
pub uninterp spec fn bucket_capacity(b: Bucket) -> nat;

/// The bucket's window, in nanoseconds.
pub uninterp spec fn bucket_window(b: Bucket) -> nat;

/// The bucket's theoretical arrival time, in nanoseconds on the monotonic
/// clock; `None` while no cell has gone through.
pub uninterp spec fn bucket_tat(b: Bucket) -> Option<int>;

/// The weight of one cell: the window divided by the capacity, in nanoseconds.
pub open spec fn cell_nanos(b: Bucket) -> nat {
    if bucket_capacity(b) == 0 {
        0
    } else {
        bucket_window(b) / bucket_capacity(b)
    }
}

/// A wait of whole seconds and nanoseconds.
#[derive(Clone, Copy, Debug, PartialEq, Eq)]
pub struct Wait {
    pub secs: u64,
    pub nanos: u32,
}

impl Wait {
    pub open spec fn total_nanos(self) -> int {
        self.secs * 1_000_000_000 + self.nanos
    }
}

/// Whether the instant `back` nanoseconds before the instant `a` can be
/// represented (what `Instant::checked_sub` reports).
pub uninterp spec fn instant_reaches(a: int, back: nat) -> bool;

/// The reading from which a cell conforms once the arrival time is `a`: the
/// arrival time less the window, or the arrival time itself where that
/// instant cannot be represented (`reaches` false; the bucket's saturating
/// subtraction).
pub open spec fn refusal_bar(a: int, window: nat, reaches: bool) -> int {
    if reaches {
        a - window
    } else {
        a
    }
}

pub open spec fn nonneg(x: int) -> int {
    if x > 0 {
        x
    } else {
        0
    }
}

/// A conforming cell at reading `t0`: the bar was not after `t0`, and the
/// arrival time moves to the later of itself and `t0`, plus one cell.
pub open spec fn gcra_admits(b0: Bucket, b1: Bucket, t0: int, reaches: bool) -> bool {
    &&& (bucket_tat(b0) matches Some(a) ==> t0 >= refusal_bar(a, bucket_window(b0), reaches))
    &&& bucket_tat(b1) == Some(
        match bucket_tat(b0) {
            Some(a) => if a > t0 { a } else { t0 },
            None => t0,
        } + cell_nanos(b0),
    )
}

/// A refused cell at reading `t0`: `t0` is before the bar, and the bucket
/// stays as it was.
pub open spec fn gcra_refuses(b0: Bucket, b1: Bucket, t0: int, reaches: bool) -> bool {
    &&& bucket_tat(b0) matches Some(a) && t0 < refusal_bar(a, bucket_window(b0), reaches)
    &&& bucket_tat(b1) == bucket_tat(b0)
}

/// One check of the bucket at clock reading `t0`, `None` for a conforming
/// cell. On refusal the bucket reports the time from a later reading `t1` to
/// the arrival time itself (not to the bar), or zero once that has passed.
pub open spec fn gcra_step(b0: Bucket, b1: Bucket, r: Option<Wait>, t0: int, reaches: bool) -> bool {
    &&& bucket_capacity(b1) == bucket_capacity(b0)
    &&& bucket_window(b1) == bucket_window(b0)
    &&& match r {
        None => gcra_admits(b0, b1, t0, reaches),
        Some(w) => {
            &&& gcra_refuses(b0, b1, t0, reaches)
            &&& w.nanos < 1_000_000_000
            &&& exists|t1: int| t1 >= t0 && w.total_nanos() == #[trigger] nonneg(bucket_tat(b0)->0 - t1)
        },
    }
}

/// Some clock reading makes the check from `b0` to `b1` one GCRA step.
pub open spec fn gcra_checked(b0: Bucket, b1: Bucket, r: Option<Wait>, reaches: bool) -> bool {
    exists|t0: int| gcra_step(b0, b1, r, t0, reaches)
}

/// Whether the bar of the bucket's arrival time less its window can be
/// represented.
pub open spec fn bar_reaches(b: Bucket) -> bool {
    instant_reaches(bucket_tat(b)->0, bucket_window(b))
}

/// Longest window a bucket may have, in seconds: far from the instants that
/// the clock can hold.
pub const MAX_WINDOW_SECS: u64 = 0x1_0000_0000;

/// Relies on ratelimit_meter's `DirectRateLimiter::<GCRA>::new`: a fresh GCRA
/// bucket of `capacity` cells per `window_secs` seconds. It panics on no
/// input with a capacity above zero.
#[verifier::external_body]
fn new_limiter(capacity: u32, window_secs: u64) -> (r: Bucket)
    requires
        capacity > 0,
        window_secs <= MAX_WINDOW_SECS,
    ensures
        bucket_capacity(r) == capacity,
        bucket_window(r) == window_secs * 1_000_000_000,
        bucket_tat(r) is None,
{
    let inner = DirectRateLimiter::<GCRA>::new(
        std::num::NonZeroU32::new(capacity).unwrap(),
        std::time::Duration::from_secs(window_secs),
    );
    Bucket { inner }
}

/// Relies on ratelimit_meter's `DirectRateLimiter::check` at the monotonic
/// clock's reading (GCRA's `test_and_update`, with `Instant`'s saturating
/// subtraction of the window), and on `NotUntil::wait_time_from` at a later
/// reading of the monotonic clock, which measures up to the arrival time
/// held in `NotUntil`. `None` when the cell conforms.
#[verifier::external_body]
fn limiter_check(l: &mut Bucket) -> (r: Option<Wait>)
    ensures
        gcra_checked(*old(l), *final(l), r, instant_reaches(bucket_tat(*old(l))->0, bucket_window(*old(l)))),
{
    match l.inner.check() {
        Ok(()) => None,
        Err(e) => {
            let d = e.wait_time_from(std::time::Instant::now());
            Some(Wait { secs: d.as_secs(), nanos: d.subsec_nanos() })
        },
    }
}

/// Grants per window of the resolver's limiter.
pub const RESOLVER_GRANTS: u32 = 5;

/// Length of the resolver limiter's window, in seconds.
pub const RESOLVER_WINDOW_SECS: u64 = 60;

/// What a caller does next after a poll.
#[derive(Clone, Copy, Debug, PartialEq, Eq)]
pub enum GateStep {
    /// A slot was granted: go ahead.
    Admitted,
    /// No slot yet: sleep this long, then poll again.
    WaitFor(Wait),
}

impl GateStep {
    pub open spec fn as_wait(self) -> Option<Wait> {
        match self {
            GateStep::Admitted => None,
            GateStep::WaitFor(w) => Some(w),
        }
    }
}

/// Registers the resolver's rate limiter with whatever builds the bot.
pub trait RateLimiterInit: Sized {
    fn register_ratelimiters(self) -> Self;
}

/// Admission control shared by every resolver start: a token bucket that
/// never rejects, it only tells callers how long to wait.
pub struct RateGate {
    pub limiter: Bucket,
    pub capacity: u32,
    pub window_secs: u64,
}

/// One poll of a gate at clock reading `t0`: a GCRA check of its bucket,
/// with the settings kept. A wait runs from a later reading `t1` to the
/// bar, the instant at which the next slot frees, or is zero once that has
/// passed.
pub open spec fn gate_step(g0: RateGate, g1: RateGate, r: GateStep, t0: int) -> bool {
    &&& g1.capacity == g0.capacity
    &&& g1.window_secs == g0.window_secs
    &&& bucket_capacity(g1.limiter) == bucket_capacity(g0.limiter)
    &&& bucket_window(g1.limiter) == bucket_window(g0.limiter)
    &&& match r {
        GateStep::Admitted => gcra_admits(g0.limiter, g1.limiter, t0, bar_reaches(g0.limiter)),
        GateStep::WaitFor(w) => {
            &&& gcra_refuses(g0.limiter, g1.limiter, t0, bar_reaches(g0.limiter))
            &&& w.nanos < 1_000_000_000
            &&& exists|t1: int|
                t1 >= t0 && w.total_nanos() == #[trigger] nonneg(
                    bucket_tat(g0.limiter)->0 - bucket_window(g0.limiter) - t1,
                )
        },
    }
}

/// Number of grants among `steps[i..j]`.
pub open spec fn grants(steps: Seq<GateStep>, i: int, j: int) -> nat
    decreases j - i,
{
    if j <= i {
        0
    } else {
        grants(steps, i, j - 1) + if steps[j - 1] is Admitted { 1nat } else { 0nat }
    }
}

impl RateGate {
    /// The bucket holds these settings.
    pub open spec fn wf(self) -> bool {
        &&& self.capacity > 0
        &&& self.window_secs <= MAX_WINDOW_SECS
        &&& bucket_capacity(self.limiter) == self.capacity
        &&& bucket_window(self.limiter) == self.window_secs * 1_000_000_000
    }

    /// No slot has been granted yet.
    pub open spec fn is_fresh(self) -> bool {
        bucket_tat(self.limiter) is None
    }

    /// A fresh gate granting `capacity` slots per `window_secs` seconds.
    pub fn new(capacity: u32, window_secs: u64) -> (r: RateGate)
        requires
            capacity > 0,
            window_secs <= MAX_WINDOW_SECS,
        ensures
            r.wf(),
            r.is_fresh(),
            r.capacity == capacity,
            r.window_secs == window_secs,
    {
        RateGate { limiter: new_limiter(capacity, window_secs), capacity, window_secs }
    }

    /// The fresh limiter in front of the resolver: five starts a minute.
    pub fn for_resolver() -> (r: RateGate)
        ensures
            r.wf(),
            r.is_fresh(),
            r.capacity == RESOLVER_GRANTS,
            r.window_secs == RESOLVER_WINDOW_SECS,
    {
        RateGate::new(RESOLVER_GRANTS, RESOLVER_WINDOW_SECS)
    }

    pub fn capacity(&self) -> (r: u32)
        ensures
            r == self.capacity,
    {
        self.capacity
    }

    pub fn window_secs(&self) -> (r: u64)
        ensures
            r == self.window_secs,
    {
        self.window_secs
    }

    /// One poll: admitted, or the wait until the next slot frees, by GCRA at
    /// the clock's current reading. The bucket reports the time to its arrival
    /// time; the next slot frees one window earlier, so the window is taken
    /// off (down to zero). The first poll of a fresh gate is admitted.
    pub fn poll(&mut self) -> (r: GateStep)
        requires
            old(self).wf(),
        ensures
            final(self).wf(),
            exists|t0: int| gate_step(*old(self), *final(self), r, t0),
            old(self).is_fresh() ==> r is Admitted,
    {
        let ghost before = *self;
        let checked = limiter_check(&mut self.limiter);
        let ghost t0 = choose|t0: int|
            gcra_step(before.limiter, self.limiter, checked, t0, bar_reaches(before.limiter));
        match checked {
            None => {
                assert(gate_step(before, *self, GateStep::Admitted, t0));
                GateStep::Admitted
            },
            Some(raw) => {
                let total: u128 = raw.secs as u128 * 1_000_000_000 + raw.nanos as u128;
                let window: u128 = self.window_secs as u128 * 1_000_000_000;
                let left: u128 = if total > window {
                    total - window
                } else {
                    0
                };
                assert(left / 1_000_000_000 <= u64::MAX) by (nonlinear_arith)
                    requires
                        left <= total,
                        total == raw.secs * 1_000_000_000 + raw.nanos,
                        raw.secs <= u64::MAX,
                        raw.nanos < 1_000_000_000,
                ;
                let w = Wait { secs: (left / 1_000_000_000) as u64, nanos: (left % 1_000_000_000) as u32 };
                proof {
                    assert(w.total_nanos() == left) by (nonlinear_arith)
                        requires
                            w.secs == left / 1_000_000_000,
                            w.nanos == left % 1_000_000_000,
                            w.total_nanos() == w.secs * 1_000_000_000 + w.nanos,
                    ;
                    let a = bucket_tat(before.limiter)->0;
                    let t1 = choose|t1: int| t1 >= t0 && raw.total_nanos() == #[trigger] nonneg(a - t1);
                    assert(w.total_nanos() == nonneg(a - bucket_window(before.limiter) - t1));
                    assert(gate_step(before, *self, GateStep::WaitFor(w), t0));
                }
                GateStep::WaitFor(w)
            },
        }
    }
}

proof fn lemma_arrival_grows(
    gates: Seq<RateGate>,
    steps: Seq<GateStep>,
    readings: Seq<int>,
    i: int,
    m: int,
)
    requires
        gates.len() == steps.len() + 1,
        readings.len() == steps.len(),
        forall|k: int|
            0 <= k < steps.len() ==> gate_step(#[trigger] gates[k], gates[k + 1], steps[k], readings[k]),
        0 <= i < m <= steps.len(),
        steps[i] is Admitted,
    ensures
        cell_nanos(gates[m].limiter) == cell_nanos(gates[i].limiter),
        bucket_tat(gates[m].limiter) matches Some(a) && a >= readings[i] + grants(steps, i, m) * cell_nanos(
            gates[i].limiter,
        ),
    decreases m - i,
{
    let c = cell_nanos(gates[i].limiter) as int;
    assert(gate_step(gates[m - 1], gates[m], steps[m - 1], readings[m - 1]));
    if m == i + 1 {
        assert(grants(steps, i, m) == 1) by {
            assert(grants(steps, i, i) == 0);
        }
    } else {
        lemma_arrival_grows(gates, steps, readings, i, m - 1);
        let g = grants(steps, i, m - 1) as int;
        assert(g * c + c == (g + 1) * c) by (nonlinear_arith);
    }
}

/// Grants handed out over any run of polls: between two granted
/// polls `i <= j`, the grants number at most one more than the time between
/// their clock readings plus one window, counted in cells. So within less
/// than one cell's time at most capacity plus one slots are granted, and
/// within one whole window (a multiple of the capacity in nanoseconds) at
/// most twice the capacity.
pub proof fn lemma_grants_per_span(
    gates: Seq<RateGate>,
    steps: Seq<GateStep>,
    readings: Seq<int>,
    i: int,
    j: int,
)
    requires
        gates.len() == steps.len() + 1,
        readings.len() == steps.len(),
        forall|k: int|
            0 <= k < steps.len() ==> gate_step(#[trigger] gates[k], gates[k + 1], steps[k], readings[k]),
        0 <= i <= j < steps.len(),
        steps[i] is Admitted,
        steps[j] is Admitted,
    ensures
        (grants(steps, i, j + 1) - 1) * cell_nanos(gates[i].limiter) <= readings[j] - readings[i]
            + bucket_window(gates[i].limiter),
{
    let c = cell_nanos(gates[i].limiter) as int;
    assert(gate_step(gates[j], gates[j + 1], steps[j], readings[j]));
    if j == i {
        assert(grants(steps, i, i) == 0);
        assert(grants(steps, i, j + 1) == 1);
    } else {
        lemma_arrival_grows(gates, steps, readings, i, j);
        assert(gate_step(gates[i], gates[i + 1], steps[i], readings[i]));
        lemma_window_kept(gates, steps, readings, i, j);
        let a = bucket_tat(gates[j].limiter)->0;
        let wj = bucket_window(gates[j].limiter);
        assert(refusal_bar(a, wj, bar_reaches(gates[j].limiter)) >= a - wj);
        assert(readings[j] >= a - wj);
        let g = grants(steps, i, j) as int;
        assert(grants(steps, i, j + 1) == g + 1);
        assert((g + 1 - 1) * c == g * c);
    }
}

/// Within less than one cell's time (window divided by capacity, when the
/// window is a multiple of the capacity in nanoseconds), a gate grants at
/// most its capacity plus one slot: the full bucket and one more.
pub proof fn lemma_burst_bound(
    gates: Seq<RateGate>,
    steps: Seq<GateStep>,
    readings: Seq<int>,
    i: int,
    j: int,
)
    requires
        gates.len() == steps.len() + 1,
        readings.len() == steps.len(),
        forall|k: int|
            0 <= k < steps.len() ==> gate_step(#[trigger] gates[k], gates[k + 1], steps[k], readings[k]),
        0 <= i <= j < steps.len(),
        steps[i] is Admitted,
        steps[j] is Admitted,
        gates[i].wf(),
        bucket_window(gates[i].limiter) % bucket_capacity(gates[i].limiter) == 0,
        readings[j] - readings[i] < cell_nanos(gates[i].limiter),
    ensures
        grants(steps, i, j + 1) <= gates[i].capacity + 1,
{
    lemma_grants_per_span(gates, steps, readings, i, j);
    let n = bucket_capacity(gates[i].limiter) as int;
    let w = bucket_window(gates[i].limiter) as int;
    let c = cell_nanos(gates[i].limiter) as int;
    let k = grants(steps, i, j + 1) as int;
    let d = readings[j] - readings[i];
    assert(w == n * c) by (nonlinear_arith)
        requires
            n > 0,
            w >= 0,
            c == w / n,
            w % n == 0,
    ;
    if c > 0 {
        assert((k - 1) * c < (n + 1) * c) by (nonlinear_arith)
            requires
                (k - 1) * c <= d + w,
                d < c,
                w == n * c,
        ;
        assert(k - 1 < n + 1) by (nonlinear_arith)
            requires
                (k - 1) * c < (n + 1) * c,
                c > 0,
        ;
    } else {
        assert(w == 0);
        assert((k - 1) * c == 0) by (nonlinear_arith)
            requires
                c == 0,
        ;
    }
}

/// Within less than one window (a multiple of the capacity in nanoseconds), a
/// gate grants at most twice its capacity: a full bucket at the start, then
/// one slot per cell.
pub proof fn lemma_window_bound(
    gates: Seq<RateGate>,
    steps: Seq<GateStep>,
    readings: Seq<int>,
    i: int,
    j: int,
)
    requires
        gates.len() == steps.len() + 1,
        readings.len() == steps.len(),
        forall|k: int|
            0 <= k < steps.len() ==> gate_step(#[trigger] gates[k], gates[k + 1], steps[k], readings[k]),
        0 <= i <= j < steps.len(),
        steps[i] is Admitted,
        steps[j] is Admitted,
        gates[i].wf(),
        bucket_window(gates[i].limiter) % bucket_capacity(gates[i].limiter) == 0,
        readings[j] - readings[i] < bucket_window(gates[i].limiter),
    ensures
        grants(steps, i, j + 1) <= 2 * gates[i].capacity,
{
    lemma_grants_per_span(gates, steps, readings, i, j);
    let n = bucket_capacity(gates[i].limiter) as int;
    let w = bucket_window(gates[i].limiter) as int;
    let c = cell_nanos(gates[i].limiter) as int;
    let k = grants(steps, i, j + 1) as int;
    let d = readings[j] - readings[i];
    assert(w == n * c) by (nonlinear_arith)
        requires
            n > 0,
            w >= 0,
            c == w / n,
            w % n == 0,
    ;
    assert(k <= 2 * n) by (nonlinear_arith)
        requires
            (k - 1) * c <= d + w,
            d < w,
            w == n * c,
            n > 0,
            c >= 0,
    ;
}

proof fn lemma_window_kept(
    gates: Seq<RateGate>,
    steps: Seq<GateStep>,
    readings: Seq<int>,
    i: int,
    m: int,
)
    requires
        gates.len() == steps.len() + 1,
        readings.len() == steps.len(),
        forall|k: int|
            0 <= k < steps.len() ==> gate_step(#[trigger] gates[k], gates[k + 1], steps[k], readings[k]),
        0 <= i <= m <= steps.len(),
    ensures
        bucket_window(gates[m].limiter) == bucket_window(gates[i].limiter),
    decreases m - i,
{
    if m > i {
        assert(gate_step(gates[m - 1], gates[m], steps[m - 1], readings[m - 1]));
        lemma_window_kept(gates, steps, readings, i, m - 1);
    }
}

} // verus!
