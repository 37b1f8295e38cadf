use vstd::prelude::*;
use rand::Rng;
use rand::rngs::StdRng;
use crate::config::{Config, ramp_cap_of};
use crate::report::{TestResult, max_run_requests, fail_ratio_of};

verus! {

#[verifier::external_type_specification]
#[verifier::external_body]
pub struct ExStdRng(StdRng);

/// The value that rand's `Rng::gen_range(0..bound)` draws from a `StdRng` in
/// the given state: the generator is a deterministic ChaCha stream, so the
/// draw depends on the state and the bound alone.
pub uninterp spec fn draw_below(state: StdRng, bound: u64) -> u64;

/// Relies on rand's `Rng::gen_range` over `0..bound`: it returns a value of the
/// range, drawn from the generator's own stream, and panics only when the
/// range is empty.
#[verifier::external_body]
fn sample_below(rng: &mut StdRng, bound: u64) -> (r: u64)
    requires
        bound > 0,
    ensures
        r == draw_below(*old(rng), bound),
        r < bound,
{
    rng.gen_range(0..bound)
}

/// Whether a producer of a run with `producer_count` producers and the
/// delay bound `cap` may start after `delay` milliseconds: a lone producer, or
/// a bound of zero, starts at once; otherwise the delay lies below the bound.
pub open spec fn valid_ramp_delay(producer_count: u32, cap: int, delay: u64) -> bool {
    if producer_count == 1 || cap == 0 {
        delay == 0
    } else {
        delay < cap
    }
}

/// Draws the start delay of one producer from `rng`; a lone producer, or a
/// bound of zero, draws nothing and leaves `rng` as it was.
pub fn ramp_delay(producer_count: u32, cap: u64, rng: &mut StdRng) -> (r: u64)
    ensures
        valid_ramp_delay(producer_count, cap as int, r),
        producer_count != 1 && cap != 0 ==> r == draw_below(*old(rng), cap),
        producer_count == 1 || cap == 0 ==> *final(rng) == *old(rng),
{
    if producer_count == 1 || cap == 0 {
        0
    } else {
        sample_below(rng, cap)
    }
}

/// A run with a single producer never delays its start.
pub proof fn lemma_lone_producer_starts_at_once(cap: int, delay: u64)
    requires
        valid_ramp_delay(1, cap, delay),
    ensures
        delay == 0,
{
}

/// How a run is laid out: the share of each producer and its start delay.
#[derive(Clone, Debug)]
pub struct RunPlan {
    /// Requests each producer sends.
    pub per_producer_requests: u32,
    /// Start delay of producer `i`, in milliseconds, at index `i`.
    pub delays: Vec<u64>,
}

/// Lays out a run: one delay per producer, drawn from `rng`, and the even
/// share of requests of each producer.
pub fn plan_run(config: &Config, rng: &mut StdRng) -> (p: RunPlan)
    requires
        config.wf(),
    ensures
        p.per_producer_requests == config.total_requests / config.producer_count,
        p.delays@.len() == config.producer_count,
        forall|i: int| 0 <= i < p.delays@.len() ==> valid_ramp_delay(
            config.producer_count,
            ramp_cap_of(config.max_ramp_up_ms, config.producer_count),
            #[trigger] p.delays@[i],
        ),
        config.producer_count != 1 && ramp_cap_of(config.max_ramp_up_ms, config.producer_count) != 0
            ==> p.delays@[0] == draw_below(
                *old(rng),
                ramp_cap_of(config.max_ramp_up_ms, config.producer_count) as u64,
            ),
        config.producer_count == 1 || ramp_cap_of(config.max_ramp_up_ms, config.producer_count) == 0
            ==> *final(rng) == *old(rng),
{
    let cap = config.effective_ramp_cap();
    let share = config.per_producer_requests();
    let mut delays: Vec<u64> = Vec::new();
    let mut i: u32 = 0;
    while i < config.producer_count
        invariant
            i <= config.producer_count,
            delays@.len() == i,
            cap == ramp_cap_of(config.max_ramp_up_ms, config.producer_count),
            forall|j: int| 0 <= j < delays@.len() ==> valid_ramp_delay(
                config.producer_count,
                cap as int,
                #[trigger] delays@[j],
            ),
            i == 0 ==> *rng == *old(rng),
            config.producer_count != 1 && cap != 0 && i > 0 ==> delays@[0] == draw_below(*old(rng), cap),
            config.producer_count == 1 || cap == 0 ==> *rng == *old(rng),
        decreases config.producer_count - i,
    {
        let d = ramp_delay(config.producer_count, cap, rng);
        delays.push(d);
        i = i + 1;
    }
    RunPlan { per_producer_requests: share, delays }
}

/// A producer that could not run at all, for instance because its HTTP
/// client could not be built.
#[derive(Clone, Debug)]
pub struct ProducerFailure {
    pub reason: String,
}

/// Sum of `f` over the producers that returned a result.
pub open spec fn sum_ok(
    s: Seq<Result<TestResult, ProducerFailure>>,
    f: spec_fn(TestResult) -> int,
) -> int
    decreases s.len(),
{
    if s.len() == 0 {
        0
    } else {
        sum_ok(s.drop_last(), f) + match s.last() {
            Ok(r) => f(r),
            Err(_) => 0,
        }
    }
}

pub open spec fn total_of() -> spec_fn(TestResult) -> int {
    |r: TestResult| r.total_requests as int
}

pub open spec fn failed_of() -> spec_fn(TestResult) -> int {
    |r: TestResult| r.failed_requests as int
}

pub open spec fn avg_of() -> spec_fn(TestResult) -> int {
    |r: TestResult| r.avg_request_time_ms as int
}

/// Number of producers that returned a result.
pub open spec fn ok_count(s: Seq<Result<TestResult, ProducerFailure>>) -> int {
    sum_ok(s, |r: TestResult| 1int)
}

/// The run's summary from the producers' results, when at least one producer
/// returned one: counts are summed, and the mean latency is the sum of the
/// producers' means divided by `producer_count`, not a mean weighted by requests.
pub open spec fn run_result(
    s: Seq<Result<TestResult, ProducerFailure>>,
    producer_count: u32,
    elapsed_ms: u64,
) -> Option<TestResult> {
    if ok_count(s) == 0 {
        None
    } else {
        Some(
            TestResult {
                elapsed_ms,
                total_requests: sum_ok(s, total_of()) as u128,
                failed_requests: sum_ok(s, failed_of()) as u128,
                avg_request_time_ms: (sum_ok(s, avg_of()) / producer_count as int) as u128,
            },
        )
    }
}

pub open spec fn all_producer_level(s: Seq<Result<TestResult, ProducerFailure>>) -> bool {
    forall|i: int| 0 <= i < s.len() ==> (#[trigger] s[i] matches Ok(r) ==> r.is_producer_level())
}

proof fn lemma_sum_ok_bounds(s: Seq<Result<TestResult, ProducerFailure>>)
    requires
        all_producer_level(s),
    ensures
        0 <= sum_ok(s, failed_of()) <= sum_ok(s, total_of()) <= s.len() * u64::MAX,
        0 <= sum_ok(s, avg_of()) <= s.len() * u64::MAX,
        0 <= ok_count(s) <= s.len(),
    decreases s.len(),
{
    if s.len() > 0 {
        assert(all_producer_level(s.drop_last())) by {
            assert forall|i: int| 0 <= i < s.drop_last().len() implies
                (#[trigger] s.drop_last()[i] matches Ok(r) ==> r.is_producer_level()) by {
                assert(s.drop_last()[i] == s[i]);
            }
        }
        assert(s[s.len() - 1] == s.last());
        lemma_sum_ok_bounds(s.drop_last());
        assert((s.len() - 1) * u64::MAX + u64::MAX == s.len() * u64::MAX) by (nonlinear_arith);
    }
}

/// Folds the producers' outcomes, in producer order, into the run's summary.
/// A failed producer is left out; `None` when no producer returned a result.
pub fn fold_producers(
    results: &Vec<Result<TestResult, ProducerFailure>>,
    producer_count: u32,
    elapsed_ms: u64,
) -> (r: Option<TestResult>)
    requires
        results@.len() <= producer_count,
        all_producer_level(results@),
    ensures
        r == run_result(results@, producer_count, elapsed_ms),
        r matches Some(t) ==> t.wf(),
{
    let mut total: u128 = 0;
    let mut failed: u128 = 0;
    let mut avg_sum: u128 = 0;
    let mut survivors: u32 = 0;
    let mut i: usize = 0;
    while i < results.len()
        invariant
            i <= results@.len(),
            results@.len() <= producer_count,
            all_producer_level(results@),
            total == sum_ok(results@.subrange(0, i as int), total_of()),
            failed == sum_ok(results@.subrange(0, i as int), failed_of()),
            avg_sum == sum_ok(results@.subrange(0, i as int), avg_of()),
            survivors == ok_count(results@.subrange(0, i as int)),
        decreases results@.len() - i,
    {
        let ghost pre = results@.subrange(0, i as int);
        let ghost post = results@.subrange(0, i as int + 1);
        proof {
            assert(post.drop_last() =~= pre);
            assert(post.last() == results@[i as int]);
            assert(all_producer_level(pre)) by {
                assert forall|j: int| 0 <= j < pre.len() implies
                    (#[trigger] pre[j] matches Ok(r) ==> r.is_producer_level()) by {
                    assert(pre[j] == results@[j]);
                }
            }
            lemma_sum_ok_bounds(pre);
            let k = pre.len() as int;
            assert(k < producer_count);
            assert(k * u64::MAX + u64::MAX <= u32::MAX * u64::MAX) by (nonlinear_arith)
                requires 0 <= k, k + 1 <= u32::MAX;
        }
        match &results[i] {
            Ok(r) => {
                assert(results@[i as int] matches Ok(x) ==> x.is_producer_level());
                total = total + r.total_requests;
                failed = failed + r.failed_requests;
                avg_sum = avg_sum + r.avg_request_time_ms;
                survivors = survivors + 1;
            },
            Err(_) => {},
        }
        i = i + 1;
    }
    proof {
        assert(results@.subrange(0, i as int) =~= results@);
        lemma_sum_ok_bounds(results@);
        assert(results@.len() * u64::MAX <= max_run_requests()) by (nonlinear_arith)
            requires results@.len() <= u32::MAX;
    }
    if survivors == 0 {
        None
    } else {
        proof {
            let n = producer_count as int;
            let a = avg_sum as int;
            let k = results@.len() as int;
            assert(a / n <= u64::MAX) by (nonlinear_arith)
                requires n >= k, k >= 1, a <= k * u64::MAX, a >= 0;
        }
        Some(TestResult {
            elapsed_ms,
            total_requests: total,
            failed_requests: failed,
            avg_request_time_ms: avg_sum / producer_count as u128,
        })
    }
}

proof fn lemma_sum_ok_uniform(s: Seq<Result<TestResult, ProducerFailure>>, q: int)
    requires
        forall|i: int| 0 <= i < s.len() ==> (#[trigger] s[i] matches Ok(r) && r.total_requests == q),
    ensures
        sum_ok(s, total_of()) == s.len() * q,
    decreases s.len(),
{
    if s.len() > 0 {
        let p = s.drop_last();
        assert forall|i: int| 0 <= i < p.len() implies #[trigger] p[i] == s[i] by {}
        assert(s[s.len() - 1] == s.last());
        lemma_sum_ok_uniform(p, q);
        assert((s.len() - 1) * q + q == s.len() * q) by (nonlinear_arith);
    }
}

/// When every producer sends its share of `config`'s requests, the run sends
/// the share times the number of producers: the remainder of the division is
/// never sent.
pub proof fn lemma_dispatched_total(config: Config, results: Seq<Result<TestResult, ProducerFailure>>)
    requires
        config.wf(),
        results.len() == config.producer_count,
        forall|i: int| 0 <= i < results.len() ==> (#[trigger] results[i] matches Ok(r)
            && r.total_requests == config.total_requests / config.producer_count),
    ensures
        sum_ok(results, total_of())
            == (config.total_requests / config.producer_count) * config.producer_count,
        sum_ok(results, total_of()) <= config.total_requests,
{
    let q = config.total_requests / config.producer_count;
    lemma_sum_ok_uniform(results, q as int);
    let t = config.total_requests as int;
    let c = config.producer_count as int;
    assert((t / c) * c <= t) by (nonlinear_arith)
        requires c > 0, t >= 0;
}

proof fn lemma_sum_ok_failure_extremes(s: Seq<Result<TestResult, ProducerFailure>>)
    ensures
        (forall|i: int| 0 <= i < s.len() ==> (#[trigger] s[i] matches Ok(r) ==> r.failed_requests == 0))
            ==> sum_ok(s, failed_of()) == 0,
        (forall|i: int| 0 <= i < s.len() ==> (#[trigger] s[i] matches Ok(r)
            ==> r.failed_requests == r.total_requests))
            ==> sum_ok(s, failed_of()) == sum_ok(s, total_of()),
    decreases s.len(),
{
    if s.len() > 0 {
        let p = s.drop_last();
        assert forall|i: int| 0 <= i < p.len() implies #[trigger] p[i] == s[i] by {}
        assert(s[s.len() - 1] == s.last());
        lemma_sum_ok_failure_extremes(p);
    }
}

/// When no producer saw a failure, neither does the run: its fail ratio is zero.
pub proof fn lemma_run_without_failures(
    results: Seq<Result<TestResult, ProducerFailure>>,
    producer_count: u32,
    elapsed_ms: u64,
)
    requires
        forall|i: int| 0 <= i < results.len() ==> (#[trigger] results[i] matches Ok(r)
            ==> r.failed_requests == 0),
    ensures
        run_result(results, producer_count, elapsed_ms) matches Some(t) ==> t.failed_requests == 0
            && (t.total_requests > 0 ==> fail_ratio_of(0, t.total_requests as int) == Some(0int)),
{
    lemma_sum_ok_failure_extremes(results);
}

/// When every request of every producer failed, so did every request of the
/// run: its fail ratio is 100 %.
pub proof fn lemma_run_all_failed(
    results: Seq<Result<TestResult, ProducerFailure>>,
    producer_count: u32,
    elapsed_ms: u64,
)
    requires
        forall|i: int| 0 <= i < results.len() ==> (#[trigger] results[i] matches Ok(r)
            ==> r.failed_requests == r.total_requests),
    ensures
        run_result(results, producer_count, elapsed_ms) matches Some(t) ==>
            t.failed_requests == t.total_requests
            && (t.total_requests > 0 ==> fail_ratio_of(
                t.failed_requests as int,
                t.total_requests as int,
            ) == Some(10000int)),
{
    lemma_sum_ok_failure_extremes(results);
    if let Some(t) = run_result(results, producer_count, elapsed_ms) {
        if t.total_requests > 0 {
            let n = t.total_requests as int;
            assert(n * 10000 / n == 10000) by (nonlinear_arith)
                requires n > 0;
        }
    }
}

} // verus!
