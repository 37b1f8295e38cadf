use vstd::prelude::*;
use crate::outcome::{
    RequestOutcome, is_failure, count_failed, total_latency, failure_weight, latency_weight,
    weighted_sum, lemma_weighted_sum_bound, lemma_weighted_sum_permutation,
};

verus! {

/// The most requests a run can summarize: up to `u32::MAX` producers, each
/// with up to `u64::MAX` requests.
pub open spec fn max_run_requests() -> int {
    u64::MAX as int * u32::MAX as int
}

/// Statistics of one phase: a single producer's requests, or a whole run.
#[derive(Clone, Copy, Debug, PartialEq, Eq, Structural)]
pub struct TestResult {
    /// Wall-clock duration of the phase, in milliseconds.
    pub elapsed_ms: u64,
    /// Requests attempted, successful or not.
    pub total_requests: u128,
    /// Requests that failed at the transport level or returned another status.
    pub failed_requests: u128,
    /// Mean request latency, in whole milliseconds.
    pub avg_request_time_ms: u128,
}

/// `failed / total * 100`, in hundredths of a percent and rounded down;
/// undefined (`None`) when nothing was attempted.
pub open spec fn fail_ratio_of(failed: int, total: int) -> Option<int> {
    if total == 0 {
        None
    } else {
        Some(failed * 10000 / total)
    }
}

impl TestResult {
    pub open spec fn wf(self) -> bool {
        &&& self.failed_requests <= self.total_requests
        &&& self.total_requests <= max_run_requests()
        &&& self.avg_request_time_ms <= u64::MAX
    }

    /// A result that one producer can have produced.
    pub open spec fn is_producer_level(self) -> bool {
        &&& self.wf()
        &&& self.total_requests <= u64::MAX
    }

    /// Fail ratio in hundredths of a percent (`2500` is 25 %), or `None` when
    /// no request was attempted.
    pub fn fail_ratio_hundredths(&self) -> (r: Option<u128>)
        requires
            self.wf(),
        ensures
            r matches Some(v) ==> fail_ratio_of(
                self.failed_requests as int,
                self.total_requests as int,
            ) == Some(v as int),
            r is None ==> fail_ratio_of(
                self.failed_requests as int,
                self.total_requests as int,
            ) is None,
    {
        if self.total_requests == 0 {
            None
        } else {
            assert(self.failed_requests * 10000 <= max_run_requests() * 10000);
            let r = self.failed_requests * 10000 / self.total_requests;
            Some(r)
        }
    }
}

/// What one producer reports for the outcomes `s` of its requests.
pub open spec fn producer_result(s: Seq<RequestOutcome>, expected_status: u16, elapsed_ms: u64) -> TestResult {
    TestResult {
        elapsed_ms,
        total_requests: s.len() as u128,
        failed_requests: count_failed(s, expected_status) as u128,
        avg_request_time_ms: if s.len() == 0 {
            0
        } else {
            (total_latency(s) / s.len()) as u128
        },
    }
}

/// Running counters of one producer over the outcomes recorded so far.
pub struct ProducerTally {
    expected_status: u16,
    total: u64,
    failed: u64,
    latency_sum: u128,
    recorded: Ghost<Seq<RequestOutcome>>,
}

impl ProducerTally {
    /// The outcomes recorded so far, in the order they were recorded.
    pub closed spec fn outcomes(&self) -> Seq<RequestOutcome> {
        self.recorded@
    }

    pub closed spec fn expected_status(&self) -> u16 {
        self.expected_status
    }

    pub closed spec fn wf(&self) -> bool {
        &&& self.total == self.recorded@.len()
        &&& self.failed == count_failed(self.recorded@, self.expected_status)
        &&& self.latency_sum == total_latency(self.recorded@)
    }

    /// An empty tally that counts a status other than `expected_status` as a failure.
    pub fn new(expected_status: u16) -> (t: Self)
        ensures
            t.wf(),
            t.outcomes() == Seq::<RequestOutcome>::empty(),
            t.expected_status() == expected_status,
    {
        ProducerTally {
            expected_status,
            total: 0,
            failed: 0,
            latency_sum: 0,
            recorded: Ghost(Seq::empty()),
        }
    }

    /// Number of outcomes recorded so far.
    pub fn recorded_count(&self) -> (r: u64)
        requires
            self.wf(),
        ensures
            r == self.outcomes().len(),
    {
        self.total
    }

    /// Counts one more outcome.
    pub fn record(&mut self, o: RequestOutcome)
        requires
            old(self).wf(),
            old(self).outcomes().len() < u64::MAX,
        ensures
            final(self).wf(),
            final(self).outcomes() == old(self).outcomes().push(o),
            final(self).expected_status() == old(self).expected_status(),
    {
        let ghost prev = self.recorded@;
        let ghost next = prev.push(o);
        assert(next.drop_last() =~= prev);
        proof {
            lemma_failures_at_most_total(prev, self.expected_status);
            lemma_weighted_sum_bound(prev, latency_weight(), u64::MAX as nat);
            assert(prev.len() * (u64::MAX as nat) <= u64::MAX * u64::MAX) by (nonlinear_arith)
                requires prev.len() < u64::MAX;
        }
        match o {
            RequestOutcome::Completed { status, elapsed_ms } => {
                if status != self.expected_status {
                    self.failed = self.failed + 1;
                }
                self.latency_sum = self.latency_sum + elapsed_ms as u128;
            },
            RequestOutcome::TransportFailed => {
                self.failed = self.failed + 1;
            },
        }
        self.total = self.total + 1;
        self.recorded = Ghost(next);
    }

    /// The producer's result for the recorded outcomes: the mean latency is
    /// the accumulated latency divided by the number of outcomes, or 0 when
    /// there are none.
    pub fn finish(&self, elapsed_ms: u64) -> (r: TestResult)
        requires
            self.wf(),
        ensures
            r == producer_result(self.outcomes(), self.expected_status(), elapsed_ms),
            r.is_producer_level(),
    {
        proof {
            lemma_failures_at_most_total(self.recorded@, self.expected_status);
            lemma_weighted_sum_bound(self.recorded@, latency_weight(), u64::MAX as nat);
            assert(u64::MAX <= max_run_requests());
        }
        let avg: u128 = if self.total == 0 {
            0
        } else {
            proof {
                let n = self.total as int;
                let s = self.latency_sum as int;
                assert(s / n <= u64::MAX) by (nonlinear_arith)
                    requires n > 0, s <= n * u64::MAX;
            }
            self.latency_sum / self.total as u128
        };
        TestResult {
            elapsed_ms,
            total_requests: self.total as u128,
            failed_requests: self.failed as u128,
            avg_request_time_ms: avg,
        }
    }
}

/// Failed outcomes never outnumber the outcomes.
pub proof fn lemma_failures_at_most_total(s: Seq<RequestOutcome>, expected_status: u16)
    ensures
        count_failed(s, expected_status) <= s.len(),
{
    lemma_weighted_sum_bound(s, failure_weight(expected_status), 1);
}

/// Tallies the outcomes of one producer's requests, whatever order they
/// completed in.
pub fn summarize_producer(outcomes: &Vec<RequestOutcome>, expected_status: u16, elapsed_ms: u64) -> (r: TestResult)
    ensures
        r == producer_result(outcomes@, expected_status, elapsed_ms),
        r.is_producer_level(),
{
    let mut tally = ProducerTally::new(expected_status);
    let mut i: usize = 0;
    while i < outcomes.len()
        invariant
            i <= outcomes@.len(),
            tally.wf(),
            tally.expected_status() == expected_status,
            tally.outcomes() == outcomes@.subrange(0, i as int),
        decreases outcomes@.len() - i,
    {
        assert(outcomes@.subrange(0, i as int).push(outcomes@[i as int]) =~= outcomes@.subrange(0, i as int + 1));
        tally.record(outcomes[i]);
        i = i + 1;
    }
    assert(outcomes@.subrange(0, i as int) =~= outcomes@);
    tally.finish(elapsed_ms)
}

proof fn lemma_failure_count_extremes(s: Seq<RequestOutcome>, expected_status: u16)
    ensures
        (forall|i: int| 0 <= i < s.len() ==> !is_failure(#[trigger] s[i], expected_status))
            ==> count_failed(s, expected_status) == 0,
        (forall|i: int| 0 <= i < s.len() ==> is_failure(#[trigger] s[i], expected_status))
            ==> count_failed(s, expected_status) == s.len(),
    decreases s.len(),
{
    if s.len() > 0 {
        let p = s.drop_last();
        assert forall|i: int| 0 <= i < p.len() implies #[trigger] p[i] == s[i] by {}
        assert(s[s.len() - 1] == s.last());
        lemma_failure_count_extremes(p, expected_status);
    }
}

/// When every request of a producer completes with the expected status, no
/// request fails and, if any was sent, the fail ratio is zero.
pub proof fn lemma_all_succeeded_no_failures(s: Seq<RequestOutcome>, expected_status: u16, elapsed_ms: u64)
    requires
        forall|i: int| 0 <= i < s.len() ==> (#[trigger] s[i] matches RequestOutcome::Completed { status, .. }
            && status == expected_status),
    ensures
        producer_result(s, expected_status, elapsed_ms).failed_requests == 0,
        s.len() > 0 ==> fail_ratio_of(0, s.len() as int) == Some(0int),
{
    assert forall|i: int| 0 <= i < s.len() implies !is_failure(#[trigger] s[i], expected_status) by {}
    lemma_failure_count_extremes(s, expected_status);
}

/// When every request of a producer fails, by status or by transport, every
/// request counts as failed and, if any was sent, the fail ratio is 100 %.
pub proof fn lemma_all_failed_full_ratio(s: Seq<RequestOutcome>, expected_status: u16, elapsed_ms: u64)
    requires
        s.len() <= u64::MAX,
        forall|i: int| 0 <= i < s.len() ==> is_failure(#[trigger] s[i], expected_status),
    ensures
        producer_result(s, expected_status, elapsed_ms).failed_requests == s.len(),
        s.len() > 0 ==> fail_ratio_of(s.len() as int, s.len() as int) == Some(10000int),
{
    lemma_failure_count_extremes(s, expected_status);
    if s.len() > 0 {
        let n = s.len() as int;
        assert(n * 10000 / n == 10000) by (nonlinear_arith)
            requires n > 0;
    }
}

/// Running the same requests again gives the same counts and mean latency,
/// whatever order the requests complete in: only the wall-clock time may differ.
pub proof fn lemma_rerun_same_counts(
    a: Seq<RequestOutcome>,
    b: Seq<RequestOutcome>,
    expected_status: u16,
    elapsed_a: u64,
    elapsed_b: u64,
)
    requires
        a.to_multiset() == b.to_multiset(),
    ensures
        producer_result(a, expected_status, elapsed_a).total_requests
            == producer_result(b, expected_status, elapsed_b).total_requests,
        producer_result(a, expected_status, elapsed_a).failed_requests
            == producer_result(b, expected_status, elapsed_b).failed_requests,
        producer_result(a, expected_status, elapsed_a).avg_request_time_ms
            == producer_result(b, expected_status, elapsed_b).avg_request_time_ms,
{
    a.to_multiset_ensures();
    b.to_multiset_ensures();
    lemma_weighted_sum_permutation(a, b, failure_weight(expected_status));
    lemma_weighted_sum_permutation(a, b, latency_weight());
}

/// How a run's wall-clock time is shown: whole milliseconds below one
/// second, else seconds with two decimals.
#[derive(Clone, Copy, Debug, PartialEq, Eq, Structural)]
pub enum ElapsedDisplay {
    Millis(u64),
    Seconds { whole: u64, hundredths: u64 },
}

/// `ms` rounded to the nearest hundredth of a second, halves rounded up.
pub open spec fn rounded_hundredths(ms: u64) -> int {
    (ms as int + 5) / 10
}

impl ElapsedDisplay {
    pub fn from_millis(ms: u64) -> (r: ElapsedDisplay)
        ensures
            ms < 1000 ==> r == ElapsedDisplay::Millis(ms),
            ms >= 1000 ==> r == (ElapsedDisplay::Seconds {
                whole: (rounded_hundredths(ms) / 100) as u64,
                hundredths: (rounded_hundredths(ms) % 100) as u64,
            }),
    {
        if ms < 1000 {
            ElapsedDisplay::Millis(ms)
        } else {
            let t: u64 = ms / 10 + if ms % 10 >= 5 { 1u64 } else { 0u64 };
            assert(t == rounded_hundredths(ms));
            ElapsedDisplay::Seconds { whole: t / 100, hundredths: t % 100 }
        }
    }
}

} // verus!
