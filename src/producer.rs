use vstd::prelude::*;
use crate::report::{ProducerTally, TestResult, producer_result};

verus! {

/// The next piece of outside work a producer performs.
#[derive(Clone, Copy, Debug, PartialEq, Eq, Structural)]
pub enum ProducerAction {
    /// Wait before doing anything else; the producer's clock already runs.
    RampUp { delay_ms: u64 },
    /// Build the request executor shared by all of this producer's requests.
    BuildExecutor,
    /// Wait before the next dispatch.
    Throttle { ms: u32 },
    /// Send one request as an independent task, without waiting for it.
    Dispatch,
    /// Wait for every dispatched request, then tally the outcomes.
    AwaitAll,
}

/// The `k`-th action of a producer with `quota` requests: the ramp-up, the
/// executor, a throttle before each of the `quota` dispatches, and the final wait.
pub open spec fn action_at(quota: u32, delay_ms: u64, throttle_ms: u32, k: int) -> Option<ProducerAction> {
    if k == 0 {
        Some(ProducerAction::RampUp { delay_ms })
    } else if k == 1 {
        Some(ProducerAction::BuildExecutor)
    } else if 2 <= k < 2 + 2 * quota {
        if (k - 2) % 2 == 0 {
            Some(ProducerAction::Throttle { ms: throttle_ms })
        } else {
            Some(ProducerAction::Dispatch)
        }
    } else if k == 2 + 2 * quota {
        Some(ProducerAction::AwaitAll)
    } else {
        None
    }
}

/// Where one producer stands in its fixed sequence of actions.
pub struct ProducerSchedule {
    quota: u32,
    delay_ms: u64,
    throttle_ms: u32,
    step: u64,
}

impl ProducerSchedule {
    pub closed spec fn quota(&self) -> u32 {
        self.quota
    }

    pub closed spec fn delay_ms(&self) -> u64 {
        self.delay_ms
    }

    pub closed spec fn throttle_ms(&self) -> u32 {
        self.throttle_ms
    }

    /// Number of actions handed out so far.
    pub closed spec fn step(&self) -> int {
        self.step as int
    }

    pub closed spec fn wf(&self) -> bool {
        self.step <= 3 + 2 * self.quota
    }

    /// Every action, the final wait included, has been handed out.
    pub open spec fn is_finished(&self) -> bool {
        self.step() == 3 + 2 * self.quota()
    }

    pub fn finished(&self) -> (r: bool)
        ensures
            r == self.is_finished(),
    {
        self.step == 3 + 2 * self.quota as u64
    }

    /// Requests this producer dispatches.
    pub fn quota_of(&self) -> (r: u32)
        ensures
            r == self.quota(),
    {
        self.quota
    }

    pub fn new(quota: u32, delay_ms: u64, throttle_ms: u32) -> (s: Self)
        ensures
            s.wf(),
            s.quota() == quota,
            s.delay_ms() == delay_ms,
            s.throttle_ms() == throttle_ms,
            s.step() == 0,
    {
        ProducerSchedule { quota, delay_ms, throttle_ms, step: 0 }
    }

    /// Hands out the next action, or `None` once the producer is done.
    pub fn next_action(&mut self) -> (r: Option<ProducerAction>)
        requires
            old(self).wf(),
        ensures
            final(self).wf(),
            final(self).quota() == old(self).quota(),
            final(self).delay_ms() == old(self).delay_ms(),
            final(self).throttle_ms() == old(self).throttle_ms(),
            r == action_at(old(self).quota(), old(self).delay_ms(), old(self).throttle_ms(), old(self).step()),
            r is Some ==> final(self).step() == old(self).step() + 1,
            r is None ==> final(self).step() == old(self).step(),
            r is None <==> old(self).is_finished(),
    {
        let k = self.step;
        let end: u64 = 2 + 2 * self.quota as u64;
        let r = if k == 0 {
            Some(ProducerAction::RampUp { delay_ms: self.delay_ms })
        } else if k == 1 {
            Some(ProducerAction::BuildExecutor)
        } else if k < end {
            if (k - 2) % 2 == 0 {
                Some(ProducerAction::Throttle { ms: self.throttle_ms })
            } else {
                Some(ProducerAction::Dispatch)
            }
        } else if k == end {
            Some(ProducerAction::AwaitAll)
        } else {
            None
        };
        if r.is_some() {
            self.step = k + 1;
        }
        r
    }
}

/// The producer's result once its schedule has run out: defined only when the
/// tally holds exactly one outcome per dispatched request, so that each
/// dispatched request is counted once and the total is the producer's quota.
pub fn finish_producer(schedule: &ProducerSchedule, tally: &ProducerTally, elapsed_ms: u64) -> (r: Option<TestResult>)
    requires
        schedule.wf(),
        tally.wf(),
    ensures
        r is Some <==> schedule.is_finished() && tally.outcomes().len() == schedule.quota(),
        r matches Some(t) ==> t == producer_result(tally.outcomes(), tally.expected_status(), elapsed_ms)
            && t.total_requests == schedule.quota()
            && t.is_producer_level(),
{
    if schedule.finished() && tally.recorded_count() == schedule.quota_of() as u64 {
        Some(tally.finish(elapsed_ms))
    } else {
        None
    }
}

/// Every dispatch is preceded directly by a throttle of the configured length,
/// so no two dispatches of one producer are closer than the throttle.
pub proof fn lemma_dispatch_follows_throttle(quota: u32, delay_ms: u64, throttle_ms: u32, k: int)
    requires
        action_at(quota, delay_ms, throttle_ms, k) == Some(ProducerAction::Dispatch),
    ensures
        action_at(quota, delay_ms, throttle_ms, k - 1) == Some(ProducerAction::Throttle { ms: throttle_ms }),
{
}

/// A producer dispatches exactly its quota: the dispatches are the odd steps
/// from 3 up to `1 + 2 * quota`, one for each request.
pub proof fn lemma_dispatch_steps(quota: u32, delay_ms: u64, throttle_ms: u32, k: int)
    ensures
        action_at(quota, delay_ms, throttle_ms, k) == Some(ProducerAction::Dispatch)
            <==> (3 <= k < 3 + 2 * quota && (k - 3) % 2 == 0),
{
}

} // verus!
