use vstd::prelude::*;

verus! {

/// HTTP method of the generated requests.
#[derive(Clone, Copy, Debug, PartialEq, Eq, Structural)]
pub enum Method {
    Get,
    Post,
}

pub open spec fn post_name() -> Seq<char> {
    seq!['P', 'O', 'S', 'T']
}

/// `"POST"` names a POST; every other name, recognized or not, means GET.
pub open spec fn method_of(name: Seq<char>) -> Method {
    if name == post_name() {
        Method::Post
    } else {
        Method::Get
    }
}

impl Method {
    /// Reads a method name; unrecognized names fall back to GET.
    pub fn parse(name: &str) -> (m: Method)
        ensures
            m == method_of(name@),
    {
        let n = name.unicode_len();
        if n != 4 {
            assert(name@ != post_name());
            return Method::Get;
        }
        let expected: [char; 4] = ['P', 'O', 'S', 'T'];
        let mut i: usize = 0;
        while i < 4
            invariant
                n == 4,
                name@.len() == 4,
                i <= 4,
                expected@ == post_name(),
                forall|j: int| 0 <= j < i ==> name@[j] == post_name()[j],
            decreases 4 - i,
        {
            if name.get_char(i) != expected[i] {
                assert(name@[i as int] != post_name()[i as int]);
                return Method::Get;
            }
            i = i + 1;
        }
        assert(name@ =~= post_name());
        Method::Post
    }
}

/// Settings of one load test, shared read-only by every producer.
#[derive(Clone, Debug)]
pub struct Config {
    pub method: Method,
    pub url: String,
    /// Number of producers; at least one.
    pub producer_count: u32,
    /// The status that counts as a success.
    pub expected_status: u16,
    /// Requests of the whole run, before division among producers.
    pub total_requests: u32,
    /// Payload sent with POST requests.
    pub body: Option<String>,
    /// Pause before each dispatch within a producer, in milliseconds.
    pub throttle_ms: u32,
    /// Exclusive upper bound of each producer's random start delay; a
    /// negative value means one second per producer.
    pub max_ramp_up_ms: i32,
}

/// The bound that start delays are drawn below.
pub open spec fn ramp_cap_of(max_ramp_up_ms: i32, producer_count: u32) -> int {
    if max_ramp_up_ms >= 0 {
        max_ramp_up_ms as int
    } else {
        producer_count as int * 1000
    }
}

impl Config {
    pub open spec fn wf(&self) -> bool {
        self.producer_count >= 1
    }

    /// The exclusive bound of the producers' random start delays.
    pub fn effective_ramp_cap(&self) -> (r: u64)
        ensures
            r == ramp_cap_of(self.max_ramp_up_ms, self.producer_count),
    {
        if self.max_ramp_up_ms >= 0 {
            self.max_ramp_up_ms as u64
        } else {
            self.producer_count as u64 * 1000
        }
    }

    /// Requests that each producer sends: the run's requests divided evenly,
    /// with the remainder left unsent.
    pub fn per_producer_requests(&self) -> (r: u32)
        requires
            self.wf(),
        ensures
            r == self.total_requests / self.producer_count,
            r * self.producer_count <= self.total_requests,
    {
        let r = self.total_requests / self.producer_count;
        proof {
            let t = self.total_requests as int;
            let c = self.producer_count as int;
            assert((t / c) * c <= t) by (nonlinear_arith)
                requires c > 0, t >= 0;
        }
        r
    }

    /// The method from the configured name, and the payload to send with it:
    /// POST carries the configured body, GET carries none.
    pub fn request_payload(&self) -> (r: Option<String>)
        ensures
            self.method == Method::Get ==> r is None,
            self.method == Method::Post ==> (r matches Some(b) ==> self.body matches Some(c) && b@ == c@),
            self.method == Method::Post ==> (r is None <==> self.body is None),
    {
        match self.method {
            Method::Get => None,
            Method::Post => match &self.body {
                Some(b) => Some(b.clone()),
                None => None,
            },
        }
    }
}

} // verus!
