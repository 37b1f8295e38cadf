use vstd::prelude::*;

verus! {

/// What came back from sending one request.
#[derive(Clone, Copy, Debug, PartialEq, Eq, Structural)]
pub enum RequestOutcome {
    /// The server answered with `status` after `elapsed_ms` milliseconds.
    Completed { status: u16, elapsed_ms: u64 },
    /// The request failed below HTTP (connection, timeout, name resolution).
    TransportFailed,
}

/// An outcome counts as a failure when the transport failed or the status
/// differs from the expected one.
pub open spec fn is_failure(o: RequestOutcome, expected_status: u16) -> bool {
    match o {
        RequestOutcome::Completed { status, .. } => status != expected_status,
        RequestOutcome::TransportFailed => true,
    }
}

/// The latency that an outcome contributes: transport failures contribute none.
pub open spec fn latency_of(o: RequestOutcome) -> nat {
    match o {
        RequestOutcome::Completed { elapsed_ms, .. } => elapsed_ms as nat,
        RequestOutcome::TransportFailed => 0,
    }
}

/// Sum of a per-outcome weight over a sequence of outcomes.
pub open spec fn weighted_sum(s: Seq<RequestOutcome>, w: spec_fn(RequestOutcome) -> nat) -> nat
    decreases s.len(),
{
    if s.len() == 0 {
        0
    } else {
        weighted_sum(s.drop_last(), w) + w(s.last())
    }
}

/// One for a failed outcome, zero otherwise.
pub open spec fn failure_weight(expected_status: u16) -> spec_fn(RequestOutcome) -> nat {
    |o: RequestOutcome| if is_failure(o, expected_status) { 1nat } else { 0nat }
}

/// The latency of an outcome, as a weight.
pub open spec fn latency_weight() -> spec_fn(RequestOutcome) -> nat {
    |o: RequestOutcome| latency_of(o)
}

/// Number of failed outcomes in `s`.
pub open spec fn count_failed(s: Seq<RequestOutcome>, expected_status: u16) -> nat {
    weighted_sum(s, failure_weight(expected_status))
}

/// Accumulated latency of the completed outcomes in `s`.
pub open spec fn total_latency(s: Seq<RequestOutcome>) -> nat {
    weighted_sum(s, latency_weight())
}

/// A sum of weights that are each at most `k` is at most `k` per outcome.
pub proof fn lemma_weighted_sum_bound(s: Seq<RequestOutcome>, w: spec_fn(RequestOutcome) -> nat, k: nat)
    requires
        forall|o: RequestOutcome| #[trigger] w(o) <= k,
    ensures
        weighted_sum(s, w) <= s.len() * k,
    decreases s.len(),
{
    if s.len() > 0 {
        lemma_weighted_sum_bound(s.drop_last(), w, k);
        assert((s.len() - 1) * k + k == s.len() * k) by (nonlinear_arith);
    }
}

proof fn lemma_weighted_sum_remove(s: Seq<RequestOutcome>, w: spec_fn(RequestOutcome) -> nat, i: int)
    requires
        0 <= i < s.len(),
    ensures
        weighted_sum(s, w) == weighted_sum(s.remove(i), w) + w(s[i]),
    decreases s.len(),
{
    if i == s.len() - 1 {
        assert(s.remove(i) =~= s.drop_last());
    } else {
        let t = s.remove(i);
        assert(t.drop_last() =~= s.drop_last().remove(i));
        assert(t.last() == s.last());
        lemma_weighted_sum_remove(s.drop_last(), w, i);
    }
}

/// A weighted sum does not depend on the order of the outcomes.
pub proof fn lemma_weighted_sum_permutation(
    a: Seq<RequestOutcome>,
    b: Seq<RequestOutcome>,
    w: spec_fn(RequestOutcome) -> nat,
)
    requires
        a.to_multiset() == b.to_multiset(),
    ensures
        weighted_sum(a, w) == weighted_sum(b, w),
    decreases a.len(),
{
    broadcast use vstd::seq_lib::to_multiset_remove;
    a.to_multiset_ensures();
    b.to_multiset_ensures();
    if a.len() > 0 {
        let x = a.last();
        assert(a.contains(x)) by {
            assert(a[a.len() - 1] == x);
        }
        assert(b.to_multiset().count(x) > 0);
        assert(b.contains(x));
        let i = choose|i: int| 0 <= i < b.len() && b[i] == x;
        assert(a.remove(a.len() - 1) =~= a.drop_last());
        assert(a.remove(a.len() - 1).to_multiset() == a.to_multiset().remove(x));
        assert(b.remove(i).to_multiset() == b.to_multiset().remove(x));
        lemma_weighted_sum_permutation(a.drop_last(), b.remove(i), w);
        lemma_weighted_sum_remove(b, w, i);
    }
}

} // verus!
