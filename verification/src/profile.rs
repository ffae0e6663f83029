//! The per-actor behavior profile consumed by the rule evaluator.

use crate::counters::Counters;
use vstd::prelude::*;

verus! {

/// Aggregated request counters for one distinct network address.
///
/// One profile exists per address within a processing run. The counters
/// are produced by the upstream aggregation step and are read-only once
/// rule evaluation begins; absent labels count as zero.
pub struct Profile {
    /// String form of the actor's IP or host; the mapping key.
    pub address: String,
    /// HTTP status-code label -> occurrence count.
    pub responses: Counters,
    /// HTTP method label -> occurrence count.
    pub methods: Counters,
    /// Number of malformed requests attributed to this actor.
    pub invalid_request_count: i64,
}

impl Profile {
    /// All counters are non-negative, as the aggregation contract promises.
    pub open spec fn wf(&self) -> bool {
        &&& self.responses.wf()
        &&& self.methods.wf()
        &&& self.invalid_request_count >= 0
    }

    /// A profile with every counter zero or absent.
    pub fn new(address: String) -> (r: Profile)
        ensures
            r.address == address,
            r.responses@ == Map::<Seq<char>, int>::empty(),
            r.methods@ == Map::<Seq<char>, int>::empty(),
            r.invalid_request_count == 0,
            r.wf(),
    {
        Profile {
            address,
            responses: Counters::new(),
            methods: Counters::new(),
            invalid_request_count: 0,
        }
    }
}

} // verus!
