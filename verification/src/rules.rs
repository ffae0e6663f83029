//! The abuse heuristics evaluated against each actor profile.
//!
//! Three rules are checked independently; every rule that fires produces
//! its own blacklist verdict. Thresholds are fixed constants: more than
//! ten `404` responses, any use of a disallowed HTTP method, or any
//! malformed request. The method label `"POSTS"` is checked literally as
//! the aggregation vocabulary spells it.

use crate::counters::counter_or_zero;
use crate::counters::lookup_or_zero;
use crate::profile::Profile;
use vstd::prelude::*;

verus! {

/// The excessive-404 rule: more than ten `404` responses.
pub open spec fn excessive_404_fires(p: Profile) -> bool {
    counter_or_zero(p.responses@, "404"@) > 10
}

/// The disallowed-method rule: any one of the five disallowed method
/// counters is positive.
pub open spec fn disallowed_method_fires(p: Profile) -> bool {
    ||| counter_or_zero(p.methods@, "POSTS"@) > 0
    ||| counter_or_zero(p.methods@, "PUT"@) > 0
    ||| counter_or_zero(p.methods@, "DELETE"@) > 0
    ||| counter_or_zero(p.methods@, "HEAD"@) > 0
    ||| counter_or_zero(p.methods@, "OPTIONS"@) > 0
}

/// The invalid-request rule: at least one malformed request.
pub open spec fn invalid_request_fires(p: Profile) -> bool {
    p.invalid_request_count > 0
}

/// Whether the excessive-404 rule fires for this profile; depends only on
/// the `"404"` response counter.
pub fn check_excessive_404(p: &Profile) -> (r: bool)
    ensures
        r == excessive_404_fires(*p),
{
    lookup_or_zero(&p.responses, "404") > 10
}

/// Whether the disallowed-method rule fires for this profile; depends only
/// on the five disallowed method counters.
pub fn check_disallowed_method(p: &Profile) -> (r: bool)
    ensures
        r == disallowed_method_fires(*p),
{
    let posts = lookup_or_zero(&p.methods, "POSTS");
    let puts = lookup_or_zero(&p.methods, "PUT");
    let deletes = lookup_or_zero(&p.methods, "DELETE");
    let heads = lookup_or_zero(&p.methods, "HEAD");
    let options = lookup_or_zero(&p.methods, "OPTIONS");
    posts > 0 || puts > 0 || deletes > 0 || heads > 0 || options > 0
}

/// Whether the invalid-request rule fires for this profile; depends only
/// on the malformed-request counter.
pub fn check_invalid_request(p: &Profile) -> (r: bool)
    ensures
        r == invalid_request_fires(*p),
{
    p.invalid_request_count > 0
}

/// Law: the excessive-404 rule fires exactly when the `"404"` response
/// counter exceeds ten, and no other profile field has any influence:
/// any profile `q` with the same `"404"` counter decides the same way.
pub proof fn lemma_excessive_404_rule(p: Profile, q: Profile)
    requires
        counter_or_zero(q.responses@, "404"@) == counter_or_zero(p.responses@, "404"@),
    ensures
        excessive_404_fires(p) <==> counter_or_zero(p.responses@, "404"@) > 10,
        excessive_404_fires(p) == excessive_404_fires(q),
{
}

/// Law: the disallowed-method rule fires exactly when at least one of the
/// five disallowed method counters is positive, and no other profile
/// field has any influence: any profile `q` with the same five counters
/// decides the same way.
pub proof fn lemma_disallowed_method_rule(p: Profile, q: Profile)
    requires
        counter_or_zero(q.methods@, "POSTS"@) == counter_or_zero(p.methods@, "POSTS"@),
        counter_or_zero(q.methods@, "PUT"@) == counter_or_zero(p.methods@, "PUT"@),
        counter_or_zero(q.methods@, "DELETE"@) == counter_or_zero(p.methods@, "DELETE"@),
        counter_or_zero(q.methods@, "HEAD"@) == counter_or_zero(p.methods@, "HEAD"@),
        counter_or_zero(q.methods@, "OPTIONS"@) == counter_or_zero(p.methods@, "OPTIONS"@),
    ensures
        disallowed_method_fires(p) <==> {
            ||| counter_or_zero(p.methods@, "POSTS"@) > 0
            ||| counter_or_zero(p.methods@, "PUT"@) > 0
            ||| counter_or_zero(p.methods@, "DELETE"@) > 0
            ||| counter_or_zero(p.methods@, "HEAD"@) > 0
            ||| counter_or_zero(p.methods@, "OPTIONS"@) > 0
        },
        disallowed_method_fires(p) == disallowed_method_fires(q),
{
}

/// Law: the invalid-request rule fires exactly when the malformed-request
/// counter is positive.
pub proof fn lemma_invalid_request_rule(p: Profile)
    ensures
        invalid_request_fires(p) <==> p.invalid_request_count > 0,
{
}

} // verus!
