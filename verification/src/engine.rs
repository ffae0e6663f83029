//! Recording verdicts and driving one batch over all profiles.
//!
//! The recorder writes a verdict under the key
//! `"<address>:repsheet:ip:blacklisted"`. The batch driver evaluates all
//! three rules for every profile and records one write per firing rule,
//! in the fixed order excessive-404, disallowed-method, invalid-request:
//! when several rules fire for one actor, the last-issued reason is the
//! one its key finally holds.

use crate::profile::Profile;
use crate::rules::check_disallowed_method;
use crate::rules::check_excessive_404;
use crate::rules::check_invalid_request;
use crate::rules::disallowed_method_fires;
use crate::rules::excessive_404_fires;
use crate::rules::invalid_request_fires;
use crate::store::lemma_put_idempotent;
use crate::store::store_contents;
use crate::store::Store;
use vstd::prelude::*;
use vstd::string::StringExecFns;

verus! {

/// The store key that marks `address` as blacklisted.
pub open spec fn blacklist_key_spec(address: Seq<char>) -> Seq<char> {
    address + ":repsheet:ip:blacklisted"@
}

/// Builds the blacklist key for `address`.
pub fn blacklist_key(address: &str) -> (r: String)
    ensures
        r@ == blacklist_key_spec(address@),
{
    String::from_str(address).concat(":repsheet:ip:blacklisted")
}

/// Records the verdict `reason` for `address`: exactly one `SET` of
/// `reason` under the actor's blacklist key, overwriting any earlier
/// verdict for the same address.
pub fn blacklist(store: &mut Store, address: &str, reason: &str)
    ensures
        final(store)@ == old(store)@.push((blacklist_key_spec(address@), reason@)),
        final(store).contents() == old(store).contents().insert(
            blacklist_key_spec(address@),
            reason@,
        ),
{
    let key = blacklist_key(address);
    store.put(key, String::from_str(reason));
}

/// Recording the same verdict for the same address twice in a row leaves
/// the store contents exactly as recording it once.
pub proof fn lemma_blacklist_idempotent(
    log: Seq<(Seq<char>, Seq<char>)>,
    address: Seq<char>,
    reason: Seq<char>,
)
    ensures
        store_contents(
            log.push((blacklist_key_spec(address), reason)).push(
                (blacklist_key_spec(address), reason),
            ),
        ) == store_contents(log.push((blacklist_key_spec(address), reason))),
{
    lemma_put_idempotent(log, blacklist_key_spec(address), reason);
}

/// The writes one profile causes, in rule order.
pub open spec fn actor_writes(p: Profile) -> Seq<(Seq<char>, Seq<char>)> {
    let after_404 = if excessive_404_fires(p) {
        Seq::<(Seq<char>, Seq<char>)>::empty().push(
            (blacklist_key_spec(p.address@), "404 violations"@),
        )
    } else {
        Seq::<(Seq<char>, Seq<char>)>::empty()
    };
    let after_method = if disallowed_method_fires(p) {
        after_404.push((blacklist_key_spec(p.address@), "Unallowed methods"@))
    } else {
        after_404
    };
    if invalid_request_fires(p) {
        after_method.push((blacklist_key_spec(p.address@), "Invalid request"@))
    } else {
        after_method
    }
}

/// The writes a whole batch causes: each profile's writes in turn.
pub open spec fn ruleset_writes(actors: Seq<Profile>) -> Seq<(Seq<char>, Seq<char>)>
    decreases actors.len(),
{
    if actors.len() == 0 {
        Seq::empty()
    } else {
        ruleset_writes(actors.drop_last()) + actor_writes(actors.last())
    }
}

/// Evaluates all three rules against every profile, in input order, and
/// records one verdict per firing rule.
///
/// The run's whole observable effect is the sequence of writes appended
/// to the store log, exactly `ruleset_writes(actors@)`.
pub fn apply_ruleset(store: &mut Store, actors: &Vec<Profile>)
    ensures
        final(store)@ == old(store)@ + ruleset_writes(actors@),
{
    let n = actors.len();
    proof {
        assert(actors@.take(0) =~= Seq::<Profile>::empty());
        assert(store@ =~= store@ + ruleset_writes(actors@.take(0)));
    }
    let mut idx: usize = 0;
    while idx < n
        invariant
            idx <= n,
            n == actors@.len(),
            store@ == old(store)@ + ruleset_writes(actors@.take(idx as int)),
        decreases n - idx,
    {
        let p = &actors[idx];
        if check_excessive_404(p) {
            blacklist(store, p.address.as_str(), "404 violations");
        }
        if check_disallowed_method(p) {
            blacklist(store, p.address.as_str(), "Unallowed methods");
        }
        if check_invalid_request(p) {
            blacklist(store, p.address.as_str(), "Invalid request");
        }
        proof {
            assert(actors@.take(idx as int + 1).drop_last() =~= actors@.take(idx as int));
            assert(actors@.take(idx as int + 1).last() == actors@[idx as int]);
            assert(store@ =~= old(store)@ + ruleset_writes(actors@.take(idx as int + 1)));
        }
        idx = idx + 1;
    }
    proof {
        assert(actors@.take(n as int) =~= actors@);
    }
}

} // verus!
