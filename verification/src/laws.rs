//! The identity laws of the handle pair, stated over the views and the spec
//! functions that the handles' contracts use.
//!
//! Each law is a public proof function: its `requires` holds exactly what
//! the contracts of the functions it speaks of guarantee, and its `ensures`
//! is what every caller of those functions may conclude.

use vstd::prelude::*;

use crate::handles::refers_to;
use crate::handles::same_block;
use crate::handles::Arc;
use crate::handles::StrongClaim;
use crate::handles::Weak;
use crate::handles::WeakClaim;

verus! {

/// Identity equality is an equivalence relation: reflexive, symmetric and
/// transitive. It depends on nothing but the handles' identities, so
/// mutating the value through any handle — which touches no identity —
/// never changes any equality result.
pub proof fn lemma_identity_equivalence<T>(a: &Arc<T>, b: &Arc<T>, c: &Arc<T>)
    ensures
        same_block(a, a),
        same_block(a, b) == same_block(b, a),
        same_block(a, b) && same_block(b, c) ==> same_block(a, c),
{
}

/// A clone is identity-equal to its source, in both directions: for any
/// clone `c` of `s` (`Clone` ensures `same_block(&c, &s)`), `c.eq(&s)` and
/// `s.eq(&c)` both return true.
pub proof fn lemma_clone_identity<T>(s: &Arc<T>, c: &Arc<T>)
    requires
        same_block(c, s),
    ensures
        same_block(s, c),
{
}

/// Downgrading and then upgrading leads back to the same block: a weak
/// handle taken from `s` refers to `s`, and every strong handle its upgrade
/// can return is identity-equal to `s`.
pub proof fn lemma_downgrade_upgrade_identity<T>(s: &Arc<T>, w: &Weak<T>, u: &Arc<T>)
    requires
        refers_to(w, s),
        Some(u@) == w@,
    ensures
        same_block(u, s),
{
}

/// `eq_weak` and `eq_arc` agree symmetrically: both compute `refers_to`, so
/// for a weak handle taken from `s` both return true, and they keep doing so
/// after either side is cloned.
pub proof fn lemma_cross_equality<T>(s: &Arc<T>, w: &Weak<T>, sc: &Arc<T>, wc: &Weak<T>)
    requires
        refers_to(w, s),
        same_block(sc, s),
        wc@ == w@,
    ensures
        refers_to(w, s),
        refers_to(wc, s),
        refers_to(w, sc),
        refers_to(wc, sc),
{
}

/// Round trip through a strong ownership claim: reconstruction yields a
/// handle identity-equal to the consumed one. No operation on the claim
/// touches a count, so the counts are unchanged by the round trip itself.
pub proof fn lemma_strong_claim_round_trip<T>(s: &Arc<T>, c: &StrongClaim<T>, r: &Arc<T>)
    requires
        c@ == s@,
        r@ == c@,
    ensures
        same_block(r, s),
{
}

/// Round trip through a weak ownership claim: reconstruction yields a weak
/// handle with the identity of the consumed one.
pub proof fn lemma_weak_claim_round_trip<T>(w: &Weak<T>, c: &WeakClaim<T>, r: &Weak<T>)
    requires
        c@ == w@,
        r@ == c@,
    ensures
        r@ == w@,
{
}

} // verus!
