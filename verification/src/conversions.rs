//! The semantics of the two generated conversions.
//!
//! The generated code converts the domain type to the wire type by evaluating
//! the domain value as its representation integer, and the wire type to the
//! domain type by comparing the wire value against each associated constant
//! in declaration order, falling back to the catch-all. Both conversions are
//! total. A domain variant is identified here by its position: positions
//! below the constant count name the source variants, and the position one
//! past them names the appended catch-all (when one is appended).

use vstd::prelude::*;

use crate::transform::{plan_wf, Plan, PlanView};

verus! {

/// How many variants the domain type has: the source variants plus the
/// appended catch-all, if one is appended.
pub open spec fn domain_count(p: PlanView) -> int {
    p.constants.len() + (if p.catch_all_appended {
        1int
    } else {
        0int
    })
}

/// The integer the domain variant at position `i` evaluates to: a source
/// variant's computed discriminant; for the appended catch-all, the successor
/// of the last variant's discriminant (zero when there are no variants),
/// which is what the host compiler assigns a variant without an explicit
/// discriminant.
pub open spec fn domain_value(p: PlanView, i: int) -> int {
    if i < p.constants.len() {
        p.constants[i].value
    } else if p.constants.len() == 0 {
        0
    } else {
        p.constants[p.constants.len() - 1].value + 1
    }
}

/// Whether the domain variant at position `r` is the catch-all: the appended
/// position, or the first source variant carrying the catch-all's name.
pub open spec fn catches(p: PlanView, r: int) -> bool {
    if p.catch_all_appended {
        r == p.constants.len()
    } else {
        &&& 0 <= r < p.constants.len()
        &&& p.constants[r].ident == p.catch_all_ident
        &&& forall|j: int| 0 <= j < r ==> (#[trigger] p.constants[j]).ident != p.catch_all_ident
    }
}

/// Whether the generated wire-to-domain conversion takes the wire value `w`
/// to the domain variant at position `r`: the first variant whose associated
/// constant equals `w`, and the catch-all when none does.
pub open spec fn converts_to(p: PlanView, w: int, r: int) -> bool {
    ||| (0 <= r < p.constants.len() && p.constants[r].value == w && forall|j: int|
        0 <= j < r ==> (#[trigger] p.constants[j]).value != w)
    ||| ((forall|i: int| 0 <= i < p.constants.len() ==> (#[trigger] p.constants[i]).value != w)
        && catches(p, r))
}

/// Converts a wire value to its domain variant, as the generated conversion
/// does: the first variant whose associated constant equals the wire value,
/// else the catch-all.
pub fn wire_to_domain(plan: &Plan, wire: i128) -> (r: usize)
    requires
        plan_wf(plan@),
    ensures
        converts_to(plan@, wire as int, r as int),
{
    let n = plan.constants.len();
    let mut i: usize = 0;
    while i < n
        invariant
            n == plan.constants.len(),
            i <= n,
            forall|j: int| 0 <= j < i ==> (#[trigger] plan@.constants[j]).value != wire as int,
        decreases n - i,
    {
        assert(plan@.constants[i as int] == plan.constants@[i as int]@);
        if plan.constants[i].value == wire {
            return i;
        }
        i += 1;
    }
    if plan.catch_all_appended {
        assert(catches(plan@, n as int));
        return n;
    }
    let mut k: usize = 0;
    while k < n
        invariant
            n == plan.constants.len(),
            plan_wf(plan@),
            !plan@.catch_all_appended,
            k <= n,
            forall|j: int| 0 <= j < n ==> (#[trigger] plan@.constants[j]).value != wire as int,
            forall|j: int| 0 <= j < k ==> (#[trigger] plan@.constants[j]).ident
                != plan@.catch_all_ident,
        decreases n - k,
    {
        assert(plan@.constants[k as int] == plan.constants@[k as int]@);
        if plan.constants[k].ident == plan.catch_all_ident {
            assert(catches(plan@, k as int));
            return k;
        }
        k += 1;
    }
    // A plan that does not append its catch-all names an existing constant,
    // so the scan above cannot run out.
    assert(false);
    0
}

/// Converts a domain variant to its wire value, as the generated conversion
/// does: the variant evaluated as the representation integer.
pub fn domain_to_wire(plan: &Plan, variant: usize) -> (w: i128)
    requires
        plan_wf(plan@),
        (variant as int) < domain_count(plan@),
    ensures
        w as int == domain_value(plan@, variant as int),
{
    let n = plan.constants.len();
    if variant < n {
        assert(plan@.constants[variant as int] == plan.constants@[variant as int]@);
        plan.constants[variant].value
    } else if n == 0 {
        0
    } else {
        assert(plan@.constants[n - 1] == plan.constants@[n - 1]@);
        plan.constants[n - 1].value + 1
    }
}

/// Round trip through known variants: when the constants' values are
/// pairwise distinct (the host compiler enforces as much on the domain
/// type's discriminants), the wire value of the source variant at position
/// `i` converts to the domain variant at position `i`, and that domain
/// variant's wire value is the same constant.
pub proof fn lemma_round_trip(p: PlanView, i: int)
    requires
        plan_wf(p),
        0 <= i < p.constants.len(),
        forall|k: int, l: int|
            0 <= k < l < p.constants.len() ==> (#[trigger] p.constants[k]).value != (
            #[trigger] p.constants[l]).value,
    ensures
        converts_to(p, p.constants[i].value, i),
        domain_value(p, i) == p.constants[i].value,
{
    assert(forall|j: int|
        0 <= j < i ==> (#[trigger] p.constants[j]).value != p.constants[i].value);
}

/// Catch-all for unknown values: a wire value equal to none of the
/// associated constants converts to the catch-all, and only to it.
pub proof fn lemma_catch_all_for_unknown(p: PlanView, w: int, r: int)
    requires
        plan_wf(p),
        forall|i: int| 0 <= i < p.constants.len() ==> (#[trigger] p.constants[i]).value != w,
        converts_to(p, w, r),
    ensures
        catches(p, r),
{
}

} // verus!
