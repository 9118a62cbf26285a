//! Policy sets in XACML.

use crate::ast::condition::Condition;
use crate::ast::naming::{filled, resolvable, NameSlot};
use crate::ast::policy::{policy_filename, Policy};
use crate::ast::policyset::{
    entry_deep, entry_threaded, entry_weight, entry_well_formed, lemma_member_weighs_less,
    lemma_well_formed_deep, on_permit_apply_second, permit_overrides, policy_weight, set_weight,
    set_well_formed, PolicyEntry, PolicyReference, PolicySet,
};
use crate::context::{found, upcoming, Context, Declarations};
use crate::errors::{ErrorKind, ParseError};
use crate::identifiers::{is_identifier, policy_uri};
use crate::resolver::resolve;
use crate::text::{clone_opt_string, join, opt_view, path_view};
use crate::xacml::xcondition::condition_of;
use crate::ast::policyset::is_guard;
use crate::identifiers::can_name_rule;
use crate::xacml::xpolicy::{
    entry_trouble, is_policy_of, lemma_only_named_trans, only_named, policy_body_trouble,
    rule_combinator_uri, XPolicy,
};
use crate::xacml::xrule::rule_body_of;
use crate::xacml::xpolicyentry::{entry_policies, entry_policysets, entry_rules, XPolicyEntry};
use crate::xacml::xprescription::{blocks_of, PrescriptionView, XPrescriptions};
use crate::xacml::xrule::optional_target_of;
use crate::xacml::xtarget::{XMatchView, XTarget};
use vstd::prelude::*;
use vstd::string::*;

verus! {

/// A `<PolicySet>` element and all that it holds.
#[derive(Debug, PartialEq, Eq, Default)]
pub struct XPolicySet {
    /// The identifier of the policy set.
    pub id: String,
    /// The name of the file for the policy set.
    pub filename: Option<String>,
    /// The URI of the policy-combining algorithm.
    pub combining_alg: String,
    pub description: Option<String>,
    pub target: XTarget,
    pub prescriptions: XPrescriptions,
    pub children: Vec<XPolicyEntry>,
}

/// What is counted in a policy set.
#[derive(Debug, Clone, Copy, PartialEq, Eq, Structural)]
pub enum Counted {
    Rules,
    Policies,
    PolicySets,
}

/// What the first `n` members of `ps` add to the count of `what`.
pub open spec fn counted_upto(ps: XPolicySet, what: Counted, n: nat) -> nat
    decreases ps, n,
{
    if n == 0 || n > ps.children@.len() {
        0
    } else {
        let e = ps.children@[n - 1];
        let below: nat = match e {
            XPolicyEntry::PolicyIdRef(_) => 0,
            XPolicyEntry::PolicySetIdRef(_) => 0,
            XPolicyEntry::Policy(p) => match what {
                Counted::Rules => p.rules@.len(),
                Counted::Policies => 1,
                Counted::PolicySets => 0,
            },
            XPolicyEntry::PolicySet(p) => counted_upto(p, what, p.children@.len()) + (if what
                == Counted::PolicySets {
                1nat
            } else {
                0nat
            }),
        };
        counted_upto(ps, what, (n - 1) as nat) + below
    }
}

/// The number of rules in the policy set and in all that it holds.
pub open spec fn set_rules(ps: XPolicySet) -> nat {
    counted_upto(ps, Counted::Rules, ps.children@.len())
}

/// The number of policies in the policy set and in all that it holds.
pub open spec fn set_policies(ps: XPolicySet) -> nat {
    counted_upto(ps, Counted::Policies, ps.children@.len())
}

/// The number of policy sets in the policy set and in all that it holds,
/// the policy set itself not included.
pub open spec fn set_policysets(ps: XPolicySet) -> nat {
    counted_upto(ps, Counted::PolicySets, ps.children@.len())
}

/// The count over fewer members is no larger.
pub proof fn lemma_counted_grows(ps: XPolicySet, what: Counted, a: nat, b: nat)
    requires
        a <= b <= ps.children@.len(),
    ensures
        counted_upto(ps, what, a) <= counted_upto(ps, what, b),
    decreases b,
{
    if a < b {
        lemma_counted_grows(ps, what, a, (b - 1) as nat);
    }
}

impl XPolicySet {
    /// Counts `what` in the policy set and in all that it holds.
    pub fn count(&self, what: Counted) -> (r: usize)
        requires
            counted_upto(*self, what, self.children@.len()) <= usize::MAX,
        ensures
            r == counted_upto(*self, what, self.children@.len()),
        decreases self,
    {
        let mut total: usize = 0;
        let mut i: usize = 0;
        while i < self.children.len()
            invariant
                i <= self.children.len(),
                total == counted_upto(*self, what, i as nat),
                counted_upto(*self, what, self.children@.len()) <= usize::MAX,
            decreases self.children.len() - i,
        {
            proof {
                lemma_counted_grows(*self, what, (i + 1) as nat, self.children@.len());
                assert(decreases_to!(self => self.children@[i as int]));
            }
            let below: usize = match &self.children[i] {
                XPolicyEntry::PolicyIdRef(_) => 0,
                XPolicyEntry::PolicySetIdRef(_) => 0,
                XPolicyEntry::Policy(p) => match what {
                    Counted::Rules => p.rule_count(),
                    Counted::Policies => 1,
                    Counted::PolicySets => 0,
                },
                XPolicyEntry::PolicySet(p) => {
                    let inner = p.count(what);
                    match what {
                        Counted::PolicySets => inner + 1,
                        _ => inner,
                    }
                },
            };
            total = total + below;
            i = i + 1;
        }
        total
    }

    /// Counts `what` in the policy set and in all that it holds, where
    /// the count is a `usize`; `None` where it is too large for one.
    #[verifier::loop_isolation(false)]
    pub fn checked_count(&self, what: Counted) -> (r: Option<usize>)
        ensures
            match r {
                Some(n) => n == counted_upto(*self, what, self.children@.len()),
                None => counted_upto(*self, what, self.children@.len()) > usize::MAX,
            },
        decreases self,
    {
        let mut total: usize = 0;
        let mut i: usize = 0;
        while i < self.children.len()
            invariant
                i <= self.children.len(),
                total == counted_upto(*self, what, i as nat),
            decreases self.children.len() - i,
        {
            proof {
                lemma_counted_grows(*self, what, (i + 1) as nat, self.children@.len());
                assert(decreases_to!(self => self.children@[i as int]));
            }
            let below: Option<usize> = match &self.children[i] {
                XPolicyEntry::PolicyIdRef(_) => Some(0),
                XPolicyEntry::PolicySetIdRef(_) => Some(0),
                XPolicyEntry::Policy(p) => match what {
                    Counted::Rules => Some(p.rules.len()),
                    Counted::Policies => Some(1),
                    Counted::PolicySets => Some(0),
                },
                XPolicyEntry::PolicySet(p) => match p.checked_count(what) {
                    None => None,
                    Some(inner) => match what {
                        Counted::PolicySets => inner.checked_add(1),
                        _ => Some(inner),
                    },
                },
            };
            match below {
                None => {
                    return None;
                },
                Some(b) => match total.checked_add(b) {
                    None => {
                        return None;
                    },
                    Some(t) => {
                        total = t;
                    },
                },
            }
            i = i + 1;
        }
        Some(total)
    }

    /// The number of rules in the policy set and in all that it holds.
    pub fn rule_count(&self) -> (r: usize)
        requires
            set_rules(*self) <= usize::MAX,
        ensures
            r == set_rules(*self),
    {
        self.count(Counted::Rules)
    }

    /// The number of policies in the policy set and in all that it holds.
    pub fn policy_count(&self) -> (r: usize)
        requires
            set_policies(*self) <= usize::MAX,
        ensures
            r == set_policies(*self),
    {
        self.count(Counted::Policies)
    }

    /// The number of policy sets in the policy set and in all that it
    /// holds, the policy set itself not included.
    pub fn policyset_count(&self) -> (r: usize)
        requires
            set_policysets(*self) <= usize::MAX,
        ensures
            r == set_policysets(*self),
    {
        self.count(Counted::PolicySets)
    }
}

/// The URI of the policy-combining algorithm named `name` in the namespace
/// `ns`.
pub open spec fn policy_combinator_uri(
    ctx: Declarations,
    name: Seq<char>,
    ns: Seq<Seq<char>>,
) -> Result<Seq<char>, ErrorKind> {
    match found(resolve(ctx.policycombinator_resolver@.dom(), name, ns, ctx.imports_for(ns))) {
        Ok(n) => Ok(ctx.policycombinator_resolver@[n].uri@),
        Err(k) => Err(k),
    }
}

/// Whether `x` is the reference of XACML for the reference `pr`, written
/// in the namespace `ns`: a reference to a policy set where the name
/// stands for a policy set, or for a policy with a condition, and a
/// reference to a policy where it stands for a policy without one. A name
/// that stands for neither has no reference.
pub open spec fn reference_kind(
    decls: Declarations,
    pr: PolicyReference,
    ns: Seq<Seq<char>>,
    x: XPolicyEntry,
) -> bool {
    match found(
        resolve(decls.policyset_resolver@.dom(), pr.spec_name(), ns, decls.imports_for(ns)),
    ) {
        Ok(_) => x is PolicySetIdRef,
        Err(_) => match found(
            resolve(decls.policy_resolver@.dom(), pr.spec_name(), ns, decls.imports_for(ns)),
        ) {
            Ok(n) => if decls.policy_resolver@[n].conditioned {
                x is PolicySetIdRef
            } else {
                x is PolicyIdRef
            },
            Err(_) => false,
        },
    }
}

/// Whether `x` is the member of XACML for the member `e` of a policy set
/// that is written in the namespace `ns`, converted with the declarations
/// `decls` and the prefix `base` in a state from which `after` came by
/// naming alone.
///
/// A policy without a condition becomes a policy, as `is_policy_of`
/// states it; a policy with a condition becomes a policy set, as
/// `is_guarded_policy` states it; a policy set becomes a policy set, as
/// `is_set_of` states it; a reference becomes a reference, as
/// `reference_kind` states it.
pub open spec fn member_holds(
    decls: Declarations,
    base: Seq<char>,
    after: Context,
    ns: Seq<Seq<char>>,
    e: PolicyEntry,
    x: XPolicyEntry,
) -> bool
    decreases entry_weight(e), 1nat,
{
    match e {
        PolicyEntry::Ref(pr) => reference_kind(decls, pr, ns, x),
        PolicyEntry::Policy(q) => exists|at: Context|
            {
                &&& #[trigger] only_named(at, after)
                &&& if q.condition is Some {
                    x matches XPolicyEntry::PolicySet(xs) && is_guarded_policy(
                        xs,
                        decls,
                        base,
                        at,
                        q,
                    )
                } else {
                    x matches XPolicyEntry::Policy(xp) && is_policy_of(xp, decls, base, at, q)
                }
            },
        PolicyEntry::PolicySet(s) => exists|at: Context|
            {
                &&& #[trigger] only_named(at, after)
                &&& x matches XPolicyEntry::PolicySet(xs)
                &&& is_set_of(xs, decls, base, at, s)
            },
    }
}

/// A member that was converted in a state from which `mid` came was
/// converted in a state from which `after` came.
pub proof fn lemma_member_stays(
    decls: Declarations,
    base: Seq<char>,
    mid: Context,
    after: Context,
    ns: Seq<Seq<char>>,
    e: PolicyEntry,
    x: XPolicyEntry,
)
    requires
        member_holds(decls, base, mid, ns, e, x),
        only_named(mid, after),
    ensures
        member_holds(decls, base, after, ns, e, x),
{
    match e {
        PolicyEntry::Ref(_) => {},
        PolicyEntry::Policy(q) => {
            let at = choose|at: Context|
                {
                    &&& #[trigger] only_named(at, mid)
                    &&& if q.condition is Some {
                        x matches XPolicyEntry::PolicySet(xs) && is_guarded_policy(
                            xs,
                            decls,
                            base,
                            at,
                            q,
                        )
                    } else {
                        x matches XPolicyEntry::Policy(xp) && is_policy_of(xp, decls, base, at, q)
                    }
                };
            lemma_only_named_trans(at, mid, after);
        },
        PolicyEntry::PolicySet(s) => {
            let at = choose|at: Context|
                {
                    &&& #[trigger] only_named(at, mid)
                    &&& x matches XPolicyEntry::PolicySet(xs)
                    &&& is_set_of(xs, decls, base, at, s)
                };
            lemma_only_named_trans(at, mid, after);
        },
    }
}

/// Whether the guard for the condition `c` of a policy or policy set with
/// the namespace `ns` and the name path `path` cannot be made in the state
/// `ctx`: one of the two combining algorithms of a deconditioned element is
/// not found, the condition has no counterpart, a name on the path is not
/// settled, or the namespace has no rule number left for the rule of the
/// guard.
pub open spec fn guard_trouble(
    ctx: Context,
    c: Condition,
    ns: Seq<Seq<char>>,
    path: Seq<NameSlot>,
) -> bool {
    ||| policy_combinator_uri(ctx.decls, on_permit_apply_second(), ns) is Err
    ||| rule_combinator_uri(ctx.decls, permit_overrides(), ns) is Err
    ||| condition_of(ctx.decls, c) is Err
    ||| !resolvable(path, ctx.slots@)
    ||| upcoming(ctx.rule_id_mapping@, join(ns, "."@)) > usize::MAX
}

/// Whether the policy `p` cannot be converted in the state `ctx`: it has a
/// condition for which no guard can be made, or a part of it other than the
/// condition cannot be converted.
pub open spec fn policy_trouble(ctx: Context, p: Policy) -> bool {
    ||| p.condition matches Some(c) && guard_trouble(ctx, c, path_view(p.ns@), p.policy_ns@)
    ||| policy_body_trouble(ctx, p)
}

/// Whether the reference `name`, written in the namespace `ns`, stands
/// neither for a policy set nor for a policy.
pub open spec fn dangling(decls: Declarations, name: Seq<char>, ns: Seq<Seq<char>>) -> bool {
    &&& found(resolve(decls.policyset_resolver@.dom(), name, ns, decls.imports_for(ns))) is Err
    &&& found(resolve(decls.policy_resolver@.dom(), name, ns, decls.imports_for(ns))) is Err
}

/// Whether the member `e` of a policy set in the namespace `ns` cannot be
/// converted in the state `ctx`.
pub open spec fn member_trouble(ctx: Context, e: PolicyEntry, ns: Seq<Seq<char>>) -> bool
    decreases e, 0nat,
{
    match e {
        PolicyEntry::Ref(pr) => dangling(ctx.decls, pr.spec_name(), ns),
        PolicyEntry::Policy(p) => policy_trouble(ctx, p),
        PolicyEntry::PolicySet(ps) => set_trouble(ctx, ps),
    }
}

/// Whether the policy set `p` cannot be converted in the state `ctx`: it
/// has a condition for which no guard can be made, the policy-combining
/// algorithm is not found, the target or the obligations and advice have no
/// counterpart, or one of the members cannot be converted.
pub open spec fn set_trouble(ctx: Context, p: PolicySet) -> bool
    decreases p, 1nat,
{
    let ns = path_view(p.ns@);
    ||| p.condition matches Some(c) && guard_trouble(ctx, c, ns, p.policy_ns@)
    ||| policy_combinator_uri(ctx.decls, p.apply.id@, ns) is Err
    ||| optional_target_of(ctx.decls, p.target) is Err
    ||| blocks_of(ctx.decls, p.prescriptions@, p.prescriptions@.len()) is Err
    ||| exists|i: int|
        0 <= i < p.policies@.len() && member_trouble(ctx, #[trigger] p.policies@[i], ns)
}

/// A path with the settled name `name` put into it at `idx` is settled
/// wherever the path without it is.
pub proof fn lemma_insert_resolvable(
    path: Seq<NameSlot>,
    name: NameSlot,
    idx: int,
    slots: Seq<Option<Seq<char>>>,
)
    requires
        0 <= idx <= path.len(),
        filled(slots, name),
        resolvable(path, slots),
    ensures
        resolvable(path.insert(idx, name), slots),
{
    let longer = path.insert(idx, name);
    assert forall|i: int| 0 <= i < longer.len() implies filled(slots, #[trigger] longer[i]) by {
        if i < idx {
            assert(longer[i] == path[i]);
        } else if i > idx {
            assert(longer[i] == path[i - 1]);
        }
    }
}

/// A guard that cannot be made with the settled name `name` put into the
/// path at `idx` cannot be made without it either.
proof fn lemma_threaded_guard(
    ctx: Context,
    c: Condition,
    ns: Seq<Seq<char>>,
    path: Seq<NameSlot>,
    name: NameSlot,
    idx: int,
)
    requires
        0 <= idx <= path.len(),
        filled(ctx.slots@, name),
        guard_trouble(ctx, c, ns, path.insert(idx, name)),
    ensures
        guard_trouble(ctx, c, ns, path),
{
    if resolvable(path, ctx.slots@) {
        lemma_insert_resolvable(path, name, idx, ctx.slots@);
    }
}

/// A member that cannot be converted with the settled name `name` put into
/// its name paths at depth `idx` cannot be converted without it either.
pub proof fn lemma_threaded_trouble(
    ctx: Context,
    before: PolicyEntry,
    after: PolicyEntry,
    name: NameSlot,
    idx: int,
    ns: Seq<Seq<char>>,
)
    requires
        entry_threaded(before, after, name, idx),
        entry_deep(before, idx),
        0 <= idx,
        filled(ctx.slots@, name),
        member_trouble(ctx, after, ns),
    ensures
        member_trouble(ctx, before, ns),
    decreases before,
{
    match before {
        PolicyEntry::Ref(_) => {},
        PolicyEntry::Policy(p) => {
            let q = after->Policy_0;
            if policy_body_trouble(ctx, q) {
                lemma_same_parts_same_trouble(ctx, p, q);
            } else {
                lemma_threaded_guard(
                    ctx,
                    p.condition->Some_0,
                    path_view(p.ns@),
                    p.policy_ns@,
                    name,
                    idx,
                );
            }
        },
        PolicyEntry::PolicySet(ps) => {
            let qs = after->PolicySet_0;
            let inner = path_view(ps.ns@);
            if qs.condition is Some && guard_trouble(
                ctx,
                qs.condition->Some_0,
                inner,
                qs.policy_ns@,
            ) {
                lemma_threaded_guard(ctx, ps.condition->Some_0, inner, ps.policy_ns@, name, idx);
            } else if exists|i: int|
                0 <= i < qs.policies@.len() && member_trouble(ctx, #[trigger] qs.policies@[i], inner) {
                let i = choose|i: int|
                    0 <= i < qs.policies@.len() && member_trouble(
                        ctx,
                        #[trigger] qs.policies@[i],
                        inner,
                    );
                assert(entry_threaded(ps.policies@[i], qs.policies@[i], name, idx));
                assert(entry_deep(ps.policies@[i], idx));
                lemma_threaded_trouble(ctx, ps.policies@[i], qs.policies@[i], name, idx, inner);
                assert(member_trouble(ctx, ps.policies@[i], inner));
            }
        },
    }
}

/// Whether the parts of a policy other than its condition can be converted
/// does not depend on its name path.
proof fn lemma_same_parts_same_trouble(ctx: Context, p: Policy, q: Policy)
    requires
        q.rules == p.rules,
        q.ns == p.ns,
        q.apply == p.apply,
        q.target == p.target,
        q.prescriptions == p.prescriptions,
        policy_body_trouble(ctx, q),
    ensures
        policy_body_trouble(ctx, p),
{
    let ns = path_view(p.ns@);
    if exists|i: int| 0 <= i < q.rules@.len() && entry_trouble(ctx, #[trigger] q.rules@[i], ns) {
        let i = choose|i: int| 0 <= i < q.rules@.len() && entry_trouble(ctx, #[trigger] q.rules@[i], ns);
        assert(entry_trouble(ctx, p.rules@[i], ns));
    }
}

/// Where the policy set `outer` that deconditioning made cannot be
/// converted, no guard can be made for the condition `c`, or the second
/// member of `outer` cannot be converted.
proof fn lemma_wrapper_trouble(
    ctx: Context,
    outer: PolicySet,
    c: Condition,
    ns: Seq<Seq<char>>,
    path: Seq<NameSlot>,
    cond: NameSlot,
)
    requires
        outer.condition is None,
        outer.target is None,
        outer.prescriptions@.len() == 0,
        outer.apply.id@ == on_permit_apply_second(),
        path_view(outer.ns@) == ns,
        outer.policies@.len() == 2,
        outer.policies@[0] matches PolicyEntry::Policy(guard) && is_guard(
            guard,
            c,
            ns,
            path.push(cond),
        ),
        filled(ctx.slots@, cond),
        set_trouble(ctx, outer),
    ensures
        guard_trouble(ctx, c, ns, path) || member_trouble(ctx, outer.policies@[1], ns),
{
    let guard = outer.policies@[0]->Policy_0;
    let rd = guard.rules@[0]->Def_0;
    if resolvable(path, ctx.slots@) {
        assert forall|i: int| 0 <= i < path.push(cond).len() implies filled(
            ctx.slots@,
            #[trigger] path.push(cond)[i],
        ) by {
            if i < path.len() {
                assert(path.push(cond)[i] == path[i]);
            }
        }
    }
    if !guard_trouble(ctx, c, ns, path) && !member_trouble(ctx, outer.policies@[1], ns) {
        assert(blocks_of(ctx.decls, outer.prescriptions@, 0) is Ok);
        assert(optional_target_of(ctx.decls, outer.target) is Ok);
        assert(blocks_of(ctx.decls, guard.prescriptions@, 0) is Ok);
        assert(optional_target_of(ctx.decls, guard.target) is Ok);
        assert(blocks_of(ctx.decls, rd.prescriptions@, 0) is Ok);
        assert(optional_target_of(ctx.decls, rd.target) is Ok);
        assert(can_name_rule(ctx, opt_view(rd.id), ns, rd.policy_ns@));
        assert(rule_body_of(ctx.decls, rd) is Ok);
        assert(!entry_trouble(ctx, guard.rules@[0], ns));
        assert(!policy_body_trouble(ctx, guard));
        assert(!member_trouble(ctx, outer.policies@[0], ns));
        assert(false);
    }
}

/// What is stated of the policy set `x` of XACML that the conversion of
/// the policy set with the fields given makes, `after` being the context
/// behind the conversion.
pub open spec fn set_converted(
    x: XPolicySet,
    decls: Declarations,
    base: Seq<char>,
    after: Context,
    id: crate::ast::policy::PolicyIdView,
    ns: Seq<Seq<char>>,
    path: Seq<crate::ast::naming::NameSlot>,
    description: Option<Seq<char>>,
    apply: Seq<char>,
) -> bool {
    &&& policy_combinator_uri(decls, apply, ns) == Ok::<Seq<char>, ErrorKind>(x.combining_alg@)
    &&& opt_view(x.description) == description
    &&& opt_view(x.filename) == policy_filename(ns, path, after.slots@)
    &&& is_identifier(x.id@, policy_uri(base, id, ns, path, after.slots@))
}

/// Whether `x` is the policy of XACML for the policy `q`, which has no
/// condition, converted with the declarations `decls` and the prefix
/// `base` in a state from which `after` came by naming alone.
pub open spec fn policy_held(
    decls: Declarations,
    base: Seq<char>,
    after: Context,
    q: Policy,
    x: XPolicyEntry,
) -> bool {
    exists|at: Context|
        {
            &&& #[trigger] only_named(at, after)
            &&& x matches XPolicyEntry::Policy(xp)
            &&& is_policy_of(xp, decls, base, at, q)
        }
}

/// Whether `guard` and `orig` are what deconditioning makes of the policy
/// set `p` with the slots `cond` and `slot` for their names: the guard
/// for the condition of `p`, and `p` itself under the name `orig`, without
/// its condition and with the new slot put into the name path of all that
/// it holds.
pub open spec fn deconditioned_set(
    p: PolicySet,
    guard: Policy,
    orig: PolicySet,
    cond: NameSlot,
    slot: NameSlot,
) -> bool {
    &&& p.condition matches Some(c)
    &&& is_guard(guard, c, path_view(p.ns@), p.policy_ns@.push(cond))
    &&& orig.id@ == crate::ast::policy::PolicyIdView::PolicyName("orig"@)
    &&& orig.policy_ns@ == p.policy_ns@.push(slot)
    &&& orig.ns == p.ns
    &&& orig.description == p.description
    &&& orig.target == p.target
    &&& orig.condition is None
    &&& orig.apply == p.apply
    &&& orig.prescriptions == p.prescriptions
    &&& orig.policies@.len() == p.policies@.len()
    &&& forall|i: int|
        0 <= i < p.policies@.len() ==> entry_threaded(
            #[trigger] p.policies@[i],
            orig.policies@[i],
            slot,
            p.policy_ns@.len() as int,
        )
}

/// Whether `guard` and `orig` are what deconditioning makes of the policy
/// `p` with the slots `cond` and `slot` for their names: the guard for
/// the condition of `p`, and `p` itself under the name `orig`, without its
/// condition.
pub open spec fn deconditioned_policy(
    p: Policy,
    guard: Policy,
    orig: Policy,
    cond: NameSlot,
    slot: NameSlot,
) -> bool {
    &&& p.condition matches Some(c)
    &&& is_guard(guard, c, path_view(p.ns@), p.policy_ns@.push(cond))
    &&& orig.id@ == crate::ast::policy::PolicyIdView::PolicyName("orig"@)
    &&& orig.policy_ns@ == p.policy_ns@.push(slot)
    &&& orig.ns == p.ns
    &&& orig.description == p.description
    &&& orig.target == p.target
    &&& orig.condition is None
    &&& orig.apply == p.apply
    &&& orig.rules == p.rules
    &&& orig.prescriptions == p.prescriptions
}

/// Whether `x` is the policy set of XACML for the policy set `p`,
/// converted with the declarations `decls` and the prefix `base`, where
/// `after` is the context after the conversion.
///
/// It has the identifier, the file name and the description of `p`. For a
/// policy set without a condition it has the URI of the policy-combining
/// algorithm, the target, the obligations and advice, and one member for
/// each member of `p`, in order, as `member_holds` states it. For one with a
/// condition it has neither target nor obligations or advice, and applies
/// its second member only where the first permits: the first is the
/// policy of the guard, and the second the policy set of `p` without its
/// condition, as deconditioning makes them.
pub open spec fn is_set_of(
    x: XPolicySet,
    decls: Declarations,
    base: Seq<char>,
    after: Context,
    p: PolicySet,
) -> bool
    decreases set_weight(p), 0nat,
    via is_set_of_decreases
{
    &&& set_converted(
        x,
        decls,
        base,
        after,
        p.id@,
        path_view(p.ns@),
        p.policy_ns@,
        opt_view(p.description),
        if p.condition is Some {
            on_permit_apply_second()
        } else {
            p.apply.id@
        },
    )
    &&& p.condition is None ==> {
        &&& optional_target_of(decls, p.target) == Ok::<Seq<Seq<Seq<XMatchView>>>, ErrorKind>(
            x.target@,
        )
        &&& blocks_of(decls, p.prescriptions@, p.prescriptions@.len()) == Ok::<
            Seq<PrescriptionView>,
            ErrorKind,
        >(x.prescriptions@)
        &&& x.children@.len() == p.policies@.len()
        &&& forall|i: int|
            0 <= i < p.policies@.len() ==> member_holds(
                decls,
                base,
                after,
                path_view(p.ns@),
                #[trigger] p.policies@[i],
                x.children@[i],
            )
    }
    &&& p.condition is Some ==> {
        &&& x.target@.len() == 0
        &&& x.prescriptions@.len() == 0
        &&& x.children@.len() == 2
        &&& x.children@[0] is Policy
        &&& x.children@[1] is PolicySet
        &&& exists|guard: Policy, orig: PolicySet, cond: NameSlot, slot: NameSlot|
            {
                &&& #[trigger] deconditioned_set(p, guard, orig, cond, slot)
                &&& policy_held(decls, base, after, guard, x.children@[0])
                &&& set_weight(orig) < set_weight(p)
                &&& exists|at: Context|
                    {
                        &&& #[trigger] only_named(at, after)
                        &&& x.children@[1] matches XPolicyEntry::PolicySet(xs)
                        &&& is_set_of(xs, decls, base, at, orig)
                    }
            }
    }
}

#[via_fn]
proof fn is_set_of_decreases(
    x: XPolicySet,
    decls: Declarations,
    base: Seq<char>,
    after: Context,
    p: PolicySet,
) {
    assert forall|i: int| 0 <= i < p.policies@.len() implies entry_weight(
        #[trigger] p.policies@[i],
    ) < set_weight(p) by {
        lemma_member_weighs_less(p, i);
    }
}

/// Whether `x` is the policy set of XACML for the policy `p` with a
/// condition, converted with the declarations `decls` and the prefix
/// `base`, where `after` is the context after the conversion: it has the
/// identifier, the file name and the description of `p`, neither target
/// nor obligations or advice, and applies its second member only where
/// the first permits: the first is the policy of the guard, and the second
/// the policy of `p` without its condition, as deconditioning makes them.
pub open spec fn is_guarded_policy(
    x: XPolicySet,
    decls: Declarations,
    base: Seq<char>,
    after: Context,
    p: Policy,
) -> bool {
    &&& set_converted(
        x,
        decls,
        base,
        after,
        p.id@,
        path_view(p.ns@),
        p.policy_ns@,
        opt_view(p.description),
        on_permit_apply_second(),
    )
    &&& x.target@.len() == 0
    &&& x.prescriptions@.len() == 0
    &&& x.children@.len() == 2
    &&& x.children@[0] is Policy
    &&& x.children@[1] is Policy
    &&& exists|guard: Policy, orig: Policy, cond: NameSlot, slot: NameSlot|
        {
            &&& #[trigger] deconditioned_policy(p, guard, orig, cond, slot)
            &&& policy_held(decls, base, after, guard, x.children@[0])
            &&& policy_held(decls, base, after, orig, x.children@[1])
        }
}

impl XPolicySet {
    /// The policy set of XACML for the policy set `p`.
    ///
    /// A policy set with a condition is deconditioned first, and what comes
    /// of that is converted: a policy set of two members, the guard and the
    /// policy set itself without its condition. Else the name of the policy
    /// set is settled; then the policy-combining algorithm is looked up,
    /// and the target, the members in their order and the obligations and
    /// advice are converted. A member that is a policy with a condition
    /// becomes a policy set in the same way. Each member is converted in
    /// the state that the members before it left. A reference becomes a
    /// reference to the identifier of the policy set or policy that the
    /// name stands for; where it stands for neither, the conversion fails
    /// with `UnexpectedRuleError`. Of the context only names and counters
    /// change.
    ///
    /// The conversion ends at the first part that cannot be converted, and
    /// leaves the context as it was then: a policy set that is refused
    /// cannot be converted in the state that is left.
    #[verifier::loop_isolation(false)]
    pub fn try_from(p: PolicySet, ctx: &mut Context) -> (r: Result<Self, ParseError>)
        requires
            p.well_formed(),
        ensures
            only_named(*old(ctx), *final(ctx)),
            r matches Ok(x) ==> is_set_of(
                x,
                old(ctx).decls,
                old(ctx).config.base(),
                *final(ctx),
                p,
            ),
            r is Err ==> set_trouble(*final(ctx), p),
        decreases set_weight(p), 0nat,
    {
        if p.condition.is_some() {
            let ghost before = *ctx;
            let pd = match p.decondition(&mut ctx.slots) {
                Ok(pd) => pd,
                Err(e) => {
                    return Err(e);
                },
            };
            let ghost between = *ctx;
            proof {
                assert(only_named(before, between));
                assert(pd.policies@[0] is Policy);
                assert(pd.policies@[1] is PolicySet);
            }
            let converted = XPolicySet::try_from(pd, ctx);
            proof {
                lemma_only_named_trans(before, between, *ctx);
                if converted is Ok {
                    let x = converted->Ok_0;
                    assert(member_holds(
                        before.decls,
                        before.config.base(),
                        *ctx,
                        path_view(p.ns@),
                        pd.policies@[0],
                        x.children@[0],
                    ));
                    assert(member_holds(
                        before.decls,
                        before.config.base(),
                        *ctx,
                        path_view(p.ns@),
                        pd.policies@[1],
                        x.children@[1],
                    ));
                    assert(x.target@ =~= Seq::<Seq<Seq<XMatchView>>>::empty());
                    assert(pd.prescriptions@.len() == 0);
                    let guard = pd.policies@[0]->Policy_0;
                    let orig = pd.policies@[1]->PolicySet_0;
                    let cond = before.slots@.len() as NameSlot;
                    let slot = (before.slots@.len() + 1) as NameSlot;
                    assert(deconditioned_set(p, guard, orig, cond, slot));
                    assert(policy_held(
                        before.decls,
                        before.config.base(),
                        *ctx,
                        guard,
                        x.children@[0],
                    ));
                    lemma_member_weighs_less(pd, 1);
                    assert(set_weight(orig) < set_weight(p));
                } else {
                    let ns = path_view(p.ns@);
                    let cond = before.slots@.len() as NameSlot;
                    let orig_slot = (before.slots@.len() + 1) as NameSlot;
                    let depth = p.policy_ns@.len() as int;
                    between.slots.lemma_countable();
                    assert(filled(between.slots@, cond));
                    assert(filled(between.slots@, orig_slot));
                    lemma_wrapper_trouble(*ctx, pd, p.condition->Some_0, ns, p.policy_ns@, cond);
                    if !guard_trouble(*ctx, p.condition->Some_0, ns, p.policy_ns@) {
                        let orig = pd.policies@[1]->PolicySet_0;
                        assert(set_trouble(*ctx, orig));
                        if exists|i: int|
                            0 <= i < orig.policies@.len() && member_trouble(
                                *ctx,
                                #[trigger] orig.policies@[i],
                                ns,
                            ) {
                            let i = choose|i: int|
                                0 <= i < orig.policies@.len() && member_trouble(
                                    *ctx,
                                    #[trigger] orig.policies@[i],
                                    ns,
                                );
                            assert(entry_threaded(
                                p.policies@[i],
                                orig.policies@[i],
                                orig_slot,
                                depth,
                            ));
                            assert(entry_well_formed(p.policies@[i], depth));
                            lemma_well_formed_deep(p.policies@[i], depth, depth);
                            lemma_threaded_trouble(
                                *ctx,
                                p.policies@[i],
                                orig.policies@[i],
                                orig_slot,
                                depth,
                                ns,
                            );
                        }
                    }
                }
            }
            return converted;
        }
        p.finalize_id(ctx);
        let ghost named = *ctx;
        let found_alg = match ctx.lookup_policy_combinator(p.apply.id.as_str(), p.ns.as_slice()) {
            Ok(c) => Ok(c.uri.clone()),
            Err(e) => Err(e),
        };
        let combining_alg = found_alg?;
        let target = XTarget::try_from_option(&p.target, ctx)?;
        proof {
            if p.target is None {
                assert(target@ =~= Seq::<Seq<Seq<XMatchView>>>::empty());
            }
        }
        let prescriptions = XPrescriptions::try_from(&p.prescriptions, ctx)?;
        let description = clone_opt_string(&p.description);
        let PolicySet {
            id,
            ns,
            policy_ns,
            src_loc,
            description: _,
            target: _,
            condition: _,
            apply: _,
            policies,
            prescriptions: _,
        } = p;
        let mut rest = policies;
        let mut children: Vec<XPolicyEntry> = Vec::new();
        while rest.len() > 0
            invariant
                children@.len() + rest@.len() == p.policies@.len(),
                rest@ == p.policies@.subrange(children@.len() as int, p.policies@.len() as int),
                only_named(named, *ctx),
                forall|i: int|
                    0 <= i < children@.len() ==> member_holds(
                        old(ctx).decls,
                        old(ctx).config.base(),
                        *ctx,
                        path_view(p.ns@),
                        #[trigger] p.policies@[i],
                        children@[i],
                    ),
            decreases rest@.len(),
        {
            let ghost k = children@.len() as int;
            let ghost at_start = *ctx;
            let member = rest.remove(0);
            proof {
                assert(member == p.policies@[k]);
                assert(rest@ =~= p.policies@.subrange(k + 1, p.policies@.len() as int));
                lemma_member_weighs_less(p, k);
                assert(entry_well_formed(p.policies@[k], p.policy_ns@.len() as int));
            }
            let converted = match member {
                PolicyEntry::Ref(pr) => {
                    let name = pr.fully_qualified_name();
                    match ctx.lookup_policyset(name.as_str(), ns.as_slice()) {
                        Ok(ps) => XPolicyEntry::PolicySetIdRef(ps.get_id(ctx)),
                        Err(_) => match ctx.lookup_policy(name.as_str(), ns.as_slice()) {
                            Ok(ps) => if ps.conditioned {
                                XPolicyEntry::PolicySetIdRef(ps.get_id(ctx))
                            } else {
                                XPolicyEntry::PolicyIdRef(ps.get_id(ctx))
                            },
                            Err(_) => {
                                proof {
                                    lemma_only_named_trans(*old(ctx), named, *ctx);
                                    assert(member_trouble(*ctx, p.policies@[k], path_view(p.ns@)));
                                }
                                return Err(
                                    ParseError::UnexpectedRuleError(
                                        "Could not find policy/policyset for policy reference".to_owned(),
                                    ),
                                );
                            },
                        },
                    }
                },
                PolicyEntry::PolicySet(inner) => {
                    match XPolicySet::try_from(inner, ctx) {
                        Ok(x) => XPolicyEntry::PolicySet(x),
                        Err(e) => {
                            proof {
                                lemma_only_named_trans(named, at_start, *ctx);
                                lemma_only_named_trans(*old(ctx), named, *ctx);
                                assert(member_trouble(*ctx, p.policies@[k], path_view(p.ns@)));
                            }
                            return Err(e);
                        },
                    }
                },
                PolicyEntry::Policy(inner) => {
                    match XPolicyEntry::try_from(inner, ctx) {
                        Ok(x) => x,
                        Err(e) => {
                            proof {
                                lemma_only_named_trans(named, at_start, *ctx);
                                lemma_only_named_trans(*old(ctx), named, *ctx);
                                assert(member_trouble(*ctx, p.policies@[k], path_view(p.ns@)));
                            }
                            return Err(e);
                        },
                    }
                },
            };
            let ghost shown = children@;
            children.push(converted);
            proof {
                lemma_only_named_trans(named, at_start, *ctx);
                assert(only_named(*ctx, *ctx));
                assert(member_holds(
                    old(ctx).decls,
                    old(ctx).config.base(),
                    *ctx,
                    path_view(p.ns@),
                    p.policies@[k],
                    converted,
                ));
                assert forall|i: int| 0 <= i < children@.len() implies member_holds(
                    old(ctx).decls,
                    old(ctx).config.base(),
                    *ctx,
                    path_view(p.ns@),
                    #[trigger] p.policies@[i],
                    children@[i],
                ) by {
                    if i < k {
                        assert(children@[i] == shown[i]);
                        lemma_member_stays(
                            old(ctx).decls,
                            old(ctx).config.base(),
                            at_start,
                            *ctx,
                            path_view(p.ns@),
                            p.policies@[i],
                            children@[i],
                        );
                    }
                }
            }
        }
        let filename = crate::ast::policy::suggested_filename(ns.as_slice(), &policy_ns, &ctx.slots);
        let xid = crate::identifiers::element_id(
            &ctx.config,
            &id,
            ns.as_slice(),
            &policy_ns,
            &ctx.slots,
        );
        proof {
            lemma_only_named_trans(*old(ctx), named, *ctx);
        }
        Ok(
            XPolicySet {
                id: xid,
                filename,
                combining_alg,
                description,
                target,
                prescriptions,
                children,
            },
        )
    }

    /// The policy set of XACML for a policy with a condition: the policy is
    /// deconditioned, and what comes of that is converted. A policy without
    /// a condition is refused with `PolicyNoCondition`. A policy with a
    /// condition that is refused cannot be converted in the state that is
    /// left.
    pub fn try_from_policy(p: Policy, ctx: &mut Context) -> (r: Result<Self, ParseError>)
        requires
            p.well_formed(),
        ensures
            only_named(*old(ctx), *final(ctx)),
            p.condition is None ==> r == Err::<XPolicySet, ParseError>(
                ParseError::PolicyNoCondition,
            ) && *final(ctx) == *old(ctx),
            r matches Ok(x) ==> is_guarded_policy(
                x,
                old(ctx).decls,
                old(ctx).config.base(),
                *final(ctx),
                p,
            ),
            r is Err ==> p.condition is None || policy_trouble(*final(ctx), p),
        decreases policy_weight(p), 0nat,
    {
        if p.condition.is_none() {
            return Err(ParseError::PolicyNoCondition);
        }
        let ghost before = *ctx;
        let pd = match p.decondition(&mut ctx.slots) {
            Ok(pd) => pd,
            Err(e) => {
                return Err(e);
            },
        };
        let ghost between = *ctx;
        proof {
            assert(only_named(before, between));
            assert(pd.policies@[0] is Policy);
            assert(pd.policies@[1] is Policy);
        }
        let converted = XPolicySet::try_from(pd, ctx);
        proof {
            lemma_only_named_trans(before, between, *ctx);
            if converted is Ok {
                let x = converted->Ok_0;
                assert(member_holds(
                        before.decls,
                        before.config.base(),
                        *ctx,
                        path_view(p.ns@),
                        pd.policies@[0],
                        x.children@[0],
                    ));
                assert(member_holds(
                        before.decls,
                        before.config.base(),
                        *ctx,
                        path_view(p.ns@),
                        pd.policies@[1],
                        x.children@[1],
                    ));
                assert(x.target@ =~= Seq::<Seq<Seq<XMatchView>>>::empty());
                assert(pd.prescriptions@.len() == 0);
                let guard = pd.policies@[0]->Policy_0;
                let orig = pd.policies@[1]->Policy_0;
                let cond = before.slots@.len() as NameSlot;
                let slot = (before.slots@.len() + 1) as NameSlot;
                assert(deconditioned_policy(p, guard, orig, cond, slot));
                assert(policy_held(
                    before.decls,
                    before.config.base(),
                    *ctx,
                    guard,
                    x.children@[0],
                ));
                assert(policy_held(before.decls, before.config.base(), *ctx, orig, x.children@[1]));
            } else {
                let ns = path_view(p.ns@);
                let cond = before.slots@.len() as NameSlot;
                between.slots.lemma_countable();
                assert(filled(between.slots@, cond));
                lemma_wrapper_trouble(*ctx, pd, p.condition->Some_0, ns, p.policy_ns@, cond);
                if !guard_trouble(*ctx, p.condition->Some_0, ns, p.policy_ns@) {
                    let orig = pd.policies@[1]->Policy_0;
                    assert(policy_body_trouble(*ctx, orig));
                    lemma_same_parts_same_trouble(*ctx, p, orig);
                }
            }
        }
        converted
    }
}

} // verus!
