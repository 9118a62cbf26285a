//! Policy sets.

use crate::ast::condition::Condition;
use crate::ast::naming::{GenName, NameSlot, NameSlots};
use crate::ast::policy::{
    policy_filename, policy_qualified, qualified_policy_name, suggested_filename, Policy,
    PolicyId, PolicyIdView, RuleCombiningAlgorithm,
};
use crate::ast::prescription::Prescription;
use crate::ast::rule::{Effect, RuleDef, RuleEntry};
use crate::ast::target::Target;
use crate::ast::{Spanned, PROTECTED_NS};
use crate::errors::{ParseError, SrcLoc};
use crate::text::{
    clone_opt_string, clone_strings, dotted, dotted_name, join, join_strings, opt_view, path_view,
};
use vstd::prelude::*;
use vstd::string::*;

verus! {

/// The policy-combining algorithm that a policy set names in its `apply`
/// statement.
#[derive(Debug, PartialEq, Eq)]
pub struct PolicyCombiningAlgorithm {
    /// The name of the algorithm as written.
    pub id: String,
    /// Where the statement stands in the source.
    pub src_loc: SrcLoc,
}

impl Spanned for PolicyCombiningAlgorithm {
    open spec fn spec_span(&self) -> SrcLoc {
        self.src_loc
    }

    fn span(&self) -> (r: &SrcLoc) {
        &self.src_loc
    }
}

impl PolicyCombiningAlgorithm {
    /// The algorithm's name as written.
    pub fn to_string(&self) -> (r: String)
        ensures
            r@ == self.id@,
    {
        self.id.clone()
    }
}

/// A policy set.
#[derive(Debug, PartialEq, Eq)]
pub struct PolicySet {
    /// How the policy set is named.
    pub id: PolicyId,
    /// The namespace from general to most specific.
    pub ns: Vec<String>,
    /// The enclosing policy sets, outermost first, and then the policy set
    /// itself.
    pub policy_ns: GenName,
    /// Where the policy set stands in the source.
    pub src_loc: SrcLoc,
    /// A description, if there is one.
    pub description: Option<String>,
    /// The target, if there is one.
    pub target: Option<Target>,
    /// The condition, if there is one.
    pub condition: Option<Condition>,
    /// The policy-combining algorithm.
    pub apply: PolicyCombiningAlgorithm,
    /// The policies and policy sets of the policy set, in order.
    pub policies: Vec<PolicyEntry>,
    /// The obligations and advice of the policy set.
    pub prescriptions: Vec<Prescription>,
}

impl Spanned for PolicySet {
    open spec fn spec_span(&self) -> SrcLoc {
        self.src_loc
    }

    fn span(&self) -> (r: &SrcLoc) {
        &self.src_loc
    }
}

/// A member of a policy set.
#[derive(Debug, PartialEq, Eq)]
pub enum PolicyEntry {
    /// The name of a policy or policy set that is defined elsewhere.
    Ref(PolicyReference),
    /// A policy defined in place.
    Policy(Policy),
    /// A policy set defined in place.
    PolicySet(PolicySet),
}

/// The name of a policy or policy set that is defined elsewhere.
#[derive(Debug, PartialEq, Eq)]
pub struct PolicyReference {
    /// The name as written, without what stands before the last dot.
    pub id: String,
    /// What stands before the last dot, split at the dots.
    pub ns: Vec<String>,
}

impl PolicyReference {
    /// The name as written, with dots.
    pub open spec fn spec_name(&self) -> Seq<char> {
        if self.ns@.len() == 0 {
            self.id@
        } else {
            dotted(join(path_view(self.ns@), "."@), self.id@)
        }
    }

    /// The name of the policy as written, with dots.
    pub fn fully_qualified_name(&self) -> (r: String)
        ensures
            r@ == self.spec_name(),
    {
        let mut qn = join_strings(self.ns.as_slice(), ".");
        if self.ns.len() != 0 {
            qn.append(".");
        }
        qn.append(self.id.as_str());
        proof {
            if self.ns@.len() == 0 {
                assert(qn@ =~= self.id@);
            }
        }
        qn
    }

    /// The text that stands for a reference in a tree listing.
    pub fn to_string(&self) -> (r: String)
        ensures
            r@ == "policy reference"@,
    {
        "policy reference".to_owned()
    }
}

/// Whether `after` is `before` with the slot `name` put at depth `idx` into
/// the name path of every policy and policy set in it, and nothing else
/// changed. References have no path and stay as they are.
pub open spec fn entry_threaded(
    before: PolicyEntry,
    after: PolicyEntry,
    name: NameSlot,
    idx: int,
) -> bool
    decreases before,
{
    match before {
        PolicyEntry::Ref(_) => after == before,
        PolicyEntry::Policy(p) => after matches PolicyEntry::Policy(q) && policy_threaded(
            p,
            q,
            name,
            idx,
        ),
        PolicyEntry::PolicySet(ps) => after matches PolicyEntry::PolicySet(qs) && set_threaded(
            ps,
            qs,
            name,
            idx,
        ),
    }
}

/// Whether `after` is the policy `before` with the slot `name` put at depth
/// `idx` into its name path.
pub open spec fn policy_threaded(before: Policy, after: Policy, name: NameSlot, idx: int) -> bool {
    &&& after.policy_ns@ == before.policy_ns@.insert(idx, name)
    &&& after.id == before.id
    &&& after.ns == before.ns
    &&& after.src_loc == before.src_loc
    &&& after.description == before.description
    &&& after.target == before.target
    &&& after.condition == before.condition
    &&& after.apply == before.apply
    &&& after.rules == before.rules
    &&& after.prescriptions == before.prescriptions
}

/// Whether `after` is the policy set `before` with the slot `name` put at
/// depth `idx` into its own name path and into that of everything in it.
pub open spec fn set_threaded(before: PolicySet, after: PolicySet, name: NameSlot, idx: int) -> bool
    decreases before,
{
    &&& after.policy_ns@ == before.policy_ns@.insert(idx, name)
    &&& after.id == before.id
    &&& after.ns == before.ns
    &&& after.src_loc == before.src_loc
    &&& after.description == before.description
    &&& after.target == before.target
    &&& after.condition == before.condition
    &&& after.apply == before.apply
    &&& after.prescriptions == before.prescriptions
    &&& after.policies@.len() == before.policies@.len()
    &&& forall|i: int|
        0 <= i < before.policies@.len() ==> entry_threaded(
            #[trigger] before.policies@[i],
            after.policies@[i],
            name,
            idx,
        )
}

/// Whether the name path of every policy and policy set in `e` has at least
/// `depth` names.
pub open spec fn entry_deep(e: PolicyEntry, depth: int) -> bool
    decreases e,
{
    match e {
        PolicyEntry::Ref(_) => true,
        PolicyEntry::Policy(p) => depth <= p.policy_ns@.len(),
        PolicyEntry::PolicySet(ps) => set_deep(ps, depth),
    }
}

/// Whether the name path of `ps`, and of every policy and policy set in it,
/// has at least `depth` names.
pub open spec fn set_deep(ps: PolicySet, depth: int) -> bool
    decreases ps,
{
    &&& depth <= ps.policy_ns@.len()
    &&& forall|i: int|
        0 <= i < ps.policies@.len() ==> entry_deep(#[trigger] ps.policies@[i], depth)
}

/// Whether every name path in `e` is longer than `above`, the length of the
/// path of what encloses `e`, and the same holds all the way down.
pub open spec fn entry_well_formed(e: PolicyEntry, above: int) -> bool
    decreases e,
{
    match e {
        PolicyEntry::Ref(_) => true,
        PolicyEntry::Policy(p) => above < p.policy_ns@.len(),
        PolicyEntry::PolicySet(ps) => set_well_formed(ps, above),
    }
}

/// Whether the name path of `ps` is longer than `above`, and the name path
/// of each member is longer than that of `ps`, all the way down.
pub open spec fn set_well_formed(ps: PolicySet, above: int) -> bool
    decreases ps,
{
    &&& above < ps.policy_ns@.len()
    &&& forall|i: int|
        0 <= i < ps.policies@.len() ==> entry_well_formed(
            #[trigger] ps.policies@[i],
            ps.policy_ns@.len() as int,
        )
}

/// In a well-formed entry every name path has more than `above` names.
pub proof fn lemma_well_formed_deep(e: PolicyEntry, above: int, depth: int)
    requires
        entry_well_formed(e, above),
        depth <= above + 1,
    ensures
        entry_deep(e, depth),
    decreases e,
{
    match e {
        PolicyEntry::PolicySet(ps) => {
            assert forall|i: int| 0 <= i < ps.policies@.len() implies entry_deep(
                #[trigger] ps.policies@[i],
                depth,
            ) by {
                lemma_well_formed_deep(ps.policies@[i], ps.policy_ns@.len() as int, depth);
            }
        },
        _ => {},
    }
}

/// A well-formed entry stays well-formed when a name is put into every path
/// of it and into the path of what encloses it.
pub proof fn lemma_threaded_well_formed(
    e: PolicyEntry,
    after: PolicyEntry,
    name: NameSlot,
    idx: int,
    above: int,
)
    requires
        entry_well_formed(e, above),
        entry_threaded(e, after, name, idx),
        0 <= idx <= above + 1,
    ensures
        entry_well_formed(after, above + 1),
    decreases e,
{
    match e {
        PolicyEntry::PolicySet(ps) => {
            let qs = after->PolicySet_0;
            assert forall|i: int| 0 <= i < qs.policies@.len() implies entry_well_formed(
                #[trigger] qs.policies@[i],
                qs.policy_ns@.len() as int,
            ) by {
                assert(entry_threaded(ps.policies@[i], qs.policies@[i], name, idx));
                lemma_threaded_well_formed(
                    ps.policies@[i],
                    qs.policies@[i],
                    name,
                    idx,
                    ps.policy_ns@.len() as int,
                );
            }
        },
        _ => {},
    }
}

/// The name of the policy-combining algorithm of a deconditioned element:
/// the second member is applied only where the first permits.
pub open spec fn on_permit_apply_second() -> Seq<char> {
    dotted(PROTECTED_NS@, "onPermitApplySecond"@)
}

/// The name of the rule-combining algorithm of the guard policy.
pub open spec fn permit_overrides() -> Seq<char> {
    dotted(PROTECTED_NS@, "permitOverrides"@)
}

/// Whether `c` is the guard policy for `condition`: a policy named `cond`
/// in the namespace `ns` with the name path `path`, without target or
/// condition of its own, that combines by permit-overrides one rule, which
/// permits, has no target and holds `condition`.
pub open spec fn is_guard(
    c: Policy,
    condition: Condition,
    ns: Seq<Seq<char>>,
    path: Seq<NameSlot>,
) -> bool {
    &&& c.id@ == PolicyIdView::PolicyName("cond"@)
    &&& path_view(c.ns@) == ns
    &&& c.policy_ns@ == path
    &&& c.description is None
    &&& c.target is None
    &&& c.condition is None
    &&& c.apply.id@ == permit_overrides()
    &&& c.prescriptions@.len() == 0
    &&& c.rules@.len() == 1
    &&& c.rules@[0] matches RuleEntry::Def(rd)
    &&& rd.id is None
    &&& path_view(rd.ns@) == ns
    &&& rd.policy_ns@ == path
    &&& rd.description is None
    &&& rd.effect == Effect::Permit
    &&& rd.target is None
    &&& rd.condition == Some(condition)
    &&& rd.prescriptions@.len() == 0
}

/// Whether `outer` is the wrapping policy set of a deconditioned element
/// that had the identifier `id`, the namespace `ns`, the name path `path`
/// and the description `description`: it keeps all four, has neither target
/// nor condition, and applies its second member only where the first
/// permits.
pub open spec fn is_wrapper(
    outer: PolicySet,
    id: PolicyId,
    ns: Seq<Seq<char>>,
    path: Seq<NameSlot>,
    description: Option<Seq<char>>,
) -> bool {
    &&& outer.id == id
    &&& path_view(outer.ns@) == ns
    &&& outer.policy_ns@ == path
    &&& opt_view(outer.description) == description
    &&& outer.target is None
    &&& outer.condition is None
    &&& outer.apply.id@ == on_permit_apply_second()
    &&& outer.prescriptions@.len() == 0
    &&& outer.policies@.len() == 2
}

/// The guard policy for `condition` under the name path `path`.
fn make_guard(condition: Condition, ns: &[String], path: GenName, src_loc: &SrcLoc, at: &SrcLoc)
    -> (r: Policy)
    ensures
        is_guard(r, condition, path_view(ns@), path@),
{
    let rule_path = path.clone();
    let condrule = RuleDef {
        id: None,
        ns: clone_strings(ns),
        policy_ns: rule_path,
        description: None,
        effect: Effect::Permit,
        target: None,
        condition: Some(condition),
        prescriptions: Vec::new(),
    };
    let mut rules: Vec<RuleEntry> = Vec::new();
    rules.push(RuleEntry::Def(condrule));
    Policy {
        id: PolicyId::PolicyName("cond".to_owned()),
        ns: clone_strings(ns),
        policy_ns: path,
        src_loc: src_loc.clone(),
        description: None,
        target: None,
        condition: None,
        apply: RuleCombiningAlgorithm {
            id: dotted_name(PROTECTED_NS, "permitOverrides"),
            src_loc: at.clone(),
        },
        rules,
        prescriptions: Vec::new(),
    }
}

impl Policy {
    /// Whether the policy has a name path: at least its own name is on it.
    pub open spec fn well_formed(&self) -> bool {
        self.policy_ns@.len() > 0
    }

    /// Turns a policy with a condition into a policy set without one.
    ///
    /// XACML knows no condition on a policy. The policy set that comes back
    /// takes the policy's identifier, name path and description and applies
    /// its second member only where the first permits. The first member is
    /// the guard: a policy `cond` whose one rule permits where the
    /// condition holds. The second is the policy itself under the name
    /// `orig`, without its condition, with its target, rules, obligations,
    /// advice and description. Two name slots are added to `slots`, one for
    /// each of the two names.
    ///
    /// A policy without a condition is refused with `PolicyNoCondition`.
    pub fn decondition(self, slots: &mut NameSlots) -> (r: Result<PolicySet, ParseError>)
        ensures
            self.condition is None ==> r == Err::<PolicySet, ParseError>(
                ParseError::PolicyNoCondition,
            ) && final(slots)@ == old(slots)@,
            self.condition is Some ==> {
                &&& final(slots)@ == old(slots)@.push(Some("cond"@)).push(Some("orig"@))
                &&& r matches Ok(outer)
                &&& is_wrapper(
                    outer,
                    self.id,
                    path_view(self.ns@),
                    self.policy_ns@,
                    opt_view(self.description),
                )
                &&& outer.src_loc@ == self.src_loc@
                &&& outer.policies@[0] matches PolicyEntry::Policy(guard)
                &&& is_guard(
                    guard,
                    self.condition->Some_0,
                    path_view(self.ns@),
                    self.policy_ns@.push(old(slots)@.len() as NameSlot),
                )
                &&& outer.policies@[1] matches PolicyEntry::Policy(orig)
                &&& orig.id@ == PolicyIdView::PolicyName("orig"@)
                &&& orig.policy_ns@ == self.policy_ns@.push((old(slots)@.len() + 1) as NameSlot)
                &&& orig.ns == self.ns
                &&& orig.src_loc == self.src_loc
                &&& orig.description == self.description
                &&& orig.target == self.target
                &&& orig.condition is None
                &&& orig.apply == self.apply
                &&& orig.rules == self.rules
                &&& orig.prescriptions == self.prescriptions
                &&& self.well_formed() ==> set_well_formed(outer, 0)
                &&& set_weight(outer) < policy_weight(self)
            },
    {
        let Policy {
            id,
            ns,
            policy_ns,
            src_loc,
            description,
            target,
            condition,
            apply,
            rules,
            prescriptions,
        } = self;
        match condition {
            None => Err(ParseError::PolicyNoCondition),
            Some(c) => {
                let cond_slot = slots.new_slot(Some("cond".to_owned()));
                let orig_slot = slots.new_slot(Some("orig".to_owned()));
                let mut cond_path = policy_ns.clone();
                cond_path.push_name(cond_slot);
                let mut orig_path = policy_ns.clone();
                orig_path.push_name(orig_slot);
                let guard = make_guard(c, ns.as_slice(), cond_path, &src_loc, &apply.src_loc);
                let outer_apply = PolicyCombiningAlgorithm {
                    id: dotted_name(PROTECTED_NS, "onPermitApplySecond"),
                    src_loc: apply.src_loc.clone(),
                };
                let outer_ns = clone_strings(ns.as_slice());
                let outer_loc = src_loc.clone();
                let outer_description = clone_opt_string(&description);
                let original = Policy {
                    id: PolicyId::PolicyName("orig".to_owned()),
                    ns,
                    policy_ns: orig_path,
                    src_loc,
                    description,
                    target,
                    condition: None,
                    apply,
                    rules,
                    prescriptions,
                };
                let mut members: Vec<PolicyEntry> = Vec::new();
                members.push(PolicyEntry::Policy(guard));
                members.push(PolicyEntry::Policy(original));
                let outer = PolicySet {
                    id,
                    ns: outer_ns,
                    policy_ns,
                    src_loc: outer_loc,
                    description: outer_description,
                    target: None,
                    condition: None,
                    apply: outer_apply,
                    policies: members,
                    prescriptions: Vec::new(),
                };
                proof {
                    lemma_weight_of_two(outer);
                }
                Ok(outer)
            },
        }
    }
}

/// Puts the slot `name` at depth `idx` into every name path in `e`.
pub fn thread_entry(e: PolicyEntry, name: NameSlot, idx: usize) -> (r: PolicyEntry)
    requires
        entry_deep(e, idx as int),
    ensures
        entry_threaded(e, r, name, idx as int),
    decreases e,
{
    match e {
        PolicyEntry::Ref(pr) => PolicyEntry::Ref(pr),
        PolicyEntry::Policy(p) => {
            let mut p = p;
            p.insert_ns_entry(name, idx);
            PolicyEntry::Policy(p)
        },
        PolicyEntry::PolicySet(ps) => {
            let mut ps = ps;
            ps.insert_ns_entry(name, idx);
            PolicyEntry::PolicySet(ps)
        },
    }
}

/// Puts the slot `name` at depth `idx` into every name path of the entries
/// `entries`, which are the members of a policy set.
#[verifier::loop_isolation(false)]
pub fn thread_entries(entries: Vec<PolicyEntry>, name: NameSlot, idx: usize) -> (r: Vec<
    PolicyEntry,
>)
    requires
        forall|i: int| 0 <= i < entries@.len() ==> entry_deep(#[trigger] entries@[i], idx as int),
    ensures
        r@.len() == entries@.len(),
        forall|i: int|
            0 <= i < entries@.len() ==> entry_threaded(
                #[trigger] entries@[i],
                r@[i],
                name,
                idx as int,
            ),
    decreases entries,
{
    let mut rest = entries;
    let mut done: Vec<PolicyEntry> = Vec::new();
    while rest.len() > 0
        invariant
            done@.len() + rest@.len() == entries@.len(),
            rest@ == entries@.subrange(done@.len() as int, entries@.len() as int),
            forall|i: int|
                0 <= i < done@.len() ==> entry_threaded(
                    #[trigger] entries@[i],
                    done@[i],
                    name,
                    idx as int,
                ),
        decreases rest@.len(),
    {
        let ghost k = done@.len() as int;
        let e = rest.remove(0);
        proof {
            assert(e == entries@[k]);
            assert(decreases_to!(entries => entries@[k]));
            assert(rest@ =~= entries@.subrange(k + 1, entries@.len() as int));
        }
        let e2 = thread_entry(e, name, idx);
        done.push(e2);
    }
    done
}

impl PolicySet {
    /// The fully-qualified name of the policy set, as `policy_qualified`
    /// states it.
    pub open spec fn qualified(&self, slots: Seq<Option<Seq<char>>>) -> Option<Seq<char>> {
        policy_qualified(self.id@, path_view(self.ns@), self.policy_ns@, slots)
    }

    /// The fully-qualified name of the policy set: its namespace and the
    /// names on its path. `None` for a policy set without a name, and while
    /// a name on the path is not settled.
    pub fn fully_qualified_name(&self, slots: &NameSlots) -> (r: Option<String>)
        ensures
            opt_view(r) == self.qualified(slots@),
    {
        qualified_policy_name(&self.id, self.ns.as_slice(), &self.policy_ns, slots)
    }

    /// A file name for the policy set: its namespace, its own name and
    /// `.xml`. `None` while the policy set's own name is not settled.
    pub fn get_filename(&self, slots: &NameSlots) -> (r: Option<String>)
        ensures
            opt_view(r) == policy_filename(path_view(self.ns@), self.policy_ns@, slots@),
    {
        suggested_filename(self.ns.as_slice(), &self.policy_ns, slots)
    }

    /// Puts the name slot `name` at depth `idx` into the name path of the
    /// policy set and of every policy and policy set in it.
    pub fn insert_ns_entry(&mut self, name: NameSlot, idx: usize)
        requires
            set_deep(*old(self), idx as int),
        ensures
            set_threaded(*old(self), *final(self), name, idx as int),
        decreases *old(self),
    {
        self.policy_ns.push_name_at_index(name, idx);
        let mut members: Vec<PolicyEntry> = Vec::new();
        std::mem::swap(&mut self.policies, &mut members);
        proof {
            assert(members@ == old(self).policies@);
            assert(decreases_to!(*old(self) => members));
        }
        let threaded = thread_entries(members, name, idx);
        self.policies = threaded;
    }

    /// Whether every name path in the policy set is longer than the path of
    /// what encloses it, and the path of the policy set itself is not empty.
    pub open spec fn well_formed(&self) -> bool {
        set_well_formed(*self, 0)
    }

    /// Turns a policy set with a condition into a policy set without one.
    ///
    /// The policy set that comes back takes the identifier, name path and
    /// description of this one and applies its second member only where the
    /// first permits. The first member is the guard: a policy `cond` whose
    /// one rule permits where the condition holds. The second is this policy
    /// set under the name `orig`, without its condition, with its target,
    /// members, obligations, advice and description; the name `orig` is put
    /// into the name path of every policy and policy set in it, at the depth
    /// at which the new level lies. Two name slots are added to `slots`, one
    /// for each of the two names.
    ///
    /// A policy set without a condition is refused with
    /// `PolicySetNoCondition`.
    pub fn decondition(self, slots: &mut NameSlots) -> (r: Result<PolicySet, ParseError>)
        requires
            self.well_formed(),
        ensures
            self.condition is None ==> r == Err::<PolicySet, ParseError>(
                ParseError::PolicySetNoCondition,
            ) && final(slots)@ == old(slots)@,
            self.condition is Some ==> {
                &&& final(slots)@ == old(slots)@.push(Some("cond"@)).push(Some("orig"@))
                &&& r matches Ok(outer)
                &&& is_wrapper(
                    outer,
                    self.id,
                    path_view(self.ns@),
                    self.policy_ns@,
                    opt_view(self.description),
                )
                &&& outer.src_loc@ == self.src_loc@
                &&& outer.policies@[0] matches PolicyEntry::Policy(guard)
                &&& is_guard(
                    guard,
                    self.condition->Some_0,
                    path_view(self.ns@),
                    self.policy_ns@.push(old(slots)@.len() as NameSlot),
                )
                &&& outer.policies@[1] matches PolicyEntry::PolicySet(orig)
                &&& orig.id@ == PolicyIdView::PolicyName("orig"@)
                &&& orig.policy_ns@ == self.policy_ns@.push((old(slots)@.len() + 1) as NameSlot)
                &&& orig.ns == self.ns
                &&& orig.src_loc == self.src_loc
                &&& orig.description == self.description
                &&& orig.target == self.target
                &&& orig.condition is None
                &&& orig.apply == self.apply
                &&& orig.prescriptions == self.prescriptions
                &&& orig.policies@.len() == self.policies@.len()
                &&& forall|i: int|
                    0 <= i < self.policies@.len() ==> entry_threaded(
                        #[trigger] self.policies@[i],
                        orig.policies@[i],
                        (old(slots)@.len() + 1) as NameSlot,
                        self.policy_ns@.len() as int,
                    )
                &&& outer.well_formed()
                &&& set_weight(outer) < set_weight(self)
            },
    {
        let PolicySet {
            id,
            ns,
            policy_ns,
            src_loc,
            description,
            target,
            condition,
            apply,
            policies,
            prescriptions,
        } = self;
        match condition {
            None => Err(ParseError::PolicySetNoCondition),
            Some(c) => {
                let cond_slot = slots.new_slot(Some("cond".to_owned()));
                let orig_slot = slots.new_slot(Some("orig".to_owned()));
                let depth = policy_ns.policy_level();
                let mut cond_path = policy_ns.clone();
                cond_path.push_name(cond_slot);
                let mut orig_path = policy_ns.clone();
                orig_path.push_name(orig_slot);
                let guard = make_guard(c, ns.as_slice(), cond_path, &src_loc, &apply.src_loc);
                let outer_apply = PolicyCombiningAlgorithm {
                    id: dotted_name(PROTECTED_NS, "onPermitApplySecond"),
                    src_loc: apply.src_loc.clone(),
                };
                let outer_ns = clone_strings(ns.as_slice());
                let outer_loc = src_loc.clone();
                let outer_description = clone_opt_string(&description);
                proof {
                    assert forall|i: int| 0 <= i < policies@.len() implies entry_deep(
                        #[trigger] policies@[i],
                        depth as int,
                    ) by {
                        lemma_well_formed_deep(policies@[i], depth as int, depth as int);
                    }
                }
                let members_below = thread_entries(policies, orig_slot, depth);
                proof {
                    assert forall|i: int| 0 <= i < members_below@.len() implies entry_well_formed(
                        #[trigger] members_below@[i],
                        depth + 1,
                    ) by {
                        assert(entry_threaded(
                            policies@[i],
                            members_below@[i],
                            orig_slot,
                            depth as int,
                        ));
                        lemma_threaded_well_formed(
                            policies@[i],
                            members_below@[i],
                            orig_slot,
                            depth as int,
                            depth as int,
                        );
                    }
                }
                let original = PolicySet {
                    id: PolicyId::PolicyName("orig".to_owned()),
                    ns,
                    policy_ns: orig_path,
                    src_loc,
                    description,
                    target,
                    condition: None,
                    apply,
                    policies: members_below,
                    prescriptions,
                };
                let mut members: Vec<PolicyEntry> = Vec::new();
                members.push(PolicyEntry::Policy(guard));
                members.push(PolicyEntry::PolicySet(original));
                proof {
                    assert(original.policy_ns@.len() == depth + 1);
                    assert(set_well_formed(original, depth as int));
                    assert(entry_well_formed(members@[0], depth as int));
                    assert(entry_well_formed(members@[1], depth as int));
                    assert forall|i: int| 0 <= i < members@.len() implies entry_well_formed(
                        #[trigger] members@[i],
                        depth as int,
                    ) by {
                        if i == 0 {
                        } else {
                            assert(i == 1);
                        }
                    }
                }
                let outer = PolicySet {
                    id,
                    ns: outer_ns,
                    policy_ns,
                    src_loc: outer_loc,
                    description: outer_description,
                    target: None,
                    condition: None,
                    apply: outer_apply,
                    policies: members,
                    prescriptions: Vec::new(),
                };
                proof {
                    lemma_weight_of_two(outer);
                    lemma_threaded_members_weight(
                        self,
                        original,
                        orig_slot,
                        depth as int,
                        self.policies@.len(),
                    );
                }
                Ok(outer)
            },
        }
    }

    /// The text that stands for a policy set in a tree listing.
    pub fn to_string(&self) -> (r: String)
        ensures
            r@ == "policy set"@,
    {
        "policy set".to_owned()
    }
}

/// The weight of a policy: a measure of the work that is left to convert
/// it. A condition weighs more than the two elements that deconditioning
/// adds in its place.
pub open spec fn policy_weight(p: Policy) -> nat {
    if p.condition is Some {
        4
    } else {
        1
    }
}

/// The weight of a member of a policy set.
pub open spec fn entry_weight(e: PolicyEntry) -> nat
    decreases e, 0nat,
{
    match e {
        PolicyEntry::Ref(_) => 1,
        PolicyEntry::Policy(p) => policy_weight(p),
        PolicyEntry::PolicySet(ps) => set_weight(ps),
    }
}

/// The weight of the first `n` members of `ps`.
pub open spec fn members_weight(ps: PolicySet, n: nat) -> nat
    decreases ps, n,
{
    if n == 0 || n > ps.policies@.len() {
        0
    } else {
        members_weight(ps, (n - 1) as nat) + entry_weight(ps.policies@[n - 1])
    }
}

/// The weight of a policy set: its own, and that of all that it holds.
pub open spec fn set_weight(ps: PolicySet) -> nat
    decreases ps, ps.policies@.len() + 1,
{
    (if ps.condition is Some {
        4nat
    } else {
        1nat
    }) + members_weight(ps, ps.policies@.len())
}

/// Every member weighs something, and less than the policy set that holds
/// it.
pub proof fn lemma_member_weighs_less(ps: PolicySet, i: int)
    requires
        0 <= i < ps.policies@.len(),
    ensures
        0 < entry_weight(ps.policies@[i]) < set_weight(ps),
{
    lemma_entry_weight_positive(ps.policies@[i]);
    lemma_members_weight_grows(ps, (i + 1) as nat, ps.policies@.len());
}

/// Every member weighs something.
pub proof fn lemma_entry_weight_positive(e: PolicyEntry)
    ensures
        0 < entry_weight(e),
{
}

/// More members weigh no less.
pub proof fn lemma_members_weight_grows(ps: PolicySet, a: nat, b: nat)
    requires
        a <= b <= ps.policies@.len(),
    ensures
        members_weight(ps, a) <= members_weight(ps, b),
    decreases b,
{
    if a < b {
        lemma_members_weight_grows(ps, a, (b - 1) as nat);
    }
}

/// A name put into the paths of an element does not change its weight.
pub proof fn lemma_threaded_weight(e: PolicyEntry, after: PolicyEntry, name: NameSlot, idx: int)
    requires
        entry_threaded(e, after, name, idx),
    ensures
        entry_weight(after) == entry_weight(e),
    decreases e, 0nat,
{
    match e {
        PolicyEntry::PolicySet(ps) => {
            let qs = after->PolicySet_0;
            lemma_threaded_members_weight(ps, qs, name, idx, ps.policies@.len());
        },
        _ => {},
    }
}

/// A name put into the paths of the members of a policy set does not
/// change their weight.
pub proof fn lemma_threaded_members_weight(
    ps: PolicySet,
    qs: PolicySet,
    name: NameSlot,
    idx: int,
    n: nat,
)
    requires
        qs.policies@.len() == ps.policies@.len(),
        forall|i: int|
            0 <= i < ps.policies@.len() ==> entry_threaded(
                #[trigger] ps.policies@[i],
                qs.policies@[i],
                name,
                idx,
            ),
        n <= ps.policies@.len(),
    ensures
        members_weight(qs, n) == members_weight(ps, n),
    decreases ps, n,
{
    if n > 0 {
        lemma_threaded_members_weight(ps, qs, name, idx, (n - 1) as nat);
        assert(entry_threaded(ps.policies@[n - 1], qs.policies@[n - 1], name, idx));
        lemma_threaded_weight(ps.policies@[n - 1], qs.policies@[n - 1], name, idx);
    }
}

/// The weight of a policy set of two members.
pub proof fn lemma_weight_of_two(ps: PolicySet)
    requires
        ps.policies@.len() == 2,
    ensures
        members_weight(ps, 2) == entry_weight(ps.policies@[0]) + entry_weight(ps.policies@[1]),
{
    assert(members_weight(ps, 1) == members_weight(ps, 0) + entry_weight(ps.policies@[0]));
    assert(members_weight(ps, 2) == members_weight(ps, 1) + entry_weight(ps.policies@[1]));
}

/// Whether the name paths in `e` are nested as `entry_well_formed` asks.
pub fn entry_is_well_formed(e: &PolicyEntry, above: usize) -> (r: bool)
    ensures
        r == entry_well_formed(*e, above as int),
    decreases e,
{
    match e {
        PolicyEntry::Ref(_) => true,
        PolicyEntry::Policy(p) => above < p.policy_ns.len(),
        PolicyEntry::PolicySet(ps) => set_is_well_formed(ps, above),
    }
}

/// Whether the name paths in `ps` are nested as `set_well_formed` asks.
#[verifier::loop_isolation(false)]
pub fn set_is_well_formed(ps: &PolicySet, above: usize) -> (r: bool)
    ensures
        r == set_well_formed(*ps, above as int),
    decreases ps,
{
    let depth = ps.policy_ns.len();
    if above >= depth {
        return false;
    }
    let mut i: usize = 0;
    while i < ps.policies.len()
        invariant
            i <= ps.policies.len(),
            forall|j: int|
                0 <= j < i ==> entry_well_formed(#[trigger] ps.policies@[j], depth as int),
        decreases ps.policies.len() - i,
    {
        proof {
            assert(decreases_to!(ps => ps.policies@[i as int]));
        }
        if !entry_is_well_formed(&ps.policies[i], depth) {
            return false;
        }
        i = i + 1;
    }
    true
}

impl Policy {
    /// Whether the policy has a name path, as `well_formed` states it.
    pub fn is_well_formed(&self) -> (r: bool)
        ensures
            r == self.well_formed(),
    {
        self.policy_ns.len() > 0
    }
}

impl PolicySet {
    /// Whether the name paths in the policy set are nested, as
    /// `well_formed` states it.
    pub fn is_well_formed(&self) -> (r: bool)
        ensures
            r == self.well_formed(),
    {
        set_is_well_formed(self, 0)
    }
}

impl PolicyEntry {
    /// The text that stands for a member in a tree listing.
    pub open spec fn display_text(&self) -> Seq<char> {
        match self {
            PolicyEntry::Ref(_) => "PE: policy ref: policy reference"@,
            PolicyEntry::Policy(_) => "PE: policy"@,
            PolicyEntry::PolicySet(_) => "PE: policyset"@,
        }
    }

    /// The kind of the member, in words.
    pub fn to_string(&self) -> (r: String)
        ensures
            r@ == self.display_text(),
    {
        match self {
            PolicyEntry::Ref(_) => "PE: policy ref: policy reference".to_owned(),
            PolicyEntry::Policy(_) => "PE: policy".to_owned(),
            PolicyEntry::PolicySet(_) => "PE: policyset".to_owned(),
        }
    }
}

} // verus!
