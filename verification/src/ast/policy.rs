//! Policies.

use crate::ast::condition::Condition;
use crate::ast::naming::{filled, resolvable, resolved_parts, GenName, NameSlot, NameSlots};
use crate::ast::prescription::Prescription;
use crate::ast::rule::RuleEntry;
use crate::ast::target::Target;
use crate::ast::Spanned;
use crate::errors::SrcLoc;
use crate::text::{
    debug_quote_option, debug_quoted_option, dotted, join, join_strings, opt_view, path_view,
};
use vstd::prelude::*;
use vstd::string::*;

verus! {

/// How a policy or a policy set is named.
#[derive(Debug, PartialEq, Eq)]
pub enum PolicyId {
    /// No name: one is generated when the policy is written out.
    PolicyNoName,
    /// A name.
    PolicyName(String),
    /// A name, and the identifier to use in XACML.
    PolicyNameAndId(String, String),
}

/// What a `PolicyId` holds.
pub ghost enum PolicyIdView {
    PolicyNoName,
    PolicyName(Seq<char>),
    PolicyNameAndId(Seq<char>, Seq<char>),
}

impl View for PolicyId {
    type V = PolicyIdView;

    open spec fn view(&self) -> PolicyIdView {
        match self {
            PolicyId::PolicyNoName => PolicyIdView::PolicyNoName,
            PolicyId::PolicyName(s) => PolicyIdView::PolicyName(s@),
            PolicyId::PolicyNameAndId(s, i) => PolicyIdView::PolicyNameAndId(s@, i@),
        }
    }
}

impl Clone for PolicyId {
    fn clone(&self) -> (r: Self)
        ensures
            r@ == self@,
    {
        match self {
            PolicyId::PolicyNoName => PolicyId::PolicyNoName,
            PolicyId::PolicyName(s) => PolicyId::PolicyName(s.clone()),
            PolicyId::PolicyNameAndId(s, i) => PolicyId::PolicyNameAndId(s.clone(), i.clone()),
        }
    }
}

impl PolicyId {
    /// The name, if there is one.
    pub open spec fn spec_name(&self) -> Option<Seq<char>> {
        match self {
            PolicyId::PolicyNoName => None,
            PolicyId::PolicyName(s) => Some(s@),
            PolicyId::PolicyNameAndId(s, _) => Some(s@),
        }
    }

    /// The name of the policy in ALFA, if it has one.
    pub fn get_name(&self) -> (r: Option<String>)
        ensures
            opt_view(r) == self.spec_name(),
    {
        match self {
            PolicyId::PolicyNoName => None,
            PolicyId::PolicyName(s) => Some(s.clone()),
            PolicyId::PolicyNameAndId(s, _) => Some(s.clone()),
        }
    }
}

/// The rule-combining algorithm that a policy names in its `apply`
/// statement.
#[derive(Debug, PartialEq, Eq)]
pub struct RuleCombiningAlgorithm {
    /// The name of the algorithm as written.
    pub id: String,
    /// Where the statement stands in the source.
    pub src_loc: SrcLoc,
}

impl Spanned for RuleCombiningAlgorithm {
    open spec fn spec_span(&self) -> SrcLoc {
        self.src_loc
    }

    fn span(&self) -> (r: &SrcLoc) {
        &self.src_loc
    }
}

impl RuleCombiningAlgorithm {
    /// The algorithm's name as written.
    pub fn to_string(&self) -> (r: String)
        ensures
            r@ == self.id@,
    {
        self.id.clone()
    }
}

/// A policy.
#[derive(Debug, PartialEq, Eq)]
pub struct Policy {
    /// How the policy is named.
    pub id: PolicyId,
    /// The namespace from general to most specific.
    pub ns: Vec<String>,
    /// The enclosing policy sets, outermost first, and then the policy
    /// itself.
    pub policy_ns: GenName,
    /// Where the policy stands in the source.
    pub src_loc: SrcLoc,
    /// A description, if there is one.
    pub description: Option<String>,
    /// The target, if there is one.
    pub target: Option<Target>,
    /// The condition, if there is one.
    pub condition: Option<Condition>,
    /// The rule-combining algorithm.
    pub apply: RuleCombiningAlgorithm,
    /// The rules of the policy.
    pub rules: Vec<RuleEntry>,
    /// The obligations and advice of the policy.
    pub prescriptions: Vec<Prescription>,
}

impl Spanned for Policy {
    open spec fn spec_span(&self) -> SrcLoc {
        self.src_loc
    }

    fn span(&self) -> (r: &SrcLoc) {
        &self.src_loc
    }
}

/// The fully-qualified name of a policy or policy set named `id`, in the
/// namespace `ns` and with the name path `policy_ns`: the namespace, a dot,
/// and the names of the path. An element without a name has none, nor has
/// one with an unsettled name on its path.
pub open spec fn policy_qualified(
    id: PolicyIdView,
    ns: Seq<Seq<char>>,
    policy_ns: Seq<NameSlot>,
    slots: Seq<Option<Seq<char>>>,
) -> Option<Seq<char>> {
    if id is PolicyNoName || !resolvable(policy_ns, slots) {
        None
    } else {
        Some(dotted(join(ns, "."@), join(resolved_parts(policy_ns, slots), "."@)))
    }
}

/// The file name for a policy or policy set in the namespace `ns` with the
/// name path `policy_ns`: the namespace, a dot, the element's own name and
/// `.xml`. There is none while the element's own name is not settled.
pub open spec fn policy_filename(
    ns: Seq<Seq<char>>,
    policy_ns: Seq<NameSlot>,
    slots: Seq<Option<Seq<char>>>,
) -> Option<Seq<char>> {
    if policy_ns.len() == 0 || !filled(slots, policy_ns.last()) {
        None
    } else {
        Some(join(ns, "."@) + "."@ + slots[policy_ns.last() as int].unwrap() + ".xml"@)
    }
}

/// The fully-qualified name as `policy_qualified` states it.
pub fn qualified_policy_name(id: &PolicyId, ns: &[String], policy_ns: &GenName, slots: &NameSlots)
    -> (r: Option<String>)
    ensures
        opt_view(r) == policy_qualified(id@, path_view(ns@), policy_ns@, slots@),
{
    match id {
        PolicyId::PolicyNoName => None,
        _ => {
            match policy_ns.build_path(slots, ".") {
                None => None,
                Some(path) => {
                    let mut qn = join_strings(ns, ".");
                    qn.append(".");
                    qn.append(path.as_str());
                    Some(qn)
                },
            }
        },
    }
}

/// The file name as `policy_filename` states it.
pub fn suggested_filename(ns: &[String], policy_ns: &GenName, slots: &NameSlots) -> (r: Option<
    String,
>)
    ensures
        opt_view(r) == policy_filename(path_view(ns@), policy_ns@, slots@),
{
    match policy_ns.last_elem() {
        None => None,
        Some(slot) => match slots.get(slot) {
            None => None,
            Some(own) => {
                let mut name = join_strings(ns, ".");
                name.append(".");
                name.append(own.as_str());
                name.append(".xml");
                Some(name)
            },
        },
    }
}

impl Policy {
    /// The fully-qualified name of the policy, as `policy_qualified` states
    /// it.
    pub open spec fn qualified(&self, slots: Seq<Option<Seq<char>>>) -> Option<Seq<char>> {
        policy_qualified(self.id@, path_view(self.ns@), self.policy_ns@, slots)
    }

    /// The fully-qualified name of the policy: its namespace and the names
    /// on its path. `None` for a policy without a name, and while a name on
    /// the path is not settled.
    pub fn fully_qualified_name(&self, slots: &NameSlots) -> (r: Option<String>)
        ensures
            opt_view(r) == self.qualified(slots@),
    {
        qualified_policy_name(&self.id, self.ns.as_slice(), &self.policy_ns, slots)
    }

    /// A file name for the policy: its namespace, its own name and `.xml`.
    /// `None` while the policy's own name is not settled.
    pub fn get_filename(&self, slots: &NameSlots) -> (r: Option<String>)
        ensures
            opt_view(r) == policy_filename(path_view(self.ns@), self.policy_ns@, slots@),
    {
        suggested_filename(self.ns.as_slice(), &self.policy_ns, slots)
    }

    /// Puts the name slot `name` at depth `idx` into the policy's name path.
    ///
    /// This happens when a policy set that encloses the policy is
    /// deconditioned, and the policy comes to lie one level deeper.
    pub fn insert_ns_entry(&mut self, name: NameSlot, idx: usize)
        requires
            idx <= old(self).policy_ns@.len(),
        ensures
            final(self).policy_ns@ == old(self).policy_ns@.insert(idx as int, name),
            final(self).id == old(self).id,
            final(self).ns == old(self).ns,
            final(self).src_loc == old(self).src_loc,
            final(self).description == old(self).description,
            final(self).target == old(self).target,
            final(self).condition == old(self).condition,
            final(self).apply == old(self).apply,
            final(self).rules == old(self).rules,
            final(self).prescriptions == old(self).prescriptions,
    {
        self.policy_ns.push_name_at_index(name, idx);
    }
}

impl Policy {
    /// The line that `to_string` returns.
    pub open spec fn display_text(&self) -> Seq<char> {
        "Policy: \""@ + join(path_view(self.ns@), "."@) + (match self.id.spec_name() {
            Some(n) => "."@ + n,
            None => " ~ anonymous"@,
        }) + "\" (descr: "@ + debug_quoted_option(opt_view(self.description)) + ") (algorithm: "@
            + self.apply.id@ + ")"@
    }

    /// One line with the namespace and the name of the policy, its
    /// description and its rule-combining algorithm.
    pub fn to_string(&self) -> (r: String)
        ensures
            r@ == self.display_text(),
    {
        let mut out = "Policy: \"".to_owned();
        out.append(join_strings(self.ns.as_slice(), ".").as_str());
        match self.id.get_name() {
            Some(n) => {
                out.append(".");
                out.append(n.as_str());
            },
            None => {
                out.append(" ~ anonymous");
            },
        }
        out.append("\" (descr: ");
        out.append(debug_quote_option(&self.description).as_str());
        out.append(") (algorithm: ");
        out.append(self.apply.id.as_str());
        out.append(")");
        proof {
            assert(out@ =~= self.display_text());
        }
        out
    }
}

} // verus!
