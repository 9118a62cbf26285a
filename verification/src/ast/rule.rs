//! Rules.

use crate::ast::condition::{Condition, ConditionView};
use crate::ast::naming::{filled, resolvable, resolved_parts, GenName, NameSlot, NameSlots};
use crate::ast::prescription::{blocks_view, clone_blocks, BlockView, Prescription};
use crate::ast::target::{Target, TargetView};
use crate::errors::SrcLoc;
use crate::text::{
    clone_opt_string, clone_strings, debug_quote_option, debug_quoted_option, dotted, join,
    join_strings, opt_view, path_view,
};
use vstd::prelude::*;
use vstd::string::*;

verus! {

/// A rule of a policy: a definition in place, or the name of a rule that is
/// defined elsewhere.
#[derive(Debug, PartialEq, Eq, Clone)]
pub enum RuleEntry {
    Ref(RuleReference),
    Def(RuleDef),
}

/// The effect of a rule, and the effect on which an obligation or advice
/// applies.
#[derive(Debug, PartialEq, Eq, Clone, Copy, Structural)]
pub enum Effect {
    Permit,
    Deny,
}

impl Effect {
    /// The text that `to_string` returns.
    pub open spec fn display_text(&self) -> Seq<char> {
        match self {
            Effect::Permit => "Permit"@,
            Effect::Deny => "Deny"@,
        }
    }

    /// `Permit` or `Deny`, as XACML writes them.
    pub fn to_string(&self) -> (r: String)
        ensures
            r@ == self.display_text(),
    {
        match self {
            Effect::Permit => "Permit".to_owned(),
            Effect::Deny => "Deny".to_owned(),
        }
    }
}

/// The definition of a rule.
#[derive(Debug, PartialEq, Eq)]
pub struct RuleDef {
    /// The name of the rule, if it has one.
    pub id: Option<String>,
    /// The namespace from general to most specific.
    pub ns: Vec<String>,
    /// The policies that enclose the rule, outermost first.
    pub policy_ns: GenName,
    /// A description, if there is one.
    pub description: Option<String>,
    /// The effect of the rule.
    pub effect: Effect,
    /// The target, if there is one.
    pub target: Option<Target>,
    /// The condition, if there is one.
    pub condition: Option<Condition>,
    /// The obligations and advice of the rule.
    pub prescriptions: Vec<Prescription>,
}

/// The name of a rule that is defined elsewhere.
#[derive(Debug, PartialEq, Eq, Clone)]
pub struct RuleReference {
    /// The name as written, without what stands before the last dot.
    pub id: String,
    /// What stands before the last dot, split at the dots.
    pub ns: Vec<String>,
    /// Where the reference stands in the source.
    pub src_loc: SrcLoc,
}

impl RuleReference {
    /// The name as written, with dots.
    pub open spec fn spec_name(&self) -> Seq<char> {
        if self.ns@.len() == 0 {
            self.id@
        } else {
            dotted(join(path_view(self.ns@), "."@), self.id@)
        }
    }

    /// The name of the rule as written, with dots.
    pub fn fully_qualified_name(&self) -> (r: Option<String>)
        ensures
            opt_view(r) == Some(self.spec_name()),
    {
        let mut qn = join_strings(self.ns.as_slice(), ".");
        if self.ns.len() != 0 {
            qn.append(".");
        }
        qn.append(self.id.as_str());
        proof {
            if self.ns@.len() == 0 {
                assert(qn@ =~= self.id@);
            }
        }
        Some(qn)
    }
}

/// What the definition of a rule holds.
pub ghost struct RuleView {
    pub id: Option<Seq<char>>,
    pub ns: Seq<Seq<char>>,
    pub policy_ns: Seq<NameSlot>,
    pub description: Option<Seq<char>>,
    pub effect: Effect,
    pub target: Option<TargetView>,
    pub condition: Option<ConditionView>,
    pub prescriptions: Seq<BlockView>,
}

impl View for RuleDef {
    type V = RuleView;

    open spec fn view(&self) -> RuleView {
        RuleView {
            id: opt_view(self.id),
            ns: path_view(self.ns@),
            policy_ns: self.policy_ns@,
            description: opt_view(self.description),
            effect: self.effect,
            target: match self.target {
                Some(t) => Some(t@),
                None => None,
            },
            condition: match self.condition {
                Some(c) => Some(c@),
                None => None,
            },
            prescriptions: blocks_view(self.prescriptions@),
        }
    }
}

/// Whether the rules `a` and `b` have the same name, namespace and name
/// path, and so the same fully-qualified name.
pub open spec fn same_name(a: RuleDef, b: RuleDef) -> bool {
    &&& opt_view(a.id) == opt_view(b.id)
    &&& path_view(a.ns@) == path_view(b.ns@)
    &&& a.policy_ns@ == b.policy_ns@
}

impl Clone for RuleDef {
    fn clone(&self) -> (r: Self)
        ensures
            r@ == self@,
    {
        RuleDef {
            id: clone_opt_string(&self.id),
            ns: clone_strings(self.ns.as_slice()),
            policy_ns: self.policy_ns.clone(),
            description: clone_opt_string(&self.description),
            effect: self.effect,
            target: match &self.target {
                Some(t) => Some(t.clone()),
                None => None,
            },
            condition: match &self.condition {
                Some(c) => Some(c.clone()),
                None => None,
            },
            prescriptions: clone_blocks(&self.prescriptions),
        }
    }
}

impl RuleDef {
    /// A copy of the rule: it holds what the rule holds, and so has its
    /// name, namespace and name path.
    pub fn copy(&self) -> (c: RuleDef)
        ensures
            c@ == self@,
            same_name(c, *self),
    {
        self.clone()
    }

    /// The fully-qualified name: the namespace, the names of the enclosing
    /// policies where all of them are settled, and the rule's own name.
    pub open spec fn qualified(&self, slots: Seq<Option<Seq<char>>>) -> Option<Seq<char>> {
        match self.id {
            None => None,
            Some(i) => {
                let head = if self.ns@.len() == 0 {
                    Seq::empty()
                } else {
                    join(path_view(self.ns@), "."@) + "."@
                };
                let mid = if self.policy_ns@.len() != 0 && resolvable(self.policy_ns@, slots) {
                    join(resolved_parts(self.policy_ns@, slots), "."@) + "."@
                } else {
                    Seq::empty()
                };
                Some(head + mid + i@)
            },
        }
    }

    /// The fully-qualified name of the rule, for a rule that has a name.
    pub fn fully_qualified_name(&self, slots: &NameSlots) -> (r: Option<String>)
        ensures
            opt_view(r) == self.qualified(slots@),
    {
        match &self.id {
            None => None,
            Some(i) => {
                let mut qn = join_strings(self.ns.as_slice(), ".");
                if self.ns.len() != 0 {
                    qn.append(".");
                }
                let ghost head = qn@;
                if !self.policy_ns.is_empty() {
                    if let Some(policy_path) = self.policy_ns.build_path(slots, ".") {
                        qn.append(policy_path.as_str());
                        qn.append(".");
                    }
                }
                qn.append(i.as_str());
                proof {
                    assert(qn@ =~= self.qualified(slots@).unwrap());
                }
                Some(qn)
            },
        }
    }
}

impl RuleDef {
    /// The line that `to_string` returns.
    pub open spec fn display_text(&self, slots: Seq<Option<Seq<char>>>) -> Seq<char> {
        "Rule Def: "@ + debug_quoted_option(self.qualified(slots)) + ", effect: "@
            + self.effect.display_text()
    }

    /// One line with the fully-qualified name of the rule and its effect.
    pub fn to_string(&self, slots: &NameSlots) -> (r: String)
        ensures
            r@ == self.display_text(slots@),
    {
        let mut out = "Rule Def: ".to_owned();
        out.append(debug_quote_option(&self.fully_qualified_name(slots)).as_str());
        out.append(", effect: ");
        out.append(self.effect.to_string().as_str());
        out
    }
}

impl RuleReference {
    /// The line that `to_string` returns.
    pub open spec fn display_text(&self) -> Seq<char> {
        "Rule Reference: "@ + debug_quoted_option(Some(self.spec_name()))
    }

    /// One line with the name of the rule that is referred to.
    pub fn to_string(&self) -> (r: String)
        ensures
            r@ == self.display_text(),
    {
        let mut out = "Rule Reference: ".to_owned();
        out.append(debug_quote_option(&self.fully_qualified_name()).as_str());
        out
    }
}

} // verus!
