//! The structures of XACML that a compilation produces.
//!
//! The syntax tree keeps the names of ALFA. The structures here hold only
//! what XACML needs: URIs in place of names, and every condition on a
//! policy or policy set rewritten.

use crate::xacml::xpolicy::XPolicy;
use crate::xacml::xpolicyset::XPolicySet;
use vstd::prelude::*;

pub mod document;
pub mod xapply;
pub mod xattr_designator;
pub mod xcondition;
pub mod xexpression;
pub mod xfunction;
pub mod xpolicy;
pub mod xpolicyentry;
pub mod xpolicyset;
pub mod xprescription;
pub mod xrule;
pub mod xtarget;

verus! {

/// What stands at the top of a XACML file: one policy or one policy set.
#[derive(Debug, PartialEq, Eq)]
pub enum XTopPolicy {
    Policy(XPolicy),
    PolicySet(XPolicySet),
}

impl XTopPolicy {
    /// The number of rules in the element and in all that it holds.
    pub open spec fn spec_rule_count(&self) -> nat {
        match self {
            XTopPolicy::Policy(xp) => xp.rules@.len(),
            XTopPolicy::PolicySet(xps) => crate::xacml::xpolicyset::set_rules(*xps),
        }
    }

    /// The number of policies in the element and in all that it holds.
    pub open spec fn spec_policy_count(&self) -> nat {
        match self {
            XTopPolicy::Policy(_) => 1,
            XTopPolicy::PolicySet(xps) => crate::xacml::xpolicyset::set_policies(*xps),
        }
    }

    /// The number of policy sets in the element and in all that it holds,
    /// the element itself included.
    pub open spec fn spec_policyset_count(&self) -> nat {
        match self {
            XTopPolicy::Policy(_) => 0,
            XTopPolicy::PolicySet(xps) => 1 + crate::xacml::xpolicyset::set_policysets(*xps),
        }
    }

    /// The numbers of rules, of policies and of policy sets in the element
    /// and in all that it holds, where each is a `usize`; `None` where one
    /// of them is too large.
    pub fn counts(&self) -> (r: Option<(usize, usize, usize)>)
        ensures
            match r {
                Some((rules, policies, sets)) => rules == self.spec_rule_count() && policies
                    == self.spec_policy_count() && sets == self.spec_policyset_count(),
                None => self.spec_rule_count() > usize::MAX || self.spec_policy_count()
                    > usize::MAX || self.spec_policyset_count() > usize::MAX,
            },
    {
        match self {
            XTopPolicy::Policy(xp) => Some((xp.rules.len(), 1, 0)),
            XTopPolicy::PolicySet(xps) => {
                let rules = xps.checked_count(crate::xacml::xpolicyset::Counted::Rules)?;
                let policies = xps.checked_count(crate::xacml::xpolicyset::Counted::Policies)?;
                let below = xps.checked_count(crate::xacml::xpolicyset::Counted::PolicySets)?;
                let sets = below.checked_add(1)?;
                Some((rules, policies, sets))
            },
        }
    }

    /// The number of rules in the element and in all that it holds.
    pub fn rule_count(&self) -> (r: usize)
        requires
            self.spec_rule_count() <= usize::MAX,
        ensures
            r == self.spec_rule_count(),
    {
        match self {
            XTopPolicy::Policy(xp) => xp.rule_count(),
            XTopPolicy::PolicySet(xps) => xps.rule_count(),
        }
    }

    /// The number of policies in the element and in all that it holds.
    pub fn policy_count(&self) -> (r: usize)
        requires
            self.spec_policy_count() <= usize::MAX,
        ensures
            r == self.spec_policy_count(),
    {
        match self {
            XTopPolicy::Policy(_) => 1,
            XTopPolicy::PolicySet(xps) => xps.policy_count(),
        }
    }

    /// The number of policy sets in the element and in all that it holds,
    /// the element itself included.
    pub fn policyset_count(&self) -> (r: usize)
        requires
            self.spec_policyset_count() <= usize::MAX,
        ensures
            r == self.spec_policyset_count(),
    {
        match self {
            XTopPolicy::Policy(_) => 0,
            XTopPolicy::PolicySet(xps) => 1 + xps.policyset_count(),
        }
    }
}

} // verus!
