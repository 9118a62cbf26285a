//! The members of a policy set in XACML.

use crate::ast::policy::Policy;
use crate::ast::policyset::policy_weight;
use crate::context::Context;
use crate::errors::ParseError;
use crate::xacml::xpolicy::{is_policy_of, only_named, XPolicy};
use crate::xacml::xpolicyset::{
    is_guarded_policy, policy_trouble, set_policies, set_policysets, set_rules, XPolicySet,
};
use vstd::prelude::*;
use vstd::string::*;

verus! {

/// A member of a policy set: a policy, a policy set, or a reference to one
/// by its identifier. The members keep their order.
#[derive(Debug, PartialEq, Eq)]
pub enum XPolicyEntry {
    PolicyIdRef(String),
    PolicySetIdRef(String),
    PolicySet(XPolicySet),
    Policy(XPolicy),
}

/// The number of rules under the member `e`.
pub open spec fn entry_rules(e: XPolicyEntry) -> nat {
    match e {
        XPolicyEntry::PolicyIdRef(_) => 0,
        XPolicyEntry::PolicySetIdRef(_) => 0,
        XPolicyEntry::PolicySet(p) => set_rules(p),
        XPolicyEntry::Policy(p) => p.rules@.len(),
    }
}

/// The number of policies under the member `e`, itself included;
/// references do not count.
pub open spec fn entry_policies(e: XPolicyEntry) -> nat {
    match e {
        XPolicyEntry::PolicyIdRef(_) => 0,
        XPolicyEntry::PolicySetIdRef(_) => 0,
        XPolicyEntry::PolicySet(p) => set_policies(p),
        XPolicyEntry::Policy(_) => 1,
    }
}

/// The number of policy sets that the member `e` holds, itself not
/// included; references do not count.
pub open spec fn entry_policysets(e: XPolicyEntry) -> nat {
    match e {
        XPolicyEntry::PolicyIdRef(_) => 0,
        XPolicyEntry::PolicySetIdRef(_) => 0,
        XPolicyEntry::PolicySet(p) => set_policysets(p),
        XPolicyEntry::Policy(_) => 0,
    }
}

impl XPolicyEntry {
    /// The number of rules under this member.
    pub fn rule_count(&self) -> (r: usize)
        requires
            entry_rules(*self) <= usize::MAX,
        ensures
            r == entry_rules(*self),
    {
        match self {
            XPolicyEntry::PolicyIdRef(_) => 0,
            XPolicyEntry::PolicySetIdRef(_) => 0,
            XPolicyEntry::PolicySet(p) => p.rule_count(),
            XPolicyEntry::Policy(p) => p.rule_count(),
        }
    }

    /// The number of policies under this member, itself included, without
    /// references.
    pub fn policy_count(&self) -> (r: usize)
        requires
            entry_policies(*self) <= usize::MAX,
        ensures
            r == entry_policies(*self),
    {
        match self {
            XPolicyEntry::PolicyIdRef(_) => 0,
            XPolicyEntry::PolicySetIdRef(_) => 0,
            XPolicyEntry::PolicySet(p) => p.policy_count(),
            XPolicyEntry::Policy(_) => 1,
        }
    }

    /// The number of policy sets that this member holds, itself not
    /// included, without references.
    pub fn policyset_count(&self) -> (r: usize)
        requires
            entry_policysets(*self) <= usize::MAX,
        ensures
            r == entry_policysets(*self),
    {
        match self {
            XPolicyEntry::PolicyIdRef(_) => 0,
            XPolicyEntry::PolicySetIdRef(_) => 0,
            XPolicyEntry::PolicySet(p) => p.policyset_count(),
            XPolicyEntry::Policy(_) => 0,
        }
    }
}

impl XPolicyEntry {
    /// The member of XACML for the policy `p`: a policy where it has no
    /// condition, and else the policy set that deconditioning makes of it.
    /// Of the context only names and counters change. A policy that is
    /// refused cannot be converted in the state that is left.
    pub fn try_from(p: Policy, ctx: &mut Context) -> (r: Result<Self, ParseError>)
        requires
            p.well_formed(),
        ensures
            only_named(*old(ctx), *final(ctx)),
            r matches Ok(x) ==> if p.condition is Some {
                x matches XPolicyEntry::PolicySet(xs) && is_guarded_policy(
                    xs,
                    old(ctx).decls,
                    old(ctx).config.base(),
                    *final(ctx),
                    p,
                )
            } else {
                x matches XPolicyEntry::Policy(xp) && is_policy_of(
                    xp,
                    old(ctx).decls,
                    old(ctx).config.base(),
                    *final(ctx),
                    p,
                )
            },
            r is Err ==> policy_trouble(*final(ctx), p),
        decreases policy_weight(p), 1nat,
    {
        if p.condition.is_none() {
            Ok(XPolicyEntry::Policy(XPolicy::try_from(&p, ctx)?))
        } else {
            Ok(XPolicyEntry::PolicySet(XPolicySet::try_from_policy(p, ctx)?))
        }
    }
}

} // verus!
