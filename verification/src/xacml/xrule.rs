//! Rules in XACML.

use crate::ast::rule::RuleDef;
use crate::context::{upcoming, Context, Declarations};
use crate::errors::{ErrorKind, ParseError};
use crate::identifiers::{can_name_rule, rule_number_drawn, rule_uri};
use crate::text::{clone_opt_string, join, opt_view, path_view};
use crate::xacml::xcondition::{condition_of, XCondition};
use crate::xacml::xexpression::XExprView;
use crate::xacml::xprescription::{blocks_of, PrescriptionView, XPrescriptions};
use crate::xacml::xtarget::{target_of, XMatchView, XTarget};
use vstd::prelude::*;
use vstd::string::*;

verus! {

/// A `<Rule>` element within a policy.
#[derive(Debug, PartialEq, Eq)]
pub struct XRule {
    pub id: String,
    pub description: Option<String>,
    /// `Permit` or `Deny`.
    pub effect: String,
    pub target: XTarget,
    pub condition: Option<XCondition>,
    pub prescriptions: XPrescriptions,
}

/// What a rule holds besides its identifier.
pub ghost struct RuleBodyView {
    pub description: Option<Seq<char>>,
    pub effect: Seq<char>,
    pub target: Seq<Seq<Seq<XMatchView>>>,
    pub condition: Option<XExprView>,
    pub prescriptions: Seq<PrescriptionView>,
}

impl XRule {
    /// What the rule holds besides its identifier.
    pub open spec fn body(&self) -> RuleBodyView {
        RuleBodyView {
            description: opt_view(self.description),
            effect: self.effect@,
            target: self.target@,
            condition: match self.condition {
                Some(c) => Some(c.expr@),
                None => None,
            },
            prescriptions: self.prescriptions@,
        }
    }
}

/// The target of XACML for an optional target: no target gives the empty
/// target.
pub open spec fn optional_target_of(ctx: Declarations, t: Option<crate::ast::target::Target>) -> Result<
    Seq<Seq<Seq<XMatchView>>>,
    ErrorKind,
> {
    match t {
        Some(t) => target_of(ctx, t, t.clauses@.len()),
        None => Ok(Seq::empty()),
    }
}

/// The rule of XACML for the rule `r`, without its identifier: the target,
/// the condition and the obligations and advice, converted in this order;
/// the first that has no counterpart gives the error.
pub open spec fn rule_body_of(ctx: Declarations, r: RuleDef) -> Result<RuleBodyView, ErrorKind> {
    match optional_target_of(ctx, r.target) {
        Err(k) => Err(k),
        Ok(target) => match (match r.condition {
            Some(c) => match condition_of(ctx, c) {
                Ok(x) => Ok(Some(x)),
                Err(k) => Err(k),
            },
            None => Ok(None),
        }) {
            Err(k) => Err(k),
            Ok(condition) => match blocks_of(ctx, r.prescriptions@, r.prescriptions@.len()) {
                Err(k) => Err(k),
                Ok(prescriptions) => Ok(
                    RuleBodyView {
                        description: opt_view(r.description),
                        effect: r.effect.display_text(),
                        target,
                        condition,
                        prescriptions,
                    },
                ),
            },
        },
    }
}

impl XRule {
    /// The rule of XACML for the rule `r` with the identifier `id`, as
    /// `rule_body_of` states it.
    pub fn convert(r: &RuleDef, id: String, ctx: &Context) -> (x: Result<Self, ParseError>)
        ensures
            match rule_body_of(ctx.decls, *r) {
                Ok(b) => x matches Ok(rule) && rule.body() == b && rule.id == id,
                Err(k) => x matches Err(e) && e.spec_kind() == k,
            },
    {
        let target = XTarget::try_from_option(&r.target, ctx)?;
        let condition = match &r.condition {
            Some(c) => Some(XCondition::try_from(c, ctx)?),
            None => None,
        };
        let prescriptions = XPrescriptions::try_from(&r.prescriptions, ctx)?;
        proof {
            if r.target is None {
                assert(target@ =~= Seq::<Seq<Seq<XMatchView>>>::empty());
            }
        }
        Ok(
            XRule {
                id,
                description: clone_opt_string(&r.description),
                effect: r.effect.to_string(),
                target,
                condition,
                prescriptions,
            },
        )
    }

    /// The rule of XACML for the rule `r`: its body as `rule_body_of`
    /// states it, and its identifier as `rule_uri` does. The identifier is
    /// put together last, so a rule that has no counterpart draws no
    /// number.
    ///
    /// Every name on the path of the rule is settled when this runs.
    pub fn try_from(r: &RuleDef, ctx: &mut Context) -> (x: Result<Self, ParseError>)
        requires
            can_name_rule(*old(ctx), opt_view(r.id), path_view(r.ns@), r.policy_ns@),
        ensures
            match rule_body_of(old(ctx).decls, *r) {
                Ok(b) => {
                    &&& x matches Ok(rule)
                    &&& rule.body() == b
                    &&& rule.id@ == rule_uri(
                        old(ctx).config.base(),
                        opt_view(r.id),
                        path_view(r.ns@),
                        r.policy_ns@,
                        old(ctx).slots@,
                        upcoming(old(ctx).rule_id_mapping@, join(path_view(r.ns@), "."@)),
                    )
                    &&& rule_number_drawn(*old(ctx), *final(ctx), path_view(r.ns@), r.id is None)
                },
                Err(k) => x matches Err(e) && e.spec_kind() == k && *final(ctx) == *old(ctx),
            },
    {
        let mut rule = XRule::convert(r, String::new(), ctx)?;
        rule.id = r.get_id(ctx);
        Ok(rule)
    }
}

/// Two rules that hold the same stand for the same rule of XACML: a copy
/// of a rule is converted as the rule is.
pub proof fn lemma_rule_same(ctx: Declarations, a: RuleDef, b: RuleDef)
    requires
        a@ == b@,
    ensures
        rule_body_of(ctx, a) == rule_body_of(ctx, b),
{
    match a.target {
        Some(t) => {
            let u = b.target->Some_0;
            assert(t@ == u@);
            assert(t@.clauses.len() == t.clauses@.len());
            assert(u@.clauses.len() == u.clauses@.len());
            crate::xacml::xtarget::lemma_target_same(ctx, t, u, t.clauses@.len());
        },
        None => {},
    }
    match a.condition {
        Some(c) => {
            let d = b.condition->Some_0;
            assert(c@ == d@);
            crate::xacml::xcondition::lemma_condition_same(ctx, c, d);
        },
        None => {},
    }
    assert(crate::ast::prescription::blocks_view(a.prescriptions@).len()
        == a.prescriptions@.len());
    assert(crate::ast::prescription::blocks_view(b.prescriptions@).len()
        == b.prescriptions@.len());
    crate::xacml::xprescription::lemma_blocks_same(
        ctx,
        a.prescriptions@,
        b.prescriptions@,
        a.prescriptions@.len(),
    );
}

} // verus!
