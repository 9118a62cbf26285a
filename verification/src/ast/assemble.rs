//! Putting declarations together from their statements.
//!
//! The statements of an infix operator, a rule, a policy or a policy set
//! come in the order of the source. Here they are checked against what a
//! declaration may hold, and made into the declaration.

use crate::ast::condition::Condition;
use crate::ast::infix::{Infix, InfixSignature};
use crate::ast::naming::GenName;
use crate::ast::policy::{Policy, PolicyId, RuleCombiningAlgorithm};
use crate::ast::policyset::{PolicyCombiningAlgorithm, PolicyEntry, PolicySet};
use crate::ast::prescription::Prescription;
use crate::ast::rule::{Effect, RuleDef, RuleEntry};
use crate::ast::target::Target;
use crate::errors::{ErrorKind, ParseError, SrcError, SrcLoc};
use vstd::prelude::*;
use vstd::string::*;

verus! {

/// A part of the declaration of an infix operator.
#[derive(Debug, PartialEq, Eq)]
pub enum InfixPart {
    /// The modifier `comm`.
    Commutative,
    /// The modifier `allowbags`.
    AllowBags,
    /// The operator's symbols.
    Operator(String),
    /// A signature.
    Signature(InfixSignature),
    /// The operator named behind `inv`.
    Inverse(String),
}

/// What the parts of an infix declaration come to.
pub ghost struct InfixParts {
    pub commutative: bool,
    pub allow_bags: bool,
    pub operator: Option<String>,
    pub signatures: Seq<InfixSignature>,
    pub inverse: Option<String>,
}

/// What the first `n` parts of an infix declaration come to. A modifier
/// that stands twice is refused with `DuplicateInfixModifier`, and a second
/// operator with `AstConvertError`.
pub open spec fn infix_parts(parts: Seq<InfixPart>, n: nat) -> Result<InfixParts, ErrorKind>
    decreases n,
{
    if n == 0 || n > parts.len() {
        Ok(
            InfixParts {
                commutative: false,
                allow_bags: false,
                operator: None,
                signatures: Seq::empty(),
                inverse: None,
            },
        )
    } else {
        match infix_parts(parts, (n - 1) as nat) {
            Err(k) => Err(k),
            Ok(st) => match parts[n - 1] {
                InfixPart::Commutative => if st.commutative {
                    Err(ErrorKind::DuplicateInfixModifier)
                } else {
                    Ok(InfixParts { commutative: true, ..st })
                },
                InfixPart::AllowBags => if st.allow_bags {
                    Err(ErrorKind::DuplicateInfixModifier)
                } else {
                    Ok(InfixParts { allow_bags: true, ..st })
                },
                InfixPart::Operator(o) => if st.operator is Some {
                    Err(ErrorKind::AstConvertError)
                } else {
                    Ok(InfixParts { operator: Some(o), ..st })
                },
                InfixPart::Signature(s) => Ok(
                    InfixParts { signatures: st.signatures.push(s), ..st },
                ),
                InfixPart::Inverse(i) => Ok(InfixParts { inverse: Some(i), ..st }),
            },
        }
    }
}

/// Once a part is refused, the parts up to any later one are refused in the
/// same way.
pub proof fn lemma_infix_parts_error(parts: Seq<InfixPart>, n: nat, m: nat)
    requires
        n <= m <= parts.len(),
        infix_parts(parts, n) is Err,
    ensures
        infix_parts(parts, m) == infix_parts(parts, n),
    decreases m - n,
{
    if n < m {
        lemma_infix_parts_error(parts, n, (m - 1) as nat);
    }
}

/// The error with which the parts of an infix declaration are refused, if
/// they are: a commutative operator names no inverse, and there is no
/// declaration without an operator.
pub open spec fn infix_refused(parts: Seq<InfixPart>) -> Option<ErrorKind> {
    match infix_parts(parts, parts.len()) {
        Err(k) => Some(k),
        Ok(st) => if st.inverse is Some && st.commutative {
            Some(ErrorKind::CommutativeWithInverseError)
        } else if st.operator is None {
            Some(ErrorKind::AstConvertError)
        } else {
            None
        },
    }
}

impl Infix {
    /// The infix operator that is declared in the namespace `ns` by the
    /// parts `parts`, which stand in the order of the source.
    ///
    /// Refused are a modifier that stands twice, with
    /// `DuplicateInfixModifier`; a commutative operator that names an
    /// inverse, with `CommutativeWithInverseError`; and parts with no
    /// operator or with more than one, with `AstConvertError`.
    pub fn assemble(ns: Vec<String>, parts: Vec<InfixPart>) -> (r: Result<Infix, ParseError>)
        ensures
            match infix_refused(parts@) {
                Some(k) => r matches Err(e) && e.spec_kind() == k,
                None => {
                    &&& r matches Ok(x)
                    &&& infix_parts(parts@, parts@.len()) matches Ok(st)
                    &&& x.ns == ns
                    &&& Some(x.operator) == st.operator
                    &&& x.allow_bags == st.allow_bags
                    &&& x.commutative == st.commutative
                    &&& x.signatures@ == st.signatures
                    &&& x.inverse == st.inverse
                },
            },
    {
        let mut commutative = false;
        let mut allow_bags = false;
        let mut operator: Option<String> = None;
        let mut signatures: Vec<InfixSignature> = Vec::new();
        let mut inverse: Option<String> = None;
        let mut rest = parts;
        let ghost mut done: nat = 0;
        while rest.len() > 0
            invariant
                done + rest@.len() == parts@.len(),
                rest@ == parts@.subrange(done as int, parts@.len() as int),
                infix_parts(parts@, done) == Ok::<InfixParts, ErrorKind>(
                    InfixParts {
                        commutative,
                        allow_bags,
                        operator,
                        signatures: signatures@,
                        inverse,
                    },
                ),
            decreases rest@.len(),
        {
            let part = rest.remove(0);
            proof {
                assert(part == parts@[done as int]);
                assert(rest@ =~= parts@.subrange(done as int + 1, parts@.len() as int));
                done = done + 1;
            }
            let refused: Option<ParseError> = match part {
                InfixPart::Commutative => {
                    if commutative {
                        Some(ParseError::DuplicateInfixModifier)
                    } else {
                        commutative = true;
                        None
                    }
                },
                InfixPart::AllowBags => {
                    if allow_bags {
                        Some(ParseError::DuplicateInfixModifier)
                    } else {
                        allow_bags = true;
                        None
                    }
                },
                InfixPart::Operator(o) => {
                    if operator.is_some() {
                        Some(ParseError::AstConvertError)
                    } else {
                        operator = Some(o);
                        None
                    }
                },
                InfixPart::Signature(s) => {
                    signatures.push(s);
                    None
                },
                InfixPart::Inverse(i) => {
                    inverse = Some(i);
                    None
                },
            };
            if let Some(e) = refused {
                proof {
                    lemma_infix_parts_error(parts@, done, parts@.len());
                }
                return Err(e);
            }
        }
        if inverse.is_some() && commutative {
            return Err(ParseError::CommutativeWithInverseError);
        }
        match operator {
            Some(operator) => Ok(
                Infix { operator, allow_bags, commutative, signatures, ns, inverse },
            ),
            None => Err(ParseError::AstConvertError),
        }
    }
}

/// A statement in the body of a rule.
#[derive(Debug, PartialEq, Eq)]
pub enum RuleStatement {
    /// `permit` or `deny`.
    Effect(Effect),
    /// A target.
    Target(Target),
    /// A condition.
    Condition(Condition),
    /// Obligations and advice for one effect.
    Prescription(Prescription),
}

/// What the statements of a rule come to.
pub ghost struct RuleParts {
    pub effect: Option<Effect>,
    pub target: Option<Target>,
    pub condition: Option<Condition>,
    pub prescriptions: Seq<Prescription>,
}

/// What the first `n` statements of a rule come to. A second effect is
/// refused with `DuplicateRuleEffect`, a second target with
/// `DuplicateTarget` and a second condition with `DuplicateCondition`.
pub open spec fn rule_parts(stmts: Seq<RuleStatement>, n: nat) -> Result<RuleParts, ErrorKind>
    decreases n,
{
    if n == 0 || n > stmts.len() {
        Ok(RuleParts { effect: None, target: None, condition: None, prescriptions: Seq::empty() })
    } else {
        match rule_parts(stmts, (n - 1) as nat) {
            Err(k) => Err(k),
            Ok(st) => match stmts[n - 1] {
                RuleStatement::Effect(e) => if st.effect is Some {
                    Err(ErrorKind::DuplicateRuleEffect)
                } else {
                    Ok(RuleParts { effect: Some(e), ..st })
                },
                RuleStatement::Target(t) => if st.target is Some {
                    Err(ErrorKind::DuplicateTarget)
                } else {
                    Ok(RuleParts { target: Some(t), ..st })
                },
                RuleStatement::Condition(c) => if st.condition is Some {
                    Err(ErrorKind::DuplicateCondition)
                } else {
                    Ok(RuleParts { condition: Some(c), ..st })
                },
                RuleStatement::Prescription(p) => Ok(
                    RuleParts { prescriptions: st.prescriptions.push(p), ..st },
                ),
            },
        }
    }
}

/// Once a statement is refused, the statements up to any later one are
/// refused in the same way.
pub proof fn lemma_rule_parts_error(stmts: Seq<RuleStatement>, n: nat, m: nat)
    requires
        n <= m <= stmts.len(),
        rule_parts(stmts, n) is Err,
    ensures
        rule_parts(stmts, m) == rule_parts(stmts, n),
    decreases m - n,
{
    if n < m {
        lemma_rule_parts_error(stmts, n, (m - 1) as nat);
    }
}

impl RuleDef {
    /// The rule that is defined by the statements `stmts`, which stand in
    /// the order of the source.
    ///
    /// A rule states its effect once, and has at most one target and one
    /// condition: a second is refused with `DuplicateRuleEffect`,
    /// `DuplicateTarget` or `DuplicateCondition`. A rule without an effect
    /// is refused with `AstConvertError`.
    pub fn assemble(
        id: Option<String>,
        ns: Vec<String>,
        policy_ns: GenName,
        description: Option<String>,
        stmts: Vec<RuleStatement>,
    ) -> (r: Result<RuleDef, ParseError>)
        ensures
            match rule_parts(stmts@, stmts@.len()) {
                Err(k) => r matches Err(e) && e.spec_kind() == k,
                Ok(st) => match st.effect {
                    None => r == Err::<RuleDef, ParseError>(ParseError::AstConvertError),
                    Some(effect) => r matches Ok(x) && x.id == id && x.ns == ns && x.policy_ns
                        == policy_ns && x.description == description && x.effect == effect
                        && x.target == st.target && x.condition == st.condition
                        && x.prescriptions@ == st.prescriptions,
                },
            },
    {
        let mut effect: Option<Effect> = None;
        let mut target: Option<Target> = None;
        let mut condition: Option<Condition> = None;
        let mut prescriptions: Vec<Prescription> = Vec::new();
        let mut rest = stmts;
        let ghost mut done: nat = 0;
        while rest.len() > 0
            invariant
                done + rest@.len() == stmts@.len(),
                rest@ == stmts@.subrange(done as int, stmts@.len() as int),
                rule_parts(stmts@, done) == Ok::<RuleParts, ErrorKind>(
                    RuleParts { effect, target, condition, prescriptions: prescriptions@ },
                ),
            decreases rest@.len(),
        {
            let stmt = rest.remove(0);
            proof {
                assert(stmt == stmts@[done as int]);
                assert(rest@ =~= stmts@.subrange(done as int + 1, stmts@.len() as int));
                done = done + 1;
            }
            let refused: Option<ParseError> = match stmt {
                RuleStatement::Effect(e) => {
                    if effect.is_some() {
                        Some(ParseError::DuplicateRuleEffect)
                    } else {
                        effect = Some(e);
                        None
                    }
                },
                RuleStatement::Target(t) => {
                    if target.is_some() {
                        Some(ParseError::DuplicateTarget)
                    } else {
                        target = Some(t);
                        None
                    }
                },
                RuleStatement::Condition(c) => {
                    if condition.is_some() {
                        Some(ParseError::DuplicateCondition)
                    } else {
                        condition = Some(c);
                        None
                    }
                },
                RuleStatement::Prescription(p) => {
                    prescriptions.push(p);
                    None
                },
            };
            if let Some(e) = refused {
                proof {
                    lemma_rule_parts_error(stmts@, done, stmts@.len());
                }
                return Err(e);
            }
        }
        match effect {
            Some(effect) => Ok(
                RuleDef { id, ns, policy_ns, description, effect, target, condition, prescriptions },
            ),
            None => Err(ParseError::AstConvertError),
        }
    }
}

/// A statement in the body of a policy.
#[derive(Debug, PartialEq, Eq)]
pub enum PolicyStatement {
    /// `apply <algorithm>`, and where it stands.
    Apply(String, SrcLoc),
    /// A target.
    Target(Target),
    /// A condition.
    Condition(Condition),
    /// A rule, defined in place or named.
    Rule(RuleEntry),
    /// Obligations and advice for one effect.
    Prescription(Prescription),
}

/// What the statements of a policy come to.
pub ghost struct PolicyParts {
    pub apply: Option<(String, SrcLoc)>,
    pub target: Option<Target>,
    pub condition: Option<Condition>,
    pub rules: Seq<RuleEntry>,
    pub prescriptions: Seq<Prescription>,
}

/// What the first `n` statements of a policy come to. A second target is
/// refused with `DuplicateTarget` and a second condition with
/// `DuplicateCondition`; of several `apply` statements the last counts.
pub open spec fn policy_parts(stmts: Seq<PolicyStatement>, n: nat) -> Result<
    PolicyParts,
    ErrorKind,
>
    decreases n,
{
    if n == 0 || n > stmts.len() {
        Ok(
            PolicyParts {
                apply: None,
                target: None,
                condition: None,
                rules: Seq::empty(),
                prescriptions: Seq::empty(),
            },
        )
    } else {
        match policy_parts(stmts, (n - 1) as nat) {
            Err(k) => Err(k),
            Ok(st) => match stmts[n - 1] {
                PolicyStatement::Apply(a, l) => Ok(PolicyParts { apply: Some((a, l)), ..st }),
                PolicyStatement::Target(t) => if st.target is Some {
                    Err(ErrorKind::DuplicateTarget)
                } else {
                    Ok(PolicyParts { target: Some(t), ..st })
                },
                PolicyStatement::Condition(c) => if st.condition is Some {
                    Err(ErrorKind::DuplicateCondition)
                } else {
                    Ok(PolicyParts { condition: Some(c), ..st })
                },
                PolicyStatement::Rule(r) => Ok(PolicyParts { rules: st.rules.push(r), ..st }),
                PolicyStatement::Prescription(p) => Ok(
                    PolicyParts { prescriptions: st.prescriptions.push(p), ..st },
                ),
            },
        }
    }
}

/// Once a statement is refused, the statements up to any later one are
/// refused in the same way.
pub proof fn lemma_policy_parts_error(stmts: Seq<PolicyStatement>, n: nat, m: nat)
    requires
        n <= m <= stmts.len(),
        policy_parts(stmts, n) is Err,
    ensures
        policy_parts(stmts, m) == policy_parts(stmts, n),
    decreases m - n,
{
    if n < m {
        lemma_policy_parts_error(stmts, n, (m - 1) as nat);
    }
}

impl Policy {
    /// The policy that is defined at `src_loc` by the statements `stmts`,
    /// which stand in the order of the source.
    ///
    /// A policy has at most one target and one condition: a second is
    /// refused with `DuplicateTarget` or `DuplicateCondition`. A policy
    /// without an `apply` statement is refused with
    /// `MissingApplyStatement`, which points at the policy.
    pub fn assemble(
        id: PolicyId,
        ns: Vec<String>,
        policy_ns: GenName,
        src_loc: SrcLoc,
        description: Option<String>,
        stmts: Vec<PolicyStatement>,
    ) -> (r: Result<Policy, ParseError>)
        ensures
            match policy_parts(stmts@, stmts@.len()) {
                Err(k) => r matches Err(e) && e.spec_kind() == k,
                Ok(st) => match st.apply {
                    None => r matches Err(ParseError::MissingApplyStatement(e)) && e.src_loc@
                        == src_loc@,
                    Some(apply) => r matches Ok(x) && x.id == id && x.ns == ns && x.policy_ns
                        == policy_ns && x.src_loc == src_loc && x.description == description
                        && x.apply.id == apply.0 && x.apply.src_loc == apply.1 && x.target
                        == st.target && x.condition == st.condition && x.rules@ == st.rules
                        && x.prescriptions@ == st.prescriptions,
                },
            },
    {
        let mut apply: Option<(String, SrcLoc)> = None;
        let mut target: Option<Target> = None;
        let mut condition: Option<Condition> = None;
        let mut rules: Vec<RuleEntry> = Vec::new();
        let mut prescriptions: Vec<Prescription> = Vec::new();
        let mut rest = stmts;
        let ghost mut done: nat = 0;
        while rest.len() > 0
            invariant
                done + rest@.len() == stmts@.len(),
                rest@ == stmts@.subrange(done as int, stmts@.len() as int),
                policy_parts(stmts@, done) == Ok::<PolicyParts, ErrorKind>(
                    PolicyParts {
                        apply,
                        target,
                        condition,
                        rules: rules@,
                        prescriptions: prescriptions@,
                    },
                ),
            decreases rest@.len(),
        {
            let stmt = rest.remove(0);
            proof {
                assert(stmt == stmts@[done as int]);
                assert(rest@ =~= stmts@.subrange(done as int + 1, stmts@.len() as int));
                done = done + 1;
            }
            let refused: Option<ParseError> = match stmt {
                PolicyStatement::Apply(a, l) => {
                    apply = Some((a, l));
                    None
                },
                PolicyStatement::Target(t) => {
                    if target.is_some() {
                        Some(ParseError::DuplicateTarget)
                    } else {
                        target = Some(t);
                        None
                    }
                },
                PolicyStatement::Condition(c) => {
                    if condition.is_some() {
                        Some(ParseError::DuplicateCondition)
                    } else {
                        condition = Some(c);
                        None
                    }
                },
                PolicyStatement::Rule(r) => {
                    rules.push(r);
                    None
                },
                PolicyStatement::Prescription(p) => {
                    prescriptions.push(p);
                    None
                },
            };
            if let Some(e) = refused {
                proof {
                    lemma_policy_parts_error(stmts@, done, stmts@.len());
                }
                return Err(e);
            }
        }
        match apply {
            Some((id_of_algorithm, at)) => Ok(
                Policy {
                    id,
                    ns,
                    policy_ns,
                    src_loc,
                    description,
                    target,
                    condition,
                    apply: RuleCombiningAlgorithm { id: id_of_algorithm, src_loc: at },
                    rules,
                    prescriptions,
                },
            ),
            None => Err(
                ParseError::MissingApplyStatement(
                    SrcError::new(
                        "Policies must have an apply statement",
                        "this policy needs an apply statement",
                        src_loc,
                    ),
                ),
            ),
        }
    }
}

/// A statement in the body of a policy set.
#[derive(Debug, PartialEq, Eq)]
pub enum PolicySetStatement {
    /// `apply <algorithm>`, and where it stands.
    Apply(String, SrcLoc),
    /// A target.
    Target(Target),
    /// A condition.
    Condition(Condition),
    /// A policy or policy set, defined in place or named.
    Member(PolicyEntry),
    /// Obligations and advice for one effect.
    Prescription(Prescription),
}

/// What the statements of a policy set come to.
pub ghost struct PolicySetParts {
    pub apply: Option<(String, SrcLoc)>,
    pub target: Option<Target>,
    pub condition: Option<Condition>,
    pub members: Seq<PolicyEntry>,
    pub prescriptions: Seq<Prescription>,
}

/// What the first `n` statements of a policy set come to. A second
/// condition is refused with `DuplicateCondition`; of several `apply`
/// statements, and of several targets, the last counts.
pub open spec fn policyset_parts(stmts: Seq<PolicySetStatement>, n: nat) -> Result<
    PolicySetParts,
    ErrorKind,
>
    decreases n,
{
    if n == 0 || n > stmts.len() {
        Ok(
            PolicySetParts {
                apply: None,
                target: None,
                condition: None,
                members: Seq::empty(),
                prescriptions: Seq::empty(),
            },
        )
    } else {
        match policyset_parts(stmts, (n - 1) as nat) {
            Err(k) => Err(k),
            Ok(st) => match stmts[n - 1] {
                PolicySetStatement::Apply(a, l) => Ok(
                    PolicySetParts { apply: Some((a, l)), ..st },
                ),
                PolicySetStatement::Target(t) => Ok(PolicySetParts { target: Some(t), ..st }),
                PolicySetStatement::Condition(c) => if st.condition is Some {
                    Err(ErrorKind::DuplicateCondition)
                } else {
                    Ok(PolicySetParts { condition: Some(c), ..st })
                },
                PolicySetStatement::Member(m) => Ok(
                    PolicySetParts { members: st.members.push(m), ..st },
                ),
                PolicySetStatement::Prescription(p) => Ok(
                    PolicySetParts { prescriptions: st.prescriptions.push(p), ..st },
                ),
            },
        }
    }
}

/// Once a statement is refused, the statements up to any later one are
/// refused in the same way.
pub proof fn lemma_policyset_parts_error(stmts: Seq<PolicySetStatement>, n: nat, m: nat)
    requires
        n <= m <= stmts.len(),
        policyset_parts(stmts, n) is Err,
    ensures
        policyset_parts(stmts, m) == policyset_parts(stmts, n),
    decreases m - n,
{
    if n < m {
        lemma_policyset_parts_error(stmts, n, (m - 1) as nat);
    }
}

/// Whether one of the first `n` of `stmts` gives the member `m`.
pub open spec fn gives_member(stmts: Seq<PolicySetStatement>, n: nat, m: PolicyEntry) -> bool {
    exists|j: int| 0 <= j < n && #[trigger] stmts[j] == PolicySetStatement::Member(m)
}

/// Every member that the statements of a policy set come to is the member
/// of one of the statements.
pub proof fn lemma_members_come_from_statements(stmts: Seq<PolicySetStatement>, n: nat)
    requires
        n <= stmts.len(),
        policyset_parts(stmts, n) is Ok,
    ensures
        forall|k: int|
            0 <= k < policyset_parts(stmts, n)->Ok_0.members.len() ==> gives_member(
                stmts,
                n,
                #[trigger] policyset_parts(stmts, n)->Ok_0.members[k],
            ),
    decreases n,
{
    if n > 0 {
        lemma_members_come_from_statements(stmts, (n - 1) as nat);
        let before = policyset_parts(stmts, (n - 1) as nat)->Ok_0;
        let after = policyset_parts(stmts, n)->Ok_0;
        assert forall|k: int| 0 <= k < after.members.len() implies gives_member(
            stmts,
            n,
            #[trigger] after.members[k],
        ) by {
            if k < before.members.len() {
                assert(after.members[k] == before.members[k]);
                assert(gives_member(stmts, (n - 1) as nat, before.members[k]));
                let j = choose|j: int|
                    0 <= j < n - 1 && #[trigger] stmts[j] == PolicySetStatement::Member(
                        before.members[k],
                    );
                assert(stmts[j] == PolicySetStatement::Member(after.members[k]));
            } else {
                assert(stmts[n - 1] == PolicySetStatement::Member(after.members[k]));
            }
        }
    }
}

impl PolicySet {
    /// The policy set that is defined at `src_loc` by the statements
    /// `stmts`, which stand in the order of the source.
    ///
    /// A policy set has at most one condition: a second is refused with
    /// `DuplicateCondition`. A policy set without an `apply` statement is
    /// refused with `MissingApplyStatement`, which points at the policy
    /// set.
    pub fn assemble(
        id: PolicyId,
        ns: Vec<String>,
        policy_ns: GenName,
        src_loc: SrcLoc,
        description: Option<String>,
        stmts: Vec<PolicySetStatement>,
    ) -> (r: Result<PolicySet, ParseError>)
        ensures
            match policyset_parts(stmts@, stmts@.len()) {
                Err(k) => r matches Err(e) && e.spec_kind() == k,
                Ok(st) => match st.apply {
                    None => r matches Err(ParseError::MissingApplyStatement(e)) && e.src_loc@
                        == src_loc@,
                    Some(apply) => r matches Ok(x) && x.id == id && x.ns == ns && x.policy_ns
                        == policy_ns && x.src_loc == src_loc && x.description == description
                        && x.apply.id == apply.0 && x.apply.src_loc == apply.1 && x.target
                        == st.target && x.condition == st.condition && x.policies@ == st.members
                        && x.prescriptions@ == st.prescriptions,
                },
            },
    {
        let mut apply: Option<(String, SrcLoc)> = None;
        let mut target: Option<Target> = None;
        let mut condition: Option<Condition> = None;
        let mut members: Vec<PolicyEntry> = Vec::new();
        let mut prescriptions: Vec<Prescription> = Vec::new();
        let mut rest = stmts;
        let ghost mut done: nat = 0;
        while rest.len() > 0
            invariant
                done + rest@.len() == stmts@.len(),
                rest@ == stmts@.subrange(done as int, stmts@.len() as int),
                policyset_parts(stmts@, done) == Ok::<PolicySetParts, ErrorKind>(
                    PolicySetParts {
                        apply,
                        target,
                        condition,
                        members: members@,
                        prescriptions: prescriptions@,
                    },
                ),
            decreases rest@.len(),
        {
            let stmt = rest.remove(0);
            proof {
                assert(stmt == stmts@[done as int]);
                assert(rest@ =~= stmts@.subrange(done as int + 1, stmts@.len() as int));
                done = done + 1;
            }
            let refused: Option<ParseError> = match stmt {
                PolicySetStatement::Apply(a, l) => {
                    apply = Some((a, l));
                    None
                },
                PolicySetStatement::Target(t) => {
                    target = Some(t);
                    None
                },
                PolicySetStatement::Condition(c) => {
                    if condition.is_some() {
                        Some(ParseError::DuplicateCondition)
                    } else {
                        condition = Some(c);
                        None
                    }
                },
                PolicySetStatement::Member(m) => {
                    members.push(m);
                    None
                },
                PolicySetStatement::Prescription(p) => {
                    prescriptions.push(p);
                    None
                },
            };
            if let Some(e) = refused {
                proof {
                    lemma_policyset_parts_error(stmts@, done, stmts@.len());
                }
                return Err(e);
            }
        }
        match apply {
            Some((id_of_algorithm, at)) => Ok(
                PolicySet {
                    id,
                    ns,
                    policy_ns,
                    src_loc,
                    description,
                    target,
                    condition,
                    apply: PolicyCombiningAlgorithm { id: id_of_algorithm, src_loc: at },
                    policies: members,
                    prescriptions,
                },
            ),
            None => Err(
                ParseError::MissingApplyStatement(
                    SrcError::new(
                        "PolicySets must have an apply statement",
                        "missing an apply statement",
                        src_loc,
                    ),
                ),
            ),
        }
    }
}

} // verus!
