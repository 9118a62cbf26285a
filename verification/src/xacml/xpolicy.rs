//! Policies in XACML.

use crate::ast::naming::slots_extend;
use crate::ast::policy::{policy_filename, Policy};
use crate::ast::rule::{RuleDef, RuleEntry};
use crate::context::{found, Context, Declarations};
use crate::errors::{ErrorKind, ParseError};
use crate::context::upcoming;
use crate::identifiers::{
    can_draw, can_name_rule, draw_rule_id, is_identifier, policy_uri, rule_can_be_named,
    rule_uri, settled,
};
use crate::resolver::resolve;
use crate::text::{
    append_decimal, clone_opt_string, clone_strings, decimal, join, join_strings, opt_view,
    path_view,
};
use crate::xacml::xprescription::{blocks_of, XPrescriptions};
use crate::xacml::xrule::{optional_target_of, rule_body_of, RuleBodyView, XRule};
use crate::xacml::xtarget::XTarget;
use vstd::prelude::*;
use vstd::string::*;

verus! {

/// A `<Policy>` element and all that it holds.
#[derive(Debug, PartialEq, Eq, Default)]
pub struct XPolicy {
    /// The identifier of the policy.
    pub id: String,
    /// The name of the file for the policy.
    pub filename: Option<String>,
    /// The URI of the rule-combining algorithm.
    pub combining_alg: String,
    pub description: Option<String>,
    pub target: XTarget,
    pub prescriptions: XPrescriptions,
    pub rules: Vec<XRule>,
}

impl XPolicy {
    /// The number of rules of the policy.
    pub fn rule_count(&self) -> (r: usize)
        ensures
            r == self.rules@.len(),
    {
        self.rules.len()
    }
}

/// The body of the rule of XACML for a rule of a policy that is written in
/// the namespace `ns`: for a rule that is defined in place its own body,
/// and for a reference the body of the rule that the name stands for.
pub open spec fn rule_entry_body(ctx: Declarations, e: RuleEntry, ns: Seq<Seq<char>>) -> Result<
    RuleBodyView,
    ErrorKind,
> {
    match e {
        RuleEntry::Def(d) => rule_body_of(ctx, d),
        RuleEntry::Ref(rr) => match found(
            resolve(ctx.rule_resolver@.dom(), rr.spec_name(), ns, ctx.imports_for(ns)),
        ) {
            Ok(n) => rule_body_of(ctx, ctx.rule_resolver@[n]),
            Err(k) => Err(k),
        },
    }
}

/// The URI of the rule-combining algorithm named `name` in the namespace
/// `ns`.
pub open spec fn rule_combinator_uri(ctx: Declarations, name: Seq<char>, ns: Seq<Seq<char>>) -> Result<
    Seq<char>,
    ErrorKind,
> {
    match found(resolve(ctx.rulecombinator_resolver@.dom(), name, ns, ctx.imports_for(ns))) {
        Ok(n) => Ok(ctx.rulecombinator_resolver@[n].uri@),
        Err(k) => Err(k),
    }
}

/// Whether `after` differs from `before` at most in what a conversion
/// changes: names are settled and numbers are drawn, and nothing else.
pub open spec fn only_named(before: Context, after: Context) -> bool {
    &&& after == (Context {
        slots: after.slots,
        policy_id_mapping: after.policy_id_mapping,
        policyset_id_mapping: after.policyset_id_mapping,
        rule_id_mapping: after.rule_id_mapping,
        ..before
    })
    &&& slots_extend(before.slots@, after.slots@)
}

/// A conversion after a conversion changes no more than a conversion.
pub proof fn lemma_only_named_trans(a: Context, b: Context, c: Context)
    requires
        only_named(a, b),
        only_named(b, c),
    ensures
        only_named(a, c),
{
}

/// What becomes of a rule of a policy: the body and the identifier of the
/// rule of XACML, or the kind of the error, and the counters of rule
/// numbers as they stand afterwards.
pub ghost struct EntryOutcome {
    pub rule: Result<(RuleBodyView, Seq<char>), ErrorKind>,
    pub counters: Map<Seq<char>, usize>,
}

/// What becomes of the rule `d` that is defined in place in a policy.
///
/// Where the identifier of the rule cannot be put together the rule is
/// refused with `AstConvertError`, and where a part of it has no
/// counterpart with the error of that part; no number is drawn then. Else
/// the rule gets the identifier that `rule_uri` states, and a rule without
/// a name draws the next rule number of its namespace for it.
pub open spec fn defined_outcome(ctx: Context, d: RuleDef) -> EntryOutcome {
    let counters = ctx.rule_id_mapping@;
    let own = join(path_view(d.ns@), "."@);
    if !can_name_rule(ctx, opt_view(d.id), path_view(d.ns@), d.policy_ns@) {
        EntryOutcome { rule: Err(ErrorKind::AstConvertError), counters }
    } else {
        match rule_body_of(ctx.decls, d) {
            Err(k) => EntryOutcome { rule: Err(k), counters },
            Ok(b) => EntryOutcome {
                rule: Ok(
                    (
                        b,
                        rule_uri(
                            ctx.config.base(),
                            opt_view(d.id),
                            path_view(d.ns@),
                            d.policy_ns@,
                            ctx.slots@,
                            upcoming(counters, own),
                        ),
                    ),
                ),
                counters: if d.id is None {
                    counters.insert(own, upcoming(counters, own) as usize)
                } else {
                    counters
                },
            },
        }
    }
}

/// What becomes of a reference to the rule `t`.
///
/// Where a part of the rule has no counterpart the reference is refused
/// with the error of that part, and where the identifier of the rule
/// cannot be put together with `AstConvertError`. Else the identifier is
/// that of the rule, for which a rule without a name draws a rule number
/// of its namespace, with `#rule_` and the next rule number of that
/// namespace behind it. Where the counter has no number left for that,
/// the reference is refused with `AstConvertError`; the number that a rule
/// without a name drew stays drawn.
pub open spec fn referenced_outcome(ctx: Context, t: RuleDef) -> EntryOutcome {
    let counters = ctx.rule_id_mapping@;
    let own = join(path_view(t.ns@), "."@);
    match rule_body_of(ctx.decls, t) {
        Err(k) => EntryOutcome { rule: Err(k), counters },
        Ok(b) => if !can_name_rule(ctx, opt_view(t.id), path_view(t.ns@), t.policy_ns@) {
            EntryOutcome { rule: Err(ErrorKind::AstConvertError), counters }
        } else {
            let first = upcoming(counters, own);
            let drawn = if t.id is None {
                counters.insert(own, first as usize)
            } else {
                counters
            };
            if upcoming(drawn, own) > usize::MAX {
                EntryOutcome { rule: Err(ErrorKind::AstConvertError), counters: drawn }
            } else {
                EntryOutcome {
                    rule: Ok(
                        (
                            b,
                            rule_uri(
                                ctx.config.base(),
                                opt_view(t.id),
                                path_view(t.ns@),
                                t.policy_ns@,
                                ctx.slots@,
                                first,
                            ) + "#rule_"@ + decimal(upcoming(drawn, own)),
                        ),
                    ),
                    counters: drawn.insert(own, upcoming(drawn, own) as usize),
                }
            }
        },
    }
}

/// What becomes of the rule `e` of a policy that is written in the
/// namespace `ns`: of a rule that is defined in place what
/// `defined_outcome` states, and of a reference, which is looked up from
/// `ns`, what `referenced_outcome` states of the rule that the name stands
/// for. A name that stands for no rule is refused with the error of the
/// lookup.
pub open spec fn entry_outcome(ctx: Context, e: RuleEntry, ns: Seq<Seq<char>>) -> EntryOutcome {
    match e {
        RuleEntry::Def(d) => defined_outcome(ctx, d),
        RuleEntry::Ref(rr) => match found(
            resolve(ctx.decls.rule_resolver@.dom(), rr.spec_name(), ns, ctx.decls.imports_for(ns)),
        ) {
            Ok(n) => referenced_outcome(ctx, ctx.decls.rule_resolver@[n]),
            Err(k) => EntryOutcome { rule: Err(k), counters: ctx.rule_id_mapping@ },
        },
    }
}

/// Whether the rule `e` of a policy that is written in the namespace `ns`
/// cannot be converted in the state `ctx`: a part of it has no
/// counterpart, or its identifier cannot be put together.
pub open spec fn entry_trouble(ctx: Context, e: RuleEntry, ns: Seq<Seq<char>>) -> bool {
    entry_outcome(ctx, e, ns).rule is Err
}

/// A rule that was refused cannot be converted in the state in which the
/// refusal left the context: the number that was drawn for it, if any, was
/// the last of its counter.
pub proof fn lemma_trouble_stays(before: Context, after: Context, e: RuleEntry, ns: Seq<Seq<char>>)
    requires
        after == (Context { rule_id_mapping: after.rule_id_mapping, ..before }),
        after.rule_id_mapping@ == entry_outcome(before, e, ns).counters,
        entry_outcome(before, e, ns).rule is Err,
    ensures
        entry_trouble(after, e, ns),
{
}

/// Whether a part of the policy `p` other than its condition cannot be
/// converted in the state `ctx`: the rule-combining algorithm is not
/// found, the target or the obligations and advice have no counterpart,
/// or one of the rules cannot be converted.
pub open spec fn policy_body_trouble(ctx: Context, p: Policy) -> bool {
    let ns = path_view(p.ns@);
    ||| rule_combinator_uri(ctx.decls, p.apply.id@, ns) is Err
    ||| optional_target_of(ctx.decls, p.target) is Err
    ||| blocks_of(ctx.decls, p.prescriptions@, p.prescriptions@.len()) is Err
    ||| exists|i: int| 0 <= i < p.rules@.len() && entry_trouble(ctx, #[trigger] p.rules@[i], ns)
}

/// Whether `made` are the rules of XACML for the rules `rules` of a
/// policy that is written in the namespace `ns`, converted one after the
/// other in the states `states`: each rule has the body and the
/// identifier that `entry_outcome` states for the state that the rule
/// before it left, and leaves the state with the rule counters that
/// `entry_outcome` states and nothing else changed.
pub open spec fn rules_converted(
    states: Seq<Context>,
    rules: Seq<RuleEntry>,
    ns: Seq<Seq<char>>,
    made: Seq<XRule>,
) -> bool {
    &&& states.len() == rules.len() + 1
    &&& made.len() == rules.len()
    &&& forall|i: int|
        0 <= i < rules.len() ==> {
            let out = entry_outcome(#[trigger] states[i], rules[i], ns);
            &&& out.rule == Ok::<(RuleBodyView, Seq<char>), ErrorKind>(
                (made[i].body(), made[i].id@),
            )
            &&& states[i + 1] == (Context {
                rule_id_mapping: states[i + 1].rule_id_mapping,
                ..states[i]
            })
            &&& states[i + 1].rule_id_mapping@ == out.counters
        }
}

/// Whether `x` is the policy of XACML for the policy `p`, converted with
/// the declarations `decls` and the prefix `base`, where `after` is the
/// context after the conversion: the URI of the rule-combining algorithm,
/// the target, the obligations and advice, the description, the file name
/// and the identifier of the policy, and each rule in order, with the
/// body and the identifier that `rules_converted` states; the state
/// behind the last rule is `after`.
pub open spec fn is_policy_of(
    x: XPolicy,
    decls: Declarations,
    base: Seq<char>,
    after: Context,
    p: Policy,
) -> bool {
    &&& rule_combinator_uri(decls, p.apply.id@, path_view(p.ns@)) == Ok::<Seq<char>, ErrorKind>(
        x.combining_alg@,
    )
    &&& optional_target_of(decls, p.target) == Ok::<
        Seq<Seq<Seq<crate::xacml::xtarget::XMatchView>>>,
        ErrorKind,
    >(x.target@)
    &&& blocks_of(decls, p.prescriptions@, p.prescriptions@.len()) == Ok::<
        Seq<crate::xacml::xprescription::PrescriptionView>,
        ErrorKind,
    >(x.prescriptions@)
    &&& opt_view(x.description) == opt_view(p.description)
    &&& opt_view(x.filename) == policy_filename(path_view(p.ns@), p.policy_ns@, after.slots@)
    &&& is_identifier(
        x.id@,
        policy_uri(base, p.id@, path_view(p.ns@), p.policy_ns@, after.slots@),
    )
    &&& x.rules@.len() == p.rules@.len()
    &&& forall|i: int|
        0 <= i < p.rules@.len() ==> rule_entry_body(
            decls,
            #[trigger] p.rules@[i],
            path_view(p.ns@),
        ) == Ok::<RuleBodyView, ErrorKind>(x.rules@[i].body())
    &&& exists|states: Seq<Context>|
        {
            &&& #[trigger] rules_converted(states, p.rules@, path_view(p.ns@), x.rules@)
            &&& states.last() == after
        }
}

/// The rule of XACML for one rule of a policy that is written in the
/// namespace `ns`, as `entry_outcome` states it.
///
/// A reference is looked up from `ns`; the rule that it stands for is
/// converted, and its identifier gets `#rule_` and the next rule number of
/// the rule's namespace behind it, for the same rule may be used in many
/// policies. Where the identifier of a rule can not be put together the
/// conversion fails with `AstConvertError`. Of the context only the
/// counters of rule numbers change.
pub fn convert_rule_entry(e: &RuleEntry, ns: &[String], ctx: &mut Context) -> (r: Result<
    XRule,
    ParseError,
>)
    ensures
        only_named(*old(ctx), *final(ctx)),
        final(ctx).slots == old(ctx).slots,
        final(ctx).policy_id_mapping == old(ctx).policy_id_mapping,
        final(ctx).policyset_id_mapping == old(ctx).policyset_id_mapping,
        r matches Ok(x) ==> rule_entry_body(old(ctx).decls, *e, path_view(ns@)) == Ok::<
            RuleBodyView,
            ErrorKind,
        >(x.body()),
        rule_entry_body(old(ctx).decls, *e, path_view(ns@)) is Err ==> r is Err,
        *final(ctx) == (Context { rule_id_mapping: final(ctx).rule_id_mapping, ..*old(ctx) }),
        final(ctx).rule_id_mapping@ == entry_outcome(*old(ctx), *e, path_view(ns@)).counters,
        match entry_outcome(*old(ctx), *e, path_view(ns@)).rule {
            Ok((body, id)) => r matches Ok(x) && x.body() == body && x.id@ == id,
            Err(k) => r matches Err(err) && err.spec_kind() == k,
        },
{
    match e {
        RuleEntry::Def(d) => {
            if !rule_can_be_named(ctx, &d.id, d.ns.as_slice(), &d.policy_ns) {
                return Err(ParseError::AstConvertError);
            }
            XRule::try_from(d, ctx)
        },
        RuleEntry::Ref(rr) => {
            let name = match rr.fully_qualified_name() {
                Some(n) => n,
                None => {
                    return Err(ParseError::AstConvertError);
                },
            };
            let resolved = ctx.lookup_rule(name.as_str(), ns, &rr.src_loc)?;
            let mut rule = XRule::convert(resolved, String::new(), ctx)?;
            let key_id = clone_opt_string(&resolved.id);
            let key_ns = clone_strings(resolved.ns.as_slice());
            let key_path = resolved.policy_ns.clone();
            if !rule_can_be_named(ctx, &key_id, key_ns.as_slice(), &key_path) {
                return Err(ParseError::AstConvertError);
            }
            let mut id = draw_rule_id(ctx, &key_id, key_ns.as_slice(), &key_path);
            let nsd = join_strings(key_ns.as_slice(), ".");
            if !can_draw(&ctx.rule_id_mapping, nsd.as_str()) {
                return Err(ParseError::AstConvertError);
            }
            let n = ctx.get_next_rule_id(nsd.as_str());
            id.append("#rule_");
            append_decimal(&mut id, n);
            rule.id = id;
            Ok(rule)
        },
    }
}

impl XPolicy {
    /// The policy of XACML for the policy `p`.
    ///
    /// A policy with a condition is no policy of XACML, and is refused with
    /// `PolicyHasCondition`: it is deconditioned first. Else the name of
    /// the policy is settled; then the rule-combining algorithm is looked
    /// up, and the target, the rules in their order and the obligations and
    /// advice are converted. Of the context only names and counters change.
    ///
    /// The conversion ends at the first part that cannot be converted, and
    /// leaves the context as it was then: a policy that is refused cannot
    /// be converted in the state that is left.
    #[verifier::loop_isolation(false)]
    pub fn try_from(p: &Policy, ctx: &mut Context) -> (r: Result<Self, ParseError>)
        requires
            p.well_formed(),
        ensures
            p.condition is Some ==> r == Err::<XPolicy, ParseError>(ParseError::PolicyHasCondition)
                && *final(ctx) == *old(ctx),
            only_named(*old(ctx), *final(ctx)),
            final(ctx).policyset_id_mapping@ == old(ctx).policyset_id_mapping@,
            p.condition is None ==> settled(
                *old(ctx),
                (Context { rule_id_mapping: old(ctx).rule_id_mapping, ..*final(ctx) }),
                path_view(p.ns@),
                p.policy_ns@.last(),
                false,
            ),
            r matches Ok(x) ==> is_policy_of(
                x,
                old(ctx).decls,
                old(ctx).config.base(),
                *final(ctx),
                *p,
            ),
            r is Err ==> p.condition is Some || policy_body_trouble(*final(ctx), *p),
    {
        if p.condition.is_some() {
            return Err(ParseError::PolicyHasCondition);
        }
        p.finalize_id(ctx);
        let ghost named = *ctx;
        let found_alg = match ctx.lookup_rule_combinator(
            p.apply.id.as_str(),
            p.ns.as_slice(),
            &p.apply.src_loc,
        ) {
            Ok(c) => Ok(c.uri.clone()),
            Err(e) => Err(e),
        };
        let combining_alg = found_alg?;
        let target = XTarget::try_from_option(&p.target, ctx)?;
        proof {
            if p.target is None {
                assert(target@ =~= Seq::<Seq<Seq<crate::xacml::xtarget::XMatchView>>>::empty());
            }
        }
        let mut rules: Vec<XRule> = Vec::new();
        let ghost mut states: Seq<Context> = seq![*ctx];
        let mut i: usize = 0;
        while i < p.rules.len()
            invariant
                i <= p.rules.len(),
                rules@.len() == i,
                states.len() == i + 1,
                states.last() == *ctx,
                rules_converted(states, p.rules@.take(i as int), path_view(p.ns@), rules@),
                only_named(named, *ctx),
                ctx.slots == named.slots,
                ctx.policy_id_mapping == named.policy_id_mapping,
                ctx.policyset_id_mapping == named.policyset_id_mapping,
                forall|j: int|
                    0 <= j < i ==> rule_entry_body(
                        named.decls,
                        #[trigger] p.rules@[j],
                        path_view(p.ns@),
                    ) == Ok::<RuleBodyView, ErrorKind>(rules@[j].body()),
            decreases p.rules.len() - i,
        {
            let ghost at = *ctx;
            let x = match convert_rule_entry(&p.rules[i], p.ns.as_slice(), ctx) {
                Ok(x) => x,
                Err(e) => {
                    proof {
                        lemma_trouble_stays(at, *ctx, p.rules@[i as int], path_view(p.ns@));
                    }
                    return Err(e);
                },
            };
            let ghost made = rules@;
            let ghost seen = states;
            rules.push(x);
            proof {
                states = states.push(*ctx);
                let shown = p.rules@.take(i + 1);
                assert forall|j: int| 0 <= j < shown.len() implies {
                    let out = entry_outcome(#[trigger] states[j], shown[j], path_view(p.ns@));
                    &&& out.rule == Ok::<(RuleBodyView, Seq<char>), ErrorKind>(
                        (rules@[j].body(), rules@[j].id@),
                    )
                    &&& states[j + 1] == (Context {
                        rule_id_mapping: states[j + 1].rule_id_mapping,
                        ..states[j]
                    })
                    &&& states[j + 1].rule_id_mapping@ == out.counters
                } by {
                    if j < i {
                        assert(states[j] == seen[j]);
                        assert(states[j + 1] == seen[j + 1]);
                        assert(shown[j] == p.rules@.take(i as int)[j]);
                        assert(rules@[j] == made[j]);
                    } else {
                        assert(states[j] == at);
                        assert(shown[j] == p.rules@[i as int]);
                    }
                }
            }
            i = i + 1;
        }
        proof {
            assert(p.rules@.take(i as int) =~= p.rules@);
        }
        let prescriptions = XPrescriptions::try_from(&p.prescriptions, ctx)?;
        let filename = p.get_filename(&ctx.slots);
        let id = p.get_id(ctx);
        Ok(
            XPolicy {
                id,
                filename,
                combining_alg,
                description: clone_opt_string(&p.description),
                target,
                prescriptions,
                rules,
            },
        )
    }
}

} // verus!
