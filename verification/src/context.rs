//! The state of a compilation: configuration, declarations, imports, name
//! slots and counters.

use crate::ast::advice::AdviceDef;
use crate::ast::attribute::Attribute;
use crate::ast::category::{
    holds_category_table, lemma_category_names, lemma_category_registered, standard_categories,
    Category,
};
use crate::ast::constant::{Constant, ConstantView};
use crate::ast::function::Function;
use crate::ast::import::{clone_imports, imports_view, Import, ImportView};
use crate::ast::infix::Infix;
use crate::ast::naming::{GenName, NameSlot, NameSlots};
use crate::ast::obligation::ObligationDef;
use crate::ast::policy::{policy_qualified, qualified_policy_name, Policy, PolicyId, PolicyIdView};
use crate::ast::policycombinator::{
    holds_policy_combinator_table, lemma_policy_combinator_names,
    lemma_policy_combinator_registered, policy_combinator_name, policy_combinator_named,
    policy_combinator_row, protected_policy_combinator_name, protected_policy_combinator_row,
    protected_policycombinators, standard_policycombinators, PolicyCombinator,
};
use crate::ast::policyset::{PolicyEntry, PolicySet};
use crate::ast::rule::RuleDef;
use crate::ast::rulecombinator::{
    holds_rule_combinator_table, lemma_rule_combinator_names, lemma_rule_combinator_registered,
    protected_rulecombinators, rule_combinator_name, rule_combinator_named, rule_combinator_row,
    standard_rulecombinators, RuleCombinator,
};
use crate::ast::std_attributes::{
    holds_attribute_table, lemma_attribute_names, lemma_attribute_registered, standard_attributes,
};
use crate::ast::std_functions::{
    holds_function_table, lemma_function_names, lemma_function_registered, standard_functions,
};
use crate::ast::std_infix::{
    holds_infix_table, lemma_infix_names, lemma_infix_registered, standard_infix,
};
use crate::ast::typedef::{
    holds_typedef_table, lemma_typedef_names, lemma_typedef_registered, standard_types, TypeDef,
    BOOLEAN_URI, DOUBLE_URI, INTEGER_URI, STRING_URI,
};
use crate::ast::{AsAlfa, QualifiedName, SYSTEM_NS};
use crate::errors::{ParseError, SrcLoc};
use crate::resolver::{answers, resolve, Resolution, Resolver};
use crate::strmap::StringMap;
use crate::text::{clone_strings, join, join_strings, opt_view, path_view};
use vstd::prelude::*;
use vstd::string::*;

verus! {

/// The prefix of generated identifiers where the configuration names none.
pub const DEFAULT_BASE_NAMESPACE: &'static str = "https://sr.ht/~gheartsfield/a2x/alfa/ident/";

/// The configuration of a compilation.
#[derive(Debug, PartialEq, Eq)]
pub struct Config {
    /// The prefix of generated identifiers.
    pub base_namespace: Option<String>,
    /// Whether the built-in functions, attributes and so on are declared.
    pub enable_builtins: bool,
    /// The version to write into every policy.
    pub version: Option<String>,
}

impl Default for Config {
    /// No prefix, no version, and the built-in declarations.
    fn default() -> (r: Self)
        ensures
            r.base_namespace is None,
            r.enable_builtins,
            r.version is None,
    {
        Config { base_namespace: None, enable_builtins: true, version: None }
    }
}

impl Config {
    /// The prefix of generated identifiers.
    pub open spec fn base(&self) -> Seq<char> {
        match self.base_namespace {
            Some(s) => s@,
            None => DEFAULT_BASE_NAMESPACE@,
        }
    }

    /// The prefix of generated identifiers: the configured one, or the
    /// default.
    pub fn get_base_namespace(&self) -> (r: String)
        ensures
            r@ == self.base(),
    {
        match &self.base_namespace {
            Some(s) => s.clone(),
            None => DEFAULT_BASE_NAMESPACE.to_owned(),
        }
    }
}

/// The definition of an attribute by three URIs: its own, its category's and
/// its type's.
#[derive(Debug, PartialEq, Eq, Default)]
pub struct AttributeDefinition {
    pub uri: String,
    pub category: String,
    pub type_uri: String,
}

impl Clone for AttributeDefinition {
    fn clone(&self) -> (r: Self)
        ensures
            r.uri@ == self.uri@,
            r.category@ == self.category@,
            r.type_uri@ == self.type_uri@,
    {
        AttributeDefinition {
            uri: self.uri.clone(),
            category: self.category.clone(),
            type_uri: self.type_uri.clone(),
        }
    }
}

/// An attribute with a value, the value written as a string.
#[derive(Debug, PartialEq, Eq, Default)]
pub struct AttributeValue {
    pub attr: AttributeDefinition,
    pub value: String,
}

impl Clone for AttributeValue {
    fn clone(&self) -> (r: Self)
        ensures
            r.attr.uri@ == self.attr.uri@,
            r.attr.category@ == self.attr.category@,
            r.attr.type_uri@ == self.attr.type_uri@,
            r.value@ == self.value@,
    {
        AttributeValue { attr: self.attr.clone(), value: self.value.clone() }
    }
}

/// A literal: the URI of its type and the value written as a string.
#[derive(Debug, PartialEq, Eq, Default)]
pub struct TypedLiteral {
    pub type_uri: String,
    pub value: String,
}

/// What a typed literal holds.
pub ghost struct LiteralView {
    pub type_uri: Seq<char>,
    pub value: Seq<char>,
}

impl View for TypedLiteral {
    type V = LiteralView;

    open spec fn view(&self) -> LiteralView {
        LiteralView { type_uri: self.type_uri@, value: self.value@ }
    }
}

impl Clone for TypedLiteral {
    fn clone(&self) -> (r: Self)
        ensures
            r@ == self@,
    {
        TypedLiteral { type_uri: self.type_uri.clone(), value: self.value.clone() }
    }
}

/// What the compilation keeps of a registered policy or policy set: enough
/// to refer to it from elsewhere.
#[derive(Debug, PartialEq, Eq)]
pub struct PolicyHandle {
    /// How the element is named.
    pub id: PolicyId,
    /// The namespace from general to most specific.
    pub ns: Vec<String>,
    /// The name path of the element.
    pub policy_ns: GenName,
    /// Whether the element has a condition, and so is written as a policy
    /// set whatever it was declared as.
    pub conditioned: bool,
}

/// What a handle holds.
pub ghost struct HandleView {
    pub id: PolicyIdView,
    pub ns: Seq<Seq<char>>,
    pub policy_ns: Seq<NameSlot>,
    pub conditioned: bool,
}

impl View for PolicyHandle {
    type V = HandleView;

    open spec fn view(&self) -> HandleView {
        HandleView {
            id: self.id@,
            ns: path_view(self.ns@),
            policy_ns: self.policy_ns@,
            conditioned: self.conditioned,
        }
    }
}

impl PolicyHandle {
    /// What a handle for the policy `p` holds.
    pub open spec fn policy_view(p: Policy) -> HandleView {
        HandleView {
            id: p.id@,
            ns: path_view(p.ns@),
            policy_ns: p.policy_ns@,
            conditioned: p.condition is Some,
        }
    }

    /// What a handle for the policy set `p` holds.
    pub open spec fn policyset_view(p: PolicySet) -> HandleView {
        HandleView {
            id: p.id@,
            ns: path_view(p.ns@),
            policy_ns: p.policy_ns@,
            conditioned: p.condition is Some,
        }
    }

    /// The handle for a policy.
    pub fn of_policy(p: &Policy) -> (r: Self)
        ensures
            r@ == Self::policy_view(*p),
    {
        PolicyHandle {
            id: p.id.clone(),
            ns: clone_strings(p.ns.as_slice()),
            policy_ns: p.policy_ns.clone(),
            conditioned: p.condition.is_some(),
        }
    }

    /// The handle for a policy set.
    pub fn of_policyset(p: &PolicySet) -> (r: Self)
        ensures
            r@ == Self::policyset_view(*p),
    {
        PolicyHandle {
            id: p.id.clone(),
            ns: clone_strings(p.ns.as_slice()),
            policy_ns: p.policy_ns.clone(),
            conditioned: p.condition.is_some(),
        }
    }
}

/// The number that a counter hands out next for `ns`: the one after the last
/// that it handed out, and 0 for a namespace that has none yet.
pub open spec fn upcoming(counters: Map<Seq<char>, usize>, ns: Seq<char>) -> nat {
    if counters.contains_key(ns) {
        (counters[ns] + 1) as nat
    } else {
        0
    }
}

/// Hands out the next number of `counters` for `ns`.
pub fn next_number(counters: &mut StringMap<usize>, ns: &str) -> (r: usize)
    requires
        upcoming(old(counters)@, ns@) <= usize::MAX,
    ensures
        r == upcoming(old(counters)@, ns@),
        final(counters)@ == old(counters)@.insert(ns@, r),
        upcoming(final(counters)@, ns@) == r + 1,
{
    let next: usize = match counters.get(ns) {
        Some(last) => *last + 1,
        None => 0,
    };
    counters.set(ns.to_owned(), next);
    next
}

/// The import statements that are in effect in the namespace `ns`: those of
/// the namespace itself, and after them those of the built-in namespace.
/// The built-in imports are always there; no import of the namespace hides
/// them.
pub open spec fn active_imports(imports: Map<Seq<char>, Vec<Import>>, ns: Seq<Seq<char>>) -> Option<
    Seq<ImportView>,
> {
    let own = join(ns, "."@);
    if imports.contains_key(own) {
        if imports.contains_key(SYSTEM_NS@) {
            Some(imports_view(imports[own]@) + imports_view(imports[SYSTEM_NS@]@))
        } else {
            Some(imports_view(imports[own]@))
        }
    } else if imports.contains_key(SYSTEM_NS@) {
        Some(imports_view(imports[SYSTEM_NS@]@))
    } else {
        None
    }
}

/// The import statements that are in effect in the namespace `source_ns`.
pub fn imports_in_effect(imports: &StringMap<Vec<Import>>, source_ns: &[String]) -> (r: Option<
    Vec<Import>,
>)
    ensures
        match r {
            Some(v) => active_imports(imports@, path_view(source_ns@)) == Some(imports_view(v@)),
            None => active_imports(imports@, path_view(source_ns@)) is None,
        },
{
    let own = join_strings(source_ns, ".");
    let defaults = imports.get(SYSTEM_NS);
    match imports.get(own.as_str()) {
        Some(at_ns) => {
            let mut all = clone_imports(at_ns);
            if let Some(d) = defaults {
                let ghost head = imports_view(all@);
                let mut i: usize = 0;
                while i < d.len()
                    invariant
                        i <= d.len(),
                        imports_view(all@) == head + imports_view(d@).take(i as int),
                    decreases d.len() - i,
                {
                    let ghost prev = all@;
                    all.push(d[i].clone());
                    proof {
                        assert(imports_view(all@) =~= imports_view(prev).push(d@[i as int]@));
                        assert(imports_view(d@).take(i + 1) =~= imports_view(d@).take(
                            i as int,
                        ).push(d@[i as int]@));
                        assert(imports_view(all@) =~= head + imports_view(d@).take(i + 1));
                    }
                    i = i + 1;
                }
                proof {
                    assert(imports_view(d@).take(d.len() as int) =~= imports_view(d@));
                }
            }
            Some(all)
        },
        None => match defaults {
            Some(d) => Some(clone_imports(d)),
            None => None,
        },
    }
}

/// Looks up `symbol`, written in `source_ns`, among the declarations of one
/// kind, with the import statements that are in effect there.
pub fn lookup_in<'a, T>(
    resolver: &'a Resolver<T>,
    imports: &StringMap<Vec<Import>>,
    symbol: &str,
    source_ns: &[String],
    src_loc: &SrcLoc,
) -> (r: Result<&'a T, ParseError>)
    ensures
        answers(
            r,
            resolve(
                resolver@.dom(),
                symbol@,
                path_view(source_ns@),
                active_imports(imports@, path_view(source_ns@)),
            ),
            resolver@,
            symbol@,
            src_loc@,
        ),
{
    let in_effect = imports_in_effect(imports, source_ns);
    match &in_effect {
        Some(v) => resolver.lookup(symbol, source_ns, src_loc, Some(v)),
        None => resolver.lookup(symbol, source_ns, src_loc, None),
    }
}

/// The declarations of a compilation: those of each kind under their
/// fully-qualified names, and the import statements of each namespace.
pub struct Declarations {
    /// The import statements of each namespace, by the namespace's dotted
    /// name.
    pub imports: StringMap<Vec<Import>>,
    /// The registered policy sets.
    pub policyset_resolver: Resolver<PolicyHandle>,
    /// The registered policies.
    pub policy_resolver: Resolver<PolicyHandle>,
    /// The registered rules.
    pub rule_resolver: Resolver<RuleDef>,
    /// The rule-combining algorithms.
    pub rulecombinator_resolver: Resolver<RuleCombinator>,
    /// The policy-combining algorithms.
    pub policycombinator_resolver: Resolver<PolicyCombinator>,
    /// The functions.
    pub function_resolver: Resolver<Function>,
    /// The infix operators.
    pub infix_resolver: Resolver<Infix>,
    /// The attributes.
    pub attribute_resolver: Resolver<Attribute>,
    /// The type definitions.
    pub typedef_resolver: Resolver<TypeDef>,
    /// The advice declarations.
    pub advice_resolver: Resolver<AdviceDef>,
    /// The obligation declarations.
    pub obligation_resolver: Resolver<ObligationDef>,
    /// The categories.
    pub category_resolver: Resolver<Category>,
}

/// All that a compilation shares: the configuration, the declarations, the
/// table of name slots, the counters from which names are generated, and
/// the identifiers that are taken.
pub struct Context {
    /// The configuration.
    pub config: Config,
    /// The declarations and import statements.
    pub decls: Declarations,
    /// The names of policies and policy sets, settled or not yet.
    pub slots: NameSlots,
    /// The next number for elements that are numbered across namespaces.
    pub next_id: usize,
    /// The last number handed out for a policy set, by namespace.
    pub policyset_id_mapping: StringMap<usize>,
    /// The last number handed out for a policy, by namespace.
    pub policy_id_mapping: StringMap<usize>,
    /// The last number handed out for a rule, by namespace.
    pub rule_id_mapping: StringMap<usize>,
    /// The identifiers that policies and policy sets were given in the
    /// source.
    pub used_uris: StringMap<()>,
}

/// An empty span at the start of a source named `<default>`: the place of a
/// lookup that was given none.
pub open spec fn no_location() -> crate::errors::SrcLocView {
    crate::errors::SrcLocView { src_name: "<default>"@, offset: 0, length: 0 }
}

/// Whether the declarations `d` are those of a new context: the built-in
/// declarations of every kind where `builtins` holds, each table as its
/// module states it, and none where it does not; the algorithms that
/// deconditioning relies on in either case; and nothing else.
pub open spec fn holds_built_ins(d: Declarations, builtins: bool) -> bool {
    let overrides = crate::ast::policyset::permit_overrides();
    let on_permit = crate::ast::policyset::on_permit_apply_second();
    &&& builtins ==> {
        &&& holds_typedef_table(d.typedef_resolver@)
        &&& holds_category_table(d.category_resolver@)
        &&& holds_infix_table(d.infix_resolver@)
        &&& holds_attribute_table(d.attribute_resolver@)
        &&& holds_function_table(d.function_resolver@)
        &&& forall|i: int|
            0 <= i < 9 ==> d.policycombinator_resolver@.contains_key(
                #[trigger] policy_combinator_name(i),
            ) && d.policycombinator_resolver@[policy_combinator_name(i)]@
                == policy_combinator_row(i)
        &&& forall|i: int|
            0 <= i < 7 ==> d.rulecombinator_resolver@.contains_key(
                #[trigger] rule_combinator_name(i),
            ) && d.rulecombinator_resolver@[rule_combinator_name(i)]@ == rule_combinator_row(i)
    }
    &&& !builtins ==> {
        &&& d.typedef_resolver@ == Map::<Seq<char>, TypeDef>::empty()
        &&& d.category_resolver@ == Map::<Seq<char>, Category>::empty()
        &&& d.infix_resolver@ == Map::<Seq<char>, Infix>::empty()
        &&& d.attribute_resolver@ == Map::<Seq<char>, Attribute>::empty()
        &&& d.function_resolver@ == Map::<Seq<char>, Function>::empty()
    }
    &&& forall|i: int|
        0 <= i < 2 ==> d.policycombinator_resolver@.contains_key(
            #[trigger] protected_policy_combinator_name(i),
        ) && d.policycombinator_resolver@[protected_policy_combinator_name(i)]@
            == protected_policy_combinator_row(i)
    &&& forall|k: Seq<char>| #[trigger]
        d.policycombinator_resolver@.contains_key(k) ==> k == overrides || k == on_permit || (
        builtins && policy_combinator_named(k))
    &&& forall|k: Seq<char>| #[trigger]
        d.rulecombinator_resolver@.contains_key(k) ==> k == overrides || (builtins
            && rule_combinator_named(k))
    &&& d.advice_resolver@ == Map::<Seq<char>, AdviceDef>::empty()
    &&& d.obligation_resolver@ == Map::<Seq<char>, ObligationDef>::empty()
}

/// No built-in algorithm has the name of one that deconditioning relies
/// on: those lie in a namespace of their own.
pub proof fn lemma_protected_names_free(k: Seq<char>)
    requires
        policy_combinator_named(k) || rule_combinator_named(k),
    ensures
        k != crate::ast::policyset::permit_overrides(),
        k != crate::ast::policyset::on_permit_apply_second(),
{
    reveal_strlit("_A2X");
    reveal_strlit("_A2X.PROTECTED");
    reveal_strlit(".");
    reveal_strlit("permitOverrides");
    reveal_strlit("onPermitApplySecond");
    reveal_strlit("denyOverrides");
    reveal_strlit("denyUnlessPermit");
    reveal_strlit("firstApplicable");
    reveal_strlit("onlyOneApplicable");
    reveal_strlit("orderedDenyOverrides");
    reveal_strlit("orderedPermitOverrides");
    reveal_strlit("permitUnlessDeny");
    assert(crate::ast::policyset::permit_overrides().len() == 30);
    assert(crate::ast::policyset::on_permit_apply_second().len() == 34);
    if policy_combinator_named(k) {
        let i = choose|i: int| 0 <= i < 9 && #[trigger] policy_combinator_name(i) == k;
        assert(policy_combinator_row(i).id.len() <= 22);
        assert(k.len() <= 27);
    } else {
        let i = choose|i: int| 0 <= i < 7 && #[trigger] rule_combinator_name(i) == k;
        assert(rule_combinator_row(i).id.len() <= 22);
        assert(k.len() <= 27);
    }
}

impl Context {
    /// Whether the algorithms that deconditioning relies on are declared.
    pub open spec fn has_protected(&self) -> bool {
        let on_permit = crate::ast::policyset::on_permit_apply_second();
        let overrides = crate::ast::policyset::permit_overrides();
        &&& self.decls.policycombinator_resolver@.contains_key(on_permit)
        &&& self.decls.policycombinator_resolver@[on_permit].uri@
            == "urn:oasis:names:tc:xacml:3.0:policy-combining-algorithm:on-permit-apply-second"@
        &&& self.decls.policycombinator_resolver@.contains_key(overrides)
        &&& self.decls.policycombinator_resolver@[overrides].uri@
            == "urn:oasis:names:tc:xacml:3.0:policy-combining-algorithm:permit-overrides"@
        &&& self.decls.rulecombinator_resolver@.contains_key(overrides)
        &&& self.decls.rulecombinator_resolver@[overrides].uri@
            == "urn:oasis:names:tc:xacml:3.0:rule-combining-algorithm:permit-overrides"@
    }

    /// A context without declarations, imports, names or counters.
    pub fn empty(cfg: Config) -> (r: Self)
        ensures
            r.config == cfg,
            r.decls.imports@ == Map::<Seq<char>, Vec<Import>>::empty(),
            r.slots@.len() == 0,
            r.next_id == 0,
            r.policyset_id_mapping@ == Map::<Seq<char>, usize>::empty(),
            r.policy_id_mapping@ == Map::<Seq<char>, usize>::empty(),
            r.rule_id_mapping@ == Map::<Seq<char>, usize>::empty(),
            r.decls.policyset_resolver@ == Map::<Seq<char>, PolicyHandle>::empty(),
            r.decls.policy_resolver@ == Map::<Seq<char>, PolicyHandle>::empty(),
            r.decls.rule_resolver@ == Map::<Seq<char>, RuleDef>::empty(),
            r.decls.rulecombinator_resolver@ == Map::<Seq<char>, RuleCombinator>::empty(),
            r.decls.policycombinator_resolver@ == Map::<Seq<char>, PolicyCombinator>::empty(),
            r.decls.function_resolver@ == Map::<Seq<char>, Function>::empty(),
            r.decls.infix_resolver@ == Map::<Seq<char>, Infix>::empty(),
            r.decls.attribute_resolver@ == Map::<Seq<char>, Attribute>::empty(),
            r.decls.typedef_resolver@ == Map::<Seq<char>, TypeDef>::empty(),
            r.decls.advice_resolver@ == Map::<Seq<char>, AdviceDef>::empty(),
            r.decls.obligation_resolver@ == Map::<Seq<char>, ObligationDef>::empty(),
            r.decls.category_resolver@ == Map::<Seq<char>, Category>::empty(),
            r.used_uris@ == Map::<Seq<char>, ()>::empty(),
    {
        Context {
            config: cfg,
            decls: Declarations {
                imports: StringMap::new(),
                policyset_resolver: Resolver::new(),
                policy_resolver: Resolver::new(),
                rule_resolver: Resolver::new(),
                rulecombinator_resolver: Resolver::new(),
                policycombinator_resolver: Resolver::new(),
                function_resolver: Resolver::new(),
                infix_resolver: Resolver::new(),
                attribute_resolver: Resolver::new(),
                typedef_resolver: Resolver::new(),
                advice_resolver: Resolver::new(),
                obligation_resolver: Resolver::new(),
                category_resolver: Resolver::new(),
            },
            slots: NameSlots::new(),
            next_id: 0,
            policyset_id_mapping: StringMap::new(),
            policy_id_mapping: StringMap::new(),
            rule_id_mapping: StringMap::new(),
            used_uris: StringMap::new(),
        }
    }

    /// A context for a compilation with the configuration `cfg`.
    ///
    /// The algorithms that deconditioning relies on are always declared.
    /// Where the configuration asks for them, the built-in types,
    /// categories, algorithms, operators, attributes and functions are
    /// declared too, each table as its module states it, and the built-in
    /// namespace is imported with a wildcard. No policy, policy set or rule
    /// is registered, no name slot exists and no counter has handed out a
    /// number.
    ///
    /// A context is made for every configuration: no table names a
    /// declaration twice.
    pub fn new(cfg: Config) -> (r: Result<Self, ParseError>)
        ensures
            r matches Ok(c) && {
                &&& c.config == cfg
                &&& c.has_protected()
                &&& holds_built_ins(c.decls, cfg.enable_builtins)
                &&& c.slots@.len() == 0
                &&& c.next_id == 0
                &&& c.policyset_id_mapping@ == Map::<Seq<char>, usize>::empty()
                &&& c.policy_id_mapping@ == Map::<Seq<char>, usize>::empty()
                &&& c.rule_id_mapping@ == Map::<Seq<char>, usize>::empty()
                &&& c.decls.policyset_resolver@ == Map::<Seq<char>, PolicyHandle>::empty()
                &&& c.decls.policy_resolver@ == Map::<Seq<char>, PolicyHandle>::empty()
                &&& c.decls.rule_resolver@ == Map::<Seq<char>, RuleDef>::empty()
                &&& c.used_uris@ == Map::<Seq<char>, ()>::empty()
                &&& cfg.enable_builtins ==> c.decls.imports@.dom() == set![SYSTEM_NS@] && imports_view(
                    c.decls.imports@[SYSTEM_NS@]@,
                ) == seq![ImportView { components: seq![SYSTEM_NS@], is_wildcard: true }]
                &&& !cfg.enable_builtins ==> c.decls.imports@ == Map::<Seq<char>, Vec<Import>>::empty()
            },
    {
        let builtins = cfg.enable_builtins;
        let mut c = Context::empty(cfg);
        if builtins {
            c.add_standard_defs()?;
        }
        let ghost standard = c;
        proof {
            assert forall|k: Seq<char>| #[trigger]
                c.decls.policycombinator_resolver@.contains_key(k) implies k
                != crate::ast::policyset::permit_overrides() && k
                != crate::ast::policyset::on_permit_apply_second() by {
                lemma_protected_names_free(k);
            }
            assert forall|k: Seq<char>| #[trigger]
                c.decls.rulecombinator_resolver@.contains_key(k) implies k
                != crate::ast::policyset::permit_overrides() by {
                lemma_protected_names_free(k);
            }
        }
        c.add_protected_defs()?;
        proof {
            if builtins {
                assert forall|i: int| 0 <= i < 9 implies c.decls.policycombinator_resolver@.contains_key(
                    #[trigger] policy_combinator_name(i),
                ) && c.decls.policycombinator_resolver@[policy_combinator_name(i)]@
                    == policy_combinator_row(i) by {
                    assert(standard.decls.policycombinator_resolver@.contains_key(
                        policy_combinator_name(i),
                    ));
                }
                assert forall|i: int| 0 <= i < 7 implies c.decls.rulecombinator_resolver@.contains_key(
                    #[trigger] rule_combinator_name(i),
                ) && c.decls.rulecombinator_resolver@[rule_combinator_name(i)]@
                    == rule_combinator_row(i) by {
                    assert(standard.decls.rulecombinator_resolver@.contains_key(
                        rule_combinator_name(i),
                    ));
                }
            }
            assert(holds_built_ins(c.decls, builtins));
        }
        Ok(c)
    }

    /// Declares the algorithms that deconditioning relies on. They lie in a
    /// namespace that is not imported by default, and are named with their
    /// full names. A name of theirs that is taken is refused with
    /// `DuplicateSymbol`.
    fn add_protected_defs(&mut self) -> (r: Result<(), ParseError>)
        ensures
            r is Err ==> r->Err_0.spec_kind() == crate::errors::ErrorKind::DuplicateSymbol,
            r is Ok ==> final(self).has_protected(),
            r is Ok ==> {
                &&& forall|i: int|
                    0 <= i < 2 ==> final(self).decls.policycombinator_resolver@.contains_key(
                        #[trigger] protected_policy_combinator_name(i),
                    ) && final(self).decls.policycombinator_resolver@[protected_policy_combinator_name(
                        i,
                    )]@ == protected_policy_combinator_row(i)
                &&& forall|k: Seq<char>| #[trigger]
                    final(self).decls.policycombinator_resolver@.contains_key(k) ==> k
                        == crate::ast::policyset::permit_overrides() || k
                        == crate::ast::policyset::on_permit_apply_second() || old(self).decls.policycombinator_resolver@.contains_key(k)
                &&& forall|k: Seq<char>| #[trigger]
                    final(self).decls.rulecombinator_resolver@.contains_key(k) ==> k
                        == crate::ast::policyset::permit_overrides() || old(self).decls.rulecombinator_resolver@.contains_key(k)
                &&& forall|k: Seq<char>| #[trigger]
                    old(self).decls.policycombinator_resolver@.contains_key(k) ==> final(self).decls.policycombinator_resolver@.contains_key(k) && final(self).decls.policycombinator_resolver@[k] == old(self).decls.policycombinator_resolver@[k]
                &&& forall|k: Seq<char>| #[trigger]
                    old(self).decls.rulecombinator_resolver@.contains_key(k) ==> final(self).decls.rulecombinator_resolver@.contains_key(k) && final(self).decls.rulecombinator_resolver@[k] == old(self).decls.rulecombinator_resolver@[k]
            },
            (forall|k: Seq<char>| #[trigger]
                old(self).decls.policycombinator_resolver@.contains_key(k) ==> k
                    != crate::ast::policyset::permit_overrides() && k
                    != crate::ast::policyset::on_permit_apply_second()) && !old(self).decls.rulecombinator_resolver@.contains_key(
                crate::ast::policyset::permit_overrides(),
            ) ==> r is Ok,
            *final(self) == (Context {
                decls: Declarations {
                    policycombinator_resolver: final(self).decls.policycombinator_resolver,
                    rulecombinator_resolver: final(self).decls.rulecombinator_resolver,
                    ..old(self).decls
                },
                ..*old(self)
            }),
    {
        let pcs = protected_policycombinators();
        let rcs = protected_rulecombinators();
        proof {
            reveal_strlit("permitOverrides");
            reveal_strlit("onPermitApplySecond");
            assert("permitOverrides"@ != "onPermitApplySecond"@) by {
                assert("permitOverrides"@.len() != "onPermitApplySecond"@.len());
            }
            assert(join(seq![crate::ast::PROTECTED_NS@], "."@) == crate::ast::PROTECTED_NS@);
            assert(pcs@[0]@ == protected_policy_combinator_row(0));
            assert(pcs@[1]@ == protected_policy_combinator_row(1));
            assert(pcs@[0].qualified() == Some(crate::ast::policyset::permit_overrides()));
            assert(pcs@[1].qualified() == Some(crate::ast::policyset::on_permit_apply_second()));
            assert(rcs@[0].qualified() == Some(crate::ast::policyset::permit_overrides()));
            assert(protected_policy_combinator_name(0) == crate::ast::policyset::permit_overrides());
            assert(protected_policy_combinator_name(1)
                == crate::ast::policyset::on_permit_apply_second());
        }
        let ghost before = self.decls.policycombinator_resolver@;
        let mut pcs = pcs;
        let second = pcs.remove(1);
        let first = pcs.remove(0);
        match self.decls.policycombinator_resolver.register(first) {
            Ok(()) => {},
            Err(e) => {
                return Err(e);
            },
        }
        proof {
            let a = crate::ast::policyset::permit_overrides();
            let b = crate::ast::policyset::on_permit_apply_second();
            assert(a != b) by {
                if a == b {
                    lemma_dotted_injective(
                        crate::ast::PROTECTED_NS@,
                        "permitOverrides"@,
                        "onPermitApplySecond"@,
                    );
                }
            }
        }
        match self.decls.policycombinator_resolver.register(second) {
            Ok(()) => {},
            Err(e) => {
                return Err(e);
            },
        }
        let mut rcs = rcs;
        let only = rcs.remove(0);
        match self.decls.rulecombinator_resolver.register(only) {
            Ok(()) => {},
            Err(e) => {
                return Err(e);
            },
        }
        Ok(())
    }

    /// Declares the built-in types, algorithms, categories, operators,
    /// attributes and functions, and imports their namespace.
    fn add_standard_defs(&mut self) -> (r: Result<(), ParseError>)
        requires
            old(self).decls.imports@ == Map::<Seq<char>, Vec<Import>>::empty(),
            old(self).decls.policycombinator_resolver@ == Map::<Seq<char>, PolicyCombinator>::empty(),
            old(self).decls.rulecombinator_resolver@ == Map::<Seq<char>, RuleCombinator>::empty(),
            old(self).decls.typedef_resolver@ == Map::<Seq<char>, TypeDef>::empty(),
            old(self).decls.category_resolver@ == Map::<Seq<char>, Category>::empty(),
            old(self).decls.infix_resolver@ == Map::<Seq<char>, Infix>::empty(),
            old(self).decls.attribute_resolver@ == Map::<Seq<char>, Attribute>::empty(),
            old(self).decls.function_resolver@ == Map::<Seq<char>, Function>::empty(),
        ensures
            r is Ok,
            holds_typedef_table(final(self).decls.typedef_resolver@),
            holds_category_table(final(self).decls.category_resolver@),
            holds_infix_table(final(self).decls.infix_resolver@),
            holds_attribute_table(final(self).decls.attribute_resolver@),
            holds_function_table(final(self).decls.function_resolver@),
            holds_policy_combinator_table(final(self).decls.policycombinator_resolver@),
            holds_rule_combinator_table(final(self).decls.rulecombinator_resolver@),
            final(self).decls.imports@.dom() == set![SYSTEM_NS@],
            imports_view(final(self).decls.imports@[SYSTEM_NS@]@) == seq![
                ImportView { components: seq![SYSTEM_NS@], is_wildcard: true },
            ],
            final(self).config == old(self).config,
            final(self).slots == old(self).slots,
            final(self).next_id == old(self).next_id,
            final(self).policyset_id_mapping == old(self).policyset_id_mapping,
            final(self).policy_id_mapping == old(self).policy_id_mapping,
            final(self).rule_id_mapping == old(self).rule_id_mapping,
            final(self).decls.policyset_resolver == old(self).decls.policyset_resolver,
            final(self).decls.policy_resolver == old(self).decls.policy_resolver,
            final(self).decls.rule_resolver == old(self).decls.rule_resolver,
            final(self).decls.advice_resolver == old(self).decls.advice_resolver,
            final(self).decls.obligation_resolver == old(self).decls.obligation_resolver,
            final(self).used_uris == old(self).used_uris,
    {
        let mut components: Vec<String> = Vec::new();
        components.push(SYSTEM_NS.to_owned());
        let mut ns: Vec<String> = Vec::new();
        ns.push(SYSTEM_NS.to_owned());
        proof {
            assert(path_view(ns@) =~= seq![SYSTEM_NS@]);
            assert(path_view(components@) =~= seq![SYSTEM_NS@]);
        }
        self.register_import(ns.as_slice(), Import { components, is_wildcard: true });
        proof {
            assert(self.decls.imports@.dom() =~= set![SYSTEM_NS@]);
        }
        let types = standard_types();
        let ghost rows = types@;
        proof {
            lemma_typedef_names(rows);
        }
        crate::resolver::register_all(&mut self.decls.typedef_resolver, types)?;
        proof {
            lemma_typedef_registered(self.decls.typedef_resolver@, rows);
        }
        let rule_combinators = standard_rulecombinators();
        let ghost rows = rule_combinators@;
        proof {
            lemma_rule_combinator_names(rows);
        }
        crate::resolver::register_all(&mut self.decls.rulecombinator_resolver, rule_combinators)?;
        proof {
            lemma_rule_combinator_registered(self.decls.rulecombinator_resolver@, rows);
        }
        let policy_combinators = standard_policycombinators();
        let ghost rows = policy_combinators@;
        proof {
            lemma_policy_combinator_names(rows);
        }
        crate::resolver::register_all(&mut self.decls.policycombinator_resolver, policy_combinators)?;
        proof {
            lemma_policy_combinator_registered(self.decls.policycombinator_resolver@, rows);
        }
        let categories = standard_categories();
        let ghost rows = categories@;
        proof {
            lemma_category_names(rows);
        }
        crate::resolver::register_all(&mut self.decls.category_resolver, categories)?;
        proof {
            lemma_category_registered(self.decls.category_resolver@, rows);
        }
        let operators = standard_infix();
        let ghost rows = operators@;
        proof {
            lemma_infix_names(rows);
        }
        crate::resolver::register_all(&mut self.decls.infix_resolver, operators)?;
        proof {
            lemma_infix_registered(self.decls.infix_resolver@, rows);
        }
        let attributes = standard_attributes();
        let ghost rows = attributes@;
        proof {
            lemma_attribute_names(rows);
        }
        crate::resolver::register_all(&mut self.decls.attribute_resolver, attributes)?;
        proof {
            lemma_attribute_registered(self.decls.attribute_resolver@, rows);
        }
        let functions = standard_functions();
        let ghost rows = functions@;
        proof {
            lemma_function_names(rows);
        }
        crate::resolver::register_all(&mut self.decls.function_resolver, functions)?;
        proof {
            lemma_function_registered(self.decls.function_resolver@, rows);
        }
        Ok(())
    }

    /// A number that no earlier call has returned.
    pub fn get_fresh_id(&mut self) -> (r: usize)
        requires
            old(self).next_id < usize::MAX,
        ensures
            r == old(self).next_id,
            *final(self) == (Context { next_id: (r + 1) as usize, ..*old(self) }),
    {
        let id = self.next_id;
        self.next_id = id + 1;
        id
    }

    /// The next number for a rule in the namespace `ns`: 0 at first, and
    /// each time one more. A number is never handed out twice.
    pub fn get_next_rule_id(&mut self, ns: &str) -> (r: usize)
        requires
            upcoming(old(self).rule_id_mapping@, ns@) <= usize::MAX,
        ensures
            r == upcoming(old(self).rule_id_mapping@, ns@),
            final(self).rule_id_mapping@ == old(self).rule_id_mapping@.insert(ns@, r),
            *final(self) == (Context {
                rule_id_mapping: final(self).rule_id_mapping,
                ..*old(self)
            }),
    {
        next_number(&mut self.rule_id_mapping, ns)
    }

    /// The next number for a policy in the namespace `ns`: 0 at first, and
    /// each time one more. A number is never handed out twice.
    pub fn get_next_policy_id(&mut self, ns: &str) -> (r: usize)
        requires
            upcoming(old(self).policy_id_mapping@, ns@) <= usize::MAX,
        ensures
            r == upcoming(old(self).policy_id_mapping@, ns@),
            final(self).policy_id_mapping@ == old(self).policy_id_mapping@.insert(ns@, r),
            *final(self) == (Context {
                policy_id_mapping: final(self).policy_id_mapping,
                ..*old(self)
            }),
    {
        next_number(&mut self.policy_id_mapping, ns)
    }

    /// The next number for a policy set in the namespace `ns`: 0 at first,
    /// and each time one more. A number is never handed out twice.
    pub fn get_next_policyset_id(&mut self, ns: &str) -> (r: usize)
        requires
            upcoming(old(self).policyset_id_mapping@, ns@) <= usize::MAX,
        ensures
            r == upcoming(old(self).policyset_id_mapping@, ns@),
            final(self).policyset_id_mapping@ == old(self).policyset_id_mapping@.insert(ns@, r),
            *final(self) == (Context {
                policyset_id_mapping: final(self).policyset_id_mapping,
                ..*old(self)
            }),
    {
        next_number(&mut self.policyset_id_mapping, ns)
    }

    /// Adds an import statement to those of the namespace `ns`.
    pub fn register_import(&mut self, ns: &[String], import: Import)
        ensures
            final(self).decls.imports@.dom() == old(self).decls.imports@.dom().insert(
                join(path_view(ns@), "."@),
            ),
            imports_view(final(self).decls.imports@[join(path_view(ns@), "."@)]@) == (if old(self).decls.imports@.contains_key(join(path_view(ns@), "."@)) {
                imports_view(old(self).decls.imports@[join(path_view(ns@), "."@)]@)
            } else {
                Seq::empty()
            }).push(import@),
            forall|k: Seq<char>|
                k != join(path_view(ns@), "."@) && old(self).decls.imports@.contains_key(k)
                    ==> #[trigger] final(self).decls.imports@[k] == old(self).decls.imports@[k],
            *final(self) == (Context {
                decls: Declarations {
                    imports: final(self).decls.imports,
                    ..old(self).decls
                },
                ..*old(self)
            }),
    {
        let n = join_strings(ns, ".");
        let mut list: Vec<Import> = match self.decls.imports.get(n.as_str()) {
            Some(v) => clone_imports(v),
            None => Vec::new(),
        };
        let ghost before = imports_view(list@);
        list.push(import);
        proof {
            assert(imports_view(list@) =~= before.push(import@));
            if !old(self).decls.imports@.contains_key(n@) {
                assert(before =~= Seq::empty());
            }
        }
        self.decls.imports.set(n, list);
        proof {
            assert(self.decls.imports@.dom() =~= old(self).decls.imports@.dom().insert(
                join(path_view(ns@), "."@),
            ));
        }
    }

    /// The import statements that are in effect in the namespace
    /// `source_ns`: its own, and after them those of the built-in
    /// namespace.
    pub fn get_imports(&self, source_ns: &[String]) -> (r: Option<Vec<Import>>)
        ensures
            match r {
                Some(v) => self.decls.imports_for(path_view(source_ns@)) == Some(imports_view(v@)),
                None => self.decls.imports_for(path_view(source_ns@)) is None,
            },
    {
        imports_in_effect(&self.decls.imports, source_ns)
    }

    /// Declares a rule-combining algorithm. A name that is taken is refused with
    /// `DuplicateSymbol`, and nothing changes.
    pub fn register_rule_combinator(&mut self, elem: RuleCombinator) -> (r: Result<(), ParseError>)
        ensures
            match elem.qualified() {
                None => r is Ok && final(self).decls.rulecombinator_resolver@
                    == old(self).decls.rulecombinator_resolver@,
                Some(n) => if old(self).decls.rulecombinator_resolver@.contains_key(n) {
                    &&& r matches Err(ParseError::DuplicateSymbol(s))
                    &&& s@ == n
                    &&& final(self).decls.rulecombinator_resolver@ == old(self).decls.rulecombinator_resolver@
                } else {
                    r is Ok && final(self).decls.rulecombinator_resolver@
                        == old(self).decls.rulecombinator_resolver@.insert(n, elem)
                },
            },
            *final(self) == (Context {
                decls: Declarations {
                    rulecombinator_resolver: final(self).decls.rulecombinator_resolver,
                    ..old(self).decls
                },
                ..*old(self)
            }),
    {
        self.decls.rulecombinator_resolver.register(elem)
    }

    /// Looks up a rule-combining algorithm by the name `symbol`, written in the namespace
    /// `source_ns` at `src_loc`, with the import statements that are in
    /// effect there.
    pub fn lookup_rule_combinator(&self, symbol: &str, source_ns: &[String], src_loc: &SrcLoc) -> (r:
        Result<&RuleCombinator, ParseError>)
        ensures
            answers(
                r,
                resolve(
                    self.decls.rulecombinator_resolver@.dom(),
                    symbol@,
                    path_view(source_ns@),
                    self.decls.imports_for(path_view(source_ns@)),
                ),
                self.decls.rulecombinator_resolver@,
                symbol@,
                src_loc@,
            ),
    {
        lookup_in(&self.decls.rulecombinator_resolver, &self.decls.imports, symbol, source_ns, src_loc)
    }

    /// Declares a policy-combining algorithm. A name that is taken is refused with
    /// `DuplicateSymbol`, and nothing changes.
    pub fn register_policy_combinator(
        &mut self,
        elem: PolicyCombinator,
    ) -> (r: Result<(), ParseError>)
        ensures
            match elem.qualified() {
                None => r is Ok && final(self).decls.policycombinator_resolver@
                    == old(self).decls.policycombinator_resolver@,
                Some(n) => if old(self).decls.policycombinator_resolver@.contains_key(n) {
                    &&& r matches Err(ParseError::DuplicateSymbol(s))
                    &&& s@ == n
                    &&& final(self).decls.policycombinator_resolver@ == old(self).decls.policycombinator_resolver@
                } else {
                    r is Ok && final(self).decls.policycombinator_resolver@
                        == old(self).decls.policycombinator_resolver@.insert(n, elem)
                },
            },
            *final(self) == (Context {
                decls: Declarations {
                    policycombinator_resolver: final(self).decls.policycombinator_resolver,
                    ..old(self).decls
                },
                ..*old(self)
            }),
    {
        self.decls.policycombinator_resolver.register(elem)
    }

    /// Looks up a policy-combining algorithm by the name `symbol`, written in the namespace
    /// `source_ns`, with the import statements that are in effect there.
    pub fn lookup_policy_combinator(&self, symbol: &str, source_ns: &[String]) -> (r: Result<
        &PolicyCombinator,
        ParseError,
    >)
        ensures
            answers(
                r,
                resolve(
                    self.decls.policycombinator_resolver@.dom(),
                    symbol@,
                    path_view(source_ns@),
                    self.decls.imports_for(path_view(source_ns@)),
                ),
                self.decls.policycombinator_resolver@,
                symbol@,
                no_location(),
            ),
    {
        let nowhere = SrcLoc::default();
        lookup_in(&self.decls.policycombinator_resolver, &self.decls.imports, symbol, source_ns, &nowhere)
    }

    /// Declares a type definition. A name that is taken is refused with
    /// `DuplicateSymbol`, and nothing changes.
    pub fn register_type(&mut self, elem: TypeDef) -> (r: Result<(), ParseError>)
        ensures
            match elem.qualified() {
                None => r is Ok && final(self).decls.typedef_resolver@
                    == old(self).decls.typedef_resolver@,
                Some(n) => if old(self).decls.typedef_resolver@.contains_key(n) {
                    &&& r matches Err(ParseError::DuplicateSymbol(s))
                    &&& s@ == n
                    &&& final(self).decls.typedef_resolver@ == old(self).decls.typedef_resolver@
                } else {
                    r is Ok && final(self).decls.typedef_resolver@
                        == old(self).decls.typedef_resolver@.insert(n, elem)
                },
            },
            *final(self) == (Context {
                decls: Declarations {
                    typedef_resolver: final(self).decls.typedef_resolver,
                    ..old(self).decls
                },
                ..*old(self)
            }),
    {
        self.decls.typedef_resolver.register(elem)
    }

    /// Looks up a type definition by the name `symbol`, written in the namespace
    /// `source_ns`, with the import statements that are in effect there.
    pub fn lookup_type(&self, symbol: &str, source_ns: &[String]) -> (r: Result<
        &TypeDef,
        ParseError,
    >)
        ensures
            answers(
                r,
                resolve(
                    self.decls.typedef_resolver@.dom(),
                    symbol@,
                    path_view(source_ns@),
                    self.decls.imports_for(path_view(source_ns@)),
                ),
                self.decls.typedef_resolver@,
                symbol@,
                no_location(),
            ),
    {
        let nowhere = SrcLoc::default();
        lookup_in(&self.decls.typedef_resolver, &self.decls.imports, symbol, source_ns, &nowhere)
    }

    /// Declares a function. A name that is taken is refused with
    /// `DuplicateSymbol`, and nothing changes.
    pub fn register_function(&mut self, elem: Function) -> (r: Result<(), ParseError>)
        ensures
            match elem.qualified() {
                None => r is Ok && final(self).decls.function_resolver@
                    == old(self).decls.function_resolver@,
                Some(n) => if old(self).decls.function_resolver@.contains_key(n) {
                    &&& r matches Err(ParseError::DuplicateSymbol(s))
                    &&& s@ == n
                    &&& final(self).decls.function_resolver@ == old(self).decls.function_resolver@
                } else {
                    r is Ok && final(self).decls.function_resolver@
                        == old(self).decls.function_resolver@.insert(n, elem)
                },
            },
            *final(self) == (Context {
                decls: Declarations {
                    function_resolver: final(self).decls.function_resolver,
                    ..old(self).decls
                },
                ..*old(self)
            }),
    {
        self.decls.function_resolver.register(elem)
    }

    /// Looks up a function by the name `symbol`, written in the namespace
    /// `source_ns`, with the import statements that are in effect there.
    pub fn lookup_function(&self, symbol: &str, source_ns: &[String]) -> (r: Result<
        &Function,
        ParseError,
    >)
        ensures
            answers(
                r,
                resolve(
                    self.decls.function_resolver@.dom(),
                    symbol@,
                    path_view(source_ns@),
                    self.decls.imports_for(path_view(source_ns@)),
                ),
                self.decls.function_resolver@,
                symbol@,
                no_location(),
            ),
    {
        let nowhere = SrcLoc::default();
        lookup_in(&self.decls.function_resolver, &self.decls.imports, symbol, source_ns, &nowhere)
    }

    /// Declares an infix operator. A name that is taken is refused with
    /// `DuplicateSymbol`, and nothing changes.
    pub fn register_infix(&mut self, elem: Infix) -> (r: Result<(), ParseError>)
        ensures
            match elem.qualified() {
                None => r is Ok && final(self).decls.infix_resolver@
                    == old(self).decls.infix_resolver@,
                Some(n) => if old(self).decls.infix_resolver@.contains_key(n) {
                    &&& r matches Err(ParseError::DuplicateSymbol(s))
                    &&& s@ == n
                    &&& final(self).decls.infix_resolver@ == old(self).decls.infix_resolver@
                } else {
                    r is Ok && final(self).decls.infix_resolver@
                        == old(self).decls.infix_resolver@.insert(n, elem)
                },
            },
            *final(self) == (Context {
                decls: Declarations {
                    infix_resolver: final(self).decls.infix_resolver,
                    ..old(self).decls
                },
                ..*old(self)
            }),
    {
        self.decls.infix_resolver.register(elem)
    }

    /// Looks up an infix operator by the name `symbol`, written in the namespace
    /// `source_ns`, with the import statements that are in effect there.
    pub fn lookup_infix(&self, symbol: &str, source_ns: &[String]) -> (r: Result<
        &Infix,
        ParseError,
    >)
        ensures
            answers(
                r,
                resolve(
                    self.decls.infix_resolver@.dom(),
                    symbol@,
                    path_view(source_ns@),
                    self.decls.imports_for(path_view(source_ns@)),
                ),
                self.decls.infix_resolver@,
                symbol@,
                no_location(),
            ),
    {
        let nowhere = SrcLoc::default();
        lookup_in(&self.decls.infix_resolver, &self.decls.imports, symbol, source_ns, &nowhere)
    }

    /// Declares an advice declaration. A name that is taken is refused with
    /// `DuplicateSymbol`, and nothing changes.
    pub fn register_advice(&mut self, elem: AdviceDef) -> (r: Result<(), ParseError>)
        ensures
            match elem.qualified() {
                None => r is Ok && final(self).decls.advice_resolver@
                    == old(self).decls.advice_resolver@,
                Some(n) => if old(self).decls.advice_resolver@.contains_key(n) {
                    &&& r matches Err(ParseError::DuplicateSymbol(s))
                    &&& s@ == n
                    &&& final(self).decls.advice_resolver@ == old(self).decls.advice_resolver@
                } else {
                    r is Ok && final(self).decls.advice_resolver@
                        == old(self).decls.advice_resolver@.insert(n, elem)
                },
            },
            *final(self) == (Context {
                decls: Declarations {
                    advice_resolver: final(self).decls.advice_resolver,
                    ..old(self).decls
                },
                ..*old(self)
            }),
    {
        self.decls.advice_resolver.register(elem)
    }

    /// Looks up an advice declaration by the name `symbol`, written in the namespace
    /// `source_ns`, with the import statements that are in effect there.
    pub fn lookup_advice(&self, symbol: &str, source_ns: &[String]) -> (r: Result<
        &AdviceDef,
        ParseError,
    >)
        ensures
            answers(
                r,
                resolve(
                    self.decls.advice_resolver@.dom(),
                    symbol@,
                    path_view(source_ns@),
                    self.decls.imports_for(path_view(source_ns@)),
                ),
                self.decls.advice_resolver@,
                symbol@,
                no_location(),
            ),
    {
        let nowhere = SrcLoc::default();
        lookup_in(&self.decls.advice_resolver, &self.decls.imports, symbol, source_ns, &nowhere)
    }

    /// Declares an obligation declaration. A name that is taken is refused with
    /// `DuplicateSymbol`, and nothing changes.
    pub fn register_obligation(&mut self, elem: ObligationDef) -> (r: Result<(), ParseError>)
        ensures
            match elem.qualified() {
                None => r is Ok && final(self).decls.obligation_resolver@
                    == old(self).decls.obligation_resolver@,
                Some(n) => if old(self).decls.obligation_resolver@.contains_key(n) {
                    &&& r matches Err(ParseError::DuplicateSymbol(s))
                    &&& s@ == n
                    &&& final(self).decls.obligation_resolver@ == old(self).decls.obligation_resolver@
                } else {
                    r is Ok && final(self).decls.obligation_resolver@
                        == old(self).decls.obligation_resolver@.insert(n, elem)
                },
            },
            *final(self) == (Context {
                decls: Declarations {
                    obligation_resolver: final(self).decls.obligation_resolver,
                    ..old(self).decls
                },
                ..*old(self)
            }),
    {
        self.decls.obligation_resolver.register(elem)
    }

    /// Looks up an obligation declaration by the name `symbol`, written in the namespace
    /// `source_ns`, with the import statements that are in effect there.
    pub fn lookup_obligation(&self, symbol: &str, source_ns: &[String]) -> (r: Result<
        &ObligationDef,
        ParseError,
    >)
        ensures
            answers(
                r,
                resolve(
                    self.decls.obligation_resolver@.dom(),
                    symbol@,
                    path_view(source_ns@),
                    self.decls.imports_for(path_view(source_ns@)),
                ),
                self.decls.obligation_resolver@,
                symbol@,
                no_location(),
            ),
    {
        let nowhere = SrcLoc::default();
        lookup_in(&self.decls.obligation_resolver, &self.decls.imports, symbol, source_ns, &nowhere)
    }

    /// Declares an attribute. A name that is taken is refused with
    /// `DuplicateSymbol`, and nothing changes.
    pub fn register_attribute(&mut self, elem: Attribute) -> (r: Result<(), ParseError>)
        ensures
            match elem.qualified() {
                None => r is Ok && final(self).decls.attribute_resolver@
                    == old(self).decls.attribute_resolver@,
                Some(n) => if old(self).decls.attribute_resolver@.contains_key(n) {
                    &&& r matches Err(ParseError::DuplicateSymbol(s))
                    &&& s@ == n
                    &&& final(self).decls.attribute_resolver@ == old(self).decls.attribute_resolver@
                } else {
                    r is Ok && final(self).decls.attribute_resolver@
                        == old(self).decls.attribute_resolver@.insert(n, elem)
                },
            },
            *final(self) == (Context {
                decls: Declarations {
                    attribute_resolver: final(self).decls.attribute_resolver,
                    ..old(self).decls
                },
                ..*old(self)
            }),
    {
        self.decls.attribute_resolver.register(elem)
    }

    /// Looks up an attribute by the name `symbol`, written in the namespace
    /// `source_ns`, with the import statements that are in effect there.
    pub fn lookup_attribute(&self, symbol: &str, source_ns: &[String]) -> (r: Result<
        &Attribute,
        ParseError,
    >)
        ensures
            answers(
                r,
                resolve(
                    self.decls.attribute_resolver@.dom(),
                    symbol@,
                    path_view(source_ns@),
                    self.decls.imports_for(path_view(source_ns@)),
                ),
                self.decls.attribute_resolver@,
                symbol@,
                no_location(),
            ),
    {
        let nowhere = SrcLoc::default();
        lookup_in(&self.decls.attribute_resolver, &self.decls.imports, symbol, source_ns, &nowhere)
    }

    /// Declares a category. A name that is taken is refused with
    /// `DuplicateSymbol`, and nothing changes.
    pub fn register_category(&mut self, elem: Category) -> (r: Result<(), ParseError>)
        ensures
            match elem.qualified() {
                None => r is Ok && final(self).decls.category_resolver@
                    == old(self).decls.category_resolver@,
                Some(n) => if old(self).decls.category_resolver@.contains_key(n) {
                    &&& r matches Err(ParseError::DuplicateSymbol(s))
                    &&& s@ == n
                    &&& final(self).decls.category_resolver@ == old(self).decls.category_resolver@
                } else {
                    r is Ok && final(self).decls.category_resolver@
                        == old(self).decls.category_resolver@.insert(n, elem)
                },
            },
            *final(self) == (Context {
                decls: Declarations {
                    category_resolver: final(self).decls.category_resolver,
                    ..old(self).decls
                },
                ..*old(self)
            }),
    {
        self.decls.category_resolver.register(elem)
    }

    /// Looks up a category by the name `symbol`, written in the namespace
    /// `source_ns`, with the import statements that are in effect there.
    pub fn lookup_category(&self, symbol: &str, source_ns: &[String]) -> (r: Result<
        &Category,
        ParseError,
    >)
        ensures
            answers(
                r,
                resolve(
                    self.decls.category_resolver@.dom(),
                    symbol@,
                    path_view(source_ns@),
                    self.decls.imports_for(path_view(source_ns@)),
                ),
                self.decls.category_resolver@,
                symbol@,
                no_location(),
            ),
    {
        let nowhere = SrcLoc::default();
        lookup_in(&self.decls.category_resolver, &self.decls.imports, symbol, source_ns, &nowhere)
    }

    /// Looks up the inverse of the infix operator `symbol`: the operator
    /// that its declaration names as the one that takes the operands in
    /// reverse order. Both the operator and its inverse are looked up from
    /// `source_ns`.
    ///
    /// Fails as the lookup of `symbol` fails; with `InverseInfixNotFound`
    /// where the operator names no inverse; and as the lookup of the
    /// inverse fails.
    pub fn lookup_infix_inverse(&self, symbol: &str, source_ns: &[String]) -> (r: Result<
        &Infix,
        ParseError,
    >)
        ensures
            match resolve(
                self.decls.infix_resolver@.dom(),
                symbol@,
                path_view(source_ns@),
                self.decls.imports_for(path_view(source_ns@)),
            ) {
                Resolution::Found(n) => match self.decls.infix_resolver@[n].inverse {
                    Some(inv) => answers(
                        r,
                        resolve(
                            self.decls.infix_resolver@.dom(),
                            inv@,
                            path_view(source_ns@),
                            self.decls.imports_for(path_view(source_ns@)),
                        ),
                        self.decls.infix_resolver@,
                        inv@,
                        no_location(),
                    ),
                    None => r == Err::<&Infix, ParseError>(ParseError::InverseInfixNotFound),
                },
                Resolution::Ambiguous => r matches Err(ParseError::AmbiguousImport(s)) && s@
                    == symbol@,
                Resolution::NotFound => r matches Err(ParseError::SymbolNotFound(e)) && e.src_loc@
                    == no_location(),
            },
    {
        let i = self.lookup_infix(symbol, source_ns)?;
        match &i.inverse {
            Some(inv_sym) => self.lookup_infix(inv_sym.as_str(), source_ns),
            None => Err(ParseError::InverseInfixNotFound),
        }
    }

    /// Registers a rule under its fully-qualified name. A rule without a
    /// name is not registered; a name that is taken is refused with
    /// `DuplicateSymbol`, and nothing changes.
    pub fn register_rule(&mut self, elem: RuleDef) -> (r: Result<(), ParseError>)
        ensures
            match elem.qualified(old(self).slots@) {
                None => r is Ok && final(self).decls.rule_resolver@
                    == old(self).decls.rule_resolver@,
                Some(n) => if old(self).decls.rule_resolver@.contains_key(n) {
                    &&& r matches Err(ParseError::DuplicateSymbol(s))
                    &&& s@ == n
                    &&& final(self).decls.rule_resolver@ == old(self).decls.rule_resolver@
                } else {
                    r is Ok && final(self).decls.rule_resolver@
                        == old(self).decls.rule_resolver@.insert(
                        n,
                        elem,
                    )
                },
            },
            *final(self) == (Context {
                decls: Declarations {
                    rule_resolver: final(self).decls.rule_resolver,
                    ..old(self).decls
                },
                ..*old(self)
            }),
    {
        let name = elem.fully_qualified_name(&self.slots);
        self.decls.rule_resolver.register_as(name, elem)
    }

    /// Looks up a rule by the name `symbol`, written in the namespace
    /// `source_ns` at `src_loc`, with the import statements that are in
    /// effect there.
    pub fn lookup_rule(&self, symbol: &str, source_ns: &[String], src_loc: &SrcLoc) -> (r: Result<
        &RuleDef,
        ParseError,
    >)
        ensures
            answers(
                r,
                resolve(
                    self.decls.rule_resolver@.dom(),
                    symbol@,
                    path_view(source_ns@),
                    self.decls.imports_for(path_view(source_ns@)),
                ),
                self.decls.rule_resolver@,
                symbol@,
                src_loc@,
            ),
    {
        lookup_in(&self.decls.rule_resolver, &self.decls.imports, symbol, source_ns, src_loc)
    }

    /// Looks up a policy by the name `symbol`, written in the namespace
    /// `source_ns`, with the import statements that are in effect there.
    pub fn lookup_policy(&self, symbol: &str, source_ns: &[String]) -> (r: Result<
        &PolicyHandle,
        ParseError,
    >)
        ensures
            answers(
                r,
                resolve(
                    self.decls.policy_resolver@.dom(),
                    symbol@,
                    path_view(source_ns@),
                    self.decls.imports_for(path_view(source_ns@)),
                ),
                self.decls.policy_resolver@,
                symbol@,
                no_location(),
            ),
    {
        let nowhere = SrcLoc::default();
        lookup_in(&self.decls.policy_resolver, &self.decls.imports, symbol, source_ns, &nowhere)
    }

    /// Looks up a policy set by the name `symbol`, written in the namespace
    /// `source_ns`, with the import statements that are in effect there.
    pub fn lookup_policyset(&self, symbol: &str, source_ns: &[String]) -> (r: Result<
        &PolicyHandle,
        ParseError,
    >)
        ensures
            answers(
                r,
                resolve(
                    self.decls.policyset_resolver@.dom(),
                    symbol@,
                    path_view(source_ns@),
                    self.decls.imports_for(path_view(source_ns@)),
                ),
                self.decls.policyset_resolver@,
                symbol@,
                no_location(),
            ),
    {
        let nowhere = SrcLoc::default();
        lookup_in(&self.decls.policyset_resolver, &self.decls.imports, symbol, source_ns, &nowhere)
    }

    /// Notes that the identifier of `id`, if it gives one, is taken, and
    /// refuses an identifier that was taken before with `DuplicateURI`.
    pub fn claim_uri(&mut self, id: &PolicyId) -> (r: Result<(), ParseError>)
        ensures
            match id@ {
                PolicyIdView::PolicyNameAndId(_, i) => if old(self).used_uris@.contains_key(i) {
                    &&& r matches Err(ParseError::DuplicateURI(s))
                    &&& s@ == i
                    &&& final(self).used_uris@ == old(self).used_uris@
                } else {
                    r is Ok && final(self).used_uris@ == old(self).used_uris@.insert(i, ())
                },
                _ => r is Ok && final(self).used_uris@ == old(self).used_uris@,
            },
            *final(self) == (Context { used_uris: final(self).used_uris, ..*old(self) }),
            old(self).used_uris@.submap_of(final(self).used_uris@),
    {
        proof {
            crate::strmap::lemma_submap_insert(old(self).used_uris@, Seq::<char>::empty(), ());
        }
        match id {
            PolicyId::PolicyNameAndId(_, i) => {
                proof {
                    crate::strmap::lemma_submap_insert(old(self).used_uris@, i@, ());
                }
                if self.used_uris.insert_new(i.clone(), ()) {
                    Ok(())
                } else {
                    Err(ParseError::DuplicateURI(i.clone()))
                }
            },
            _ => Ok(()),
        }
    }

    /// Registers a policy under its fully-qualified name.
    ///
    /// First the identifier that the source gives the policy, if any, is
    /// noted as taken; one that is taken already is refused with
    /// `DuplicateURI`. Then a name that a policy set has is refused with
    /// `DuplicatePolicyEntity`, and one that a policy has with
    /// `DuplicateSymbol`. A policy without a fully-qualified name is not
    /// registered, which is no error.
    pub fn register_policy(&mut self, elem: &Policy) -> (r: Result<(), ParseError>)
        ensures
            registered_as(
                *old(self),
                *final(self),
                r,
                elem.id@,
                elem.qualified(old(self).slots@),
                PolicyHandle::policy_view(*elem),
                false,
            ),
            old(self).decls.policy_resolver@.submap_of(final(self).decls.policy_resolver@),
            old(self).decls.policyset_resolver@.submap_of(final(self).decls.policyset_resolver@),
            old(self).used_uris@.submap_of(final(self).used_uris@),
            r matches Err(e) ==> e is DuplicateURI || e is DuplicatePolicyEntity
                || e is DuplicateSymbol,
    {
        proof {
            crate::strmap::lemma_submap_insert(
                old(self).decls.policy_resolver@,
                Seq::<char>::empty(),
                arbitrary(),
            );
            crate::strmap::lemma_submap_insert(
                old(self).decls.policyset_resolver@,
                Seq::<char>::empty(),
                arbitrary(),
            );
        }
        self.claim_uri(&elem.id)?;
        let name = elem.fully_qualified_name(&self.slots);
        if let Some(fq) = &name {
            if self.decls.policyset_resolver.exists_fq(fq.as_str()) {
                return Err(ParseError::DuplicatePolicyEntity(fq.clone()));
            }
        }
        self.decls.policy_resolver.register_as(name, PolicyHandle::of_policy(elem))
    }

    /// Registers one policy set, without what it holds, under its
    /// fully-qualified name.
    ///
    /// First the identifier that the source gives the policy set, if any,
    /// is noted as taken; one that is taken already is refused with
    /// `DuplicateURI`. Then a name that a policy has is refused with
    /// `DuplicatePolicyEntity`, and one that a policy set has with
    /// `DuplicateSymbol`. A policy set without a fully-qualified name is not
    /// registered, which is no error.
    pub fn register_policyset_alone(&mut self, elem: &PolicySet) -> (r: Result<(), ParseError>)
        ensures
            registered_as(
                *old(self),
                *final(self),
                r,
                elem.id@,
                elem.qualified(old(self).slots@),
                PolicyHandle::policyset_view(*elem),
                true,
            ),
            old(self).decls.policy_resolver@.submap_of(final(self).decls.policy_resolver@),
            old(self).decls.policyset_resolver@.submap_of(final(self).decls.policyset_resolver@),
            old(self).used_uris@.submap_of(final(self).used_uris@),
            r matches Err(e) ==> e is DuplicateURI || e is DuplicatePolicyEntity
                || e is DuplicateSymbol,
    {
        proof {
            crate::strmap::lemma_submap_insert(
                old(self).decls.policy_resolver@,
                Seq::<char>::empty(),
                arbitrary(),
            );
            crate::strmap::lemma_submap_insert(
                old(self).decls.policyset_resolver@,
                Seq::<char>::empty(),
                arbitrary(),
            );
        }
        self.claim_uri(&elem.id)?;
        let name = elem.fully_qualified_name(&self.slots);
        if let Some(fq) = &name {
            if self.decls.policy_resolver.exists_fq(fq.as_str()) {
                return Err(ParseError::DuplicatePolicyEntity(fq.clone()));
            }
        }
        self.decls.policyset_resolver.register_as(name, PolicyHandle::of_policyset(elem))
    }

    /// Registers a policy set and every policy and policy set in it, each
    /// under its fully-qualified name, as `set_registered` states it: first
    /// what the policy set holds, in order, then the policy set itself.
    /// References are passed over.
    ///
    /// The registration stops at the first element that is refused, with
    /// the error of `register_policy` or `register_policyset_alone`; what
    /// was registered up to there stays registered.
    pub fn register_policyset(&mut self, elem: &PolicySet) -> (r: Result<(), ParseError>)
        ensures
            set_registered(*old(self), *final(self), r, *elem),
            *final(self) == (Context {
                decls: Declarations {
                    policy_resolver: final(self).decls.policy_resolver,
                    policyset_resolver: final(self).decls.policyset_resolver,
                    ..old(self).decls
                },
                used_uris: final(self).used_uris,
                ..*old(self)
            }),
            old(self).decls.policy_resolver@.submap_of(final(self).decls.policy_resolver@),
            old(self).decls.policyset_resolver@.submap_of(final(self).decls.policyset_resolver@),
            old(self).used_uris@.submap_of(final(self).used_uris@),
            r matches Err(e) ==> e is DuplicateURI || e is DuplicatePolicyEntity
                || e is DuplicateSymbol,
            r is Ok ==> set_known(
                *elem,
                final(self).decls.policy_resolver@,
                final(self).decls.policyset_resolver@,
                final(self).slots@,
            ),
        decreases elem,
    {
        let mut i: usize = 0;
        while i < elem.policies.len()
            invariant
                i <= elem.policies.len(),
                *self == (Context {
                    decls: Declarations {
                        policy_resolver: self.decls.policy_resolver,
                        policyset_resolver: self.decls.policyset_resolver,
                        ..old(self).decls
                    },
                    used_uris: self.used_uris,
                    ..*old(self)
                }),
                old(self).decls.policy_resolver@.submap_of(self.decls.policy_resolver@),
                old(self).decls.policyset_resolver@.submap_of(self.decls.policyset_resolver@),
                old(self).used_uris@.submap_of(self.used_uris@),
                forall|j: int|
                    0 <= j < i ==> entry_known(
                        #[trigger] elem.policies@[j],
                        self.decls.policy_resolver@,
                        self.decls.policyset_resolver@,
                        self.slots@,
                    ),
                members_registered(*old(self), *self, *elem, i as int),
            decreases elem.policies.len() - i,
        {
            let ghost at_member = *self;
            let ghost policies_before = self.decls.policy_resolver@;
            let ghost sets_before = self.decls.policyset_resolver@;
            let ghost uris_before = self.used_uris@;
            let step = match &elem.policies[i] {
                PolicyEntry::Ref(_) => {
                    proof {
                        crate::strmap::lemma_submap_insert(policies_before, Seq::empty(), arbitrary());
                        crate::strmap::lemma_submap_insert(sets_before, Seq::empty(), arbitrary());
                        crate::strmap::lemma_submap_insert(uris_before, Seq::empty(), ());
                    }
                    Ok(())
                },
                PolicyEntry::Policy(p) => self.register_policy(p),
                PolicyEntry::PolicySet(ps) => {
                    proof {
                        assert(decreases_to!(elem => elem.policies@[i as int]));
                    }
                    self.register_policyset(ps)
                },
            };
            proof {
                crate::strmap::lemma_submap_trans(
                    old(self).decls.policy_resolver@,
                    policies_before,
                    self.decls.policy_resolver@,
                );
                crate::strmap::lemma_submap_trans(
                    old(self).decls.policyset_resolver@,
                    sets_before,
                    self.decls.policyset_resolver@,
                );
                crate::strmap::lemma_submap_trans(
                    old(self).used_uris@,
                    uris_before,
                    self.used_uris@,
                );
            }
            proof {
                assert(registering(*old(self), at_member));
                assert(entry_registered(at_member, *self, step, elem.policies@[i as int]));
            }
            if let Err(e) = step {
                return Err(e);
            }
            proof {
                lemma_member_registered(*old(self), at_member, *self, *elem, i + 1);
                match elem.policies@[i as int] {
                    PolicyEntry::Policy(p) => {
                        if let Some(n) = p.qualified(self.slots@) {
                            assert(self.decls.policy_resolver@.contains_key(n));
                        }
                    },
                    _ => {},
                }
                assert forall|j: int| 0 <= j < i implies entry_known(
                    #[trigger] elem.policies@[j],
                    self.decls.policy_resolver@,
                    self.decls.policyset_resolver@,
                    self.slots@,
                ) by {
                    lemma_known_stays(
                        elem.policies@[j],
                        policies_before,
                        sets_before,
                        self.decls.policy_resolver@,
                        self.decls.policyset_resolver@,
                        self.slots@,
                    );
                }
            }
            i = i + 1;
        }
        let ghost policies_before = self.decls.policy_resolver@;
        let ghost sets_before = self.decls.policyset_resolver@;
        let ghost uris_before = self.used_uris@;
        let ghost at_last = *self;
        let last = self.register_policyset_alone(elem);
        proof {
            assert(registering(*old(self), at_last));
            crate::strmap::lemma_submap_trans(
                old(self).decls.policy_resolver@,
                policies_before,
                self.decls.policy_resolver@,
            );
            crate::strmap::lemma_submap_trans(
                old(self).decls.policyset_resolver@,
                sets_before,
                self.decls.policyset_resolver@,
            );
            crate::strmap::lemma_submap_trans(old(self).used_uris@, uris_before, self.used_uris@);
        }
        if let Err(e) = last {
            return Err(e);
        }
        proof {
            assert forall|j: int| 0 <= j < elem.policies@.len() implies entry_known(
                #[trigger] elem.policies@[j],
                self.decls.policy_resolver@,
                self.decls.policyset_resolver@,
                self.slots@,
            ) by {
                lemma_known_stays(
                    elem.policies@[j],
                    policies_before,
                    sets_before,
                    self.decls.policy_resolver@,
                    self.decls.policyset_resolver@,
                    self.slots@,
                );
            }
        }
        Ok(())
    }

    /// The literal that the constant `c` stands for: its value with the URI
    /// of its type. The type of a constant that names its type is looked up
    /// from `source_ns`.
    ///
    /// Fails as that lookup fails, and with `AstConvertError` for the
    /// undefined constant.
    pub fn constant_to_typedliteral(&self, c: &Constant, source_ns: &[String]) -> (r: Result<
        TypedLiteral,
        ParseError,
    >)
        ensures
            literal_answers(r, self.decls.literal_of(c@, path_view(source_ns@))),
    {
        match c {
            Constant::String(s) => Ok(
                TypedLiteral { type_uri: STRING_URI.to_owned(), value: s.clone() },
            ),
            Constant::Integer(s) => Ok(
                TypedLiteral { type_uri: INTEGER_URI.to_owned(), value: s.clone() },
            ),
            Constant::Double(s) => Ok(
                TypedLiteral { type_uri: DOUBLE_URI.to_owned(), value: s.clone() },
            ),
            Constant::Boolean(b) => Ok(
                TypedLiteral {
                    type_uri: BOOLEAN_URI.to_owned(),
                    value: if *b {
                        "true".to_owned()
                    } else {
                        "false".to_owned()
                    },
                },
            ),
            Constant::Custom(ct, s) => {
                let t = self.lookup_type(ct.name.as_str(), source_ns)?;
                Ok(TypedLiteral { type_uri: t.uri.clone(), value: s.clone() })
            },
            Constant::Undefined => Err(ParseError::AstConvertError),
        }
    }

}

/// The declaration that a lookup found, by its fully-qualified name, or the
/// kind of the error with which the lookup fails.
pub open spec fn found(res: Resolution) -> Result<Seq<char>, crate::errors::ErrorKind> {
    match res {
        Resolution::Found(n) => Ok(n),
        Resolution::Ambiguous => Err(crate::errors::ErrorKind::AmbiguousImport),
        Resolution::NotFound => Err(crate::errors::ErrorKind::SymbolNotFound),
    }
}

impl Declarations {
    /// The import statements that are in effect in the namespace `ns`.
    pub open spec fn imports_for(&self, ns: Seq<Seq<char>>) -> Option<Seq<ImportView>> {
        active_imports(self.imports@, ns)
    }

    /// The literal that a constant stands for, or the kind of the failure.
    pub open spec fn literal_of(&self, c: ConstantView, ns: Seq<Seq<char>>) -> Result<
        LiteralView,
        crate::errors::ErrorKind,
    > {
        match c {
            ConstantView::String(s) => Ok(LiteralView { type_uri: STRING_URI@, value: s }),
            ConstantView::Integer(s) => Ok(LiteralView { type_uri: INTEGER_URI@, value: s }),
            ConstantView::Double(s) => Ok(LiteralView { type_uri: DOUBLE_URI@, value: s }),
            ConstantView::Boolean(b) => Ok(
                LiteralView {
                    type_uri: BOOLEAN_URI@,
                    value: if b {
                        "true"@
                    } else {
                        "false"@
                    },
                },
            ),
            ConstantView::Custom(name, s) => match self.type_uri(name, ns) {
                Ok(uri) => Ok(LiteralView { type_uri: uri, value: s }),
                Err(k) => Err(k),
            },
            ConstantView::Undefined => Err(crate::errors::ErrorKind::AstConvertError),
        }
    }

    /// The fully-qualified name of the type that `symbol` stands for in the
    /// namespace `ns`.
    pub open spec fn type_key(&self, symbol: Seq<char>, ns: Seq<Seq<char>>) -> Result<
        Seq<char>,
        crate::errors::ErrorKind,
    > {
        found(resolve(self.typedef_resolver@.dom(), symbol, ns, self.imports_for(ns)))
    }

    /// The URI of the type that `symbol` stands for in the namespace `ns`.
    pub open spec fn type_uri(&self, symbol: Seq<char>, ns: Seq<Seq<char>>) -> Result<
        Seq<char>,
        crate::errors::ErrorKind,
    > {
        match self.type_key(symbol, ns) {
            Ok(n) => Ok(self.typedef_resolver@[n].uri@),
            Err(k) => Err(k),
        }
    }

    /// The URI of the category that `symbol` stands for in the namespace
    /// `ns`.
    pub open spec fn category_uri(&self, symbol: Seq<char>, ns: Seq<Seq<char>>) -> Result<
        Seq<char>,
        crate::errors::ErrorKind,
    > {
        match found(resolve(self.category_resolver@.dom(), symbol, ns, self.imports_for(ns))) {
            Ok(n) => Ok(self.category_resolver@[n].uri@),
            Err(k) => Err(k),
        }
    }

    /// The attribute that `symbol` stands for in the namespace `ns`.
    pub open spec fn attribute_at(&self, symbol: Seq<char>, ns: Seq<Seq<char>>) -> Result<
        Attribute,
        crate::errors::ErrorKind,
    > {
        match found(resolve(self.attribute_resolver@.dom(), symbol, ns, self.imports_for(ns))) {
            Ok(n) => Ok(self.attribute_resolver@[n]),
            Err(k) => Err(k),
        }
    }

    /// The function that `symbol` stands for in the namespace `ns`.
    pub open spec fn function_at(&self, symbol: Seq<char>, ns: Seq<Seq<char>>) -> Result<
        Function,
        crate::errors::ErrorKind,
    > {
        match found(resolve(self.function_resolver@.dom(), symbol, ns, self.imports_for(ns))) {
            Ok(n) => Ok(self.function_resolver@[n]),
            Err(k) => Err(k),
        }
    }

    /// The infix operator that `symbol` stands for in the namespace `ns`.
    pub open spec fn infix_at(&self, symbol: Seq<char>, ns: Seq<Seq<char>>) -> Result<
        Infix,
        crate::errors::ErrorKind,
    > {
        match found(resolve(self.infix_resolver@.dom(), symbol, ns, self.imports_for(ns))) {
            Ok(n) => Ok(self.infix_resolver@[n]),
            Err(k) => Err(k),
        }
    }
}

impl Context {
    /// The URI of the type that `symbol` stands for in the namespace
    /// `source_ns`.
    pub fn lookup_type_uri(&self, symbol: &str, source_ns: &[String]) -> (r: Result<
        String,
        ParseError,
    >)
        ensures
            text_answers(r, self.decls.type_uri(symbol@, path_view(source_ns@))),
    {
        let t = self.lookup_type(symbol, source_ns)?;
        Ok(t.uri.clone())
    }

    /// The URI of the category that `symbol` stands for in the namespace
    /// `source_ns`.
    pub fn lookup_category_uri(&self, symbol: &str, source_ns: &[String]) -> (r: Result<
        String,
        ParseError,
    >)
        ensures
            text_answers(r, self.decls.category_uri(symbol@, path_view(source_ns@))),
    {
        let t = self.lookup_category(symbol, source_ns)?;
        Ok(t.uri.clone())
    }
}

/// Whether the result `r` is the text, or an error of the kind, that
/// `expected` names.
pub open spec fn text_answers(
    r: Result<String, ParseError>,
    expected: Result<Seq<char>, crate::errors::ErrorKind>,
) -> bool {
    match expected {
        Ok(v) => r matches Ok(s) && s@ == v,
        Err(k) => r matches Err(e) && e.spec_kind() == k,
    }
}

/// Whether the result `r` is the literal, or an error of the kind, that
/// `expected` names.
pub open spec fn literal_answers(
    r: Result<TypedLiteral, ParseError>,
    expected: Result<LiteralView, crate::errors::ErrorKind>,
) -> bool {
    match expected {
        Ok(v) => r matches Ok(l) && l@ == v,
        Err(k) => r matches Err(e) && e.spec_kind() == k,
    }
}

/// Whether `after` and `r` are what the registration of a policy, or of a
/// policy set where `as_set` holds, makes of `before`. `id` is how the
/// element is named, `name` its fully-qualified name and `handle` what is
/// kept of it.
pub open spec fn registered_as(
    before: Context,
    after: Context,
    r: Result<(), ParseError>,
    id: PolicyIdView,
    name: Option<Seq<char>>,
    handle: HandleView,
    as_set: bool,
) -> bool {
    let own = if as_set {
        before.decls.policyset_resolver@
    } else {
        before.decls.policy_resolver@
    };
    let own_after = if as_set {
        after.decls.policyset_resolver@
    } else {
        after.decls.policy_resolver@
    };
    let other = if as_set {
        before.decls.policy_resolver@
    } else {
        before.decls.policyset_resolver@
    };
    let uri_taken = id matches PolicyIdView::PolicyNameAndId(_, i) && before.used_uris@.contains_key(
        i,
    );
    &&& after == (Context {
        decls: Declarations {
            policy_resolver: after.decls.policy_resolver,
            policyset_resolver: after.decls.policyset_resolver,
            ..before.decls
        },
        used_uris: after.used_uris,
        ..before
    })
    &&& if as_set {
        after.decls.policy_resolver@ == before.decls.policy_resolver@
    } else {
        after.decls.policyset_resolver@ == before.decls.policyset_resolver@
    }
    &&& after.used_uris@ =~= (match id {
        PolicyIdView::PolicyNameAndId(_, i) => before.used_uris@.insert(i, ()),
        _ => before.used_uris@,
    })
    &&& if uri_taken {
        &&& r matches Err(ParseError::DuplicateURI(s))
        &&& s@ == id->PolicyNameAndId_1
        &&& own_after == own
    } else {
        match name {
            None => r is Ok && own_after == own,
            Some(n) => if other.contains_key(n) {
                &&& r matches Err(ParseError::DuplicatePolicyEntity(s))
                &&& s@ == n
                &&& own_after == own
            } else if own.contains_key(n) {
                &&& r matches Err(ParseError::DuplicateSymbol(s))
                &&& s@ == n
                &&& own_after == own
            } else {
                &&& r is Ok
                &&& exists|h: PolicyHandle| h@ == handle && own_after == own.insert(n, h)
            },
        }
    }
}

/// Whether `after` is `before` with policies and policy sets registered
/// and identifiers noted: nothing else is different, and what was
/// registered or noted stays so.
pub open spec fn registering(before: Context, after: Context) -> bool {
    &&& after == (Context {
        decls: Declarations {
            policy_resolver: after.decls.policy_resolver,
            policyset_resolver: after.decls.policyset_resolver,
            ..before.decls
        },
        used_uris: after.used_uris,
        ..before
    })
    &&& before.decls.policy_resolver@.submap_of(after.decls.policy_resolver@)
    &&& before.decls.policyset_resolver@.submap_of(after.decls.policyset_resolver@)
    &&& before.used_uris@.submap_of(after.used_uris@)
}

/// Whether `after` and `r` are what the registration of the member `e` of
/// a policy set makes of `before`: a policy is registered as
/// `registered_as` states it, a policy set with all that it holds, and a
/// reference is passed over.
pub open spec fn entry_registered(
    before: Context,
    after: Context,
    r: Result<(), ParseError>,
    e: PolicyEntry,
) -> bool
    decreases e, 2nat, 0nat,
{
    match e {
        PolicyEntry::Ref(_) => after == before && r is Ok,
        PolicyEntry::Policy(p) => registered_as(
            before,
            after,
            r,
            p.id@,
            p.qualified(before.slots@),
            PolicyHandle::policy_view(p),
            false,
        ),
        PolicyEntry::PolicySet(ps) => set_registered(before, after, r, ps),
    }
}

/// Whether `now` is what the registration of the first `n` members of
/// `ps`, in order and each without refusal, makes of `before`.
pub open spec fn members_registered(before: Context, now: Context, ps: PolicySet, n: int) -> bool
    decreases ps, 0nat, n,
{
    if n <= 0 || n > ps.policies@.len() {
        n == 0 && now == before
    } else {
        exists|mid: Context|
            {
                &&& #[trigger] registering(before, mid)
                &&& members_registered(before, mid, ps, n - 1)
                &&& entry_registered(mid, now, Ok(()), ps.policies@[n - 1])
            }
    }
}

/// Whether `after` and `r` are what the registration of the policy set
/// `ps` with all that it holds makes of `before`.
///
/// The members are registered in order, and then the policy set itself.
/// The first that is refused ends the registration with its error; what
/// was registered up to there stays registered.
pub open spec fn set_registered(
    before: Context,
    after: Context,
    r: Result<(), ParseError>,
    ps: PolicySet,
) -> bool
    decreases ps, 1nat, 0nat,
{
    ||| exists|mid: Context|
        {
            &&& #[trigger] registering(before, mid)
            &&& members_registered(before, mid, ps, ps.policies@.len() as int)
            &&& registered_as(
                mid,
                after,
                r,
                ps.id@,
                ps.qualified(mid.slots@),
                PolicyHandle::policyset_view(ps),
                true,
            )
        }
    ||| r is Err && exists|upto: int, mid: Context|
        #![trigger ps.policies@[upto], registering(before, mid)]
        {
            &&& 0 <= upto < ps.policies@.len()
            &&& registering(before, mid)
            &&& members_registered(before, mid, ps, upto)
            &&& entry_registered(mid, after, r, ps.policies@[upto])
        }
}

/// The members that were registered and one more are the members up to
/// the one behind it.
proof fn lemma_member_registered(
    before: Context,
    mid: Context,
    now: Context,
    ps: PolicySet,
    n: int,
)
    requires
        0 < n <= ps.policies@.len(),
        registering(before, mid),
        members_registered(before, mid, ps, n - 1),
        entry_registered(mid, now, Ok(()), ps.policies@[n - 1]),
    ensures
        members_registered(before, now, ps, n),
{
}

/// Whether every policy and policy set in `e` that has a fully-qualified
/// name is registered under it, with its handle.
pub open spec fn entry_known(
    e: PolicyEntry,
    policies: Map<Seq<char>, PolicyHandle>,
    sets: Map<Seq<char>, PolicyHandle>,
    slots: Seq<Option<Seq<char>>>,
) -> bool
    decreases e,
{
    match e {
        PolicyEntry::Ref(_) => true,
        PolicyEntry::Policy(p) => match p.qualified(slots) {
            Some(n) => policies.contains_key(n) && policies[n]@ == PolicyHandle::policy_view(p),
            None => true,
        },
        PolicyEntry::PolicySet(ps) => set_known(ps, policies, sets, slots),
    }
}

/// Whether the policy set `ps`, and every policy and policy set in it, is
/// registered under its fully-qualified name, where it has one, with its
/// handle.
pub open spec fn set_known(
    ps: PolicySet,
    policies: Map<Seq<char>, PolicyHandle>,
    sets: Map<Seq<char>, PolicyHandle>,
    slots: Seq<Option<Seq<char>>>,
) -> bool
    decreases ps,
{
    &&& match ps.qualified(slots) {
        Some(n) => sets.contains_key(n) && sets[n]@ == PolicyHandle::policyset_view(ps),
        None => true,
    }
    &&& forall|i: int|
        0 <= i < ps.policies@.len() ==> entry_known(
            #[trigger] ps.policies@[i],
            policies,
            sets,
            slots,
        )
}

/// What is registered stays registered when more is registered.
pub proof fn lemma_known_stays(
    e: PolicyEntry,
    policies: Map<Seq<char>, PolicyHandle>,
    sets: Map<Seq<char>, PolicyHandle>,
    more_policies: Map<Seq<char>, PolicyHandle>,
    more_sets: Map<Seq<char>, PolicyHandle>,
    slots: Seq<Option<Seq<char>>>,
)
    requires
        entry_known(e, policies, sets, slots),
        policies.submap_of(more_policies),
        sets.submap_of(more_sets),
    ensures
        entry_known(e, more_policies, more_sets, slots),
    decreases e,
{
    match e {
        PolicyEntry::Ref(_) => {},
        PolicyEntry::Policy(p) => {
            if let Some(n) = p.qualified(slots) {
                crate::strmap::lemma_submap_get(policies, more_policies, n);
            }
        },
        PolicyEntry::PolicySet(ps) => {
            if let Some(n) = ps.qualified(slots) {
                crate::strmap::lemma_submap_get(sets, more_sets, n);
            }
            assert forall|i: int| 0 <= i < ps.policies@.len() implies entry_known(
                #[trigger] ps.policies@[i],
                more_policies,
                more_sets,
                slots,
            ) by {
                lemma_known_stays(
                    ps.policies@[i],
                    policies,
                    sets,
                    more_policies,
                    more_sets,
                    slots,
                );
            }
        },
    }
}

/// Two names in one namespace are the same only if they are the same name.
pub proof fn lemma_dotted_injective(prefix: Seq<char>, a: Seq<char>, b: Seq<char>)
    requires
        crate::text::dotted(prefix, a) == crate::text::dotted(prefix, b),
    ensures
        a == b,
{
    let x = crate::text::dotted(prefix, a);
    let y = crate::text::dotted(prefix, b);
    let n = (prefix + "."@).len() as int;
    assert(x.subrange(n, x.len() as int) =~= a);
    assert(y.subrange(n, y.len() as int) =~= b);
}

/// The declarations at the places `order` of `values`, each as ALFA source
/// at nesting depth 1, with an empty line behind each where `spaced`
/// holds: the first `n` of them.
pub open spec fn section_text<T: AsAlfa>(
    values: Seq<T>,
    order: Seq<usize>,
    spaced: bool,
    n: nat,
) -> Seq<char>
    decreases n,
{
    if n == 0 || n > order.len() {
        Seq::empty()
    } else {
        section_text(values, order, spaced, (n - 1) as nat) + values[order[n - 1] as int].alfa_text(
            1,
        ) + (if spaced {
            "\n"@
        } else {
            Seq::empty()
        })
    }
}

/// Whether `text` holds the declarations of `resolver` as ALFA source,
/// ordered by their names.
pub open spec fn is_section<T: AsAlfa>(resolver: Resolver<T>, spaced: bool, text: Seq<char>) -> bool {
    exists|order: Seq<usize>|
        resolver.sorted_order(order) && text == section_text(
            resolver.elements.value_seq(),
            order,
            spaced,
            order.len(),
        )
}

/// The declarations of `resolver` as ALFA source, ordered by their names.
pub fn alfa_section<T: AsAlfa>(resolver: &Resolver<T>, spaced: bool) -> (r: String)
    ensures
        is_section(*resolver, spaced, r@),
{
    let order = resolver.order_by_name();
    let mut out = String::new();
    let mut i: usize = 0;
    while i < order.len()
        invariant
            i <= order@.len(),
            resolver.sorted_order(order@),
            out@ == section_text(resolver.elements.value_seq(), order@, spaced, i as nat),
        decreases order@.len() - i,
    {
        let elem = resolver.elements.value_at(order[i]);
        out.append(elem.to_alfa(1).as_str());
        if spaced {
            out.append("\n");
        }
        proof {
            assert(out@ =~= section_text(
                resolver.elements.value_seq(),
                order@,
                spaced,
                (i + 1) as nat,
            ));
        }
        i = i + 1;
    }
    out
}

impl Context {
    /// The declarations of the context as a namespace of ALFA source: the
    /// categories, the type definitions, the attributes, the policy- and
    /// the rule-combining algorithms, the functions and the infix
    /// operators, each kind under a heading and ordered by name.
    pub fn serialize_builtins(&self) -> (r: String)
        ensures
            exists|
                categories: Seq<char>,
                types: Seq<char>,
                attributes: Seq<char>,
                policy_algorithms: Seq<char>,
                rule_algorithms: Seq<char>,
                functions: Seq<char>,
                operators: Seq<char>,
            |
                {
                    &&& is_section(self.decls.category_resolver, false, categories)
                    &&& is_section(self.decls.typedef_resolver, false, types)
                    &&& is_section(self.decls.attribute_resolver, true, attributes)
                    &&& is_section(self.decls.policycombinator_resolver, false, policy_algorithms)
                    &&& is_section(self.decls.rulecombinator_resolver, false, rule_algorithms)
                    &&& is_section(self.decls.function_resolver, false, functions)
                    &&& is_section(self.decls.infix_resolver, true, operators)
                    &&& r@ == "namespace "@ + SYSTEM_NS@ + " {\n"@ + "\n  /** Categories **/\n\n"@
                        + categories + "\n  /** Type Definitions **/\n\n"@ + types
                        + "\n  /** Attributes **/\n\n"@ + attributes
                        + "\n  /** Policy Combining Algorithms **/\n\n"@ + policy_algorithms
                        + "\n  /** Rule Combining Algorithms **/\n\n"@ + rule_algorithms
                        + "\n  /** Functions **/\n\n"@ + functions
                        + "\n  /** Infix Operators **/\n\n"@ + operators + "}\n"@
                },
    {
        let categories = alfa_section(&self.decls.category_resolver, false);
        let types = alfa_section(&self.decls.typedef_resolver, false);
        let attributes = alfa_section(&self.decls.attribute_resolver, true);
        let policy_algorithms = alfa_section(&self.decls.policycombinator_resolver, false);
        let rule_algorithms = alfa_section(&self.decls.rulecombinator_resolver, false);
        let functions = alfa_section(&self.decls.function_resolver, false);
        let operators = alfa_section(&self.decls.infix_resolver, true);
        let mut out = "namespace ".to_owned();
        out.append(SYSTEM_NS);
        out.append(" {\n");
        out.append("\n  /** Categories **/\n\n");
        out.append(categories.as_str());
        out.append("\n  /** Type Definitions **/\n\n");
        out.append(types.as_str());
        out.append("\n  /** Attributes **/\n\n");
        out.append(attributes.as_str());
        out.append("\n  /** Policy Combining Algorithms **/\n\n");
        out.append(policy_algorithms.as_str());
        out.append("\n  /** Rule Combining Algorithms **/\n\n");
        out.append(rule_algorithms.as_str());
        out.append("\n  /** Functions **/\n\n");
        out.append(functions.as_str());
        out.append("\n  /** Infix Operators **/\n\n");
        out.append(operators.as_str());
        out.append("}\n");
        out
    }
}

} // verus!
