//! Namespaces.

use crate::ast::advice::AdviceDef;
use crate::ast::attribute::Attribute;
use crate::ast::category::Category;
use crate::ast::function::Function;
use crate::ast::import::Import;
use crate::ast::infix::Infix;
use crate::ast::obligation::ObligationDef;
use crate::ast::policy::Policy;
use crate::ast::policycombinator::PolicyCombinator;
use crate::ast::policyset::PolicySet;
use crate::ast::rule::RuleDef;
use crate::ast::rulecombinator::RuleCombinator;
use crate::ast::typedef::TypeDef;
use crate::ast::{PrettyPrint, QualifiedName};
use crate::context::{registered_as, Context, Declarations, PolicyHandle};
use crate::errors::ParseError;
use crate::text::{
    append_decimal, clone_strings, debug_quote, debug_quoted, decimal, indent, indent_string,
    join, join_strings, path_view,
};
use vstd::prelude::*;
use vstd::string::*;

verus! {

/// A path of names in which a name may be missing: that of a policy
/// without a name, which is settled later.
#[derive(Debug, PartialEq, Eq)]
pub struct NsPath {
    pub path: Vec<Option<String>>,
}

/// A namespace and all that is declared in it.
///
/// What is added to a namespace is registered in the context under its
/// fully-qualified name.
#[derive(Debug, PartialEq, Eq)]
pub struct Namespace {
    /// The components of the namespace's name, from the root.
    pub path: Vec<String>,
    /// The namespaces declared in this one.
    pub namespaces: Vec<Namespace>,
    /// The import statements.
    pub imports: Vec<Import>,
    /// The policy sets declared in this namespace.
    pub policysets: Vec<PolicySet>,
    /// The policies declared in this namespace.
    pub policies: Vec<Policy>,
    /// The rule-combining algorithms.
    pub rulecombinators: Vec<RuleCombinator>,
    /// The policy-combining algorithms.
    pub policycombinators: Vec<PolicyCombinator>,
    /// The type definitions.
    pub types: Vec<TypeDef>,
    /// The categories.
    pub categories: Vec<Category>,
    /// The attributes.
    pub attributes: Vec<Attribute>,
    /// The names of the functions.
    pub functions: Vec<String>,
    /// The names of the infix operators.
    pub infix_fns: Vec<String>,
    /// The advice declarations.
    pub advice: Vec<AdviceDef>,
    /// The obligation declarations.
    pub obligations: Vec<ObligationDef>,
}

/// The policies of the first `n` namespaces declared in `ns`, with all
/// that lies below them.
pub open spec fn nested_policies(ns: Namespace, n: nat) -> Seq<Policy>
    decreases ns, n,
{
    if n == 0 || n > ns.namespaces@.len() {
        Seq::empty()
    } else {
        nested_policies(ns, (n - 1) as nat) + all_policies(ns.namespaces@[n - 1])
    }
}

/// The policies of the namespace `ns`: those declared in it, and then those
/// of the namespaces declared in it, in order, with all that lies below
/// them.
pub open spec fn all_policies(ns: Namespace) -> Seq<Policy>
    decreases ns, ns.namespaces@.len() + 1,
{
    ns.policies@ + nested_policies(ns, ns.namespaces@.len())
}

/// What each reference of `v` points at.
pub open spec fn pointed_at<T>(v: Seq<&T>) -> Seq<T> {
    Seq::new(v.len(), |i: int| *v[i])
}

impl Namespace {
    /// An empty namespace with the name `components`.
    pub fn from_components(components: Vec<String>) -> (r: Self)
        ensures
            r.path == components,
            r.namespaces@.len() == 0,
            r.imports@.len() == 0,
            r.policysets@.len() == 0,
            r.policies@.len() == 0,
            r.rulecombinators@.len() == 0,
            r.policycombinators@.len() == 0,
            r.types@.len() == 0,
            r.categories@.len() == 0,
            r.attributes@.len() == 0,
            r.functions@.len() == 0,
            r.infix_fns@.len() == 0,
            r.advice@.len() == 0,
            r.obligations@.len() == 0,
    {
        Namespace {
            path: components,
            namespaces: Vec::new(),
            imports: Vec::new(),
            policysets: Vec::new(),
            policies: Vec::new(),
            rulecombinators: Vec::new(),
            policycombinators: Vec::new(),
            types: Vec::new(),
            categories: Vec::new(),
            attributes: Vec::new(),
            functions: Vec::new(),
            infix_fns: Vec::new(),
            advice: Vec::new(),
            obligations: Vec::new(),
        }
    }

    /// An empty namespace at the root, with a name of one component.
    pub fn new_root(name: String) -> (r: Self)
        ensures
            r.path@ == seq![name],
            r.namespaces@.len() == 0,
            r.policysets@.len() == 0,
            r.policies@.len() == 0,
    {
        let mut path: Vec<String> = Vec::new();
        path.push(name);
        Namespace::from_components(path)
    }

    /// Adds a namespace that is declared in this one.
    pub fn add_namespace(&mut self, namespace: Namespace)
        ensures
            final(self).namespaces@ == old(self).namespaces@.push(namespace),
            *final(self) == (Namespace { namespaces: final(self).namespaces, ..*old(self) }),
    {
        self.namespaces.push(namespace);
    }

    /// Adds an import statement, and puts it into effect for this
    /// namespace.
    pub fn add_import(&mut self, import: Import, ctx: &mut Context)
        ensures
            final(self).imports@.len() == old(self).imports@.len() + 1,
            final(self).imports@.last()@ == import@,
            *final(self) == (Namespace { imports: final(self).imports, ..*old(self) }),
            final(ctx).decls.imports@.contains_key(join(path_view(old(self).path@), "."@)),
            crate::ast::import::imports_view(
                final(ctx).decls.imports@[join(path_view(old(self).path@), "."@)]@,
            ).last() == import@,
            *final(ctx) == (Context {
                decls: (Declarations { imports: final(ctx).decls.imports, ..old(ctx).decls }),
                ..*old(ctx)
            }),
    {
        self.imports.push(import.clone());
        ctx.register_import(self.path.as_slice(), import);
    }

    /// Adds a type definition and registers it. A name that is taken is
    /// refused with `DuplicateSymbol`; the declaration is kept in the
    /// namespace all the same.
    pub fn add_typedef(&mut self, elem: TypeDef, ctx: &mut Context) -> (r: Result<(), ParseError>)
        ensures
            *final(ctx) == (Context {
                decls: (Declarations { typedef_resolver: final(ctx).decls.typedef_resolver, ..old(ctx).decls }),
                ..*old(ctx)
            }),
            final(self).types@.len() == old(self).types@.len() + 1,
            final(self).types@.last()@ == elem@,
            *final(self) == (Namespace { types: final(self).types, ..*old(self) }),
            match elem.qualified() {
                None => r is Ok && final(ctx).decls.typedef_resolver@
                    == old(ctx).decls.typedef_resolver@,
                Some(n) => if old(ctx).decls.typedef_resolver@.contains_key(n) {
                    &&& r matches Err(ParseError::DuplicateSymbol(s))
                    &&& s@ == n
                    &&& final(ctx).decls.typedef_resolver@ == old(ctx).decls.typedef_resolver@
                } else {
                    r is Ok && final(ctx).decls.typedef_resolver@
                        == old(ctx).decls.typedef_resolver@.insert(
                        n,
                        elem,
                    )
                },
            },
    {
        self.types.push(elem.clone());
        ctx.register_type(elem)
    }

    /// Adds a category and registers it. A name that is taken is
    /// refused with `DuplicateSymbol`; the declaration is kept in the
    /// namespace all the same.
    pub fn add_category(&mut self, elem: Category, ctx: &mut Context) -> (r: Result<(), ParseError>)
        ensures
            *final(ctx) == (Context {
                decls: (Declarations { category_resolver: final(ctx).decls.category_resolver, ..old(ctx).decls }),
                ..*old(ctx)
            }),
            final(self).categories@.len() == old(self).categories@.len() + 1,
            final(self).categories@.last()@ == elem@,
            *final(self) == (Namespace { categories: final(self).categories, ..*old(self) }),
            match elem.qualified() {
                None => r is Ok && final(ctx).decls.category_resolver@
                    == old(ctx).decls.category_resolver@,
                Some(n) => if old(ctx).decls.category_resolver@.contains_key(n) {
                    &&& r matches Err(ParseError::DuplicateSymbol(s))
                    &&& s@ == n
                    &&& final(ctx).decls.category_resolver@ == old(ctx).decls.category_resolver@
                } else {
                    r is Ok && final(ctx).decls.category_resolver@
                        == old(ctx).decls.category_resolver@.insert(
                        n,
                        elem,
                    )
                },
            },
    {
        self.categories.push(elem.clone());
        ctx.register_category(elem)
    }

    /// Adds an attribute and registers it. A name that is taken is
    /// refused with `DuplicateSymbol`; the declaration is kept in the
    /// namespace all the same.
    pub fn add_attribute(
        &mut self,
        elem: Attribute,
        ctx: &mut Context,
    ) -> (r: Result<(), ParseError>)
        ensures
            *final(ctx) == (Context {
                decls: (Declarations { attribute_resolver: final(ctx).decls.attribute_resolver, ..old(ctx).decls }),
                ..*old(ctx)
            }),
            final(self).attributes@.len() == old(self).attributes@.len() + 1,
            final(self).attributes@.last()@ == elem@,
            *final(self) == (Namespace { attributes: final(self).attributes, ..*old(self) }),
            match elem.qualified() {
                None => r is Ok && final(ctx).decls.attribute_resolver@
                    == old(ctx).decls.attribute_resolver@,
                Some(n) => if old(ctx).decls.attribute_resolver@.contains_key(n) {
                    &&& r matches Err(ParseError::DuplicateSymbol(s))
                    &&& s@ == n
                    &&& final(ctx).decls.attribute_resolver@ == old(ctx).decls.attribute_resolver@
                } else {
                    r is Ok && final(ctx).decls.attribute_resolver@
                        == old(ctx).decls.attribute_resolver@.insert(
                        n,
                        elem,
                    )
                },
            },
    {
        self.attributes.push(elem.clone());
        ctx.register_attribute(elem)
    }

    /// Adds a rule-combining algorithm and registers it. A name that is taken is
    /// refused with `DuplicateSymbol`; the declaration is kept in the
    /// namespace all the same.
    pub fn add_rulecombinator(
        &mut self,
        elem: RuleCombinator,
        ctx: &mut Context,
    ) -> (r: Result<(), ParseError>)
        ensures
            *final(ctx) == (Context {
                decls: (Declarations { rulecombinator_resolver: final(ctx).decls.rulecombinator_resolver, ..old(ctx).decls }),
                ..*old(ctx)
            }),
            final(self).rulecombinators@.len() == old(self).rulecombinators@.len() + 1,
            final(self).rulecombinators@.last()@ == elem@,
            *final(self) == (Namespace { rulecombinators: final(self).rulecombinators, ..*old(self) }),
            match elem.qualified() {
                None => r is Ok && final(ctx).decls.rulecombinator_resolver@
                    == old(ctx).decls.rulecombinator_resolver@,
                Some(n) => if old(ctx).decls.rulecombinator_resolver@.contains_key(n) {
                    &&& r matches Err(ParseError::DuplicateSymbol(s))
                    &&& s@ == n
                    &&& final(ctx).decls.rulecombinator_resolver@ == old(ctx).decls.rulecombinator_resolver@
                } else {
                    r is Ok && final(ctx).decls.rulecombinator_resolver@
                        == old(ctx).decls.rulecombinator_resolver@.insert(
                        n,
                        elem,
                    )
                },
            },
    {
        self.rulecombinators.push(elem.clone());
        ctx.register_rule_combinator(elem)
    }

    /// Adds a policy-combining algorithm and registers it. A name that is taken is
    /// refused with `DuplicateSymbol`; the declaration is kept in the
    /// namespace all the same.
    pub fn add_policycombinator(
        &mut self,
        elem: PolicyCombinator,
        ctx: &mut Context,
    ) -> (r: Result<(), ParseError>)
        ensures
            *final(ctx) == (Context {
                decls: (Declarations { policycombinator_resolver: final(ctx).decls.policycombinator_resolver, ..old(ctx).decls }),
                ..*old(ctx)
            }),
            final(self).policycombinators@.len() == old(self).policycombinators@.len() + 1,
            final(self).policycombinators@.last()@ == elem@,
            *final(self) == (Namespace { policycombinators: final(self).policycombinators, ..*old(self) }),
            match elem.qualified() {
                None => r is Ok && final(ctx).decls.policycombinator_resolver@
                    == old(ctx).decls.policycombinator_resolver@,
                Some(n) => if old(ctx).decls.policycombinator_resolver@.contains_key(n) {
                    &&& r matches Err(ParseError::DuplicateSymbol(s))
                    &&& s@ == n
                    &&& final(ctx).decls.policycombinator_resolver@ == old(ctx).decls.policycombinator_resolver@
                } else {
                    r is Ok && final(ctx).decls.policycombinator_resolver@
                        == old(ctx).decls.policycombinator_resolver@.insert(
                        n,
                        elem,
                    )
                },
            },
    {
        self.policycombinators.push(elem.clone());
        ctx.register_policy_combinator(elem)
    }

    /// Adds an advice declaration and registers it. A name that is taken is
    /// refused with `DuplicateSymbol`; the declaration is kept in the
    /// namespace all the same.
    pub fn add_advice(&mut self, elem: AdviceDef, ctx: &mut Context) -> (r: Result<(), ParseError>)
        ensures
            *final(ctx) == (Context {
                decls: (Declarations { advice_resolver: final(ctx).decls.advice_resolver, ..old(ctx).decls }),
                ..*old(ctx)
            }),
            final(self).advice@.len() == old(self).advice@.len() + 1,
            final(self).advice@.last()@ == elem@,
            *final(self) == (Namespace { advice: final(self).advice, ..*old(self) }),
            match elem.qualified() {
                None => r is Ok && final(ctx).decls.advice_resolver@
                    == old(ctx).decls.advice_resolver@,
                Some(n) => if old(ctx).decls.advice_resolver@.contains_key(n) {
                    &&& r matches Err(ParseError::DuplicateSymbol(s))
                    &&& s@ == n
                    &&& final(ctx).decls.advice_resolver@ == old(ctx).decls.advice_resolver@
                } else {
                    r is Ok && final(ctx).decls.advice_resolver@
                        == old(ctx).decls.advice_resolver@.insert(
                        n,
                        elem,
                    )
                },
            },
    {
        self.advice.push(elem.clone());
        ctx.register_advice(elem)
    }

    /// Adds an obligation declaration and registers it. A name that is taken is
    /// refused with `DuplicateSymbol`; the declaration is kept in the
    /// namespace all the same.
    pub fn add_obligation(
        &mut self,
        elem: ObligationDef,
        ctx: &mut Context,
    ) -> (r: Result<(), ParseError>)
        ensures
            *final(ctx) == (Context {
                decls: (Declarations { obligation_resolver: final(ctx).decls.obligation_resolver, ..old(ctx).decls }),
                ..*old(ctx)
            }),
            final(self).obligations@.len() == old(self).obligations@.len() + 1,
            final(self).obligations@.last()@ == elem@,
            *final(self) == (Namespace { obligations: final(self).obligations, ..*old(self) }),
            match elem.qualified() {
                None => r is Ok && final(ctx).decls.obligation_resolver@
                    == old(ctx).decls.obligation_resolver@,
                Some(n) => if old(ctx).decls.obligation_resolver@.contains_key(n) {
                    &&& r matches Err(ParseError::DuplicateSymbol(s))
                    &&& s@ == n
                    &&& final(ctx).decls.obligation_resolver@ == old(ctx).decls.obligation_resolver@
                } else {
                    r is Ok && final(ctx).decls.obligation_resolver@
                        == old(ctx).decls.obligation_resolver@.insert(
                        n,
                        elem,
                    )
                },
            },
    {
        self.obligations.push(elem.clone());
        ctx.register_obligation(elem)
    }

    /// Adds a function and registers it. A name that is taken is refused
    /// with `DuplicateSymbol`.
    pub fn add_function(&mut self, f: Function, ctx: &mut Context) -> (r: Result<(), ParseError>)
        ensures
            *final(ctx) == (Context {
                decls: (Declarations { function_resolver: final(ctx).decls.function_resolver, ..old(ctx).decls }),
                ..*old(ctx)
            }),
            final(self).functions@.len() == old(self).functions@.len() + 1,
            final(self).functions@.last()@ == f.id@,
            *final(self) == (Namespace { functions: final(self).functions, ..*old(self) }),
            match f.qualified() {
                None => r is Ok,
                Some(n) => if old(ctx).decls.function_resolver@.contains_key(n) {
                    &&& r matches Err(ParseError::DuplicateSymbol(s))
                    &&& s@ == n
                    &&& final(ctx).decls.function_resolver@ == old(ctx).decls.function_resolver@
                } else {
                    r is Ok && final(ctx).decls.function_resolver@ == old(
                        ctx,
                    ).decls.function_resolver@.insert(n, f)
                },
            },
    {
        self.functions.push(f.id.clone());
        ctx.register_function(f)
    }

    /// Adds an infix operator and registers it. A name that is taken is
    /// refused with `DuplicateSymbol`.
    pub fn add_infix(&mut self, f: Infix, ctx: &mut Context) -> (r: Result<(), ParseError>)
        ensures
            *final(ctx) == (Context {
                decls: (Declarations { infix_resolver: final(ctx).decls.infix_resolver, ..old(ctx).decls }),
                ..*old(ctx)
            }),
            final(self).infix_fns@.len() == old(self).infix_fns@.len() + 1,
            final(self).infix_fns@.last()@ == f.operator@,
            *final(self) == (Namespace { infix_fns: final(self).infix_fns, ..*old(self) }),
            match f.qualified() {
                None => r is Ok,
                Some(n) => if old(ctx).decls.infix_resolver@.contains_key(n) {
                    &&& r matches Err(ParseError::DuplicateSymbol(s))
                    &&& s@ == n
                    &&& final(ctx).decls.infix_resolver@ == old(ctx).decls.infix_resolver@
                } else {
                    r is Ok && final(ctx).decls.infix_resolver@ == old(
                        ctx,
                    ).decls.infix_resolver@.insert(n, f)
                },
            },
    {
        self.infix_fns.push(f.operator.clone());
        ctx.register_infix(f)
    }

    /// Registers a rule that is declared in this namespace. The rule is
    /// kept by the context, where the policies that name it find it.
    pub fn add_rule(&mut self, rule: RuleDef, ctx: &mut Context) -> (r: Result<(), ParseError>)
        ensures
            *final(ctx) == (Context {
                decls: (Declarations { rule_resolver: final(ctx).decls.rule_resolver, ..old(ctx).decls }),
                ..*old(ctx)
            }),
            *final(self) == *old(self),
            match rule.qualified(old(ctx).slots@) {
                None => r is Ok && final(ctx).decls.rule_resolver@ == old(ctx).decls.rule_resolver@,
                Some(n) => if old(ctx).decls.rule_resolver@.contains_key(n) {
                    &&& r matches Err(ParseError::DuplicateSymbol(s))
                    &&& s@ == n
                    &&& final(ctx).decls.rule_resolver@ == old(ctx).decls.rule_resolver@
                } else {
                    r is Ok && final(ctx).decls.rule_resolver@ == old(
                        ctx,
                    ).decls.rule_resolver@.insert(n, rule)
                },
            },
    {
        ctx.register_rule(rule)
    }

    /// Adds a policy and registers it, as `Context::register_policy` does.
    /// The policy is kept in the namespace whether or not the registration
    /// succeeds.
    pub fn add_policy(&mut self, policy: Policy, ctx: &mut Context) -> (r: Result<(), ParseError>)
        ensures
            final(self).policies@ == old(self).policies@.push(policy),
            *final(self) == (Namespace { policies: final(self).policies, ..*old(self) }),
            registered_as(
                *old(ctx),
                *final(ctx),
                r,
                policy.id@,
                policy.qualified(old(ctx).slots@),
                PolicyHandle::policy_view(policy),
                false,
            ),
    {
        let r = ctx.register_policy(&policy);
        self.policies.push(policy);
        r
    }

    /// Adds a policy set and registers it with all that it holds, as
    /// `Context::register_policyset` does. The policy set is kept in the
    /// namespace whether or not the registration succeeds.
    pub fn add_policyset(&mut self, policyset: PolicySet, ctx: &mut Context) -> (r: Result<
        (),
        ParseError,
    >)
        ensures
            final(self).policysets@ == old(self).policysets@.push(policyset),
            *final(self) == (Namespace { policysets: final(self).policysets, ..*old(self) }),
            crate::context::set_registered(*old(ctx), *final(ctx), r, policyset),
            crate::context::registering(*old(ctx), *final(ctx)),
            r is Ok ==> crate::context::set_known(
                policyset,
                final(ctx).decls.policy_resolver@,
                final(ctx).decls.policyset_resolver@,
                final(ctx).slots@,
            ),
            r matches Err(e) ==> e is DuplicateURI || e is DuplicatePolicyEntity
                || e is DuplicateSymbol,
            old(ctx).decls.policy_resolver@.submap_of(final(ctx).decls.policy_resolver@),
            old(ctx).decls.policyset_resolver@.submap_of(final(ctx).decls.policyset_resolver@),
    {
        let r = ctx.register_policyset(&policyset);
        self.policysets.push(policyset);
        r
    }

    /// The policies of this namespace and of all namespaces below it: first
    /// its own, then those of each namespace declared in it.
    #[verifier::loop_isolation(false)]
    pub fn policies(&self) -> (r: Vec<&Policy>)
        ensures
            pointed_at(r@) == all_policies(*self),
        decreases self,
    {
        let mut out: Vec<&Policy> = Vec::new();
        let mut i: usize = 0;
        while i < self.policies.len()
            invariant
                i <= self.policies.len(),
                pointed_at(out@) == self.policies@.take(i as int),
            decreases self.policies.len() - i,
        {
            out.push(&self.policies[i]);
            proof {
                assert(pointed_at(out@) =~= self.policies@.take(i + 1));
            }
            i = i + 1;
        }
        proof {
            assert(self.policies@.take(self.policies.len() as int) =~= self.policies@);
            assert(self.policies@ + Seq::<Policy>::empty() =~= self.policies@);
        }
        let mut k: usize = 0;
        while k < self.namespaces.len()
            invariant
                k <= self.namespaces.len(),
                pointed_at(out@) == self.policies@ + nested_policies(*self, k as nat),
            decreases self.namespaces.len() - k,
        {
            proof {
                assert(decreases_to!(self => self.namespaces@[k as int]));
            }
            let mut below = self.namespaces[k].policies();
            let ghost before = pointed_at(out@);
            let ghost added = pointed_at(below@);
            out.append(&mut below);
            proof {
                assert(pointed_at(out@) =~= before + added);
                assert(before + added =~= self.policies@ + nested_policies(*self, (k + 1) as nat));
            }
            k = k + 1;
        }
        out
    }

    /// The policy sets that are declared in this namespace itself.
    #[verifier::loop_isolation(false)]
    pub fn policysets(&self) -> (r: Vec<&PolicySet>)
        ensures
            pointed_at(r@) == self.policysets@,
    {
        let mut out: Vec<&PolicySet> = Vec::new();
        let mut i: usize = 0;
        while i < self.policysets.len()
            invariant
                i <= self.policysets.len(),
                pointed_at(out@) == self.policysets@.take(i as int),
            decreases self.policysets.len() - i,
        {
            out.push(&self.policysets[i]);
            proof {
                assert(pointed_at(out@) =~= self.policysets@.take(i + 1));
            }
            i = i + 1;
        }
        proof {
            assert(self.policysets@.take(self.policysets.len() as int) =~= self.policysets@);
        }
        out
    }

    /// Whether the namespace lies at the root: its name has one component.
    pub fn is_root(&self) -> (r: bool)
        ensures
            r == (self.path@.len() == 1),
    {
        self.path.len() == 1
    }

    /// The name of the namespace, with dots.
    pub fn dotted_name(&self) -> (r: String)
        ensures
            r@ == join(path_view(self.path@), "."@),
    {
        join_strings(self.path.as_slice(), ".")
    }

    /// The line that `to_string` returns.
    pub open spec fn display_text(&self) -> Seq<char> {
        "Namespace('"@ + join(path_view(self.path@), "."@) + "', "@ + decimal(
            self.namespaces@.len(),
        ) + " inner-ns)"@
    }

    /// One line with the name of the namespace and the number of
    /// namespaces declared in it.
    pub fn to_string(&self) -> (r: String)
        ensures
            r@ == self.display_text(),
    {
        let mut out = "Namespace('".to_owned();
        out.append(self.dotted_name().as_str());
        out.append("', ");
        append_decimal(&mut out, self.namespaces.len());
        out.append(" inner-ns)");
        out
    }
}

} // verus!
