//! Syntax trees of source files, collected for a compilation.

use crate::ast::namespace::{all_policies, nested_policies, pointed_at, Namespace};
use crate::ast::policy::Policy;
use crate::ast::policyset::PolicySet;
use crate::context::Context;
use crate::errors::ParseError;
use crate::text::opt_view;
use crate::xacml::document::{document_pieces, rendered};
use crate::xacml::xpolicy::{is_policy_of, lemma_only_named_trans, only_named};
use crate::xacml::xpolicyentry::XPolicyEntry;
use crate::xacml::xpolicyset::{
    is_guarded_policy, is_set_of, policy_trouble, set_trouble, XPolicySet,
};
use crate::xacml::XTopPolicy;
use vstd::prelude::*;
use vstd::string::*;

verus! {

/// A source file of ALFA: the name it was read from, and what it holds.
#[derive(Debug, PartialEq, Eq)]
pub struct AlfaFile {
    pub filename: String,
    pub contents: String,
}

/// A file of XACML: the name to write it under, which ends in `.xml`, and
/// what it holds.
#[derive(Debug, PartialEq, Eq)]
pub struct XacmlFile {
    pub filename: String,
    pub contents: Vec<u8>,
}

/// The syntax tree of one source file.
#[derive(Debug, PartialEq, Eq)]
pub struct AlfaSyntaxTree {
    /// The namespaces at the top of the file.
    pub namespaces: Vec<Namespace>,
}

/// A syntax tree with the name of the file that it was read from.
#[derive(Debug, PartialEq, Eq)]
pub struct AstSource {
    pub filename: String,
    pub ast: AlfaSyntaxTree,
}

/// The syntax trees of all source files of a compilation.
#[derive(Debug, PartialEq, Eq)]
pub struct AstCollection {
    asts: Vec<AstSource>,
}

/// The policy sets of the first `n` namespaces at the top of `t`: those that
/// are declared in these namespaces themselves.
pub open spec fn tree_policysets(t: AlfaSyntaxTree, n: nat) -> Seq<PolicySet>
    decreases n,
{
    if n == 0 || n > t.namespaces@.len() {
        Seq::empty()
    } else {
        tree_policysets(t, (n - 1) as nat) + t.namespaces@[n - 1].policysets@
    }
}

/// The policies of the first `n` namespaces at the top of `t`, with those
/// of all namespaces below them.
pub open spec fn tree_policies(t: AlfaSyntaxTree, n: nat) -> Seq<Policy>
    decreases n,
{
    if n == 0 || n > t.namespaces@.len() {
        Seq::empty()
    } else {
        tree_policies(t, (n - 1) as nat) + all_policies(t.namespaces@[n - 1])
    }
}

/// The policy sets of the first `n` trees of `asts`.
pub open spec fn collected_policysets(asts: Seq<AstSource>, n: nat) -> Seq<PolicySet>
    decreases n,
{
    if n == 0 || n > asts.len() {
        Seq::empty()
    } else {
        collected_policysets(asts, (n - 1) as nat) + tree_policysets(
            asts[n - 1].ast,
            asts[n - 1].ast.namespaces@.len(),
        )
    }
}

/// The policies of the first `n` trees of `asts`.
pub open spec fn collected_policies(asts: Seq<AstSource>, n: nat) -> Seq<Policy>
    decreases n,
{
    if n == 0 || n > asts.len() {
        Seq::empty()
    } else {
        collected_policies(asts, (n - 1) as nat) + tree_policies(
            asts[n - 1].ast,
            asts[n - 1].ast.namespaces@.len(),
        )
    }
}

impl AlfaSyntaxTree {
    /// The policies of the tree: those of every namespace, at whatever
    /// depth.
    #[verifier::loop_isolation(false)]
    pub fn policies(&self) -> (r: Vec<&Policy>)
        ensures
            pointed_at(r@) == tree_policies(*self, self.namespaces@.len()),
    {
        let mut out: Vec<&Policy> = Vec::new();
        let mut i: usize = 0;
        proof {
            assert(pointed_at(out@) =~= Seq::<Policy>::empty());
        }
        while i < self.namespaces.len()
            invariant
                i <= self.namespaces.len(),
                pointed_at(out@) == tree_policies(*self, i as nat),
            decreases self.namespaces.len() - i,
        {
            let mut more = self.namespaces[i].policies();
            let ghost before = pointed_at(out@);
            let ghost added = pointed_at(more@);
            out.append(&mut more);
            proof {
                assert(pointed_at(out@) =~= before + added);
            }
            i = i + 1;
        }
        out
    }

    /// The policy sets of the tree: those that are declared in the
    /// namespaces at its top.
    #[verifier::loop_isolation(false)]
    pub fn policysets(&self) -> (r: Vec<&PolicySet>)
        ensures
            pointed_at(r@) == tree_policysets(*self, self.namespaces@.len()),
    {
        let mut out: Vec<&PolicySet> = Vec::new();
        let mut i: usize = 0;
        proof {
            assert(pointed_at(out@) =~= Seq::<PolicySet>::empty());
        }
        while i < self.namespaces.len()
            invariant
                i <= self.namespaces.len(),
                pointed_at(out@) == tree_policysets(*self, i as nat),
            decreases self.namespaces.len() - i,
        {
            let mut more = self.namespaces[i].policysets();
            let ghost before = pointed_at(out@);
            let ghost added = pointed_at(more@);
            out.append(&mut more);
            proof {
                assert(pointed_at(out@) =~= before + added);
            }
            i = i + 1;
        }
        out
    }
}

impl AstCollection {
    /// The trees of the collection, in the order in which they were added.
    pub closed spec fn sources(&self) -> Seq<AstSource> {
        self.asts@
    }

    /// The policy sets of the collection.
    pub open spec fn all_policysets(&self) -> Seq<PolicySet> {
        collected_policysets(self.sources(), self.sources().len())
    }

    /// The policies of the collection.
    pub open spec fn all_policies(&self) -> Seq<Policy> {
        collected_policies(self.sources(), self.sources().len())
    }

    /// A collection without trees.
    pub fn new() -> (r: Self)
        ensures
            r.sources().len() == 0,
    {
        AstCollection { asts: Vec::new() }
    }

    /// The number of trees.
    pub fn len(&self) -> (r: usize)
        ensures
            r == self.sources().len(),
    {
        self.asts.len()
    }

    /// Whether the collection has no trees.
    pub fn is_empty(&self) -> (r: bool)
        ensures
            r == (self.sources().len() == 0),
    {
        self.asts.len() == 0
    }

    /// Adds a tree.
    pub fn add_ast(&mut self, ast: AstSource)
        ensures
            final(self).sources() == old(self).sources().push(ast),
    {
        self.asts.push(ast);
    }

    /// The policy sets of all trees, in the order of the trees.
    #[verifier::loop_isolation(false)]
    pub fn policysets(&self) -> (r: Vec<&PolicySet>)
        ensures
            pointed_at(r@) == self.all_policysets(),
    {
        let mut out: Vec<&PolicySet> = Vec::new();
        let mut i: usize = 0;
        proof {
            assert(pointed_at(out@) =~= Seq::<PolicySet>::empty());
        }
        while i < self.asts.len()
            invariant
                i <= self.asts.len(),
                pointed_at(out@) == collected_policysets(self.asts@, i as nat),
            decreases self.asts.len() - i,
        {
            let mut more = self.asts[i].ast.policysets();
            let ghost before = pointed_at(out@);
            let ghost added = pointed_at(more@);
            out.append(&mut more);
            proof {
                assert(pointed_at(out@) =~= before + added);
            }
            i = i + 1;
        }
        out
    }

    /// The policies of all trees, in the order of the trees.
    #[verifier::loop_isolation(false)]
    pub fn policies(&self) -> (r: Vec<&Policy>)
        ensures
            pointed_at(r@) == self.all_policies(),
    {
        let mut out: Vec<&Policy> = Vec::new();
        let mut i: usize = 0;
        proof {
            assert(pointed_at(out@) =~= Seq::<Policy>::empty());
        }
        while i < self.asts.len()
            invariant
                i <= self.asts.len(),
                pointed_at(out@) == collected_policies(self.asts@, i as nat),
            decreases self.asts.len() - i,
        {
            let mut more = self.asts[i].ast.policies();
            let ghost before = pointed_at(out@);
            let ghost added = pointed_at(more@);
            out.append(&mut more);
            proof {
                assert(pointed_at(out@) =~= before + added);
            }
            i = i + 1;
        }
        out
    }

    /// Takes the collection apart: its policy sets and its policies.
    #[verifier::loop_isolation(false)]
    pub fn into_parts(self) -> (r: (Vec<PolicySet>, Vec<Policy>))
        ensures
            r.0@ == self.all_policysets(),
            r.1@ == self.all_policies(),
    {
        let mut sets: Vec<PolicySet> = Vec::new();
        let mut policies: Vec<Policy> = Vec::new();
        let mut rest = self.asts;
        let ghost mut done: nat = 0;
        while rest.len() > 0
            invariant
                done + rest@.len() == self.asts@.len(),
                rest@ == self.asts@.subrange(done as int, self.asts@.len() as int),
                sets@ == collected_policysets(self.asts@, done),
                policies@ == collected_policies(self.asts@, done),
            decreases rest@.len(),
        {
            let source = rest.remove(0);
            proof {
                assert(source == self.asts@[done as int]);
                assert(rest@ =~= self.asts@.subrange(done as int + 1, self.asts@.len() as int));
            }
            let tree = source.ast;
            let mut spaces = tree.namespaces;
            let ghost mut seen: nat = 0;
            let ghost sets_before = sets@;
            let ghost policies_before = policies@;
            proof {
                assert(sets@ =~= sets_before + tree_policysets(tree, 0));
                assert(policies@ =~= policies_before + tree_policies(tree, 0));
            }
            while spaces.len() > 0
                invariant
                    seen + spaces@.len() == tree.namespaces@.len(),
                    spaces@ == tree.namespaces@.subrange(seen as int, tree.namespaces@.len() as int),
                    sets@ == sets_before + tree_policysets(tree, seen),
                    policies@ == policies_before + tree_policies(tree, seen),
                decreases spaces@.len(),
            {
                let ns = spaces.remove(0);
                proof {
                    assert(ns == tree.namespaces@[seen as int]);
                    assert(spaces@ =~= tree.namespaces@.subrange(
                        seen as int + 1,
                        tree.namespaces@.len() as int,
                    ));
                }
                let ghost s0 = sets@;
                let ghost p0 = policies@;
                let (mut own_sets, mut below) = take_namespace_apart(ns);
                sets.append(&mut own_sets);
                policies.append(&mut below);
                proof {
                    assert(sets@ =~= sets_before + tree_policysets(tree, seen + 1));
                    assert(policies@ =~= policies_before + tree_policies(tree, seen + 1));
                    seen = seen + 1;
                }
            }
            proof {
                done = done + 1;
            }
        }
        (sets, policies)
    }
}

/// Takes a namespace apart: the policy sets that are declared in it, and
/// the policies of the namespace and of all namespaces below it.
#[verifier::loop_isolation(false)]
pub fn take_namespace_apart(ns: Namespace) -> (r: (Vec<PolicySet>, Vec<Policy>))
    ensures
        r.0@ == ns.policysets@,
        r.1@ == all_policies(ns),
    decreases ns,
{
    let Namespace {
        path: _,
        namespaces,
        imports: _,
        policysets,
        policies,
        rulecombinators: _,
        policycombinators: _,
        types: _,
        categories: _,
        attributes: _,
        functions: _,
        infix_fns: _,
        advice: _,
        obligations: _,
    } = ns;
    let mut out = policies;
    let mut rest = namespaces;
    let ghost mut done: nat = 0;
    proof {
        assert(out@ =~= ns.policies@ + nested_policies(ns, 0));
    }
    while rest.len() > 0
        invariant
            done + rest@.len() == ns.namespaces@.len(),
            rest@ == ns.namespaces@.subrange(done as int, ns.namespaces@.len() as int),
            out@ == ns.policies@ + nested_policies(ns, done),
        decreases rest@.len(),
    {
        let inner = rest.remove(0);
        proof {
            assert(inner == ns.namespaces@[done as int]);
            assert(rest@ =~= ns.namespaces@.subrange(done as int + 1, ns.namespaces@.len() as int));
            assert(decreases_to!(ns => ns.namespaces@[done as int]));
        }
        let ghost before = out@;
        let (_, mut below) = take_namespace_apart(inner);
        out.append(&mut below);
        proof {
            assert(out@ =~= ns.policies@ + nested_policies(ns, done + 1));
            done = done + 1;
        }
    }
    (policysets, out)
}

/// Whether the element `x` at the top of the result is what the policy
/// set `p` was converted to in a state between `before` and `after`.
pub open spec fn top_set(before: Context, after: Context, p: PolicySet, x: XTopPolicy) -> bool {
    &&& x matches XTopPolicy::PolicySet(xs)
    &&& exists|at: Context|
        {
            &&& only_named(before, at)
            &&& #[trigger] only_named(at, after)
            &&& is_set_of(xs, before.decls, before.config.base(), at, p)
        }
}

/// Whether the element `x` at the top of the result is what the policy `p`
/// was converted to in a state between `before` and `after`: a policy
/// without a condition becomes a policy, one with a condition a policy
/// set.
pub open spec fn top_policy(before: Context, after: Context, p: Policy, x: XTopPolicy) -> bool {
    exists|at: Context|
        {
            &&& only_named(before, at)
            &&& #[trigger] only_named(at, after)
            &&& if p.condition is Some {
                x matches XTopPolicy::PolicySet(xs) && is_guarded_policy(
                    xs,
                    before.decls,
                    before.config.base(),
                    at,
                    p,
                )
            } else {
                x matches XTopPolicy::Policy(xp) && is_policy_of(
                    xp,
                    before.decls,
                    before.config.base(),
                    at,
                    p,
                )
            }
        }
}

/// What was converted in a state before `mid` was converted in a state
/// before `after`.
proof fn lemma_top_set_stays(before: Context, mid: Context, after: Context, p: PolicySet, x: XTopPolicy)
    requires
        top_set(before, mid, p, x),
        only_named(mid, after),
    ensures
        top_set(before, after, p, x),
{
    let xs = x->PolicySet_0;
    let at = choose|at: Context|
        {
            &&& only_named(before, at)
            &&& #[trigger] only_named(at, mid)
            &&& is_set_of(xs, before.decls, before.config.base(), at, p)
        };
    lemma_only_named_trans(at, mid, after);
}

/// What was converted in a state before `mid` was converted in a state
/// before `after`.
proof fn lemma_top_policy_stays(
    before: Context,
    mid: Context,
    after: Context,
    p: Policy,
    x: XTopPolicy,
)
    requires
        top_policy(before, mid, p, x),
        only_named(mid, after),
    ensures
        top_policy(before, after, p, x),
{
    let at = choose|at: Context|
        {
            &&& only_named(before, at)
            &&& #[trigger] only_named(at, mid)
            &&& if p.condition is Some {
                x matches XTopPolicy::PolicySet(xs) && is_guarded_policy(
                    xs,
                    before.decls,
                    before.config.base(),
                    at,
                    p,
                )
            } else {
                x matches XTopPolicy::Policy(xp) && is_policy_of(
                    xp,
                    before.decls,
                    before.config.base(),
                    at,
                    p,
                )
            }
        };
    lemma_only_named_trans(at, mid, after);
}

/// Whether one of the policy sets `sets` or of the policies `policies`
/// cannot be compiled in the state `ctx`: its name paths are not nested as
/// they should be, or it cannot be converted.
pub open spec fn cannot_compile(ctx: Context, sets: Seq<PolicySet>, policies: Seq<Policy>) -> bool {
    ||| exists|i: int|
        0 <= i < sets.len() && {
            ||| !(#[trigger] sets[i]).well_formed()
            ||| set_trouble(ctx, sets[i])
        }
    ||| exists|i: int|
        0 <= i < policies.len() && {
            ||| !(#[trigger] policies[i]).well_formed()
            ||| policy_trouble(ctx, policies[i])
        }
}

/// Whether `r` is what the compilation of the policy sets `sets` and of
/// the policies `policies` gives, and `after` what it makes of the
/// context `before`.
///
/// Of the context only names and counters change. Where the compilation
/// succeeds, `r` holds an element for each policy set and then one for
/// each policy, in order, each converted in a state between `before` and
/// `after`. Where it is refused, an element cannot be compiled in the
/// state that is left.
pub open spec fn compile_outcome(
    sets: Seq<PolicySet>,
    policies: Seq<Policy>,
    before: Context,
    after: Context,
    r: Result<Vec<XTopPolicy>, ParseError>,
) -> bool {
    &&& only_named(before, after)
    &&& r matches Ok(v) ==> {
        &&& v@.len() == sets.len() + policies.len()
        &&& forall|i: int|
            0 <= i < sets.len() ==> top_set(before, after, #[trigger] sets[i], v@[i])
        &&& forall|i: int|
            0 <= i < policies.len() ==> top_policy(
                before,
                after,
                #[trigger] policies[i],
                v@[sets.len() + i],
            )
    }
    &&& r is Err ==> cannot_compile(after, sets, policies)
}

/// Compiles the collected syntax trees into XACML: first every policy set,
/// then every policy, each as a file of its own. A policy with a condition
/// becomes a policy set. Each element is converted in the state that the
/// elements before it left.
///
/// The first element that has no counterpart ends the compilation with its
/// error. An element whose name paths are not nested as they should be is
/// refused with `AstConvertError`. Of the context only names and counters
/// change, and a compilation that is refused leaves the context as it was
/// at the element that could not be compiled, as `compile_outcome` states
/// it.
#[verifier::loop_isolation(false)]
pub fn compile(collection: AstCollection, ctx: &mut Context) -> (r: Result<
    Vec<XTopPolicy>,
    ParseError,
>)
    ensures
        compile_outcome(
            collection.all_policysets(),
            collection.all_policies(),
            *old(ctx),
            *final(ctx),
            r,
        ),
{
    let (sets, policies) = collection.into_parts();
    let mut out: Vec<XTopPolicy> = Vec::new();
    let mut rest = sets;
    while rest.len() > 0
        invariant
            out@.len() + rest@.len() == sets@.len(),
            rest@ == sets@.subrange(out@.len() as int, sets@.len() as int),
            only_named(*old(ctx), *ctx),
            forall|i: int|
                0 <= i < out@.len() ==> top_set(*old(ctx), *ctx, #[trigger] sets@[i], out@[i]),
        decreases rest@.len(),
    {
        let ghost before = *ctx;
        let ghost k = out@.len() as int;
        let p = rest.remove(0);
        proof {
            assert(p == sets@[k]);
            assert(rest@ =~= sets@.subrange(k + 1, sets@.len() as int));
        }
        if !p.is_well_formed() {
            return Err(ParseError::AstConvertError);
        }
        let converted = XPolicySet::try_from(p, ctx);
        proof {
            lemma_only_named_trans(*old(ctx), before, *ctx);
            assert(converted is Err ==> set_trouble(*ctx, sets@[k]));
        }
        let top = XTopPolicy::PolicySet(converted?);
        let ghost shown = out@;
        out.push(top);
        proof {
            assert(only_named(*ctx, *ctx));
            assert(top_set(*old(ctx), *ctx, sets@[k], top));
            assert forall|i: int| 0 <= i < out@.len() implies top_set(
                *old(ctx),
                *ctx,
                #[trigger] sets@[i],
                out@[i],
            ) by {
                if i < k {
                    assert(out@[i] == shown[i]);
                    lemma_top_set_stays(*old(ctx), before, *ctx, sets@[i], out@[i]);
                }
            }
        }
    }
    let mut rest = policies;
    let ghost base = out@.len() as int;
    while rest.len() > 0
        invariant
            base == sets@.len(),
            out@.len() + rest@.len() == base + policies@.len(),
            base <= out@.len(),
            rest@ == policies@.subrange(out@.len() - base, policies@.len() as int),
            only_named(*old(ctx), *ctx),
            forall|i: int| 0 <= i < base ==> top_set(*old(ctx), *ctx, #[trigger] sets@[i], out@[i]),
            forall|i: int|
                0 <= i < out@.len() - base ==> top_policy(
                    *old(ctx),
                    *ctx,
                    #[trigger] policies@[i],
                    out@[base + i],
                ),
        decreases rest@.len(),
    {
        let ghost before = *ctx;
        let ghost k = out@.len() - base;
        let p = rest.remove(0);
        proof {
            assert(p == policies@[k]);
            assert(rest@ =~= policies@.subrange(k + 1, policies@.len() as int));
        }
        if !p.is_well_formed() {
            return Err(ParseError::AstConvertError);
        }
        let converted = XPolicyEntry::try_from(p, ctx);
        proof {
            lemma_only_named_trans(*old(ctx), before, *ctx);
            assert(converted is Err ==> policy_trouble(*ctx, policies@[k]));
        }
        let top = match converted? {
            XPolicyEntry::Policy(xp) => XTopPolicy::Policy(xp),
            XPolicyEntry::PolicySet(xps) => XTopPolicy::PolicySet(xps),
            _ => {
                return Err(ParseError::AstConvertError);
            },
        };
        let ghost shown = out@;
        out.push(top);
        proof {
            assert(only_named(*ctx, *ctx));
            assert(top_policy(*old(ctx), *ctx, policies@[k], top));
            assert forall|i: int| 0 <= i < base implies top_set(
                *old(ctx),
                *ctx,
                #[trigger] sets@[i],
                out@[i],
            ) by {
                assert(out@[i] == shown[i]);
                lemma_top_set_stays(*old(ctx), before, *ctx, sets@[i], out@[i]);
            }
            assert forall|i: int| 0 <= i < out@.len() - base implies top_policy(
                *old(ctx),
                *ctx,
                #[trigger] policies@[i],
                out@[base + i],
            ) by {
                if i < k {
                    assert(out@[base + i] == shown[base + i]);
                    lemma_top_policy_stays(*old(ctx), before, *ctx, policies@[i], out@[base + i]);
                }
            }
        }
    }
    Ok(out)
}

impl XTopPolicy {
    /// The name of the file for the element, or `XacmlMissingFilename`
    /// where it has none.
    pub fn filename(&self) -> (r: Result<&String, ParseError>)
        ensures
            match self {
                XTopPolicy::Policy(p) => match p.filename {
                    Some(f) => r == Ok::<&String, ParseError>(&f),
                    None => r == Err::<&String, ParseError>(ParseError::XacmlMissingFilename),
                },
                XTopPolicy::PolicySet(p) => match p.filename {
                    Some(f) => r == Ok::<&String, ParseError>(&f),
                    None => r == Err::<&String, ParseError>(ParseError::XacmlMissingFilename),
                },
            },
    {
        let name = match self {
            XTopPolicy::Policy(p) => &p.filename,
            XTopPolicy::PolicySet(p) => &p.filename,
        };
        match name {
            Some(f) => Ok(f),
            None => Err(ParseError::XacmlMissingFilename),
        }
    }
}

/// The name of the file of `p`, where it has one.
pub open spec fn top_filename(p: XTopPolicy) -> Option<Seq<char>> {
    match p {
        XTopPolicy::Policy(x) => opt_view(x.filename),
        XTopPolicy::PolicySet(x) => opt_view(x.filename),
    }
}

/// The file of XACML for `p`: its name, and the XML text of its document.
/// Fails with `XacmlMissingFilename` for an element without a file name,
/// and with `XacmlWriteIoError` where the text cannot be written.
pub fn write_xentry(p: &XTopPolicy) -> (r: Result<XacmlFile, ParseError>)
    ensures
        match top_filename(*p) {
            None => r == Err::<XacmlFile, ParseError>(ParseError::XacmlMissingFilename),
            Some(name) => match r {
                Ok(f) => f.filename@ == name && f.contents@ == rendered(document_pieces(*p)),
                Err(e) => e == ParseError::XacmlWriteIoError,
            },
        },
{
    let filename = p.filename()?.clone();
    let contents = p.to_xml()?;
    Ok(XacmlFile { filename, contents })
}

} // verus!
