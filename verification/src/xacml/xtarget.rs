//! Targets in XACML.

use crate::ast::infix::{Infix, InfixSignature};
use crate::ast::target::{ConjunctiveSeq, DisjunctiveSeq, Match, MatchFunction, MatchOperation, Target};
use crate::ast::typedef::BOOLEAN_URI;
use crate::context::{Context, Declarations, LiteralView};
use crate::errors::{ErrorKind, ParseError};
use crate::text::{clone_opt_string, join, join_strings, opt_view, path_view, same_text};
use crate::xacml::xcondition::signature_types;
use vstd::prelude::*;
use vstd::string::*;

verus! {

/// A `<Target>` element of a rule, a policy or a policy set.
#[derive(Debug, PartialEq, Eq, Default)]
pub struct XTarget {
    pub anyofs: Vec<AnyOf>,
}

/// An `<AnyOf>` element of a target.
#[derive(Debug, PartialEq, Eq, Default)]
pub struct AnyOf {
    pub allofs: Vec<AllOf>,
}

/// An `<AllOf>` element of an `<AnyOf>`.
#[derive(Debug, PartialEq, Eq, Default)]
pub struct AllOf {
    pub matches: Vec<XMatch>,
}

/// A `<Match>` element: a function applied to a literal and to each value
/// of an attribute.
#[derive(Debug, PartialEq, Eq, Default)]
pub struct XMatch {
    /// The URI of the function.
    pub matchid: String,
    /// The literal.
    pub value: String,
    /// The URI of the literal's type.
    pub value_type: String,
    /// The URI of the attribute.
    pub designator_id: String,
    /// The URI of the attribute's category.
    pub designator_category: String,
    /// The URI of the attribute's type.
    pub designator_type: String,
    /// Whether the attribute must be present in the request.
    pub must_be_present: bool,
    /// The issuer that the attribute must come from, if one is named.
    pub issuer: Option<String>,
}

/// What a match holds.
pub ghost struct XMatchView {
    pub matchid: Seq<char>,
    pub value: Seq<char>,
    pub value_type: Seq<char>,
    pub designator_id: Seq<char>,
    pub designator_category: Seq<char>,
    pub designator_type: Seq<char>,
    pub must_be_present: bool,
    pub issuer: Option<Seq<char>>,
}

impl View for XMatch {
    type V = XMatchView;

    open spec fn view(&self) -> XMatchView {
        XMatchView {
            matchid: self.matchid@,
            value: self.value@,
            value_type: self.value_type@,
            designator_id: self.designator_id@,
            designator_category: self.designator_category@,
            designator_type: self.designator_type@,
            must_be_present: self.must_be_present,
            issuer: opt_view(self.issuer),
        }
    }
}

impl View for AllOf {
    type V = Seq<XMatchView>;

    open spec fn view(&self) -> Seq<XMatchView> {
        Seq::new(self.matches@.len(), |i: int| self.matches@[i]@)
    }
}

impl View for AnyOf {
    type V = Seq<Seq<XMatchView>>;

    open spec fn view(&self) -> Seq<Seq<XMatchView>> {
        Seq::new(self.allofs@.len(), |i: int| self.allofs@[i]@)
    }
}

impl View for XTarget {
    type V = Seq<Seq<Seq<XMatchView>>>;

    open spec fn view(&self) -> Seq<Seq<Seq<XMatchView>>> {
        Seq::new(self.anyofs@.len(), |i: int| self.anyofs@[i]@)
    }
}

/// The operator whose function a match with the operator `name` applies.
///
/// A match written with the attribute first and the literal second uses
/// the operator itself. One written with the literal first is reversed: it
/// uses the operator itself where that is commutative, and else its
/// inverse, where its declaration names one; an operator that is neither
/// commutative nor has an inverse can not be turned round, and the match
/// fails with `ReversedInfixArgsNotCommutativeError`.
pub open spec fn match_operator(ctx: Declarations, name: Seq<char>, reversed: bool, ns: Seq<Seq<char>>) -> Result<
    Infix,
    ErrorKind,
> {
    match ctx.infix_at(name, ns) {
        Err(k) => Err(k),
        Ok(source) => if !reversed || source.commutative {
            Ok(source)
        } else {
            match source.inverse {
                Some(inv) => ctx.infix_at(inv@, ns),
                None => Err(ErrorKind::ReversedInfixArgsNotCommutativeError),
            }
        },
    }
}

/// The first signature from position `from` on whose first type is
/// `literal_type`, whose second is `attribute_type` and whose result is a
/// boolean. A type of a signature that can not be looked up ends the search
/// with that error, and the end of the list with `AstConvertError`.
pub open spec fn find_match_signature(
    ctx: Declarations,
    sigs: Seq<InfixSignature>,
    ns: Seq<Seq<char>>,
    literal_type: Seq<char>,
    attribute_type: Seq<char>,
    from: int,
) -> Result<int, ErrorKind>
    decreases sigs.len() - from,
{
    if from < 0 || from >= sigs.len() {
        Err(ErrorKind::AstConvertError)
    } else {
        match signature_types(ctx, sigs[from]@, ns) {
            Err(k) => Err(k),
            Ok(types) => if types.0 == literal_type && types.1 == attribute_type && types.2
                == BOOLEAN_URI@ {
                Ok(from)
            } else {
                find_match_signature(ctx, sigs, ns, literal_type, attribute_type, from + 1)
            },
        }
    }
}

/// The match of XACML for a match that is written with an operator.
pub open spec fn operation_match(ctx: Declarations, mo: MatchOperation, ns: Seq<Seq<char>>) -> Result<
    XMatchView,
    ErrorKind,
> {
    match ctx.literal_of(mo.literal@, ns) {
        Err(k) => Err(k),
        Ok(lit) => match match_operator(ctx, mo.operator.spec_qualified_name(), mo.reversed, ns) {
            Err(k) => Err(k),
            Ok(infix) => match ctx.attribute_at(join(path_view(mo.attribute@), "."@), ns) {
                Err(k) => Err(k),
                Ok(attr) => match ctx.type_uri(attr.typedef@, path_view(attr.ns@)) {
                    Err(k) => Err(k),
                    Ok(attr_type) => match ctx.category_uri(
                        attr.category@,
                        path_view(attr.ns@),
                    ) {
                        Err(k) => Err(k),
                        Ok(cat) => match find_match_signature(
                            ctx,
                            infix.signatures@,
                            path_view(infix.ns@),
                            lit.type_uri,
                            attr_type,
                            0,
                        ) {
                            Err(k) => Err(k),
                            Ok(i) => Ok(
                                XMatchView {
                                    matchid: infix.signatures@[i].uri@,
                                    value: lit.value,
                                    value_type: lit.type_uri,
                                    designator_id: attr.uri@,
                                    designator_category: cat,
                                    designator_type: attr_type,
                                    must_be_present: mo.mustbepresent,
                                    issuer: opt_view(mo.issuer),
                                },
                            ),
                        },
                    },
                },
            },
        },
    }
}

/// The match of XACML for a match that is written with a function.
pub open spec fn function_match(ctx: Declarations, mf: MatchFunction, ns: Seq<Seq<char>>) -> Result<
    XMatchView,
    ErrorKind,
> {
    match ctx.function_at(join(path_view(mf.function_id@), "."@), ns) {
        Err(k) => Err(k),
        Ok(f) => match ctx.literal_of(mf.literal@, ns) {
            Err(k) => Err(k),
            Ok(lit) => match ctx.attribute_at(join(path_view(mf.attribute@), "."@), ns) {
                Err(k) => Err(k),
                Ok(attr) => match ctx.category_uri(attr.category@, path_view(attr.ns@)) {
                    Err(k) => Err(k),
                    Ok(cat) => match ctx.type_uri(attr.typedef@, path_view(attr.ns@)) {
                        Err(k) => Err(k),
                        Ok(attr_type) => Ok(
                            XMatchView {
                                matchid: f.function_uri@,
                                value: lit.value,
                                value_type: lit.type_uri,
                                designator_id: attr.uri@,
                                designator_category: cat,
                                designator_type: attr_type,
                                must_be_present: mf.mustbepresent,
                                issuer: opt_view(mf.issuer),
                            },
                        ),
                    },
                },
            },
        },
    }
}

/// The match of XACML for the match `m`, written in the namespace `ns`.
pub open spec fn match_of(ctx: Declarations, m: Match, ns: Seq<Seq<char>>) -> Result<
    XMatchView,
    ErrorKind,
> {
    match m {
        Match::MatchFunc(mf) => function_match(ctx, mf, ns),
        Match::MatchOp(mo) => operation_match(ctx, mo, ns),
    }
}

/// Whether the result `r` is the match, or an error of the kind, that
/// `expected` names.
pub open spec fn match_answers(r: Result<XMatch, ParseError>, expected: Result<XMatchView, ErrorKind>) -> bool {
    match expected {
        Ok(v) => r matches Ok(x) && x@ == v,
        Err(k) => r matches Err(e) && e.spec_kind() == k,
    }
}

/// The operator whose function a match applies, as `match_operator` states
/// it.
pub fn operator_for_match<'a>(
    ctx: &'a Context,
    name: &str,
    reversed: bool,
    source_ns: &[String],
) -> (r: Result<&'a Infix, ParseError>)
    ensures
        match match_operator(ctx.decls, name@, reversed, path_view(source_ns@)) {
            Ok(i) => r matches Ok(x) && *x == i,
            Err(k) => r matches Err(e) && e.spec_kind() == k,
        },
{
    let source_infix = ctx.lookup_infix(name, source_ns)?;
    if reversed {
        if source_infix.commutative {
            Ok(source_infix)
        } else if source_infix.inverse.is_some() {
            ctx.lookup_infix_inverse(name, source_ns)
        } else {
            Err(ParseError::ReversedInfixArgsNotCommutativeError)
        }
    } else {
        Ok(source_infix)
    }
}

/// The signature of `infix` for a literal and an attribute of the given
/// types, as `find_match_signature` states it.
pub fn match_signature<'a>(
    infix: &'a Infix,
    literal_type: &str,
    attribute_type: &str,
    ctx: &Context,
) -> (r: Result<&'a InfixSignature, ParseError>)
    ensures
        match find_match_signature(
            ctx.decls,
            infix.signatures@,
            path_view(infix.ns@),
            literal_type@,
            attribute_type@,
            0,
        ) {
            Ok(i) => r matches Ok(s) && 0 <= i < infix.signatures@.len() && *s
                == infix.signatures@[i],
            Err(k) => r matches Err(e) && e.spec_kind() == k,
        },
{
    let mut i: usize = 0;
    while i < infix.signatures.len()
        invariant
            i <= infix.signatures.len(),
            find_match_signature(
                ctx.decls,
                infix.signatures@,
                path_view(infix.ns@),
                literal_type@,
                attribute_type@,
                0,
            ) == find_match_signature(
                ctx.decls,
                infix.signatures@,
                path_view(infix.ns@),
                literal_type@,
                attribute_type@,
                i as int,
            ),
        decreases infix.signatures.len() - i,
    {
        let s = &infix.signatures[i];
        let first = ctx.lookup_type_uri(s.first_arg.as_str(), infix.ns.as_slice())?;
        let second = ctx.lookup_type_uri(s.second_arg.as_str(), infix.ns.as_slice())?;
        let out = ctx.lookup_type_uri(s.output.as_str(), infix.ns.as_slice())?;
        if same_text(first.as_str(), literal_type) && same_text(second.as_str(), attribute_type)
            && same_text(out.as_str(), BOOLEAN_URI) {
            return Ok(s);
        }
        i = i + 1;
    }
    Err(ParseError::AstConvertError)
}

/// The match of XACML for the match `m`, written in the namespace
/// `source_ns`, as `match_of` states it.
///
/// Fails as the lookup of a symbol fails; with
/// `ReversedInfixArgsNotCommutativeError` for operands in reverse order
/// with an operator that can not be turned round; and with
/// `AstConvertError` where no signature of the operator takes the literal
/// and the attribute and gives a boolean, and for the undefined constant.
pub fn match_to_xmatch(m: &Match, source_ns: &[String], ctx: &Context) -> (r: Result<
    XMatch,
    ParseError,
>)
    ensures
        match_answers(r, match_of(ctx.decls, *m, path_view(source_ns@))),
{
    match m {
        Match::MatchFunc(mf) => {
            let fn_fq = join_strings(mf.function_id.as_slice(), ".");
            let f = ctx.lookup_function(fn_fq.as_str(), source_ns)?;
            let tl = ctx.constant_to_typedliteral(&mf.literal, source_ns)?;
            let attr_name = join_strings(mf.attribute.as_slice(), ".");
            let attr = ctx.lookup_attribute(attr_name.as_str(), source_ns)?;
            let cat = ctx.lookup_category_uri(attr.category.as_str(), attr.ns.as_slice())?;
            let attr_type = ctx.lookup_type_uri(attr.typedef.as_str(), attr.ns.as_slice())?;
            Ok(
                XMatch {
                    matchid: f.function_uri.clone(),
                    value: tl.value,
                    value_type: tl.type_uri,
                    designator_id: attr.uri.clone(),
                    designator_category: cat,
                    designator_type: attr_type,
                    must_be_present: mf.mustbepresent,
                    issuer: clone_opt_string(&mf.issuer),
                },
            )
        },
        Match::MatchOp(mo) => {
            let tl = ctx.constant_to_typedliteral(&mo.literal, source_ns)?;
            let name = mo.operator.qualified_name();
            let infix = operator_for_match(ctx, name.as_str(), mo.reversed, source_ns)?;
            let attr_name = join_strings(mo.attribute.as_slice(), ".");
            let attr = ctx.lookup_attribute(attr_name.as_str(), source_ns)?;
            let attr_type = ctx.lookup_type_uri(attr.typedef.as_str(), attr.ns.as_slice())?;
            let cat = ctx.lookup_category_uri(attr.category.as_str(), attr.ns.as_slice())?;
            let s = match_signature(infix, tl.type_uri.as_str(), attr_type.as_str(), ctx)?;
            Ok(
                XMatch {
                    matchid: s.uri.clone(),
                    value: tl.value,
                    value_type: tl.type_uri,
                    designator_id: attr.uri.clone(),
                    designator_category: cat,
                    designator_type: attr_type,
                    must_be_present: mo.mustbepresent,
                    issuer: clone_opt_string(&mo.issuer),
                },
            )
        },
    }
}

/// The first `n` matches of the statement `c` in XACML, or the error of the
/// first that has no counterpart.
pub open spec fn allof_of(ctx: Declarations, c: ConjunctiveSeq, ns: Seq<Seq<char>>, n: nat) -> Result<
    Seq<XMatchView>,
    ErrorKind,
>
    decreases n,
{
    if n == 0 || n > c.matches@.len() {
        Ok(Seq::empty())
    } else {
        match allof_of(ctx, c, ns, (n - 1) as nat) {
            Err(k) => Err(k),
            Ok(before) => match match_of(ctx, c.matches@[n - 1], ns) {
                Err(k) => Err(k),
                Ok(x) => Ok(before.push(x)),
            },
        }
    }
}

/// Once a member fails, the members up to any later one fail with the same
/// error.
pub proof fn lemma_allof_error(ctx: Declarations, c: ConjunctiveSeq, ns: Seq<Seq<char>>, n: nat, m: nat)
    requires
        n <= m <= c.matches@.len(),
        allof_of(ctx, c, ns, n) is Err,
    ensures
        allof_of(ctx, c, ns, m) == allof_of(ctx, c, ns, n),
    decreases m - n,
{
    if n < m {
        lemma_allof_error(ctx, c, ns, n, (m - 1) as nat);
    }
}

/// The statement `c` in XACML: its members in their order.
pub fn convert_allof(c: &ConjunctiveSeq, source_ns: &[String], ctx: &Context) -> (r: Result<
    AllOf,
    ParseError,
>)
    ensures
        match allof_of(ctx.decls, *c, path_view(source_ns@), c.matches@.len()) {
            Ok(v) => r matches Ok(x) && x@ == v,
            Err(k) => r matches Err(e) && e.spec_kind() == k,
        },
{
    let mut out: Vec<XMatch> = Vec::new();
    let mut i: usize = 0;
    let ghost ns = path_view(source_ns@);
    proof {
        assert((AllOf { matches: out })@ =~= Seq::<XMatchView>::empty());
    }
    while i < c.matches.len()
        invariant
            i <= c.matches.len(),
            ns == path_view(source_ns@),
            allof_of(ctx.decls, *c, ns, i as nat) == Ok::<Seq<XMatchView>, ErrorKind>(
                (AllOf { matches: out })@,
            ),
        decreases c.matches.len() - i,
    {
        let ghost before = (AllOf { matches: out })@;
        let x = match match_to_xmatch(&c.matches[i], source_ns, ctx) {
            Ok(x) => x,
            Err(err) => {
                proof {
                    lemma_allof_error(ctx.decls, *c, ns, (i + 1) as nat, c.matches@.len());
                }
                return Err(err);
            },
        };
        out.push(x);
        proof {
            assert((AllOf { matches: out })@ =~= before.push(x@));
        }
        i = i + 1;
    }
    Ok(AllOf { matches: out })
}

/// The first `n` statements of the clause `c` in XACML, or the error of the
/// first that has no counterpart.
pub open spec fn anyof_of(ctx: Declarations, c: DisjunctiveSeq, ns: Seq<Seq<char>>, n: nat) -> Result<
    Seq<Seq<XMatchView>>,
    ErrorKind,
>
    decreases n,
{
    if n == 0 || n > c.statements@.len() {
        Ok(Seq::empty())
    } else {
        match anyof_of(ctx, c, ns, (n - 1) as nat) {
            Err(k) => Err(k),
            Ok(before) => match allof_of(ctx, c.statements@[n - 1], ns, c.statements@[n - 1].matches@.len()) {
                Err(k) => Err(k),
                Ok(x) => Ok(before.push(x)),
            },
        }
    }
}

/// Once a member fails, the members up to any later one fail with the same
/// error.
pub proof fn lemma_anyof_error(ctx: Declarations, c: DisjunctiveSeq, ns: Seq<Seq<char>>, n: nat, m: nat)
    requires
        n <= m <= c.statements@.len(),
        anyof_of(ctx, c, ns, n) is Err,
    ensures
        anyof_of(ctx, c, ns, m) == anyof_of(ctx, c, ns, n),
    decreases m - n,
{
    if n < m {
        lemma_anyof_error(ctx, c, ns, n, (m - 1) as nat);
    }
}

/// The clause `c` in XACML: its members in their order.
pub fn convert_anyof(c: &DisjunctiveSeq, source_ns: &[String], ctx: &Context) -> (r: Result<
    AnyOf,
    ParseError,
>)
    ensures
        match anyof_of(ctx.decls, *c, path_view(source_ns@), c.statements@.len()) {
            Ok(v) => r matches Ok(x) && x@ == v,
            Err(k) => r matches Err(e) && e.spec_kind() == k,
        },
{
    let mut out: Vec<AllOf> = Vec::new();
    let mut i: usize = 0;
    let ghost ns = path_view(source_ns@);
    proof {
        assert((AnyOf { allofs: out })@ =~= Seq::<Seq<XMatchView>>::empty());
    }
    while i < c.statements.len()
        invariant
            i <= c.statements.len(),
            ns == path_view(source_ns@),
            anyof_of(ctx.decls, *c, ns, i as nat) == Ok::<Seq<Seq<XMatchView>>, ErrorKind>(
                (AnyOf { allofs: out })@,
            ),
        decreases c.statements.len() - i,
    {
        let ghost before = (AnyOf { allofs: out })@;
        let x = match convert_allof(&c.statements[i], source_ns, ctx) {
            Ok(x) => x,
            Err(err) => {
                proof {
                    lemma_anyof_error(ctx.decls, *c, ns, (i + 1) as nat, c.statements@.len());
                }
                return Err(err);
            },
        };
        out.push(x);
        proof {
            assert((AnyOf { allofs: out })@ =~= before.push(x@));
        }
        i = i + 1;
    }
    Ok(AnyOf { allofs: out })
}

/// The first `n` clauses of the target `t` in XACML, or the error of the
/// first match that has no counterpart.
pub open spec fn target_of(ctx: Declarations, t: Target, n: nat) -> Result<
    Seq<Seq<Seq<XMatchView>>>,
    ErrorKind,
>
    decreases n,
{
    if n == 0 || n > t.clauses@.len() {
        Ok(Seq::empty())
    } else {
        match target_of(ctx, t, (n - 1) as nat) {
            Err(k) => Err(k),
            Ok(before) => match anyof_of(
                ctx,
                t.clauses@[n - 1],
                path_view(t.ns@),
                t.clauses@[n - 1].statements@.len(),
            ) {
                Err(k) => Err(k),
                Ok(x) => Ok(before.push(x)),
            },
        }
    }
}

/// Once a clause fails, the clauses up to any later one fail with the same
/// error.
pub proof fn lemma_target_error(ctx: Declarations, t: Target, n: nat, m: nat)
    requires
        n <= m <= t.clauses@.len(),
        target_of(ctx, t, n) is Err,
    ensures
        target_of(ctx, t, m) == target_of(ctx, t, n),
    decreases m - n,
{
    if n < m {
        lemma_target_error(ctx, t, n, (m - 1) as nat);
    }
}

/// Whether the result `r` is the target, or an error of the kind, that
/// `expected` names.
pub open spec fn target_answers(
    r: Result<XTarget, ParseError>,
    expected: Result<Seq<Seq<Seq<XMatchView>>>, ErrorKind>,
) -> bool {
    match expected {
        Ok(v) => r matches Ok(x) && x@ == v,
        Err(k) => r matches Err(e) && e.spec_kind() == k,
    }
}

impl XTarget {
    /// The target of XACML for the target `t`: clause by clause, statement
    /// by statement, match by match, each as `match_of` states it. The
    /// first match that has no counterpart ends the conversion with its
    /// error.
    pub fn try_from(t: &Target, ctx: &Context) -> (r: Result<Self, ParseError>)
        ensures
            target_answers(r, target_of(ctx.decls, *t, t.clauses@.len())),
    {
        let mut anyofs: Vec<AnyOf> = Vec::new();
        let mut i: usize = 0;
        proof {
            assert((XTarget { anyofs })@ =~= Seq::<Seq<Seq<XMatchView>>>::empty());
        }
        while i < t.clauses.len()
            invariant
                i <= t.clauses.len(),
                target_of(ctx.decls, *t, i as nat) == Ok::<Seq<Seq<Seq<XMatchView>>>, ErrorKind>(
                    (XTarget { anyofs })@,
                ),
            decreases t.clauses.len() - i,
        {
            let ghost before = (XTarget { anyofs })@;
            let x = match convert_anyof(&t.clauses[i], t.ns.as_slice(), ctx) {
                Ok(x) => x,
                Err(err) => {
                    proof {
                        lemma_target_error(ctx.decls, *t, (i + 1) as nat, t.clauses@.len());
                    }
                    return Err(err);
                },
            };
            anyofs.push(x);
            proof {
                assert((XTarget { anyofs })@ =~= before.push(x@));
            }
            i = i + 1;
        }
        Ok(XTarget { anyofs })
    }

    /// The target of XACML for an optional target; no target gives the
    /// empty target.
    pub fn try_from_option(t: &Option<Target>, ctx: &Context) -> (r: Result<Self, ParseError>)
        ensures
            match t {
                Some(t) => target_answers(r, target_of(ctx.decls, *t, t.clauses@.len())),
                None => r matches Ok(x) && x@.len() == 0,
            },
    {
        match t {
            Some(t) => XTarget::try_from(t, ctx),
            None => Ok(XTarget { anyofs: Vec::new() }),
        }
    }
}

/// Operands in reverse order: an operator that is not commutative is
/// replaced by the inverse that its declaration names, and where it names
/// none the match is refused.
pub proof fn lemma_reversed_operands(ctx: Declarations, name: Seq<char>, ns: Seq<Seq<char>>)
    requires
        ctx.infix_at(name, ns) is Ok,
    ensures
        match_operator(ctx, name, false, ns) == ctx.infix_at(name, ns),
        ctx.infix_at(name, ns)->Ok_0.commutative ==> match_operator(ctx, name, true, ns)
            == ctx.infix_at(name, ns),
        !ctx.infix_at(name, ns)->Ok_0.commutative ==> match_operator(ctx, name, true, ns) == (
        match ctx.infix_at(name, ns)->Ok_0.inverse {
            Some(inv) => ctx.infix_at(inv@, ns),
            None => Err(ErrorKind::ReversedInfixArgsNotCommutativeError),
        }),
{
}

/// Two comparisons that hold the same stand for the same match.
pub proof fn lemma_match_same(ctx: Declarations, a: Match, b: Match, ns: Seq<Seq<char>>)
    requires
        a@ == b@,
    ensures
        match_of(ctx, a, ns) == match_of(ctx, b, ns),
{
    match a {
        Match::MatchFunc(f) => {
            let g = b->MatchFunc_0;
            assert(f@ == g@);
        },
        Match::MatchOp(o) => {
            let q = b->MatchOp_0;
            assert(o@ == q@);
            assert(path_view(o.operator.ns@).len() == path_view(q.operator.ns@).len());
            assert(o.operator.spec_qualified_name() == q.operator.spec_qualified_name());
        },
    }
}

/// Two statements of a clause that hold the same stand for the same
/// matches.
pub proof fn lemma_allof_same(
    ctx: Declarations,
    a: ConjunctiveSeq,
    b: ConjunctiveSeq,
    ns: Seq<Seq<char>>,
    n: nat,
)
    requires
        a@ == b@,
    ensures
        allof_of(ctx, a, ns, n) == allof_of(ctx, b, ns, n),
    decreases n,
{
    assert(a@.len() == a.matches@.len());
    assert(b@.len() == b.matches@.len());
    if n > 0 && n <= a.matches@.len() {
        lemma_allof_same(ctx, a, b, ns, (n - 1) as nat);
        assert(a@[n - 1] == a.matches@[n - 1]@);
        assert(b@[n - 1] == b.matches@[n - 1]@);
        lemma_match_same(ctx, a.matches@[n - 1], b.matches@[n - 1], ns);
    }
}

/// Two clauses that hold the same stand for the same statements.
pub proof fn lemma_anyof_same(
    ctx: Declarations,
    a: DisjunctiveSeq,
    b: DisjunctiveSeq,
    ns: Seq<Seq<char>>,
    n: nat,
)
    requires
        a@ == b@,
    ensures
        anyof_of(ctx, a, ns, n) == anyof_of(ctx, b, ns, n),
    decreases n,
{
    assert(a@.len() == a.statements@.len());
    assert(b@.len() == b.statements@.len());
    if n > 0 && n <= a.statements@.len() {
        lemma_anyof_same(ctx, a, b, ns, (n - 1) as nat);
        assert(a@[n - 1] == a.statements@[n - 1]@);
        assert(b@[n - 1] == b.statements@[n - 1]@);
        assert(a.statements@[n - 1]@.len() == a.statements@[n - 1].matches@.len());
        assert(b.statements@[n - 1]@.len() == b.statements@[n - 1].matches@.len());
        lemma_allof_same(
            ctx,
            a.statements@[n - 1],
            b.statements@[n - 1],
            ns,
            a.statements@[n - 1].matches@.len(),
        );
    }
}

/// Two targets that hold the same stand for the same target of XACML.
pub proof fn lemma_target_same(ctx: Declarations, a: Target, b: Target, n: nat)
    requires
        a@ == b@,
    ensures
        target_of(ctx, a, n) == target_of(ctx, b, n),
    decreases n,
{
    assert(a@.clauses.len() == a.clauses@.len());
    assert(b@.clauses.len() == b.clauses@.len());
    if n > 0 && n <= a.clauses@.len() {
        lemma_target_same(ctx, a, b, (n - 1) as nat);
        assert(a@.clauses[n - 1] == a.clauses@[n - 1]@);
        assert(b@.clauses[n - 1] == b.clauses@[n - 1]@);
        assert(a.clauses@[n - 1]@.len() == a.clauses@[n - 1].statements@.len());
        assert(b.clauses@[n - 1]@.len() == b.clauses@[n - 1].statements@.len());
        lemma_anyof_same(
            ctx,
            a.clauses@[n - 1],
            b.clauses@[n - 1],
            path_view(a.ns@),
            a.clauses@[n - 1].statements@.len(),
        );
    }
}

} // verus!
