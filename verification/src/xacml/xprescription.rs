//! Obligations and advice in XACML.

use crate::ast::prescription::{
    AttrAssignmentSource, AttributeAssignment, Prescription, PrescriptionExpr, PrescriptionType,
};
use crate::ast::rule::Effect;
use crate::context::{found, Context, Declarations, LiteralView, TypedLiteral};
use crate::errors::{ErrorKind, ParseError};
use crate::resolver::resolve;
use crate::text::path_view;
use crate::xacml::xattr_designator::{DesignatorView, XAttrDesignator};
use crate::xacml::xcondition::{designator_of, resolve_designator};
use vstd::prelude::*;
use vstd::string::*;

verus! {

/// An `<AttributeValue>` element: a literal with the URI of its type.
#[derive(Debug, PartialEq, Eq)]
pub struct XAttrValue {
    pub v: TypedLiteral,
}

impl Clone for XAttrValue {
    fn clone(&self) -> (r: Self)
        ensures
            r.v@ == self.v@,
    {
        XAttrValue { v: self.v.clone() }
    }
}

/// Obligations and advice, each kind by itself.
#[derive(Debug, PartialEq, Eq, Clone)]
pub struct XPrescriptionByType {
    pub obligations: Vec<XPrescriptionExpr>,
    pub associated_advice: Vec<XPrescriptionExpr>,
}

/// Obligations and advice in the order of the source.
#[derive(Debug, PartialEq, Eq, Clone, Default)]
pub struct XPrescriptions {
    pub exprs: Vec<XPrescriptionExpr>,
}

/// An `<ObligationExpression>` or `<AdviceExpression>` element.
#[derive(Debug, PartialEq, Eq, Clone)]
pub struct XPrescriptionExpr {
    /// Whether this is an obligation or an advice.
    pub ptype: PrescriptionType,
    /// The XACML identifier of the obligation or advice.
    pub id: String,
    /// The effect on which it applies.
    pub fulfill_on: Effect,
    /// The attributes that are handed over with it.
    pub assignments: Vec<XAttributeAssignment>,
}

/// The right-hand side of an assignment.
#[derive(Debug, PartialEq, Eq, Clone)]
pub enum XAttributeAssignmentArgument {
    /// A literal value.
    Value(XAttrValue),
    /// An attribute of the request.
    Attrib(XAttrDesignator),
}

/// What the right-hand side of an assignment holds.
pub ghost enum ArgumentView {
    Value(LiteralView),
    Attrib(DesignatorView),
}

impl View for XAttributeAssignmentArgument {
    type V = ArgumentView;

    open spec fn view(&self) -> ArgumentView {
        match self {
            XAttributeAssignmentArgument::Value(v) => ArgumentView::Value(v.v@),
            XAttributeAssignmentArgument::Attrib(a) => ArgumentView::Attrib(a@),
        }
    }
}

/// One assignment within an obligation or advice.
#[derive(Debug, PartialEq, Eq, Clone)]
pub struct XAttributeAssignment {
    /// The XACML identifier of the attribute that receives the value.
    pub id: String,
    /// The URI of that attribute's category.
    pub category: String,
    /// The value.
    pub arg: XAttributeAssignmentArgument,
}

/// What an assignment holds.
pub ghost struct AssignmentView {
    pub id: Seq<char>,
    pub category: Seq<char>,
    pub arg: ArgumentView,
}

impl View for XAttributeAssignment {
    type V = AssignmentView;

    open spec fn view(&self) -> AssignmentView {
        AssignmentView { id: self.id@, category: self.category@, arg: self.arg@ }
    }
}

/// The members of `s` that are of the kind `kind`, in their order.
pub open spec fn of_kind(s: Seq<XPrescriptionExpr>, kind: PrescriptionType) -> Seq<
    XPrescriptionExpr,
> {
    s.filter(|p: XPrescriptionExpr| p.ptype == kind)
}

impl XPrescriptionByType {
    /// Parts obligations from advice; each kind keeps its order.
    pub fn from(ps: XPrescriptions) -> (r: Self)
        ensures
            r.obligations@ == of_kind(ps.exprs@, PrescriptionType::Obligation),
            r.associated_advice@ == of_kind(ps.exprs@, PrescriptionType::Advice),
    {
        let mut obligations: Vec<XPrescriptionExpr> = Vec::new();
        let mut associated_advice: Vec<XPrescriptionExpr> = Vec::new();
        let mut rest = ps.exprs;
        let ghost all = rest@;
        let ghost mut done: int = 0;
        proof {
            assert(all.take(0) =~= Seq::<XPrescriptionExpr>::empty());
        }
        while rest.len() > 0
            invariant
                0 <= done <= all.len(),
                rest@ == all.subrange(done, all.len() as int),
                obligations@ == of_kind(all.take(done), PrescriptionType::Obligation),
                associated_advice@ == of_kind(all.take(done), PrescriptionType::Advice),
            decreases rest@.len(),
        {
            let p = rest.remove(0);
            proof {
                assert(p == all[done]);
                assert(rest@ =~= all.subrange(done + 1, all.len() as int));
                assert(all.take(done + 1) =~= all.take(done).push(p));
                lemma_filter_push(all.take(done), p, PrescriptionType::Obligation);
                lemma_filter_push(all.take(done), p, PrescriptionType::Advice);
            }
            match p.ptype {
                PrescriptionType::Advice => associated_advice.push(p),
                PrescriptionType::Obligation => obligations.push(p),
            }
            proof {
                done = done + 1;
            }
        }
        proof {
            assert(all.take(all.len() as int) =~= all);
        }
        XPrescriptionByType { obligations, associated_advice }
    }
}

/// Filtering a list with one more member: the member comes last where it
/// is of the kind, and is left out where it is not.
proof fn lemma_filter_push(s: Seq<XPrescriptionExpr>, p: XPrescriptionExpr, kind: PrescriptionType)
    ensures
        of_kind(s.push(p), kind) == (if p.ptype == kind {
            of_kind(s, kind).push(p)
        } else {
            of_kind(s, kind)
        }),
{
    let f = |p: XPrescriptionExpr| p.ptype == kind;
    assert(s.push(p).drop_last() =~= s);
    reveal(Seq::filter);
}

/// What an obligation or advice holds.
pub ghost struct PrescriptionView {
    pub ptype: PrescriptionType,
    pub id: Seq<char>,
    pub fulfill_on: Effect,
    pub assignments: Seq<AssignmentView>,
}

impl View for XPrescriptionExpr {
    type V = PrescriptionView;

    open spec fn view(&self) -> PrescriptionView {
        PrescriptionView {
            ptype: self.ptype,
            id: self.id@,
            fulfill_on: self.fulfill_on,
            assignments: assignments_view(self.assignments@),
        }
    }
}

/// What each of the assignments `v` holds.
pub open spec fn assignments_view(v: Seq<XAttributeAssignment>) -> Seq<AssignmentView> {
    Seq::new(v.len(), |i: int| v[i]@)
}

/// What each of the obligations and advice `v` holds.
pub open spec fn prescriptions_view(v: Seq<XPrescriptionExpr>) -> Seq<PrescriptionView> {
    Seq::new(v.len(), |i: int| v[i]@)
}

impl View for XPrescriptions {
    type V = Seq<PrescriptionView>;

    open spec fn view(&self) -> Seq<PrescriptionView> {
        prescriptions_view(self.exprs@)
    }
}

/// The assignment of XACML for the assignment `a`, written in the
/// namespace `ns`: the URI of the attribute that receives the value, the
/// URI of its category, looked up from `ns`, and the value.
pub open spec fn assignment_of(ctx: Declarations, a: AttributeAssignment, ns: Seq<Seq<char>>) -> Result<
    AssignmentView,
    ErrorKind,
> {
    match ctx.attribute_at(a.destination_id@, ns) {
        Err(k) => Err(k),
        Ok(dest) => match ctx.category_uri(dest.category@, ns) {
            Err(k) => Err(k),
            Ok(category) => match a.source {
                AttrAssignmentSource::Attribute(d) => match designator_of(ctx, d, ns) {
                    Err(k) => Err(k),
                    Ok(x) => Ok(
                        AssignmentView { id: dest.uri@, category, arg: ArgumentView::Attrib(x) },
                    ),
                },
                AttrAssignmentSource::Value(v) => match ctx.literal_of(v@, ns) {
                    Err(k) => Err(k),
                    Ok(l) => Ok(
                        AssignmentView { id: dest.uri@, category, arg: ArgumentView::Value(l) },
                    ),
                },
            },
        },
    }
}

/// The URI of the obligation or advice named `name` in the namespace `ns`.
pub open spec fn prescription_uri(
    ctx: Declarations,
    ptype: PrescriptionType,
    name: Seq<char>,
    ns: Seq<Seq<char>>,
) -> Result<Seq<char>, ErrorKind> {
    match ptype {
        PrescriptionType::Advice => match found(
            resolve(ctx.advice_resolver@.dom(), name, ns, ctx.imports_for(ns)),
        ) {
            Ok(n) => Ok(ctx.advice_resolver@[n].uri@),
            Err(k) => Err(k),
        },
        PrescriptionType::Obligation => match found(
            resolve(ctx.obligation_resolver@.dom(), name, ns, ctx.imports_for(ns)),
        ) {
            Ok(n) => Ok(ctx.obligation_resolver@[n].uri@),
            Err(k) => Err(k),
        },
    }
}

/// The assignment of XACML for the assignment `a`, as `assignment_of`
/// states it.
pub fn convert_assignment(a: &AttributeAssignment, source_ns: &[String], ctx: &Context) -> (r:
    Result<XAttributeAssignment, ParseError>)
    ensures
        match assignment_of(ctx.decls, *a, path_view(source_ns@)) {
            Ok(v) => r matches Ok(x) && x@ == v,
            Err(k) => r matches Err(e) && e.spec_kind() == k,
        },
{
    let dest = ctx.lookup_attribute(a.destination_id.as_str(), source_ns)?;
    let id = dest.uri.clone();
    let category = ctx.lookup_category_uri(dest.category.as_str(), source_ns)?;
    let arg = match &a.source {
        AttrAssignmentSource::Attribute(d) => XAttributeAssignmentArgument::Attrib(
            resolve_designator(d, source_ns, ctx)?,
        ),
        AttrAssignmentSource::Value(v) => XAttributeAssignmentArgument::Value(
            XAttrValue { v: ctx.constant_to_typedliteral(v, source_ns)? },
        ),
    };
    Ok(XAttributeAssignment { id, category, arg })
}

/// The first `n` assignments of `e` in XACML, or the error of the first
/// that has no counterpart.
pub open spec fn assignments_of(ctx: Declarations, e: PrescriptionExpr, ns: Seq<Seq<char>>, n: nat) -> Result<
    Seq<AssignmentView>,
    ErrorKind,
>
    decreases n,
{
    if n == 0 || n > e.assignments@.len() {
        Ok(Seq::empty())
    } else {
        match assignments_of(ctx, e, ns, (n - 1) as nat) {
            Err(k) => Err(k),
            Ok(before) => match assignment_of(ctx, e.assignments@[n - 1], ns) {
                Err(k) => Err(k),
                Ok(x) => Ok(before.push(x)),
            },
        }
    }
}

/// Once an assignment fails, the assignments up to any later one fail with
/// the same error.
pub proof fn lemma_assignments_error(
    ctx: Declarations,
    e: PrescriptionExpr,
    ns: Seq<Seq<char>>,
    n: nat,
    m: nat,
)
    requires
        n <= m <= e.assignments@.len(),
        assignments_of(ctx, e, ns, n) is Err,
    ensures
        assignments_of(ctx, e, ns, m) == assignments_of(ctx, e, ns, n),
    decreases m - n,
{
    if n < m {
        lemma_assignments_error(ctx, e, ns, n, (m - 1) as nat);
    }
}

/// The obligation or advice of XACML for the statement `e`, which applies
/// on `effect`: the URI of its name, looked up among the obligations or
/// among the advice, and its assignments in their order.
pub open spec fn prescription_of(
    ctx: Declarations,
    e: PrescriptionExpr,
    effect: Effect,
    ns: Seq<Seq<char>>,
) -> Result<PrescriptionView, ErrorKind> {
    match prescription_uri(ctx, e.ptype, e.id@, ns) {
        Err(k) => Err(k),
        Ok(id) => match assignments_of(ctx, e, ns, e.assignments@.len()) {
            Err(k) => Err(k),
            Ok(assignments) => Ok(
                PrescriptionView { ptype: e.ptype, id, fulfill_on: effect, assignments },
            ),
        },
    }
}

/// The obligation or advice of XACML for the statement `e`, as
/// `prescription_of` states it.
pub fn convert_prescription_expr(
    e: &PrescriptionExpr,
    effect: Effect,
    source_ns: &[String],
    ctx: &Context,
) -> (r: Result<XPrescriptionExpr, ParseError>)
    ensures
        match prescription_of(ctx.decls, *e, effect, path_view(source_ns@)) {
            Ok(v) => r matches Ok(x) && x@ == v,
            Err(k) => r matches Err(err) && err.spec_kind() == k,
        },
{
    let id = match e.ptype {
        PrescriptionType::Advice => ctx.lookup_advice(e.id.as_str(), source_ns)?.uri.clone(),
        PrescriptionType::Obligation => ctx.lookup_obligation(
            e.id.as_str(),
            source_ns,
        )?.uri.clone(),
    };
    let mut out: Vec<XAttributeAssignment> = Vec::new();
    let mut i: usize = 0;
    let ghost ns = path_view(source_ns@);
    proof {
        assert(assignments_view(out@) =~= Seq::<AssignmentView>::empty());
    }
    while i < e.assignments.len()
        invariant
            i <= e.assignments.len(),
            ns == path_view(source_ns@),
            prescription_uri(ctx.decls, e.ptype, e.id@, ns) == Ok::<Seq<char>, ErrorKind>(id@),
            assignments_of(ctx.decls, *e, ns, i as nat) == Ok::<Seq<AssignmentView>, ErrorKind>(
                assignments_view(out@),
            ),
        decreases e.assignments.len() - i,
    {
        let ghost before = assignments_view(out@);
        let x = match convert_assignment(&e.assignments[i], source_ns, ctx) {
            Ok(x) => x,
            Err(err) => {
                proof {
                    lemma_assignments_error(ctx.decls, *e, ns, (i + 1) as nat, e.assignments@.len());
                }
                return Err(err);
            },
        };
        out.push(x);
        proof {
            assert(assignments_view(out@) =~= before.push(x@));
        }
        i = i + 1;
    }
    Ok(XPrescriptionExpr { ptype: e.ptype, id, fulfill_on: effect, assignments: out })
}

/// The obligations and advice of XACML for the first `n` statements of the
/// block `p`, or the error of the first that has no counterpart.
pub open spec fn block_of(ctx: Declarations, p: Prescription, n: nat) -> Result<
    Seq<PrescriptionView>,
    ErrorKind,
>
    decreases n,
{
    if n == 0 || n > p.expressions@.len() {
        Ok(Seq::empty())
    } else {
        match block_of(ctx, p, (n - 1) as nat) {
            Err(k) => Err(k),
            Ok(before) => match prescription_of(
                ctx,
                p.expressions@[n - 1],
                p.effect,
                path_view(p.ns@),
            ) {
                Err(k) => Err(k),
                Ok(x) => Ok(before.push(x)),
            },
        }
    }
}

/// Once a statement fails, the statements up to any later one fail with the
/// same error.
pub proof fn lemma_block_error(ctx: Declarations, p: Prescription, n: nat, m: nat)
    requires
        n <= m <= p.expressions@.len(),
        block_of(ctx, p, n) is Err,
    ensures
        block_of(ctx, p, m) == block_of(ctx, p, n),
    decreases m - n,
{
    if n < m {
        lemma_block_error(ctx, p, n, (m - 1) as nat);
    }
}

/// The obligations and advice of XACML for the first `n` blocks of `ps`,
/// one after the other, or the error of the first statement that has no
/// counterpart.
pub open spec fn blocks_of(ctx: Declarations, ps: Seq<Prescription>, n: nat) -> Result<
    Seq<PrescriptionView>,
    ErrorKind,
>
    decreases n,
{
    if n == 0 || n > ps.len() {
        Ok(Seq::empty())
    } else {
        match blocks_of(ctx, ps, (n - 1) as nat) {
            Err(k) => Err(k),
            Ok(before) => match block_of(ctx, ps[n - 1], ps[n - 1].expressions@.len()) {
                Err(k) => Err(k),
                Ok(x) => Ok(before + x),
            },
        }
    }
}

/// Once a block fails, the blocks up to any later one fail with the same
/// error.
pub proof fn lemma_blocks_error(ctx: Declarations, ps: Seq<Prescription>, n: nat, m: nat)
    requires
        n <= m <= ps.len(),
        blocks_of(ctx, ps, n) is Err,
    ensures
        blocks_of(ctx, ps, m) == blocks_of(ctx, ps, n),
    decreases m - n,
{
    if n < m {
        lemma_blocks_error(ctx, ps, n, (m - 1) as nat);
    }
}

/// Whether the result `r` is the obligations and advice, or an error of the
/// kind, that `expected` names.
pub open spec fn prescriptions_answer(
    r: Result<XPrescriptions, ParseError>,
    expected: Result<Seq<PrescriptionView>, ErrorKind>,
) -> bool {
    match expected {
        Ok(v) => r matches Ok(x) && x@ == v,
        Err(k) => r matches Err(e) && e.spec_kind() == k,
    }
}

impl XPrescriptions {
    /// Adds the obligations and advice of the block `p` to `out`.
    fn extend_from(out: &mut Vec<XPrescriptionExpr>, p: &Prescription, ctx: &Context) -> (r:
        Result<(), ParseError>)
        ensures
            match block_of(ctx.decls, *p, p.expressions@.len()) {
                Ok(v) => r is Ok && prescriptions_view(final(out)@) == prescriptions_view(
                    old(out)@,
                ) + v,
                Err(k) => r matches Err(e) && e.spec_kind() == k,
            },
    {
        let mut i: usize = 0;
        let ghost start = prescriptions_view(out@);
        proof {
            assert(start + Seq::<PrescriptionView>::empty() =~= start);
        }
        while i < p.expressions.len()
            invariant
                i <= p.expressions.len(),
                block_of(ctx.decls, *p, i as nat) is Ok,
                prescriptions_view(out@) == start + block_of(ctx.decls, *p, i as nat)->Ok_0,
            decreases p.expressions.len() - i,
        {
            let ghost before = prescriptions_view(out@);
            let x = match convert_prescription_expr(
                &p.expressions[i],
                p.effect,
                p.ns.as_slice(),
                ctx,
            ) {
                Ok(x) => x,
                Err(err) => {
                    proof {
                        lemma_block_error(ctx.decls, *p, (i + 1) as nat, p.expressions@.len());
                    }
                    return Err(err);
                },
            };
            out.push(x);
            proof {
                assert(prescriptions_view(out@) =~= before.push(x@));
                assert(before.push(x@) =~= start + block_of(ctx.decls, *p, i as nat)->Ok_0.push(x@));
            }
            i = i + 1;
        }
        Ok(())
    }

    /// The obligations and advice of XACML for the blocks `ps`: every
    /// statement of every block, in the order of the source, each as
    /// `prescription_of` states it. The first statement that has no
    /// counterpart ends the conversion with its error.
    pub fn try_from(ps: &Vec<Prescription>, ctx: &Context) -> (r: Result<Self, ParseError>)
        ensures
            prescriptions_answer(r, blocks_of(ctx.decls, ps@, ps@.len())),
    {
        let mut out: Vec<XPrescriptionExpr> = Vec::new();
        let mut i: usize = 0;
        proof {
            assert(prescriptions_view(out@) =~= Seq::<PrescriptionView>::empty());
        }
        while i < ps.len()
            invariant
                i <= ps.len(),
                blocks_of(ctx.decls, ps@, i as nat) == Ok::<Seq<PrescriptionView>, ErrorKind>(
                    prescriptions_view(out@),
                ),
            decreases ps.len() - i,
        {
            match XPrescriptions::extend_from(&mut out, &ps[i], ctx) {
                Ok(()) => {},
                Err(err) => {
                    proof {
                        lemma_blocks_error(ctx.decls, ps@, (i + 1) as nat, ps@.len());
                    }
                    return Err(err);
                },
            }
            i = i + 1;
        }
        Ok(XPrescriptions { exprs: out })
    }
}

/// Two assignments that hold the same stand for the same assignment of
/// XACML.
pub proof fn lemma_assignment_same(
    ctx: Declarations,
    a: AttributeAssignment,
    b: AttributeAssignment,
    ns: Seq<Seq<char>>,
)
    requires
        a@ == b@,
    ensures
        assignment_of(ctx, a, ns) == assignment_of(ctx, b, ns),
{
    match a.source {
        AttrAssignmentSource::Attribute(d) => {
            let e = b.source->Attribute_0;
            assert(crate::ast::condition::attribute_view(d)
                == crate::ast::condition::attribute_view(e));
            assert(d.spec_name() == e.spec_name());
        },
        AttrAssignmentSource::Value(v) => {
            let w = b.source->Value_0;
            assert(v@ == w@);
        },
    }
}

/// Two statements that hold the same stand for the same assignments.
pub proof fn lemma_assignments_same(
    ctx: Declarations,
    a: PrescriptionExpr,
    b: PrescriptionExpr,
    ns: Seq<Seq<char>>,
    n: nat,
)
    requires
        a@ == b@,
    ensures
        assignments_of(ctx, a, ns, n) == assignments_of(ctx, b, ns, n),
    decreases n,
{
    assert(a@.assignments.len() == a.assignments@.len());
    assert(b@.assignments.len() == b.assignments@.len());
    if n > 0 && n <= a.assignments@.len() {
        lemma_assignments_same(ctx, a, b, ns, (n - 1) as nat);
        assert(a@.assignments[n - 1] == a.assignments@[n - 1]@);
        assert(b@.assignments[n - 1] == b.assignments@[n - 1]@);
        lemma_assignment_same(ctx, a.assignments@[n - 1], b.assignments@[n - 1], ns);
    }
}

/// Two blocks that hold the same stand for the same obligations and
/// advice.
pub proof fn lemma_block_same(ctx: Declarations, a: Prescription, b: Prescription, n: nat)
    requires
        a@ == b@,
    ensures
        block_of(ctx, a, n) == block_of(ctx, b, n),
    decreases n,
{
    assert(a@.expressions.len() == a.expressions@.len());
    assert(b@.expressions.len() == b.expressions@.len());
    if n > 0 && n <= a.expressions@.len() {
        lemma_block_same(ctx, a, b, (n - 1) as nat);
        assert(a@.expressions[n - 1] == a.expressions@[n - 1]@);
        assert(b@.expressions[n - 1] == b.expressions@[n - 1]@);
        assert(a.expressions@[n - 1]@.assignments.len() == a.expressions@[n - 1].assignments@.len());
        assert(b.expressions@[n - 1]@.assignments.len() == b.expressions@[n - 1].assignments@.len());
        lemma_assignments_same(
            ctx,
            a.expressions@[n - 1],
            b.expressions@[n - 1],
            path_view(a.ns@),
            a.expressions@[n - 1].assignments@.len(),
        );
    }
}

/// Two lists of blocks that hold the same stand for the same obligations
/// and advice.
pub proof fn lemma_blocks_same(
    ctx: Declarations,
    a: Seq<Prescription>,
    b: Seq<Prescription>,
    n: nat,
)
    requires
        crate::ast::prescription::blocks_view(a) == crate::ast::prescription::blocks_view(b),
    ensures
        blocks_of(ctx, a, n) == blocks_of(ctx, b, n),
    decreases n,
{
    let va = crate::ast::prescription::blocks_view(a);
    let vb = crate::ast::prescription::blocks_view(b);
    assert(va.len() == a.len());
    assert(vb.len() == b.len());
    if n > 0 && n <= a.len() {
        lemma_blocks_same(ctx, a, b, (n - 1) as nat);
        assert(va[n - 1] == a[n - 1]@);
        assert(vb[n - 1] == b[n - 1]@);
        assert(a[n - 1]@.expressions.len() == a[n - 1].expressions@.len());
        assert(b[n - 1]@.expressions.len() == b[n - 1].expressions@.len());
        lemma_block_same(ctx, a[n - 1], b[n - 1], a[n - 1].expressions@.len());
    }
}

} // verus!
