//! Conditions in XACML, and the types of expressions.

use crate::ast::condition::{CondExpression, CondFunctionCall, Condition, FunctionReference};
use crate::ast::constant::{Constant, ConstantView};
use crate::ast::designator::AttributeDesignator;
use crate::ast::function::{FunctionOutputArg, OutputView};
use crate::ast::infix::{Infix, InfixSignature, SignatureView};
use crate::ast::operator::Operator;
use crate::ast::typedef::{BOOLEAN_URI, DOUBLE_URI, INTEGER_URI, STRING_URI};
use crate::context::{found, Context, Declarations, LiteralView};
use crate::errors::{ErrorKind, ParseError, SrcError};
use crate::resolver::resolve;
use crate::text::{clone_opt_string, opt_view, path_view, same_text};
use crate::xacml::xapply::XApply;
use crate::xacml::xattr_designator::{DesignatorView, XAttrDesignator};
use crate::xacml::xexpression::{
    lemma_apply_view, xexprs_view, XApplyView, XExprView, XExpression,
};
use crate::xacml::xfunction::XFunction;
use crate::xacml::xprescription::XAttrValue;
use vstd::prelude::*;
use vstd::string::*;

verus! {

/// The XACML function that applies a function of two arguments to every
/// pair of values from two bags, and is true where one application is.
pub const ANY_OF_ANY: &'static str = "urn:oasis:names:tc:xacml:3.0:function:any-of-any";

/// A `<Condition>` element.
#[derive(Debug, PartialEq, Eq)]
pub struct XCondition {
    pub expr: XExpression,
}

/// The URI of a type, found from its name in ALFA.
#[derive(Debug, PartialEq, Eq)]
pub struct ResolvedAtomicName {
    pub uri: String,
}

/// The type of an expression, with the names of ALFA resolved to URIs.
#[derive(Debug, PartialEq, Eq)]
pub enum FunctionTypeResolved {
    /// One value of the type with this URI.
    Atomic(ResolvedAtomicName),
    /// A bag of values of the type with this URI.
    AtomicBag(ResolvedAtomicName),
    /// A bag of values of any type.
    AnyAtomicBag,
    /// One value of any type.
    AnyAtomic,
}

/// What the type of an expression holds.
pub ghost enum TypeView {
    Atomic(Seq<char>),
    AtomicBag(Seq<char>),
    AnyAtomicBag,
    AnyAtomic,
}

impl View for FunctionTypeResolved {
    type V = TypeView;

    open spec fn view(&self) -> TypeView {
        match self {
            FunctionTypeResolved::Atomic(n) => TypeView::Atomic(n.uri@),
            FunctionTypeResolved::AtomicBag(n) => TypeView::AtomicBag(n.uri@),
            FunctionTypeResolved::AnyAtomicBag => TypeView::AnyAtomicBag,
            FunctionTypeResolved::AnyAtomic => TypeView::AnyAtomic,
        }
    }
}

impl Clone for FunctionTypeResolved {
    fn clone(&self) -> (r: Self)
        ensures
            r@ == self@,
    {
        match self {
            FunctionTypeResolved::Atomic(n) => FunctionTypeResolved::Atomic(
                ResolvedAtomicName { uri: n.uri.clone() },
            ),
            FunctionTypeResolved::AtomicBag(n) => FunctionTypeResolved::AtomicBag(
                ResolvedAtomicName { uri: n.uri.clone() },
            ),
            FunctionTypeResolved::AnyAtomicBag => FunctionTypeResolved::AnyAtomicBag,
            FunctionTypeResolved::AnyAtomic => FunctionTypeResolved::AnyAtomic,
        }
    }
}

/// Whether a type is a bag.
pub open spec fn bag(t: TypeView) -> bool {
    t is AtomicBag || t is AnyAtomicBag
}

/// The type of the values themselves: of the one value, or of the values in
/// the bag. A type that stands for any type has none.
pub open spec fn base_type(t: TypeView) -> Option<Seq<char>> {
    match t {
        TypeView::Atomic(u) => Some(u),
        TypeView::AtomicBag(u) => Some(u),
        _ => None,
    }
}

impl FunctionTypeResolved {
    /// Whether the type is a bag.
    pub fn is_bag(&self) -> (r: bool)
        ensures
            r == bag(self@),
    {
        match self {
            FunctionTypeResolved::Atomic(_) | FunctionTypeResolved::AnyAtomic => false,
            FunctionTypeResolved::AtomicBag(_) | FunctionTypeResolved::AnyAtomicBag => true,
        }
    }

    /// Whether the type is one value, not a bag.
    pub fn is_atomic(&self) -> (r: bool)
        ensures
            r == !bag(self@),
    {
        !self.is_bag()
    }

    /// The text that `to_string` returns.
    pub open spec fn display_text(&self) -> Seq<char> {
        match self {
            FunctionTypeResolved::Atomic(n) => "fn arg atomic type: "@ + n.uri@,
            FunctionTypeResolved::AtomicBag(n) => "fn arg type: Bag["@ + n.uri@ + "]"@,
            FunctionTypeResolved::AnyAtomicBag => "fn arg: any atomic bag"@,
            FunctionTypeResolved::AnyAtomic => "fn arg: any atomic"@,
        }
    }

    /// The type in words.
    pub fn to_string(&self) -> (r: String)
        ensures
            r@ == self.display_text(),
    {
        match self {
            FunctionTypeResolved::Atomic(n) => {
                let mut out = "fn arg atomic type: ".to_owned();
                out.append(n.uri.as_str());
                out
            },
            FunctionTypeResolved::AtomicBag(n) => {
                let mut out = "fn arg type: Bag[".to_owned();
                out.append(n.uri.as_str());
                out.append("]");
                out
            },
            FunctionTypeResolved::AnyAtomicBag => "fn arg: any atomic bag".to_owned(),
            FunctionTypeResolved::AnyAtomic => "fn arg: any atomic".to_owned(),
        }
    }
}

/// Whether the result `r` is the type, or an error of the kind, that
/// `expected` names.
pub open spec fn type_answers(
    r: Result<FunctionTypeResolved, ParseError>,
    expected: Result<TypeView, ErrorKind>,
) -> bool {
    match expected {
        Ok(v) => r matches Ok(t) && t@ == v,
        Err(k) => r matches Err(e) && e.spec_kind() == k,
    }
}

/// Whether the result `r` is the expression, or an error of the kind, that
/// `expected` names.
pub open spec fn expr_answers(
    r: Result<XExpression, ParseError>,
    expected: Result<XExprView, ErrorKind>,
) -> bool {
    match expected {
        Ok(v) => r matches Ok(x) && x@ == v,
        Err(k) => r matches Err(e) && e.spec_kind() == k,
    }
}

/// The URI of the type of a literal. The type of a literal that names its
/// type is looked up from `ns`; the undefined constant has no type.
pub open spec fn literal_type(ctx: Declarations, c: ConstantView, ns: Seq<Seq<char>>) -> Result<
    Seq<char>,
    ErrorKind,
> {
    match c {
        ConstantView::String(_) => Ok(STRING_URI@),
        ConstantView::Integer(_) => Ok(INTEGER_URI@),
        ConstantView::Double(_) => Ok(DOUBLE_URI@),
        ConstantView::Boolean(_) => Ok(BOOLEAN_URI@),
        ConstantView::Custom(name, _) => ctx.type_uri(name, ns),
        ConstantView::Undefined => Err(ErrorKind::AstConvertError),
    }
}

/// The type that a function declares for its result, with the name of the
/// type looked up from `ns`, the namespace of the function.
pub open spec fn output_type(ctx: Declarations, out: OutputView, ns: Seq<Seq<char>>) -> Result<
    TypeView,
    ErrorKind,
> {
    match out {
        OutputView::Atomic(a) => match ctx.type_uri(a, ns) {
            Ok(u) => Ok(TypeView::Atomic(u)),
            Err(k) => Err(k),
        },
        OutputView::AtomicBag(a) => match ctx.type_uri(a, ns) {
            Ok(u) => Ok(TypeView::AtomicBag(u)),
            Err(k) => Err(k),
        },
        OutputView::AnyAtomicBag => Ok(TypeView::AnyAtomicBag),
        OutputView::AnyAtomic => Ok(TypeView::AnyAtomic),
    }
}

/// The type of an attribute designator: a bag of the attribute's declared
/// type, for the retrieval of an attribute always gives a bag. The type is
/// looked up from the namespace of the attribute.
pub open spec fn designator_type(ctx: Declarations, name: Seq<char>, ns: Seq<Seq<char>>) -> Result<
    TypeView,
    ErrorKind,
> {
    match ctx.attribute_at(name, ns) {
        Ok(attr) => match ctx.type_uri(attr.typedef@, path_view(attr.ns@)) {
            Ok(u) => Ok(TypeView::AtomicBag(u)),
            Err(k) => Err(k),
        },
        Err(k) => Err(k),
    }
}

/// The type of the application of the function named `name`: the result
/// type that the function declares.
pub open spec fn call_type(ctx: Declarations, name: Seq<char>, ns: Seq<Seq<char>>) -> Result<
    TypeView,
    ErrorKind,
> {
    match ctx.function_at(name, ns) {
        Ok(f) => output_type(ctx, f.output_arg@, path_view(f.ns@)),
        Err(k) => Err(k),
    }
}

/// The URIs of the three types of a signature: first operand, second
/// operand, result. The names are looked up from `ns`, the namespace of the
/// operator, in this order.
pub open spec fn signature_types(ctx: Declarations, s: SignatureView, ns: Seq<Seq<char>>) -> Result<
    (Seq<char>, Seq<char>, Seq<char>),
    ErrorKind,
> {
    match ctx.type_uri(s.first_arg, ns) {
        Err(k) => Err(k),
        Ok(first) => match ctx.type_uri(s.second_arg, ns) {
            Err(k) => Err(k),
            Ok(second) => match ctx.type_uri(s.output, ns) {
                Err(k) => Err(k),
                Ok(out) => Ok((first, second, out)),
            },
        },
    }
}

/// Whether a signature with the operand types `first` and `second` fits
/// operands of the types `t1` and `t2`: each declared type is the type of
/// the operand's values, whether the operand is one value or a bag.
pub open spec fn signature_fits(first: Seq<char>, second: Seq<char>, t1: TypeView, t2: TypeView) -> bool {
    base_type(t1) == Some(first) && base_type(t2) == Some(second)
}

/// The first signature from position `from` on that fits operands of the
/// types `t1` and `t2`. The signatures are tried in order; a type of a
/// signature that can not be looked up ends the search with that error, and
/// so does the end of the list, with `InfixNoMatchingSignature`.
pub open spec fn find_signature(
    ctx: Declarations,
    sigs: Seq<InfixSignature>,
    ns: Seq<Seq<char>>,
    t1: TypeView,
    t2: TypeView,
    from: int,
) -> Result<int, ErrorKind>
    decreases sigs.len() - from,
{
    if from < 0 || from >= sigs.len() {
        Err(ErrorKind::InfixNoMatchingSignature)
    } else {
        match signature_types(ctx, sigs[from]@, ns) {
            Err(k) => Err(k),
            Ok(types) => if signature_fits(types.0, types.1, t1, t2) {
                Ok(from)
            } else {
                find_signature(ctx, sigs, ns, t1, t2, from + 1)
            },
        }
    }
}

/// The type of the application of the infix operator `infix` to operands of
/// the types `t1` and `t2`: one value of the result type of the first
/// signature that fits.
pub open spec fn infix_type(ctx: Declarations, infix: Infix, t1: TypeView, t2: TypeView) -> Result<
    TypeView,
    ErrorKind,
> {
    match find_signature(ctx, infix.signatures@, path_view(infix.ns@), t1, t2, 0) {
        Err(k) => Err(k),
        Ok(i) => match ctx.type_uri(infix.signatures@[i].output@, path_view(infix.ns@)) {
            Ok(u) => Ok(TypeView::Atomic(u)),
            Err(k) => Err(k),
        },
    }
}

/// The type of the expression `e`, written in the namespace `ns`.
///
/// A literal has the type of its kind. An attribute designator is a bag of
/// the attribute's type. The application of a function has the result type
/// of the function. Two operands with an operator have the result type of
/// the first signature of the operator that fits the types of the operands.
/// A function as an argument and the empty expression have no type.
pub open spec fn type_of(ctx: Declarations, e: CondExpression, ns: Seq<Seq<char>>) -> Result<
    TypeView,
    ErrorKind,
>
    decreases e,
{
    match e {
        CondExpression::Infix(a, op, b) => match ctx.infix_at(op.spec_qualified_name(), ns) {
            Err(k) => Err(k),
            Ok(infix) => match type_of(ctx, *a, ns) {
                Err(k) => Err(k),
                Ok(t1) => match type_of(ctx, *b, ns) {
                    Err(k) => Err(k),
                    Ok(t2) => infix_type(ctx, infix, t1, t2),
                },
            },
        },
        CondExpression::Lit(c) => match literal_type(ctx, c@, ns) {
            Ok(u) => Ok(TypeView::Atomic(u)),
            Err(k) => Err(k),
        },
        CondExpression::Attr(ad) => designator_type(ctx, ad.spec_name(), ns),
        CondExpression::Fn(call) => call_type(ctx, call.spec_name(), ns),
        CondExpression::FnRef(_) => Err(ErrorKind::AstConvertError),
        CondExpression::Empty => Err(ErrorKind::AstConvertError),
    }
}

/// The URI of the type of a literal, as `literal_type` states it.
pub fn resolve_literal_types(c: &Constant, source_ns: &[String], ctx: &Context) -> (r: Result<
    ResolvedAtomicName,
    ParseError,
>)
    ensures
        match literal_type(ctx.decls, c@, path_view(source_ns@)) {
            Ok(u) => r matches Ok(n) && n.uri@ == u,
            Err(k) => r matches Err(e) && e.spec_kind() == k,
        },
{
    match c {
        Constant::String(_) => Ok(ResolvedAtomicName { uri: STRING_URI.to_owned() }),
        Constant::Integer(_) => Ok(ResolvedAtomicName { uri: INTEGER_URI.to_owned() }),
        Constant::Double(_) => Ok(ResolvedAtomicName { uri: DOUBLE_URI.to_owned() }),
        Constant::Boolean(_) => Ok(ResolvedAtomicName { uri: BOOLEAN_URI.to_owned() }),
        Constant::Custom(ct, _) => {
            let uri = ctx.lookup_type_uri(ct.name.as_str(), source_ns)?;
            Ok(ResolvedAtomicName { uri })
        },
        Constant::Undefined => Err(ParseError::AstConvertError),
    }
}

/// The type that a function declares for its result, as `output_type`
/// states it. `source_ns` is the namespace of the function.
pub fn fn_output_to_resolved(fn_out: &FunctionOutputArg, source_ns: &[String], ctx: &Context) -> (r:
    Result<FunctionTypeResolved, ParseError>)
    ensures
        type_answers(r, output_type(ctx.decls, fn_out@, path_view(source_ns@))),
{
    match fn_out {
        FunctionOutputArg::Atomic(a) => {
            let uri = ctx.lookup_type_uri(a.as_str(), source_ns)?;
            Ok(FunctionTypeResolved::Atomic(ResolvedAtomicName { uri }))
        },
        FunctionOutputArg::AtomicBag(a) => {
            let uri = ctx.lookup_type_uri(a.as_str(), source_ns)?;
            Ok(FunctionTypeResolved::AtomicBag(ResolvedAtomicName { uri }))
        },
        FunctionOutputArg::AnyAtomicBag => Ok(FunctionTypeResolved::AnyAtomicBag),
        FunctionOutputArg::AnyAtomic => Ok(FunctionTypeResolved::AnyAtomic),
    }
}

/// Whether a signature whose operand types have the URIs `sig_first_type`
/// and `sig_second_type` fits operands of the types `first_arg_type` and
/// `second_arg_type`.
pub fn check_infix_sign_compat(
    first_arg_type: &FunctionTypeResolved,
    second_arg_type: &FunctionTypeResolved,
    sig_first_type: &str,
    sig_second_type: &str,
) -> (r: bool)
    ensures
        r == signature_fits(
            sig_first_type@,
            sig_second_type@,
            first_arg_type@,
            second_arg_type@,
        ),
{
    let first_ok = match first_arg_type {
        FunctionTypeResolved::Atomic(n) => same_text(n.uri.as_str(), sig_first_type),
        FunctionTypeResolved::AtomicBag(n) => same_text(n.uri.as_str(), sig_first_type),
        _ => false,
    };
    let second_ok = match second_arg_type {
        FunctionTypeResolved::Atomic(n) => same_text(n.uri.as_str(), sig_second_type),
        FunctionTypeResolved::AtomicBag(n) => same_text(n.uri.as_str(), sig_second_type),
        _ => false,
    };
    first_ok && second_ok
}

/// Finds the signature of `infix` for operands of the given types: the
/// first that fits, in the order of the declaration.
///
/// Fails with `InfixNoMatchingSignature` where none fits, and as the lookup
/// of a type fails that a signature names.
pub fn resolve_infix_signature<'a>(
    infix: &'a Infix,
    first_arg_type: &FunctionTypeResolved,
    second_arg_type: &FunctionTypeResolved,
    ctx: &Context,
) -> (r: Result<&'a InfixSignature, ParseError>)
    ensures
        match find_signature(
            ctx.decls,
            infix.signatures@,
            path_view(infix.ns@),
            first_arg_type@,
            second_arg_type@,
            0,
        ) {
            Ok(i) => r matches Ok(s) && 0 <= i < infix.signatures@.len() && *s
                == infix.signatures@[i],
            Err(k) => r matches Err(e) && e.spec_kind() == k,
        },
{
    let mut i: usize = 0;
    while i < infix.signatures.len()
        invariant
            i <= infix.signatures.len(),
            find_signature(
                ctx.decls,
                infix.signatures@,
                path_view(infix.ns@),
                first_arg_type@,
                second_arg_type@,
                0,
            ) == find_signature(
                ctx.decls,
                infix.signatures@,
                path_view(infix.ns@),
                first_arg_type@,
                second_arg_type@,
                i as int,
            ),
        decreases infix.signatures.len() - i,
    {
        let s = &infix.signatures[i];
        let first = ctx.lookup_type_uri(s.first_arg.as_str(), infix.ns.as_slice())?;
        let second = ctx.lookup_type_uri(s.second_arg.as_str(), infix.ns.as_slice())?;
        let _out = ctx.lookup_type_uri(s.output.as_str(), infix.ns.as_slice())?;
        if check_infix_sign_compat(
            first_arg_type,
            second_arg_type,
            first.as_str(),
            second.as_str(),
        ) {
            return Ok(s);
        }
        i = i + 1;
    }
    Err(ParseError::InfixNoMatchingSignature)
}

/// The signature of `infix` for operands of the given types, and the type
/// of the application: one value of the result type of that signature.
pub fn signature_and_type<'a>(
    infix: &'a Infix,
    first_arg_type: &FunctionTypeResolved,
    second_arg_type: &FunctionTypeResolved,
    ctx: &Context,
) -> (r: Result<(&'a InfixSignature, FunctionTypeResolved), ParseError>)
    ensures
        match infix_type(ctx.decls, *infix, first_arg_type@, second_arg_type@) {
            Ok(t) => {
                &&& r matches Ok(pair)
                &&& pair.1@ == t
                &&& find_signature(
                    ctx.decls,
                    infix.signatures@,
                    path_view(infix.ns@),
                    first_arg_type@,
                    second_arg_type@,
                    0,
                ) matches Ok(i)
                &&& *pair.0 == infix.signatures@[i]
            },
            Err(k) => r matches Err(e) && e.spec_kind() == k,
        },
{
    let sig = resolve_infix_signature(infix, first_arg_type, second_arg_type, ctx)?;
    let uri = ctx.lookup_type_uri(sig.output.as_str(), infix.ns.as_slice())?;
    Ok((sig, FunctionTypeResolved::Atomic(ResolvedAtomicName { uri })))
}

/// The type of the expression `e`, written in the namespace `source_ns`, as
/// `type_of` states it.
///
/// Fails as the lookup of a symbol fails; with `InfixNoMatchingSignature`
/// where no signature of an operator fits its operands; and with
/// `AstConvertError` for an expression that has no type: a function as an
/// argument, the empty expression, the undefined constant.
pub fn type_for_expr(e: &CondExpression, source_ns: &[String], ctx: &Context) -> (r: Result<
    FunctionTypeResolved,
    ParseError,
>)
    ensures
        type_answers(r, type_of(ctx.decls, *e, path_view(source_ns@))),
    decreases e,
{
    match e {
        CondExpression::Infix(e1, o, e2) => {
            let name = o.qualified_name();
            let infix = ctx.lookup_infix(name.as_str(), source_ns)?;
            let first_arg_type = type_for_expr(e1, source_ns, ctx)?;
            let second_arg_type = type_for_expr(e2, source_ns, ctx)?;
            let pair = signature_and_type(infix, &first_arg_type, &second_arg_type, ctx)?;
            Ok(pair.1)
        },
        CondExpression::Lit(c) => {
            let n = resolve_literal_types(c, source_ns, ctx)?;
            Ok(FunctionTypeResolved::Atomic(n))
        },
        CondExpression::Attr(ad) => designator_type_of(ad, source_ns, ctx),
        CondExpression::Fn(fn_call) => {
            let name = fn_call.fully_qualified_name();
            let func = ctx.lookup_function(name.as_str(), source_ns)?;
            fn_output_to_resolved(&func.output_arg, func.ns.as_slice(), ctx)
        },
        CondExpression::FnRef(_) => Err(ParseError::AstConvertError),
        CondExpression::Empty => Err(ParseError::AstConvertError),
    }
}

/// The type of an attribute designator, as `designator_type` states it.
pub fn designator_type_of(ad: &AttributeDesignator, source_ns: &[String], ctx: &Context) -> (r:
    Result<FunctionTypeResolved, ParseError>)
    ensures
        type_answers(r, designator_type(ctx.decls, ad.spec_name(), path_view(source_ns@))),
{
    let name = ad.fully_qualified_name();
    let attr = ctx.lookup_attribute(name.as_str(), source_ns)?;
    let uri = ctx.lookup_type_uri(attr.typedef.as_str(), attr.ns.as_slice())?;
    Ok(FunctionTypeResolved::AtomicBag(ResolvedAtomicName { uri }))
}

/// The signature of the operator `op` for the operands `arg1` and `arg2`,
/// and the type of the application: the first signature of the operator
/// that fits the types of the operands, and one value of its result type.
pub fn sig_and_type_for_infix<'a>(
    arg1: &CondExpression,
    op: &Operator,
    arg2: &CondExpression,
    source_ns: &[String],
    ctx: &'a Context,
) -> (r: Result<(&'a InfixSignature, FunctionTypeResolved), ParseError>)
    ensures
        match type_of(
            ctx.decls,
            CondExpression::Infix(Box::new(*arg1), *op, Box::new(*arg2)),
            path_view(source_ns@),
        ) {
            Ok(t) => {
                &&& r matches Ok(pair)
                &&& pair.1@ == t
                &&& ctx.decls.infix_at(op.spec_qualified_name(), path_view(source_ns@)) matches Ok(
                    infix,
                )
                &&& type_of(ctx.decls, *arg1, path_view(source_ns@)) matches Ok(t1)
                &&& type_of(ctx.decls, *arg2, path_view(source_ns@)) matches Ok(t2)
                &&& find_signature(
                    ctx.decls,
                    infix.signatures@,
                    path_view(infix.ns@),
                    t1,
                    t2,
                    0,
                ) matches Ok(i)
                &&& *pair.0 == infix.signatures@[i]
            },
            Err(k) => r matches Err(e) && e.spec_kind() == k,
        },
{
    let name = op.qualified_name();
    let infix = ctx.lookup_infix(name.as_str(), source_ns)?;
    let first_arg_type = type_for_expr(arg1, source_ns, ctx)?;
    let second_arg_type = type_for_expr(arg2, source_ns, ctx)?;
    signature_and_type(infix, &first_arg_type, &second_arg_type, ctx)
}

/// The application of the function of the signature `sig` to the operands
/// `args`, whose types are `t1` and `t2`. `ns` is the namespace of the
/// operator, and `allow_bags` whether the operator is declared to take
/// bags.
///
/// Where neither operand is a bag the function is applied to the operands.
/// XACML does not apply a function of two values to bags by itself. So
/// where an operand is a bag, the operator allows bags and the result of
/// the function is a boolean, `any-of-any` is applied to the function and
/// the operands, in their order. An operator that does not allow bags
/// fails with `InfixBagsDisallowed`, and one whose result is no boolean
/// with `InfixBagsBooleanRequired`.
pub open spec fn apply_of(
    ctx: Declarations,
    sig: SignatureView,
    args: Seq<XExprView>,
    t1: TypeView,
    t2: TypeView,
    allow_bags: bool,
    ns: Seq<Seq<char>>,
) -> Result<XExprView, ErrorKind> {
    match ctx.type_uri(sig.output, ns) {
        Err(k) => Err(k),
        Ok(out) => if !bag(t1) && !bag(t2) {
            Ok(
                XExprView::Apply(
                    XApplyView {
                        function_uri: sig.uri,
                        arguments: args,
                        return_type: TypeView::Atomic(out),
                    },
                ),
            )
        } else if allow_bags {
            if out == BOOLEAN_URI@ {
                Ok(
                    XExprView::Apply(
                        XApplyView {
                            function_uri: ANY_OF_ANY@,
                            arguments: seq![XExprView::Function(sig.uri)] + args,
                            return_type: TypeView::Atomic(out),
                        },
                    ),
                )
            } else {
                Err(ErrorKind::InfixBagsBooleanRequired)
            }
        } else {
            Err(ErrorKind::InfixBagsDisallowed)
        },
    }
}

/// The attribute designator of XACML for the designator `ad`: the URI of
/// the attribute, and the URIs of its category and type, both looked up
/// from the namespace of the attribute's declaration.
pub open spec fn designator_of(ctx: Declarations, ad: AttributeDesignator, ns: Seq<Seq<char>>) -> Result<
    DesignatorView,
    ErrorKind,
> {
    match ctx.attribute_at(ad.spec_name(), ns) {
        Err(k) => Err(k),
        Ok(attr) => match ctx.type_uri(attr.typedef@, path_view(attr.ns@)) {
            Err(k) => Err(k),
            Ok(type_uri) => match ctx.category_uri(attr.category@, path_view(attr.ns@)) {
                Err(k) => Err(k),
                Ok(category) => Ok(
                    DesignatorView {
                        uri: attr.uri@,
                        category,
                        type_uri,
                        must_be_present: ad.mustbepresent,
                        issuer: opt_view(ad.issuer),
                    },
                ),
            },
        },
    }
}

/// The expression of XACML for the expression `e`, written in the
/// namespace `ns`: every name replaced by its URI, and every operator by
/// the function of the signature that fits its operands.
pub open spec fn xexpr_of(ctx: Declarations, e: CondExpression, ns: Seq<Seq<char>>) -> Result<
    XExprView,
    ErrorKind,
>
    decreases e, 0nat,
{
    match e {
        CondExpression::Infix(a, op, b) => match ctx.infix_at(op.spec_qualified_name(), ns) {
            Err(k) => Err(k),
            Ok(infix) => match type_of(ctx, *a, ns) {
                Err(k) => Err(k),
                Ok(t1) => match type_of(ctx, *b, ns) {
                    Err(k) => Err(k),
                    Ok(t2) => match find_signature(
                        ctx,
                        infix.signatures@,
                        path_view(infix.ns@),
                        t1,
                        t2,
                        0,
                    ) {
                        Err(k) => Err(k),
                        Ok(i) => match xexpr_of(ctx, *a, ns) {
                            Err(k) => Err(k),
                            Ok(x1) => match xexpr_of(ctx, *b, ns) {
                                Err(k) => Err(k),
                                Ok(x2) => apply_of(
                                    ctx,
                                    infix.signatures@[i]@,
                                    seq![x1, x2],
                                    t1,
                                    t2,
                                    infix.allow_bags,
                                    path_view(infix.ns@),
                                ),
                            },
                        },
                    },
                },
            },
        },
        CondExpression::Lit(c) => match ctx.literal_of(c@, ns) {
            Ok(l) => Ok(XExprView::Value(l)),
            Err(k) => Err(k),
        },
        CondExpression::FnRef(fr) => match ctx.function_at(fr.spec_name(), ns) {
            Ok(f) => Ok(XExprView::Function(f.function_uri@)),
            Err(k) => Err(k),
        },
        CondExpression::Fn(fc) => match ctx.function_at(fc.spec_name(), ns) {
            Err(k) => Err(k),
            Ok(f) => match xargs_of(ctx, fc, ns, fc.arguments@.len()) {
                Err(k) => Err(k),
                Ok(args) => match output_type(ctx, f.output_arg@, path_view(f.ns@)) {
                    Err(k) => Err(k),
                    Ok(rt) => Ok(
                        XExprView::Apply(
                            XApplyView {
                                function_uri: f.function_uri@,
                                arguments: args,
                                return_type: rt,
                            },
                        ),
                    ),
                },
            },
        },
        CondExpression::Attr(a) => match designator_of(ctx, a, ns) {
            Ok(d) => Ok(XExprView::Attrib(d)),
            Err(k) => Err(k),
        },
        CondExpression::Empty => Err(ErrorKind::AstConvertError),
    }
}

/// The expressions of XACML for the first `n` arguments of `call`, in
/// their order, or the error of the first argument that has none.
pub open spec fn xargs_of(ctx: Declarations, call: CondFunctionCall, ns: Seq<Seq<char>>, n: nat) -> Result<
    Seq<XExprView>,
    ErrorKind,
>
    decreases call, n,
{
    if n == 0 || n > call.arguments@.len() {
        Ok(Seq::empty())
    } else {
        match xargs_of(ctx, call, ns, (n - 1) as nat) {
            Err(k) => Err(k),
            Ok(before) => match xexpr_of(ctx, call.arguments@[n - 1], ns) {
                Err(k) => Err(k),
                Ok(x) => Ok(before.push(x)),
            },
        }
    }
}

/// Once an argument has no expression, the arguments up to any later one
/// fail with the same error.
pub proof fn lemma_xargs_error(
    ctx: Declarations,
    call: CondFunctionCall,
    ns: Seq<Seq<char>>,
    n: nat,
    m: nat,
)
    requires
        n <= m <= call.arguments@.len(),
        xargs_of(ctx, call, ns, n) is Err,
    ensures
        xargs_of(ctx, call, ns, m) == xargs_of(ctx, call, ns, n),
    decreases m - n,
{
    if n < m {
        lemma_xargs_error(ctx, call, ns, n, (m - 1) as nat);
    }
}

/// The literal of XACML for the constant `c`.
pub fn handle_literal(c: &Constant, source_ns: &[String], ctx: &Context) -> (r: Result<
    XExpression,
    ParseError,
>)
    ensures
        expr_answers(
            r,
            match ctx.decls.literal_of(c@, path_view(source_ns@)) {
                Ok(l) => Ok(XExprView::Value(l)),
                Err(k) => Err(k),
            },
        ),
{
    let v = ctx.constant_to_typedliteral(c, source_ns)?;
    Ok(XExpression::Value(XAttrValue { v }))
}

/// The function of XACML for a function handed over as an argument.
pub fn handle_function_reference(fr: &FunctionReference, source_ns: &[String], ctx: &Context) -> (r:
    Result<XExpression, ParseError>)
    ensures
        expr_answers(
            r,
            match ctx.decls.function_at(fr.spec_name(), path_view(source_ns@)) {
                Ok(f) => Ok(XExprView::Function(f.function_uri@)),
                Err(k) => Err(k),
            },
        ),
{
    let name = fr.fully_qualified_name();
    let f = ctx.lookup_function(name.as_str(), source_ns)?;
    Ok(XExpression::Function(XFunction { function_uri: f.function_uri.clone() }))
}

/// The attribute designator of XACML for the designator `a`, as
/// `designator_of` states it.
pub fn resolve_designator(a: &AttributeDesignator, source_ns: &[String], ctx: &Context) -> (r:
    Result<XAttrDesignator, ParseError>)
    ensures
        match designator_of(ctx.decls, *a, path_view(source_ns@)) {
            Ok(d) => r matches Ok(x) && x@ == d,
            Err(k) => r matches Err(e) && e.spec_kind() == k,
        },
{
    let name = a.fully_qualified_name();
    let attr = ctx.lookup_attribute(name.as_str(), source_ns)?;
    let uri = attr.uri.clone();
    let type_uri = ctx.lookup_type_uri(attr.typedef.as_str(), attr.ns.as_slice())?;
    let category = ctx.lookup_category_uri(attr.category.as_str(), attr.ns.as_slice())?;
    Ok(
        XAttrDesignator {
            uri,
            category,
            type_uri,
            must_be_present: a.mustbepresent,
            issuer: clone_opt_string(&a.issuer),
        },
    )
}

/// The attribute designator of XACML for the designator `a`, as an
/// expression.
pub fn handle_attribute_designator(a: &AttributeDesignator, source_ns: &[String], ctx: &Context)
    -> (r: Result<XExpression, ParseError>)
    ensures
        expr_answers(
            r,
            match designator_of(ctx.decls, *a, path_view(source_ns@)) {
                Ok(d) => Ok(XExprView::Attrib(d)),
                Err(k) => Err(k),
            },
        ),
{
    let d = resolve_designator(a, source_ns, ctx)?;
    Ok(XExpression::Attrib(d))
}

/// Applies the function of the signature `sig` to the operands `args`, as
/// `apply_of` states it: directly where no operand is a bag, and through
/// `any-of-any` where one is.
pub fn create_infix_apply(
    sig: &InfixSignature,
    args: Vec<XExpression>,
    first_arg_type: &FunctionTypeResolved,
    second_arg_type: &FunctionTypeResolved,
    infix: &Infix,
    ctx: &Context,
) -> (r: Result<XExpression, ParseError>)
    ensures
        expr_answers(
            r,
            apply_of(
                ctx.decls,
                sig@,
                xexprs_view(args@),
                first_arg_type@,
                second_arg_type@,
                infix.allow_bags,
                path_view(infix.ns@),
            ),
        ),
{
    let is_arg_1_bag = first_arg_type.is_bag();
    let is_arg_2_bag = second_arg_type.is_bag();
    let out = ctx.lookup_type_uri(sig.output.as_str(), infix.ns.as_slice())?;
    if !is_arg_1_bag && !is_arg_2_bag {
        let a = XApply {
            function_uri: sig.uri.clone(),
            arguments: args,
            return_type: FunctionTypeResolved::Atomic(ResolvedAtomicName { uri: out }),
        };
        proof {
            lemma_apply_view(a);
        }
        return Ok(XExpression::Apply(a));
    }
    if infix.allow_bags {
        if same_text(out.as_str(), BOOLEAN_URI) {
            let function_arg = XExpression::Function(XFunction { function_uri: sig.uri.clone() });
            let mut bag_args: Vec<XExpression> = Vec::new();
            bag_args.push(function_arg);
            let mut args = args;
            let ghost operands = xexprs_view(args@);
            bag_args.append(&mut args);
            let a = XApply {
                function_uri: ANY_OF_ANY.to_owned(),
                arguments: bag_args,
                return_type: FunctionTypeResolved::Atomic(ResolvedAtomicName { uri: out }),
            };
            proof {
                lemma_apply_view(a);
                assert(xexprs_view(a.arguments@) =~= seq![XExprView::Function(sig.uri@)]
                    + operands);
            }
            Ok(XExpression::Apply(a))
        } else {
            Err(ParseError::InfixBagsBooleanRequired)
        }
    } else {
        Err(ParseError::InfixBagsDisallowed)
    }
}

/// The expression of XACML for the expression `e`, written in the
/// namespace `source_ns`, as `xexpr_of` states it.
///
/// Fails as the lookup of a symbol fails; with `InfixNoMatchingSignature`,
/// `InfixBagsDisallowed` or `InfixBagsBooleanRequired` where an operator
/// does not take its operands; and with `AstConvertError` for the empty
/// expression, the undefined constant and an operand without a type.
#[verifier::loop_isolation(false)]
pub fn expr_to_xexpr(e: &CondExpression, source_ns: &[String], ctx: &Context) -> (r: Result<
    XExpression,
    ParseError,
>)
    ensures
        expr_answers(r, xexpr_of(ctx.decls, *e, path_view(source_ns@))),
    decreases e,
{
    match e {
        CondExpression::Infix(ce1, o, ce2) => {
            let name = o.qualified_name();
            let infix = ctx.lookup_infix(name.as_str(), source_ns)?;
            let first_arg_type = type_for_expr(ce1, source_ns, ctx)?;
            let second_arg_type = type_for_expr(ce2, source_ns, ctx)?;
            let sig = resolve_infix_signature(infix, &first_arg_type, &second_arg_type, ctx)?;
            let x1 = expr_to_xexpr(ce1, source_ns, ctx)?;
            let x2 = expr_to_xexpr(ce2, source_ns, ctx)?;
            let mut args: Vec<XExpression> = Vec::new();
            args.push(x1);
            args.push(x2);
            proof {
                assert(xexprs_view(args@) =~= seq![x1@, x2@]);
            }
            create_infix_apply(sig, args, &first_arg_type, &second_arg_type, infix, ctx)
        },
        CondExpression::Lit(c) => handle_literal(c, source_ns, ctx),
        CondExpression::FnRef(fr) => handle_function_reference(fr, source_ns, ctx),
        CondExpression::Fn(fc) => {
            let name = fc.fully_qualified_name();
            let func = ctx.lookup_function(name.as_str(), source_ns)?;
            let mut args: Vec<XExpression> = Vec::new();
            let mut i: usize = 0;
            proof {
                assert(xexprs_view(args@) =~= Seq::<XExprView>::empty());
            }
            while i < fc.arguments.len()
                invariant
                    i <= fc.arguments.len(),
                    xargs_of(ctx.decls, *fc, path_view(source_ns@), i as nat) == Ok::<
                        Seq<XExprView>,
                        ErrorKind,
                    >(xexprs_view(args@)),
                decreases fc.arguments.len() - i,
            {
                proof {
                    assert(decreases_to!(e => fc.arguments@[i as int]));
                }
                let ghost before = xexprs_view(args@);
                let converted = expr_to_xexpr(&fc.arguments[i], source_ns, ctx);
                let x = match converted {
                    Ok(x) => x,
                    Err(err) => {
                        proof {
                            lemma_xargs_error(
                                ctx.decls,
                                *fc,
                                path_view(source_ns@),
                                (i + 1) as nat,
                                fc.arguments@.len(),
                            );
                        }
                        return Err(err);
                    },
                };
                args.push(x);
                proof {
                    assert(xexprs_view(args@) =~= before.push(x@));
                }
                i = i + 1;
            }
            let return_type = fn_output_to_resolved(&func.output_arg, func.ns.as_slice(), ctx)?;
            let a = XApply { function_uri: func.function_uri.clone(), arguments: args, return_type };
            proof {
                lemma_apply_view(a);
            }
            Ok(XExpression::Apply(a))
        },
        CondExpression::Attr(a) => handle_attribute_designator(a, source_ns, ctx),
        CondExpression::Empty => Err(ParseError::AstConvertError),
    }
}

/// The condition of XACML for the condition `c`, or the kind of the error.
///
/// The type of a condition is exactly one boolean. A bag, a value of any
/// type, a value of another type and an expression that has no type all
/// fail with `ConditionBooleanRequired`.
pub open spec fn condition_of(ctx: Declarations, c: Condition) -> Result<XExprView, ErrorKind> {
    match type_of(ctx, c.cond_expr, path_view(c.ns@)) {
        Ok(TypeView::Atomic(u)) => if u == BOOLEAN_URI@ {
            xexpr_of(ctx, c.cond_expr, path_view(c.ns@))
        } else {
            Err(ErrorKind::ConditionBooleanRequired)
        },
        _ => Err(ErrorKind::ConditionBooleanRequired),
    }
}

impl XCondition {
    /// The condition of XACML for the condition `c`, as `condition_of`
    /// states it. An error of the kind `ConditionBooleanRequired` points at
    /// the condition.
    pub fn try_from(c: &Condition, ctx: &Context) -> (r: Result<Self, ParseError>)
        ensures
            match condition_of(ctx.decls, *c) {
                Ok(v) => r matches Ok(x) && x.expr@ == v,
                Err(k) => r matches Err(e) && e.spec_kind() == k,
            },
            r matches Err(ParseError::ConditionBooleanRequired(e)) ==> e.src_loc@ == c.src_loc@,
    {
        let t = type_for_expr(&c.cond_expr, c.ns.as_slice(), ctx);
        let boolean = match &t {
            Ok(FunctionTypeResolved::Atomic(n)) => same_text(n.uri.as_str(), BOOLEAN_URI),
            _ => false,
        };
        if !boolean {
            let label = match &t {
                Ok(FunctionTypeResolved::Atomic(_)) => "type is not boolean",
                _ => "non-atomic type",
            };
            return Err(
                ParseError::ConditionBooleanRequired(
                    SrcError::new(
                        "Conditions must evaluate to atomic booleans",
                        label,
                        c.src_loc.clone(),
                    ),
                ),
            );
        }
        match expr_to_xexpr(&c.cond_expr, c.ns.as_slice(), ctx) {
            Ok(expr) => Ok(XCondition { expr }),
            Err(ParseError::ConditionBooleanRequired(inner)) => Err(
                ParseError::ConditionBooleanRequired(
                    SrcError::new(inner.msg.as_str(), inner.label.as_str(), c.src_loc.clone()),
                ),
            ),
            Err(other) => Err(other),
        }
    }
}

/// Bag lifting: for an operator that allows bags and a signature whose
/// result is a boolean, operands of which one is a bag are handed to
/// `any-of-any`, behind the function of the signature and in their order.
pub proof fn lemma_bag_lifting(
    ctx: Declarations,
    sig: SignatureView,
    args: Seq<XExprView>,
    t1: TypeView,
    t2: TypeView,
    ns: Seq<Seq<char>>,
)
    requires
        bag(t1) || bag(t2),
        ctx.type_uri(sig.output, ns) == Ok::<Seq<char>, ErrorKind>(BOOLEAN_URI@),
    ensures
        apply_of(ctx, sig, args, t1, t2, true, ns) == Ok::<XExprView, ErrorKind>(
            XExprView::Apply(
                XApplyView {
                    function_uri: ANY_OF_ANY@,
                    arguments: seq![XExprView::Function(sig.uri)] + args,
                    return_type: TypeView::Atomic(BOOLEAN_URI@),
                },
            ),
        ),
        apply_of(ctx, sig, args, t1, t2, false, ns) == Err::<XExprView, ErrorKind>(
            ErrorKind::InfixBagsDisallowed,
        ),
{
}

/// A bag operand for an operator that allows bags but whose result is no
/// boolean fails with `InfixBagsBooleanRequired`.
pub proof fn lemma_bags_need_boolean(
    ctx: Declarations,
    sig: SignatureView,
    args: Seq<XExprView>,
    t1: TypeView,
    t2: TypeView,
    ns: Seq<Seq<char>>,
)
    requires
        bag(t1) || bag(t2),
        ctx.type_uri(sig.output, ns) matches Ok(out) && out != BOOLEAN_URI@,
    ensures
        apply_of(ctx, sig, args, t1, t2, true, ns) == Err::<XExprView, ErrorKind>(
            ErrorKind::InfixBagsBooleanRequired,
        ),
{
}

/// A condition is a boolean: an expression whose type is not exactly one
/// boolean is no condition, whatever it is worth as an operand elsewhere.
pub proof fn lemma_condition_is_boolean(ctx: Declarations, c: Condition)
    requires
        type_of(ctx, c.cond_expr, path_view(c.ns@)) != Ok::<TypeView, ErrorKind>(
            TypeView::Atomic(BOOLEAN_URI@),
        ),
    ensures
        condition_of(ctx, c) == Err::<XExprView, ErrorKind>(ErrorKind::ConditionBooleanRequired),
{
}

/// A literal that is no boolean, and every attribute designator, has a
/// type that is not one boolean: neither is a condition by itself.
pub proof fn lemma_literals_and_bags_are_no_conditions(ctx: Declarations, c: Condition)
    requires
        c.cond_expr is Attr || (c.cond_expr matches CondExpression::Lit(l) && !(l is Boolean)
            && !(l is Custom)),
    ensures
        condition_of(ctx, c) == Err::<XExprView, ErrorKind>(ErrorKind::ConditionBooleanRequired),
{
    reveal_strlit("http://www.w3.org/2001/XMLSchema#boolean");
    reveal_strlit("http://www.w3.org/2001/XMLSchema#string");
    reveal_strlit("http://www.w3.org/2001/XMLSchema#integer");
    reveal_strlit("http://www.w3.org/2001/XMLSchema#double");
    match c.cond_expr {
        CondExpression::Lit(l) => {
            match l {
                Constant::String(_) => {
                    assert(STRING_URI@[33] != BOOLEAN_URI@[33]);
                },
                Constant::Integer(_) => {
                    assert(INTEGER_URI@[33] != BOOLEAN_URI@[33]);
                },
                Constant::Double(_) => {
                    assert(DOUBLE_URI@[33] != BOOLEAN_URI@[33]);
                },
                _ => {},
            }
        },
        _ => {},
    }
}

/// Two expressions that hold the same have the same type.
pub proof fn lemma_type_same(ctx: Declarations, a: CondExpression, b: CondExpression, ns: Seq<Seq<char>>)
    requires
        a@ == b@,
    ensures
        type_of(ctx, a, ns) == type_of(ctx, b, ns),
    decreases a,
{
    match a {
        CondExpression::Infix(a1, op, a2) => {
            assert(b is Infix);
            let b1 = b->Infix_0;
            let oq = b->Infix_1;
            let b2 = b->Infix_2;
            assert(crate::ast::condition::operator_view(op)
                == crate::ast::condition::operator_view(oq));
            assert(path_view(op.ns@).len() == path_view(oq.ns@).len());
            assert(op.spec_qualified_name() == oq.spec_qualified_name());
            lemma_type_same(ctx, *a1, *b1, ns);
            lemma_type_same(ctx, *a2, *b2, ns);
        },
        CondExpression::Fn(f) => {
            assert(b is Fn);
        },
        CondExpression::Attr(d) => {
            assert(b is Attr);
            let e = b->Attr_0;
            assert(crate::ast::condition::attribute_view(d)
                == crate::ast::condition::attribute_view(e));
        },
        CondExpression::FnRef(_) => {
            assert(b is FnRef);
        },
        CondExpression::Lit(c) => {
            assert(b is Lit);
        },
        CondExpression::Empty => {
            assert(b is Empty);
        },
    }
}

/// Two expressions that hold the same stand for the same expression of
/// XACML.
pub proof fn lemma_xexpr_same(
    ctx: Declarations,
    a: CondExpression,
    b: CondExpression,
    ns: Seq<Seq<char>>,
)
    requires
        a@ == b@,
    ensures
        xexpr_of(ctx, a, ns) == xexpr_of(ctx, b, ns),
    decreases a, 0nat,
{
    match a {
        CondExpression::Infix(a1, op, a2) => {
            assert(b is Infix);
            let b1 = b->Infix_0;
            let oq = b->Infix_1;
            let b2 = b->Infix_2;
            assert(crate::ast::condition::operator_view(op)
                == crate::ast::condition::operator_view(oq));
            assert(path_view(op.ns@).len() == path_view(oq.ns@).len());
            assert(op.spec_qualified_name() == oq.spec_qualified_name());
            lemma_type_same(ctx, *a1, *b1, ns);
            lemma_type_same(ctx, *a2, *b2, ns);
            lemma_xexpr_same(ctx, *a1, *b1, ns);
            lemma_xexpr_same(ctx, *a2, *b2, ns);
        },
        CondExpression::Fn(f) => {
            assert(b is Fn);
            let g = b->Fn_0;
            crate::ast::condition::lemma_call_view(f);
            crate::ast::condition::lemma_call_view(g);
            assert(path_view(f.identifier@) == path_view(g.identifier@));
            assert(crate::ast::condition::exprs_view(f.arguments@)
                == crate::ast::condition::exprs_view(g.arguments@));
            assert(crate::ast::condition::exprs_view(f.arguments@).len() == f.arguments@.len());
            assert(crate::ast::condition::exprs_view(g.arguments@).len() == g.arguments@.len());
            assert(f.spec_name() == g.spec_name());
            lemma_xargs_same(ctx, f, g, ns, f.arguments@.len());
        },
        CondExpression::Attr(d) => {
            assert(b is Attr);
            let e = b->Attr_0;
            assert(crate::ast::condition::attribute_view(d)
                == crate::ast::condition::attribute_view(e));
            assert(d.spec_name() == e.spec_name());
        },
        CondExpression::FnRef(f) => {
            assert(b is FnRef);
            let g = b->FnRef_0;
            assert(path_view(f.identifier@) == path_view(g.identifier@));
            assert(f.spec_name() == g.spec_name());
        },
        CondExpression::Lit(c) => {
            assert(b is Lit);
            let d = b->Lit_0;
            assert(c@ == d@);
        },
        CondExpression::Empty => {
            assert(b is Empty);
        },
    }
}

/// Two applications that hold the same stand for the same arguments of
/// XACML.
pub proof fn lemma_xargs_same(
    ctx: Declarations,
    f: CondFunctionCall,
    g: CondFunctionCall,
    ns: Seq<Seq<char>>,
    n: nat,
)
    requires
        path_view(f.identifier@) == path_view(g.identifier@),
        crate::ast::condition::exprs_view(f.arguments@) == crate::ast::condition::exprs_view(
            g.arguments@,
        ),
    ensures
        xargs_of(ctx, f, ns, n) == xargs_of(ctx, g, ns, n),
    decreases f, n,
{
    let va = crate::ast::condition::exprs_view(f.arguments@);
    let vb = crate::ast::condition::exprs_view(g.arguments@);
    assert(va.len() == f.arguments@.len());
    assert(vb.len() == g.arguments@.len());
    if n > 0 && n <= f.arguments@.len() {
        lemma_xargs_same(ctx, f, g, ns, (n - 1) as nat);
        assert(va[n - 1] == f.arguments@[n - 1]@);
        assert(vb[n - 1] == g.arguments@[n - 1]@);
        lemma_xexpr_same(ctx, f.arguments@[n - 1], g.arguments@[n - 1], ns);
    }
}

/// Two conditions that hold the same stand for the same condition of
/// XACML.
pub proof fn lemma_condition_same(ctx: Declarations, a: Condition, b: Condition)
    requires
        a@ == b@,
    ensures
        condition_of(ctx, a) == condition_of(ctx, b),
{
    lemma_type_same(ctx, a.cond_expr, b.cond_expr, path_view(a.ns@));
    lemma_xexpr_same(ctx, a.cond_expr, b.cond_expr, path_view(a.ns@));
}

} // verus!
