//! Conditions and their expressions.

use crate::ast::constant::Constant;
use crate::ast::designator::AttributeDesignator;
use crate::ast::operator::Operator;
use crate::ast::constant::ConstantView;
use crate::ast::Spanned;
use crate::errors::{ParseError, SrcLoc};
use crate::text::{clone_strings, join, join_strings, opt_view, path_view};
use vstd::prelude::*;
use vstd::string::*;

verus! {

/// A condition: an expression that must be true.
#[derive(Debug, Default, PartialEq, Eq)]
pub struct Condition {
    /// The expression, with the operators applied in their precedence.
    pub cond_expr: CondExpression,
    /// The namespace in which the condition is written.
    pub ns: Vec<String>,
    /// Where the condition stands in the source.
    pub src_loc: SrcLoc,
}

impl Spanned for Condition {
    open spec fn spec_span(&self) -> SrcLoc {
        self.src_loc
    }

    fn span(&self) -> (r: &SrcLoc) {
        &self.src_loc
    }
}

/// An expression of a condition.
#[derive(Debug, Default, PartialEq, Eq)]
pub enum CondExpression {
    /// Two operands with an operator between them.
    Infix(Box<CondExpression>, Operator, Box<CondExpression>),
    /// The application of a function.
    Fn(CondFunctionCall),
    /// An attribute of the request.
    Attr(AttributeDesignator),
    /// A function handed over as an argument.
    FnRef(FunctionReference),
    /// A literal.
    Lit(Constant),
    /// The place of an expression that is not there.
    #[default]
    Empty,
}

/// The application of a function to arguments.
#[derive(Debug, Default, PartialEq, Eq)]
pub struct CondFunctionCall {
    /// The function's name as written, split at the dots.
    pub identifier: Vec<String>,
    /// The arguments in order.
    pub arguments: Vec<CondExpression>,
}

/// What an operator holds.
pub ghost struct OperatorView {
    pub ns: Seq<Seq<char>>,
    pub operator: Seq<char>,
}

/// What an attribute designator holds.
pub ghost struct AttributeView {
    pub attribute: Seq<Seq<char>>,
    pub issuer: Option<Seq<char>>,
    pub mustbepresent: bool,
}

/// What an expression holds.
pub ghost enum ExprView {
    Infix(Box<ExprView>, OperatorView, Box<ExprView>),
    Fn(Seq<Seq<char>>, Seq<ExprView>),
    Attr(AttributeView),
    FnRef(Seq<Seq<char>>),
    Lit(ConstantView),
    Empty,
}

/// What the operator `o` holds.
pub open spec fn operator_view(o: Operator) -> OperatorView {
    OperatorView { ns: path_view(o.ns@), operator: o.operator@ }
}

/// What the attribute designator `a` holds.
pub open spec fn attribute_view(a: AttributeDesignator) -> AttributeView {
    AttributeView {
        attribute: path_view(a.attribute@),
        issuer: opt_view(a.issuer),
        mustbepresent: a.mustbepresent,
    }
}

/// What the expression `e` holds.
pub open spec fn expr_view(e: CondExpression) -> ExprView
    decreases e,
{
    match e {
        CondExpression::Infix(a, op, b) => ExprView::Infix(
            Box::new(expr_view(*a)),
            operator_view(op),
            Box::new(expr_view(*b)),
        ),
        CondExpression::Fn(f) => ExprView::Fn(
            path_view(f.identifier@),
            Seq::new(
                f.arguments@.len(),
                |i: int|
                    if 0 <= i < f.arguments@.len() {
                        expr_view(f.arguments@[i])
                    } else {
                        ExprView::Empty
                    },
            ),
        ),
        CondExpression::Attr(a) => ExprView::Attr(attribute_view(a)),
        CondExpression::FnRef(f) => ExprView::FnRef(path_view(f.identifier@)),
        CondExpression::Lit(c) => ExprView::Lit(c@),
        CondExpression::Empty => ExprView::Empty,
    }
}

impl View for CondExpression {
    type V = ExprView;

    open spec fn view(&self) -> ExprView {
        expr_view(*self)
    }
}

/// What each of the expressions `v` holds.
pub open spec fn exprs_view(v: Seq<CondExpression>) -> Seq<ExprView> {
    Seq::new(v.len(), |i: int| v[i]@)
}

/// The view of an application is made of the views of its arguments.
pub proof fn lemma_call_view(f: CondFunctionCall)
    ensures
        CondExpression::Fn(f)@ == ExprView::Fn(path_view(f.identifier@), exprs_view(f.arguments@)),
{
    assert(expr_view(CondExpression::Fn(f))->Fn_1 =~= exprs_view(f.arguments@));
}

/// What a condition holds.
pub ghost struct ConditionView {
    pub cond_expr: ExprView,
    pub ns: Seq<Seq<char>>,
    pub src_loc: crate::errors::SrcLocView,
}

impl View for Condition {
    type V = ConditionView;

    open spec fn view(&self) -> ConditionView {
        ConditionView {
            cond_expr: self.cond_expr@,
            ns: path_view(self.ns@),
            src_loc: self.src_loc@,
        }
    }
}

impl Clone for Condition {
    fn clone(&self) -> (r: Self)
        ensures
            r@ == self@,
    {
        Condition {
            cond_expr: self.cond_expr.clone(),
            ns: clone_strings(self.ns.as_slice()),
            src_loc: self.src_loc.clone(),
        }
    }
}

impl Clone for CondExpression {
    #[verifier::loop_isolation(false)]
    fn clone(&self) -> (r: Self)
        ensures
            r@ == self@,
        decreases self,
    {
        match self {
            CondExpression::Infix(a, op, b) => {
                let x: &CondExpression = a;
                let y: &CondExpression = b;
                CondExpression::Infix(Box::new(x.clone()), op.clone(), Box::new(y.clone()))
            },
            CondExpression::Fn(f) => {
                let mut args: Vec<CondExpression> = Vec::new();
                let mut i: usize = 0;
                while i < f.arguments.len()
                    invariant
                        i <= f.arguments.len(),
                        args@.len() == i,
                        forall|j: int| 0 <= j < i ==> args@[j]@ == f.arguments@[j]@,
                    decreases f.arguments.len() - i,
                {
                    proof {
                        assert(decreases_to!(self => f.arguments[i as int]));
                    }
                    args.push(f.arguments[i].clone());
                    i = i + 1;
                }
                let copy = CondFunctionCall {
                    identifier: clone_strings(f.identifier.as_slice()),
                    arguments: args,
                };
                proof {
                    lemma_call_view(copy);
                    lemma_call_view(*f);
                    assert(exprs_view(copy.arguments@) =~= exprs_view(f.arguments@));
                }
                CondExpression::Fn(copy)
            },
            CondExpression::Attr(a) => CondExpression::Attr(a.clone()),
            CondExpression::FnRef(f) => CondExpression::FnRef(f.clone()),
            CondExpression::Lit(c) => CondExpression::Lit(c.clone()),
            CondExpression::Empty => CondExpression::Empty,
        }
    }
}

impl CondFunctionCall {
    /// The function's name as written, with dots.
    pub open spec fn spec_name(&self) -> Seq<char> {
        join(path_view(self.identifier@), "."@)
    }

    /// The function's name as written, with dots.
    pub fn fully_qualified_name(&self) -> (r: String)
        ensures
            r@ == self.spec_name(),
    {
        join_strings(self.identifier.as_slice(), ".")
    }
}

/// A condition whose expression is still a flat list of operands and
/// operators.
#[derive(Debug, Default, PartialEq, Eq)]
pub struct ConditionUnparsed {
    /// The expression as a list of items.
    pub cond_expr: CondExpressionUnparsed,
    /// The namespace in which the condition is written.
    pub ns: Vec<String>,
    /// Where the condition stands in the source.
    pub src_loc: SrcLoc,
}

/// An expression as it was written: operands and operators in a row.
#[derive(Debug, Default, PartialEq, Eq)]
pub struct CondExpressionUnparsed {
    pub items: Vec<CondItemUnparsed>,
}

/// An operand or an operator of an expression as written.
#[derive(Debug, Default, PartialEq, Eq)]
pub enum CondItemUnparsed {
    Atom(CondAtomUnparsed),
    Op(Operator),
    #[default]
    Empty,
}

/// An operand of an expression as written.
#[derive(Debug, Default, PartialEq, Eq)]
pub enum CondAtomUnparsed {
    /// An expression in parentheses.
    Expr(CondExpressionUnparsed),
    Fn(CondFunctionCallUnparsed),
    Attr(AttributeDesignator),
    FnRef(FunctionReference),
    Lit(Constant),
    #[default]
    Empty,
}

/// The application of a function to arguments as written.
#[derive(Debug, Default, PartialEq, Eq)]
pub struct CondFunctionCallUnparsed {
    /// The function's name as written, split at the dots.
    pub identifier: Vec<String>,
    /// The arguments in order.
    pub arguments: Vec<CondExpressionUnparsed>,
}

/// A function handed over as an argument.
#[derive(Debug, Default, PartialEq, Eq)]
pub struct FunctionReference {
    /// The function's name as written, split at the dots.
    pub identifier: Vec<String>,
}

impl FunctionReference {
    /// The function's name as written, with dots.
    pub open spec fn spec_name(&self) -> Seq<char> {
        join(path_view(self.identifier@), "."@)
    }

    /// The function's name as written, with dots.
    pub fn fully_qualified_name(&self) -> (r: String)
        ensures
            r@ == self.spec_name(),
    {
        join_strings(self.identifier.as_slice(), ".")
    }
}

impl Clone for FunctionReference {
    fn clone(&self) -> (r: Self)
        ensures
            path_view(r.identifier@) == path_view(self.identifier@),
    {
        FunctionReference { identifier: clone_strings(self.identifier.as_slice()) }
    }
}

/// How strongly an operator binds what stands to its left and to its
/// right. The first character of the operator decides; the larger number
/// lies on the side to which operators of the same strength are grouped.
pub open spec fn binding_power(symbol: Seq<char>) -> (u8, u8) {
    if symbol.len() == 0 {
        (0, 0)
    } else {
        let c = symbol[0];
        if c == '|' {
            (12, 11)
        } else if c == '&' {
            (10, 9)
        } else if c == '=' || c == '<' || c == '>' || c == '$' {
            (7, 8)
        } else if c == '@' || c == '^' {
            (6, 5)
        } else if c == '+' || c == '-' {
            (3, 4)
        } else if c == '*' || c == '/' || c == '%' {
            (1, 2)
        } else {
            (0, 0)
        }
    }
}

/// The binding power of the operator `symbol`, as `binding_power` states
/// it.
pub fn operator_bp(symbol: &str) -> (r: (u8, u8))
    ensures
        r == binding_power(symbol@),
{
    if symbol.unicode_len() == 0 {
        return (0, 0);
    }
    let c = symbol.get_char(0);
    if c == '|' {
        (12, 11)
    } else if c == '&' {
        (10, 9)
    } else if c == '=' || c == '<' || c == '>' || c == '$' {
        (7, 8)
    } else if c == '@' || c == '^' {
        (6, 5)
    } else if c == '+' || c == '-' {
        (3, 4)
    } else if c == '*' || c == '/' || c == '%' {
        (1, 2)
    } else {
        (0, 0)
    }
}

/// The expression that an operand as written stands for; nothing where an
/// expression inside it is not well formed.
pub open spec fn atom_view(a: CondAtomUnparsed) -> Option<ExprView>
    decreases a, 0nat, 0nat,
{
    match a {
        CondAtomUnparsed::Expr(e) => match parse_expr(e.items@, 0, 0) {
            Some(done) => Some(done.0),
            None => None,
        },
        CondAtomUnparsed::Fn(f) => match call_args_view(f, f.arguments@.len()) {
            Some(args) => Some(ExprView::Fn(path_view(f.identifier@), args)),
            None => None,
        },
        CondAtomUnparsed::Attr(a) => Some(ExprView::Attr(attribute_view(a))),
        CondAtomUnparsed::FnRef(f) => Some(ExprView::FnRef(path_view(f.identifier@))),
        CondAtomUnparsed::Lit(c) => Some(ExprView::Lit(c@)),
        CondAtomUnparsed::Empty => Some(ExprView::Empty),
    }
}

/// The expressions that the first `n` arguments of a call as written stand
/// for; nothing where one of them is not well formed.
pub open spec fn call_args_view(f: CondFunctionCallUnparsed, n: nat) -> Option<Seq<ExprView>>
    decreases f, n, 0nat,
{
    if n == 0 || n > f.arguments@.len() {
        Some(Seq::empty())
    } else {
        match call_args_view(f, (n - 1) as nat) {
            None => None,
            Some(before) => match parse_expr(f.arguments@[n - 1].items@, 0, 0) {
                Some(done) => Some(before.push(done.0)),
                None => None,
            },
        }
    }
}

/// The expression that starts at the item `pos`, and the position behind
/// it: an operand, and then the operators that bind at least as strongly
/// as `min`, each with the expression to its right. Nothing where no
/// operand stands at `pos`, or where what follows is not well formed.
pub open spec fn parse_expr(items: Seq<CondItemUnparsed>, pos: int, min: int) -> Option<
    (ExprView, int),
>
    decreases items, items.len() - pos, 1nat,
{
    if pos < 0 || pos >= items.len() {
        None
    } else {
        match items[pos] {
            CondItemUnparsed::Atom(a) => match atom_view(a) {
                Some(lhs) => parse_tail(items, lhs, pos + 1, min),
                None => None,
            },
            _ => None,
        }
    }
}

/// The expression that `lhs` grows into with the operators from the item
/// `pos` on, and the position behind it. An operator that binds less
/// strongly than `min` ends the expression, and so does the end of the
/// items; an operand where an operator is due is not well formed.
pub open spec fn parse_tail(items: Seq<CondItemUnparsed>, lhs: ExprView, pos: int, min: int) -> Option<
    (ExprView, int),
>
    decreases items, items.len() - pos, 0nat,
{
    if pos < 0 || pos >= items.len() {
        Some((lhs, pos))
    } else {
        match items[pos] {
            CondItemUnparsed::Op(op) => {
                let bp = binding_power(op.operator@);
                if bp.0 < min {
                    Some((lhs, pos))
                } else {
                    match parse_expr(items, pos + 1, bp.1 as int) {
                        None => None,
                        Some(right) => if pos < right.1 <= items.len() {
                            parse_tail(
                                items,
                                ExprView::Infix(
                                    Box::new(lhs),
                                    operator_view(op),
                                    Box::new(right.0),
                                ),
                                right.1,
                                min,
                            )
                        } else {
                            None
                        },
                    }
                }
            },
            _ => None,
        }
    }
}

/// The expression that an operand as written stands for, as `atom_view`
/// states it. What is not well formed fails with `AstConvertError`.
#[verifier::loop_isolation(false)]
pub fn atom_to_expression(c: &CondAtomUnparsed) -> (r: Result<CondExpression, ParseError>)
    ensures
        match atom_view(*c) {
            Some(v) => r matches Ok(e) && e@ == v,
            None => r == Err::<CondExpression, ParseError>(ParseError::AstConvertError),
        },
    decreases c, 0nat, 0nat,
{
    match c {
        CondAtomUnparsed::Expr(e) => {
            let done = expr_bp(&e.items, 0, 0)?;
            Ok(done.0)
        },
        CondAtomUnparsed::Fn(f) => {
            let mut args: Vec<CondExpression> = Vec::new();
            let mut i: usize = 0;
            proof {
                assert(exprs_view(args@) =~= Seq::<ExprView>::empty());
            }
            while i < f.arguments.len()
                invariant
                    i <= f.arguments.len(),
                    call_args_view(*f, i as nat) == Some(exprs_view(args@)),
                decreases f.arguments.len() - i,
            {
                proof {
                    assert(decreases_to!(c => f.arguments@[i as int].items@));
                }
                let ghost before = exprs_view(args@);
                let done = match expr_bp(&f.arguments[i].items, 0, 0) {
                    Ok(done) => done,
                    Err(err) => {
                        proof {
                            lemma_call_args_error(*f, (i + 1) as nat, f.arguments@.len());
                        }
                        return Err(err);
                    },
                };
                args.push(done.0);
                proof {
                    assert(exprs_view(args@) =~= before.push(done.0@));
                }
                i = i + 1;
            }
            let call = CondFunctionCall {
                identifier: clone_strings(f.identifier.as_slice()),
                arguments: args,
            };
            proof {
                lemma_call_view(call);
            }
            Ok(CondExpression::Fn(call))
        },
        CondAtomUnparsed::Attr(a) => Ok(CondExpression::Attr(a.clone())),
        CondAtomUnparsed::Lit(l) => Ok(CondExpression::Lit(l.clone())),
        CondAtomUnparsed::FnRef(f) => Ok(CondExpression::FnRef(f.clone())),
        CondAtomUnparsed::Empty => Ok(CondExpression::Empty),
    }
}

/// Once an argument is not well formed, the arguments up to any later one
/// are not.
pub proof fn lemma_call_args_error(f: CondFunctionCallUnparsed, n: nat, m: nat)
    requires
        n <= m <= f.arguments@.len(),
        call_args_view(f, n) is None,
    ensures
        call_args_view(f, m) is None,
    decreases m - n,
{
    if n < m {
        lemma_call_args_error(f, n, (m - 1) as nat);
    }
}

/// Groups operands and operators into an expression, by the binding power
/// of the operators: the expression that starts at the item `pos`, with
/// the operators that bind at least as strongly as `min_binding_power`,
/// and the position behind it, as `parse_expr` states it. What is not well
/// formed fails with `AstConvertError`.
#[verifier::loop_isolation(false)]
pub fn expr_bp(items: &Vec<CondItemUnparsed>, pos: usize, min_binding_power: u8) -> (r: Result<
    (CondExpression, usize),
    ParseError,
>)
    ensures
        match parse_expr(items@, pos as int, min_binding_power as int) {
            Some(v) => r matches Ok(done) && done.0@ == v.0 && done.1 == v.1 && pos < done.1
                <= items@.len(),
            None => r == Err::<(CondExpression, usize), ParseError>(ParseError::AstConvertError),
        },
    decreases items@, items@.len() - pos, 1nat,
{
    if pos >= items.len() {
        return Err(ParseError::AstConvertError);
    }
    let mut lhs = match &items[pos] {
        CondItemUnparsed::Atom(a) => {
            proof {
                assert(decreases_to!(items@ => items@[pos as int]));
            }
            atom_to_expression(a)?
        },
        _ => {
            return Err(ParseError::AstConvertError);
        },
    };
    let mut i = pos + 1;
    let ghost goal = parse_expr(items@, pos as int, min_binding_power as int);
    while i < items.len()
        invariant
            pos < i <= items.len(),
            goal == parse_tail(items@, lhs@, i as int, min_binding_power as int),
        decreases items.len() - i,
    {
        let op = match &items[i] {
            CondItemUnparsed::Op(op) => op,
            _ => {
                return Err(ParseError::AstConvertError);
            },
        };
        let (l_bp, r_bp) = operator_bp(op.operator.as_str());
        if l_bp < min_binding_power {
            return Ok((lhs, i));
        }
        let right = expr_bp(items, i + 1, r_bp)?;
        lhs = CondExpression::Infix(Box::new(lhs), op.clone(), Box::new(right.0));
        i = right.1;
    }
    Ok((lhs, i))
}

impl CondExpression {
    /// The expression that a list of operands and operators stands for,
    /// grouped by the binding power of the operators. A list that is not
    /// well formed fails with `AstConvertError`: one that does not start
    /// with an operand, or in which two operands or two operators follow
    /// each other.
    pub fn try_from(c: &CondExpressionUnparsed) -> (r: Result<Self, ParseError>)
        ensures
            match parse_expr(c.items@, 0, 0) {
                Some(v) => r matches Ok(e) && e@ == v.0,
                None => r == Err::<CondExpression, ParseError>(ParseError::AstConvertError),
            },
    {
        let done = expr_bp(&c.items, 0, 0)?;
        Ok(done.0)
    }
}

impl CondFunctionCall {
    /// The application that an application as written stands for, each
    /// argument grouped by the binding power of its operators.
    pub fn try_from(c: &CondFunctionCallUnparsed) -> (r: Result<Self, ParseError>)
        ensures
            match call_args_view(*c, c.arguments@.len()) {
                Some(args) => r matches Ok(f) && path_view(f.identifier@) == path_view(
                    c.identifier@,
                ) && exprs_view(f.arguments@) == args,
                None => r == Err::<CondFunctionCall, ParseError>(ParseError::AstConvertError),
            },
    {
        let mut args: Vec<CondExpression> = Vec::new();
        let mut i: usize = 0;
        proof {
            assert(exprs_view(args@) =~= Seq::<ExprView>::empty());
        }
        while i < c.arguments.len()
            invariant
                i <= c.arguments.len(),
                call_args_view(*c, i as nat) == Some(exprs_view(args@)),
            decreases c.arguments.len() - i,
        {
            let ghost before = exprs_view(args@);
            let done = match expr_bp(&c.arguments[i].items, 0, 0) {
                Ok(done) => done,
                Err(err) => {
                    proof {
                        lemma_call_args_error(*c, (i + 1) as nat, c.arguments@.len());
                    }
                    return Err(err);
                },
            };
            args.push(done.0);
            proof {
                assert(exprs_view(args@) =~= before.push(done.0@));
            }
            i = i + 1;
        }
        Ok(CondFunctionCall { identifier: clone_strings(c.identifier.as_slice()), arguments: args })
    }
}

impl Condition {
    /// The condition that a condition as written stands for: the same
    /// namespace and place, and the expression grouped by the binding power
    /// of its operators.
    pub fn try_from(c: &ConditionUnparsed) -> (r: Result<Self, ParseError>)
        ensures
            match parse_expr(c.cond_expr.items@, 0, 0) {
                Some(v) => r matches Ok(x) && x.cond_expr@ == v.0 && path_view(x.ns@)
                    == path_view(c.ns@) && x.src_loc@ == c.src_loc@,
                None => r == Err::<Condition, ParseError>(ParseError::AstConvertError),
            },
    {
        let cond_expr = CondExpression::try_from(&c.cond_expr)?;
        Ok(Condition { cond_expr, ns: clone_strings(c.ns.as_slice()), src_loc: c.src_loc.clone() })
    }
}

/// Whether the empty expression stands nowhere in `e`.
pub open spec fn complete(e: CondExpression) -> bool
    decreases e,
{
    match e {
        CondExpression::Infix(a, _, b) => complete(*a) && complete(*b),
        CondExpression::Fn(f) => forall|i: int|
            0 <= i < f.arguments@.len() ==> complete(#[trigger] f.arguments@[i]),
        CondExpression::Empty => false,
        _ => true,
    }
}

/// The first `n` arguments of `f` as they are shown, with a comma and a
/// space between neighbours.
pub open spec fn arguments_text(f: CondFunctionCall, n: nat) -> Seq<char>
    decreases f, n,
{
    if n == 0 || n > f.arguments@.len() {
        Seq::empty()
    } else if n == 1 {
        expression_text(f.arguments@[0])
    } else {
        arguments_text(f, (n - 1) as nat) + ", "@ + expression_text(f.arguments@[n - 1])
    }
}

/// The expression `e` as it is shown: two operands with their operator in
/// parentheses, an application as the name with the arguments in
/// parentheses, a function as an argument as `fn[name]`, a designator as
/// written and a literal as `Constant::to_string` shows it.
pub open spec fn expression_text(e: CondExpression) -> Seq<char>
    decreases e, 0nat,
{
    match e {
        CondExpression::Infix(a, op, b) => "("@ + expression_text(*a) + " "@
            + op.spec_qualified_name() + " "@ + expression_text(*b) + ")"@,
        CondExpression::Fn(f) => f.spec_name() + "("@ + arguments_text(f, f.arguments@.len())
            + ")"@,
        CondExpression::FnRef(f) => "fn["@ + f.spec_name() + "]"@,
        CondExpression::Attr(a) => a.display_text(),
        CondExpression::Lit(c) => c.display_text(),
        CondExpression::Empty => Seq::empty(),
    }
}

impl FunctionReference {
    /// The reference as it is shown: `fn[name]`.
    pub fn to_string(&self) -> (r: String)
        ensures
            r@ == "fn["@ + self.spec_name() + "]"@,
    {
        let mut out = "fn[".to_owned();
        out.append(self.fully_qualified_name().as_str());
        out.append("]");
        out
    }
}

impl CondExpression {
    /// The expression as it is shown, as `expression_text` states it. The
    /// empty expression stands nowhere in an expression that is shown.
    #[verifier::loop_isolation(false)]
    pub fn to_string(&self) -> (r: String)
        requires
            complete(*self),
        ensures
            r@ == expression_text(*self),
        decreases self,
    {
        match self {
            CondExpression::Infix(a, op, b) => {
                let mut out = "(".to_owned();
                out.append(a.to_string().as_str());
                out.append(" ");
                out.append(op.to_string().as_str());
                out.append(" ");
                out.append(b.to_string().as_str());
                out.append(")");
                out
            },
            CondExpression::Lit(c) => c.to_string(),
            CondExpression::Fn(f) => {
                let mut out = f.fully_qualified_name();
                out.append("(");
                let ghost head = out@;
                let mut i: usize = 0;
                while i < f.arguments.len()
                    invariant
                        i <= f.arguments.len(),
                        out@ == head + arguments_text(*f, i as nat),
                    decreases f.arguments.len() - i,
                {
                    proof {
                        assert(decreases_to!(self => f.arguments@[i as int]));
                    }
                    if i > 0 {
                        out.append(", ");
                    }
                    out.append(f.arguments[i].to_string().as_str());
                    proof {
                        assert(out@ =~= head + arguments_text(*f, (i + 1) as nat));
                    }
                    i = i + 1;
                }
                out.append(")");
                out
            },
            CondExpression::FnRef(n) => n.to_string(),
            CondExpression::Attr(a) => a.to_string(),
            CondExpression::Empty => String::new(),
        }
    }
}

impl CondFunctionCall {
    /// The application as it is shown: the name, and the arguments in
    /// parentheses.
    pub fn to_string(&self) -> (r: String)
        requires
            complete(CondExpression::Fn(*self)),
        ensures
            r@ == expression_text(CondExpression::Fn(*self)),
    {
        let mut out = self.fully_qualified_name();
        out.append("(");
        let ghost head = out@;
        let mut i: usize = 0;
        while i < self.arguments.len()
            invariant
                i <= self.arguments.len(),
                complete(CondExpression::Fn(*self)),
                out@ == head + arguments_text(*self, i as nat),
            decreases self.arguments.len() - i,
        {
            if i > 0 {
                out.append(", ");
            }
            proof {
                let whole = CondExpression::Fn(*self);
                assert(whole->Fn_0.arguments@[i as int] == self.arguments@[i as int]);
                assert(complete(self.arguments@[i as int]));
            }
            out.append(self.arguments[i].to_string().as_str());
            proof {
                assert(out@ =~= head + arguments_text(*self, (i + 1) as nat));
            }
            i = i + 1;
        }
        out.append(")");
        out
    }
}

impl Condition {
    /// The condition as it is shown: `Condition: ` and the expression.
    pub fn to_string(&self) -> (r: String)
        requires
            complete(self.cond_expr),
        ensures
            r@ == "Condition: "@ + expression_text(self.cond_expr),
    {
        let mut out = "Condition: ".to_owned();
        out.append(self.cond_expr.to_string().as_str());
        out
    }
}

} // verus!
