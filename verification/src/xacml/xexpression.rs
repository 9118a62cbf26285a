//! Expressions.

use crate::context::LiteralView;
use crate::xacml::xapply::XApply;
use crate::xacml::xattr_designator::{DesignatorView, XAttrDesignator};
use crate::xacml::xcondition::{FunctionTypeResolved, TypeView};
use crate::xacml::xfunction::XFunction;
use crate::xacml::xprescription::XAttrValue;
use vstd::prelude::*;
use vstd::string::*;

verus! {

/// An expression within a `<Condition>` element.
#[derive(Debug, PartialEq, Eq)]
pub enum XExpression {
    /// The application of a function.
    Apply(XApply),
    /// A function as an argument.
    Function(XFunction),
    /// A literal value.
    Value(XAttrValue),
    /// An attribute of the request.
    Attrib(XAttrDesignator),
}

/// What an expression holds.
pub ghost enum XExprView {
    Apply(XApplyView),
    Function(Seq<char>),
    Value(LiteralView),
    Attrib(DesignatorView),
}

/// What the application of a function holds.
pub ghost struct XApplyView {
    pub function_uri: Seq<char>,
    pub arguments: Seq<XExprView>,
    pub return_type: TypeView,
}

/// What the expression `e` holds.
pub open spec fn xexpr_view(e: XExpression) -> XExprView
    decreases e,
{
    match e {
        XExpression::Apply(a) => XExprView::Apply(
            XApplyView {
                function_uri: a.function_uri@,
                arguments: Seq::new(
                    a.arguments@.len(),
                    |i: int|
                        if 0 <= i < a.arguments@.len() {
                            xexpr_view(a.arguments@[i])
                        } else {
                            XExprView::Function(Seq::empty())
                        },
                ),
                return_type: a.return_type@,
            },
        ),
        XExpression::Function(f) => XExprView::Function(f.function_uri@),
        XExpression::Value(v) => XExprView::Value(v.v@),
        XExpression::Attrib(a) => XExprView::Attrib(a@),
    }
}

impl View for XExpression {
    type V = XExprView;

    open spec fn view(&self) -> XExprView {
        xexpr_view(*self)
    }
}

/// What each of the expressions `v` holds.
pub open spec fn xexprs_view(v: Seq<XExpression>) -> Seq<XExprView> {
    Seq::new(v.len(), |i: int| v[i]@)
}

/// The view of an application is made of the views of its parts.
pub proof fn lemma_apply_view(a: XApply)
    ensures
        XExpression::Apply(a)@ == XExprView::Apply(
            XApplyView {
                function_uri: a.function_uri@,
                arguments: xexprs_view(a.arguments@),
                return_type: a.return_type@,
            },
        ),
{
    assert(xexpr_view(XExpression::Apply(a))->Apply_0.arguments =~= xexprs_view(a.arguments@));
}

} // verus!
