//! Function application.

use crate::xacml::xcondition::FunctionTypeResolved;
use crate::xacml::xexpression::XExpression;
use vstd::prelude::*;
use vstd::string::*;

verus! {

/// An `<Apply>` element: a function applied to arguments, which are
/// expressions themselves.
#[derive(Debug, PartialEq, Eq)]
pub struct XApply {
    /// The XACML identifier of the function.
    pub function_uri: String,
    /// The arguments in order.
    pub arguments: Vec<XExpression>,
    /// The type of the result.
    pub return_type: FunctionTypeResolved,
}

} // verus!
