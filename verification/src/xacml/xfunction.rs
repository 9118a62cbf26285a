//! Functions that are handed over as arguments.

use vstd::prelude::*;
use vstd::string::*;

verus! {

/// A `<Function>` element: a XACML function named as an argument.
#[derive(Debug, PartialEq, Eq)]
pub struct XFunction {
    pub function_uri: String,
}

impl Clone for XFunction {
    fn clone(&self) -> (r: Self)
        ensures
            r.function_uri@ == self.function_uri@,
    {
        XFunction { function_uri: self.function_uri.clone() }
    }
}

} // verus!
