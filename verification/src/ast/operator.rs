//! Operator identifiers.

use crate::text::{clone_strings, dotted, join, join_strings, path_view};
use vstd::prelude::*;
use vstd::string::*;

verus! {

/// An operator identifier.
///
/// This records the name of an operator as it was written: the namespace
/// components before it, which may be none, and the operator itself, which
/// is made of symbols.
#[derive(Debug, Default, PartialEq, Eq)]
pub struct Operator {
    /// The namespace in front of the operator.
    pub ns: Vec<String>,
    /// The operator's symbols.
    pub operator: String,
}

impl Clone for Operator {
    fn clone(&self) -> (r: Self)
        ensures
            path_view(r.ns@) == path_view(self.ns@),
            r.operator@ == self.operator@,
    {
        Operator { ns: clone_strings(self.ns.as_slice()), operator: self.operator.clone() }
    }
}

impl Operator {
    /// The operator with its namespace in front, joined by dots.
    pub open spec fn spec_qualified_name(&self) -> Seq<char> {
        if self.ns@.len() == 0 {
            self.operator@
        } else {
            dotted(join(path_view(self.ns@), "."@), self.operator@)
        }
    }

    /// The operator with its namespace in front, joined by dots.
    pub fn qualified_name(&self) -> (r: String)
        ensures
            r@ == self.spec_qualified_name(),
    {
        if self.ns.len() == 0 {
            self.operator.clone()
        } else {
            let mut out = join_strings(self.ns.as_slice(), ".");
            out.append(".");
            out.append(self.operator.as_str());
            out
        }
    }

    /// The operator as it is shown: its qualified name.
    pub fn to_string(&self) -> (r: String)
        ensures
            r@ == self.spec_qualified_name(),
    {
        self.qualified_name()
    }
}

} // verus!
