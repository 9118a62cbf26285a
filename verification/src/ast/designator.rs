//! Attribute designators.

use crate::text::{clone_opt_string, clone_strings, join, join_strings, opt_view, path_view};
use vstd::prelude::*;
use vstd::string::*;

verus! {

/// An attribute designator: the use of an attribute in an expression.
#[derive(Debug, Default, PartialEq, Eq)]
pub struct AttributeDesignator {
    /// The attribute's name as written, split at the dots.
    pub attribute: Vec<String>,
    /// The issuer that the attribute must come from, if one is named.
    pub issuer: Option<String>,
    /// Whether the attribute must be present in the request.
    pub mustbepresent: bool,
}

impl Clone for AttributeDesignator {
    fn clone(&self) -> (r: Self)
        ensures
            path_view(r.attribute@) == path_view(self.attribute@),
            opt_view(r.issuer) == opt_view(self.issuer),
            r.mustbepresent == self.mustbepresent,
    {
        AttributeDesignator {
            attribute: clone_strings(self.attribute.as_slice()),
            issuer: clone_opt_string(&self.issuer),
            mustbepresent: self.mustbepresent,
        }
    }
}

impl AttributeDesignator {
    /// The attribute's name as written, with dots.
    pub open spec fn spec_name(&self) -> Seq<char> {
        join(path_view(self.attribute@), "."@)
    }

    /// The line that `to_string` returns.
    pub open spec fn display_text(&self) -> Seq<char> {
        if !self.mustbepresent && self.issuer is None {
            self.spec_name()
        } else if self.mustbepresent && self.issuer is None {
            self.spec_name() + "[mustbepresent]"@
        } else if !self.mustbepresent {
            self.spec_name() + "[issuer=\""@ + self.issuer.unwrap()@ + "\"]"@
        } else {
            self.spec_name() + "[mustbepresent issuer=\""@ + self.issuer.unwrap()@ + "\"]"@
        }
    }

    /// The attribute's name as written, with dots.
    pub fn fully_qualified_name(&self) -> (r: String)
        ensures
            r@ == self.spec_name(),
    {
        join_strings(self.attribute.as_slice(), ".")
    }

    /// The designator as it is written in ALFA, with its options in square
    /// brackets.
    pub fn to_string(&self) -> (r: String)
        ensures
            r@ == self.display_text(),
    {
        let mut out = join_strings(self.attribute.as_slice(), ".");
        match &self.issuer {
            None => {
                if self.mustbepresent {
                    out.append("[mustbepresent]");
                }
            },
            Some(i) => {
                if self.mustbepresent {
                    out.append("[mustbepresent issuer=\"");
                } else {
                    out.append("[issuer=\"");
                }
                out.append(i.as_str());
                out.append("\"]");
            },
        }
        out
    }
}

} // verus!
