//! Attribute designators.

use crate::text::{clone_opt_string, opt_view};
use vstd::prelude::*;
use vstd::string::*;

verus! {

/// An `<AttributeDesignator>` element: an attribute of the request.
#[derive(Debug, PartialEq, Eq)]
pub struct XAttrDesignator {
    pub uri: String,
    pub category: String,
    pub type_uri: String,
    pub must_be_present: bool,
    pub issuer: Option<String>,
}

/// What an attribute designator holds.
pub ghost struct DesignatorView {
    pub uri: Seq<char>,
    pub category: Seq<char>,
    pub type_uri: Seq<char>,
    pub must_be_present: bool,
    pub issuer: Option<Seq<char>>,
}

impl View for XAttrDesignator {
    type V = DesignatorView;

    open spec fn view(&self) -> DesignatorView {
        DesignatorView {
            uri: self.uri@,
            category: self.category@,
            type_uri: self.type_uri@,
            must_be_present: self.must_be_present,
            issuer: opt_view(self.issuer),
        }
    }
}

impl Clone for XAttrDesignator {
    fn clone(&self) -> (r: Self)
        ensures
            r@ == self@,
    {
        XAttrDesignator {
            uri: self.uri.clone(),
            category: self.category.clone(),
            type_uri: self.type_uri.clone(),
            must_be_present: self.must_be_present,
            issuer: clone_opt_string(&self.issuer),
        }
    }
}

} // verus!
