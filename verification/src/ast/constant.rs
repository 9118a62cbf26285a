//! Literal values.

use crate::text::{debug_quote, debug_quoted};
use vstd::prelude::*;
use vstd::string::*;

verus! {

/// A constant value.
#[derive(Debug, Default, PartialEq, Eq)]
pub enum Constant {
    String(String),
    Integer(String),
    Double(String),
    Boolean(bool),
    /// A value of a named data type, as in `"192.168.1.1":ipAddress`.
    Custom(CustomType, String),
    #[default]
    Undefined,
}

/// The short name of a data type, which is still to be looked up.
#[derive(Debug, Default, PartialEq, Eq)]
pub struct CustomType {
    pub name: String,
}

/// What a constant holds.
pub ghost enum ConstantView {
    String(Seq<char>),
    Integer(Seq<char>),
    Double(Seq<char>),
    Boolean(bool),
    Custom(Seq<char>, Seq<char>),
    Undefined,
}

impl View for Constant {
    type V = ConstantView;

    open spec fn view(&self) -> ConstantView {
        match self {
            Constant::String(s) => ConstantView::String(s@),
            Constant::Integer(s) => ConstantView::Integer(s@),
            Constant::Double(s) => ConstantView::Double(s@),
            Constant::Boolean(b) => ConstantView::Boolean(*b),
            Constant::Custom(t, s) => ConstantView::Custom(t.name@, s@),
            Constant::Undefined => ConstantView::Undefined,
        }
    }
}

impl Clone for CustomType {
    fn clone(&self) -> (r: Self)
        ensures
            r.name@ == self.name@,
    {
        CustomType { name: self.name.clone() }
    }
}

impl Clone for Constant {
    fn clone(&self) -> (r: Self)
        ensures
            r@ == self@,
    {
        match self {
            Constant::String(s) => Constant::String(s.clone()),
            Constant::Integer(s) => Constant::Integer(s.clone()),
            Constant::Double(s) => Constant::Double(s.clone()),
            Constant::Boolean(b) => Constant::Boolean(*b),
            Constant::Custom(t, s) => Constant::Custom(t.clone(), s.clone()),
            Constant::Undefined => Constant::Undefined,
        }
    }
}

impl Constant {
    /// The text that `to_string` returns.
    pub open spec fn display_text(&self) -> Seq<char> {
        match self {
            Constant::String(s) => debug_quoted(s@),
            Constant::Integer(s) => s@,
            Constant::Double(s) => s@,
            Constant::Boolean(b) => if *b {
                "true"@
            } else {
                "false"@
            },
            _ => "unhandled"@,
        }
    }

    /// The constant as it is shown: a string in quotes, a number or a boolean
    /// as written, and `unhandled` for the other constants.
    pub fn to_string(&self) -> (r: String)
        ensures
            r@ == self.display_text(),
    {
        match self {
            Constant::String(s) => debug_quote(s.as_str()),
            Constant::Integer(s) => s.clone(),
            Constant::Double(s) => s.clone(),
            Constant::Boolean(b) => if *b {
                "true".to_owned()
            } else {
                "false".to_owned()
            },
            _ => "unhandled".to_owned(),
        }
    }
}

} // verus!
