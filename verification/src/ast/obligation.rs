//! An obligation definition statement.

use crate::ast::{DeclView, PrettyPrint, QualifiedName};
use crate::text::{
    clone_strings, debug_quote, debug_quoted, dotted, indent, indent_string, join, join_strings,
    path_view,
};
use vstd::prelude::*;
use vstd::string::*;

verus! {

/// An obligation definition statement.
#[derive(Debug, PartialEq, Eq)]
pub struct ObligationDef {
    /// The name of the declaration.
    pub id: String,
    /// The URI that the name stands for.
    pub uri: String,
    /// The namespace from general to most specific.
    pub ns: Vec<String>,
}

impl View for ObligationDef {
    type V = DeclView;

    open spec fn view(&self) -> DeclView {
        DeclView { id: self.id@, uri: self.uri@, ns: path_view(self.ns@) }
    }
}

impl Clone for ObligationDef {
    fn clone(&self) -> (r: Self)
        ensures
            r@ == self@,
    {
        ObligationDef {
            id: self.id.clone(),
            uri: self.uri.clone(),
            ns: clone_strings(self.ns.as_slice()),
        }
    }
}

impl QualifiedName for ObligationDef {
    open spec fn qualified(&self) -> Option<Seq<char>> {
        Some(dotted(join(self@.ns, "."@), self@.id))
    }

    fn fully_qualified_name(&self) -> (r: Option<String>) {
        let mut qn = join_strings(self.ns.as_slice(), ".");
        qn.append(".");
        qn.append(self.id.as_str());
        Some(qn)
    }
}

impl ObligationDef {
    /// The line that `to_string` returns.
    pub open spec fn display_text(&self) -> Seq<char> {
        "Obligation: \""@ + self@.id + "\" => "@ + debug_quoted(self@.uri)
    }

    /// One line that names the declaration and its URI.
    pub fn to_string(&self) -> (r: String)
        ensures
            r@ == self.display_text(),
    {
        let mut out = "Obligation: \"".to_owned();
        out.append(self.id.as_str());
        out.append("\" => ");
        out.append(debug_quote(self.uri.as_str()).as_str());
        out
    }
}

impl PrettyPrint for ObligationDef {
    open spec fn listing(&self, margin: Seq<char>) -> Seq<char> {
        margin + self.display_text() + "\n"@
    }

    fn list(&self, margin: &str) -> (r: String) {
        let mut out = margin.to_owned();
        out.append(self.to_string().as_str());
        out.append("\n");
        out
    }
}

} // verus!
