//! Attribute declarations.

use crate::ast::{AsAlfa, PrettyPrint, QualifiedName};
use crate::text::{
    clone_strings, debug_quote, debug_quoted, dotted, indent, indent_string, join, join_strings,
    path_view,
};
use vstd::prelude::*;
use vstd::string::*;

verus! {

/// An attribute declaration.
#[derive(Debug, PartialEq, Eq, Default)]
pub struct Attribute {
    /// The short name.
    pub id: String,
    /// The name of the attribute's type.
    pub typedef: String,
    /// The name of the attribute's category.
    pub category: String,
    /// The XACML identifier of the attribute.
    pub uri: String,
    /// The namespace from general to most specific.
    pub ns: Vec<String>,
}

/// What an attribute declaration holds.
pub ghost struct AttributeView {
    pub id: Seq<char>,
    pub typedef: Seq<char>,
    pub category: Seq<char>,
    pub uri: Seq<char>,
    pub ns: Seq<Seq<char>>,
}

impl View for Attribute {
    type V = AttributeView;

    open spec fn view(&self) -> AttributeView {
        AttributeView {
            id: self.id@,
            typedef: self.typedef@,
            category: self.category@,
            uri: self.uri@,
            ns: path_view(self.ns@),
        }
    }
}

impl Clone for Attribute {
    fn clone(&self) -> (r: Self)
        ensures
            r@ == self@,
    {
        Attribute {
            id: self.id.clone(),
            typedef: self.typedef.clone(),
            category: self.category.clone(),
            uri: self.uri.clone(),
            ns: clone_strings(self.ns.as_slice()),
        }
    }
}

impl QualifiedName for Attribute {
    open spec fn qualified(&self) -> Option<Seq<char>> {
        Some(dotted(join(self@.ns, "."@), self@.id))
    }

    fn fully_qualified_name(&self) -> (r: Option<String>) {
        let mut qn = join_strings(self.ns.as_slice(), ".");
        qn.append(".");
        qn.append(self.id.as_str());
        Some(qn)
    }
}

impl Attribute {
    /// The line that `to_string` returns.
    pub open spec fn display_text(&self) -> Seq<char> {
        "Attribute: \""@ + self@.id + "\" => "@ + debug_quoted(self@.uri)
    }

    /// One line that names the attribute and its identifier.
    pub fn to_string(&self) -> (r: String)
        ensures
            r@ == self.display_text(),
    {
        let mut out = "Attribute: \"".to_owned();
        out.append(self.id.as_str());
        out.append("\" => ");
        out.append(debug_quote(self.uri.as_str()).as_str());
        out
    }
}

impl PrettyPrint for Attribute {
    open spec fn listing(&self, margin: Seq<char>) -> Seq<char> {
        margin + self.display_text() + "\n"@
    }

    fn list(&self, margin: &str) -> (r: String) {
        let mut out = margin.to_owned();
        out.append(self.to_string().as_str());
        out.append("\n");
        out
    }
}

impl AsAlfa for Attribute {
    open spec fn alfa_text(&self, indent_level: nat) -> Seq<char> {
        indent(indent_level) + "attribute "@ + self@.id + " {\n"@ + indent(indent_level + 1)
            + "id = "@ + debug_quoted(self@.uri) + "\n"@ + indent(indent_level + 1) + "type = "@
            + self@.typedef + "\n"@ + indent(indent_level + 1) + "category = "@ + self@.category
            + "\n"@ + indent(indent_level) + "}\n"@
    }

    fn to_alfa(&self, indent_level: usize) -> (r: String) {
        let outer = indent_string(indent_level);
        let mut inner = indent_string(indent_level);
        inner.append("  ");
        proof {
            assert(inner@ == indent((indent_level + 1) as nat));
        }
        let mut out = indent_string(indent_level);
        out.append("attribute ");
        out.append(self.id.as_str());
        out.append(" {\n");
        out.append(inner.as_str());
        out.append("id = ");
        out.append(debug_quote(self.uri.as_str()).as_str());
        out.append("\n");
        out.append(inner.as_str());
        out.append("type = ");
        out.append(self.typedef.as_str());
        out.append("\n");
        out.append(inner.as_str());
        out.append("category = ");
        out.append(self.category.as_str());
        out.append("\n");
        out.append(outer.as_str());
        out.append("}\n");
        out
    }
}

} // verus!
