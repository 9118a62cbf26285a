//! Import statements.

use crate::ast::PrettyPrint;
use crate::text::{clone_strings, indent, indent_string, join, join_strings, path_view};
use vstd::prelude::*;
use vstd::string::*;

verus! {

/// An import statement.
#[derive(Debug, PartialEq, Eq, Default)]
pub struct Import {
    /// The components of the imported path: the namespace and, for an import
    /// of one symbol, the symbol itself as the last component.
    pub components: Vec<String>,
    /// Whether the statement ends in a wildcard.
    pub is_wildcard: bool,
}

/// What an import statement holds.
pub ghost struct ImportView {
    pub components: Seq<Seq<char>>,
    pub is_wildcard: bool,
}

impl View for Import {
    type V = ImportView;

    open spec fn view(&self) -> ImportView {
        ImportView { components: path_view(self.components@), is_wildcard: self.is_wildcard }
    }
}

impl Clone for Import {
    fn clone(&self) -> (r: Self)
        ensures
            r@ == self@,
    {
        Import {
            components: clone_strings(self.components.as_slice()),
            is_wildcard: self.is_wildcard,
        }
    }
}

/// The views of a list of import statements.
pub open spec fn imports_view(v: Seq<Import>) -> Seq<ImportView> {
    Seq::new(v.len(), |i: int| v[i]@)
}

/// A copy of a list of import statements.
pub fn clone_imports(v: &Vec<Import>) -> (r: Vec<Import>)
    ensures
        imports_view(r@) == imports_view(v@),
{
    let mut out: Vec<Import> = Vec::new();
    let mut i: usize = 0;
    while i < v.len()
        invariant
            i <= v.len(),
            out.len() == i,
            forall|j: int| 0 <= j < i ==> out[j]@ == v[j]@,
        decreases v.len() - i,
    {
        out.push(v[i].clone());
        i = i + 1;
    }
    proof {
        assert(imports_view(out@) =~= imports_view(v@));
    }
    out
}

impl Import {
    /// The line that `to_string` returns.
    pub open spec fn display_text(&self) -> Seq<char> {
        "Import: \""@ + join(self@.components, "."@) + "\" "@ + (if self.is_wildcard {
            "*"@
        } else {
            Seq::empty()
        })
    }

    /// One line that shows the imported path, with a star for a wildcard.
    pub fn to_string(&self) -> (r: String)
        ensures
            r@ == self.display_text(),
    {
        let mut out = "Import: \"".to_owned();
        out.append(join_strings(self.components.as_slice(), ".").as_str());
        out.append("\" ");
        if self.is_wildcard {
            out.append("*");
        }
        proof {
            assert(out@ =~= self.display_text());
        }
        out
    }
}

impl PrettyPrint for Import {
    open spec fn listing(&self, margin: Seq<char>) -> Seq<char> {
        margin + self.display_text() + "\n"@
    }

    fn list(&self, margin: &str) -> (r: String) {
        let mut out = margin.to_owned();
        out.append(self.to_string().as_str());
        out.append("\n");
        out
    }
}

} // verus!
