//! A category statement.

use crate::ast::{AsAlfa, DeclView, PrettyPrint, QualifiedName};
use crate::text::{
    clone_strings, debug_quote, debug_quoted, dotted, indent, indent_string, join, join_strings,
    path_view,
};
use crate::ast::SYSTEM_NS;
use crate::context::lemma_dotted_injective;
use crate::resolver::registrable;
use vstd::prelude::*;
use vstd::string::*;

verus! {

/// A category statement.
#[derive(Debug, PartialEq, Eq)]
pub struct Category {
    /// The name of the declaration.
    pub id: String,
    /// The URI that the name stands for.
    pub uri: String,
    /// The namespace from general to most specific.
    pub ns: Vec<String>,
}

impl View for Category {
    type V = DeclView;

    open spec fn view(&self) -> DeclView {
        DeclView { id: self.id@, uri: self.uri@, ns: path_view(self.ns@) }
    }
}

impl Clone for Category {
    fn clone(&self) -> (r: Self)
        ensures
            r@ == self@,
    {
        Category {
            id: self.id.clone(),
            uri: self.uri.clone(),
            ns: clone_strings(self.ns.as_slice()),
        }
    }
}

impl QualifiedName for Category {
    open spec fn qualified(&self) -> Option<Seq<char>> {
        Some(dotted(join(self@.ns, "."@), self@.id))
    }

    fn fully_qualified_name(&self) -> (r: Option<String>) {
        let mut qn = join_strings(self.ns.as_slice(), ".");
        qn.append(".");
        qn.append(self.id.as_str());
        Some(qn)
    }
}

impl Category {
    /// The line that `to_string` returns.
    pub open spec fn display_text(&self) -> Seq<char> {
        "Category: \""@ + self@.id + "\" => "@ + debug_quoted(self@.uri)
    }

    /// One line that names the declaration and its URI.
    pub fn to_string(&self) -> (r: String)
        ensures
            r@ == self.display_text(),
    {
        let mut out = "Category: \"".to_owned();
        out.append(self.id.as_str());
        out.append("\" => ");
        out.append(debug_quote(self.uri.as_str()).as_str());
        out
    }
}

impl PrettyPrint for Category {
    open spec fn listing(&self, margin: Seq<char>) -> Seq<char> {
        margin + self.display_text() + "\n"@
    }

    fn list(&self, margin: &str) -> (r: String) {
        let mut out = margin.to_owned();
        out.append(self.to_string().as_str());
        out.append("\n");
        out
    }
}

impl AsAlfa for Category {
    open spec fn alfa_text(&self, indent_level: nat) -> Seq<char> {
        indent(indent_level) + "category "@ + self@.id + " = \""@ + self@.uri + "\"\n"@
    }

    fn to_alfa(&self, indent_level: usize) -> (r: String) {
        let mut out = indent_string(indent_level);
        out.append("category ");
        out.append(self.id.as_str());
        out.append(" = \"");
        out.append(self.uri.as_str());
        out.append("\"\n");
        out
    }
}

/// The table of the built-in categories: what the category at the place `i` declares.
/// The places count from 0, in the order of declaration; there are 8.
pub open spec fn category_row(i: int) -> DeclView {
    if i == 0 {
        DeclView { id: "subjectCat"@, uri: "urn:oasis:names:tc:xacml:1.0:subject-category:access-subject"@, ns: seq![SYSTEM_NS@] }
    } else if i == 1 {
        DeclView { id: "codebaseCat"@, uri: "urn:oasis:names:tc:xacml:1.0:subject-category:codebase"@, ns: seq![SYSTEM_NS@] }
    } else if i == 2 {
        DeclView { id: "intermediarySubjectCat"@, uri: "urn:oasis:names:tc:xacml:1.0:subject-category:intermediary-subject"@, ns: seq![SYSTEM_NS@] }
    } else if i == 3 {
        DeclView { id: "recipientSubjectCat"@, uri: "urn:oasis:names:tc:xacml:1.0:subject-category:recipient-subject"@, ns: seq![SYSTEM_NS@] }
    } else if i == 4 {
        DeclView { id: "requestingMachineCat"@, uri: "urn:oasis:names:tc:xacml:1.0:subject-category:requesting-machine"@, ns: seq![SYSTEM_NS@] }
    } else if i == 5 {
        DeclView { id: "resourceCat"@, uri: "urn:oasis:names:tc:xacml:3.0:attribute-category:resource"@, ns: seq![SYSTEM_NS@] }
    } else if i == 6 {
        DeclView { id: "actionCat"@, uri: "urn:oasis:names:tc:xacml:3.0:attribute-category:action"@, ns: seq![SYSTEM_NS@] }
    } else {
        DeclView { id: "environmentCat"@, uri: "urn:oasis:names:tc:xacml:3.0:attribute-category:environment"@, ns: seq![SYSTEM_NS@] }
    }
}

/// The place in the table of the built-in category named `name`, and -1 for a
/// name that the table lacks.
pub open spec fn category_place(name: Seq<char>) -> int {
    if name.len() == 9 {
        if name == "actionCat"@ {
            6
        } else {
            -1
        }
    } else if name.len() == 10 {
        if name == "subjectCat"@ {
            0
        } else {
            -1
        }
    } else if name.len() == 11 {
        if name[0] == 'c' {
            if name == "codebaseCat"@ {
                1
            } else {
                -1
            }
        } else if name[0] == 'r' {
            if name == "resourceCat"@ {
                5
            } else {
                -1
            }
        } else {
            -1
        }
    } else if name.len() == 14 {
        if name == "environmentCat"@ {
            7
        } else {
            -1
        }
    } else if name.len() == 19 {
        if name == "recipientSubjectCat"@ {
            3
        } else {
            -1
        }
    } else if name.len() == 20 {
        if name == "requestingMachineCat"@ {
            4
        } else {
            -1
        }
    } else if name.len() == 22 {
        if name == "intermediarySubjectCat"@ {
            2
        } else {
            -1
        }
    } else {
        -1
    }
}

/// Each built-in category stands at its own place: the table names none twice.
pub proof fn lemma_category_place(i: int)
    requires
        0 <= i < 8,
    ensures
        category_place(category_row(i).id) == i,
        category_row(i).ns == seq![SYSTEM_NS@],
{
    reveal_strlit("subjectCat");
    reveal_strlit("codebaseCat");
    reveal_strlit("intermediarySubjectCat");
    reveal_strlit("recipientSubjectCat");
    reveal_strlit("requestingMachineCat");
    reveal_strlit("resourceCat");
    reveal_strlit("actionCat");
    reveal_strlit("environmentCat");
}

/// The fully-qualified name of the built-in category at the place `i`.
pub open spec fn category_name(i: int) -> Seq<char> {
    dotted(SYSTEM_NS@, category_row(i).id)
}

/// Whether `k` is the fully-qualified name of a built-in category.
pub open spec fn category_named(k: Seq<char>) -> bool {
    exists|i: int| 0 <= i < 8 && #[trigger] category_name(i) == k
}

/// Whether `m` holds the built-in categories, each under its fully-qualified
/// name, and nothing else.
pub open spec fn holds_category_table(m: Map<Seq<char>, Category>) -> bool {
    &&& forall|i: int|
        0 <= i < 8 ==> m.contains_key(#[trigger] category_name(i)) && m[category_name(i)]@ == category_row(i)
    &&& forall|k: Seq<char>| #[trigger] m.contains_key(k) ==> category_named(k)
}

/// The rows of the table have their fully-qualified names, no two the
/// same: they can be registered in an empty resolver.
pub proof fn lemma_category_names(items: Seq<Category>)
    requires
        items.len() == 8,
        forall|i: int| 0 <= i < 8 ==> (#[trigger] items[i])@ == category_row(i),
    ensures
        forall|i: int| 0 <= i < 8 ==> (#[trigger] items[i]).qualified() == Some(category_name(i)),
        forall|i: int, j: int|
            0 <= i < 8 && 0 <= j < 8 && i != j ==> #[trigger] category_name(i) != #[trigger] category_name(j),
        registrable(Map::<Seq<char>, Category>::empty(), items),
{
    assert(join(seq![SYSTEM_NS@], "."@) == SYSTEM_NS@);
    assert forall|i: int| 0 <= i < 8 implies (#[trigger] items[i]).qualified() == Some(
        category_name(i),
    ) by {
        lemma_category_place(i);
        assert(items[i]@ == category_row(i));
    }
    assert forall|i: int, j: int| 0 <= i < 8 && 0 <= j < 8 && i != j implies #[trigger] category_name(
        i,
    ) != #[trigger] category_name(j) by {
        if category_name(i) == category_name(j) {
            lemma_dotted_injective(SYSTEM_NS@, category_row(i).id, category_row(j).id);
            lemma_category_place(i);
            lemma_category_place(j);
        }
    }
}

/// A resolver that holds the rows of the table under their names, and
/// nothing but rows of the table, holds the table.
pub proof fn lemma_category_registered(m: Map<Seq<char>, Category>, items: Seq<Category>)
    requires
        items.len() == 8,
        forall|i: int| 0 <= i < 8 ==> (#[trigger] items[i])@ == category_row(i),
        forall|i: int|
            0 <= i < 8 ==> match (#[trigger] items[i]).qualified() {
                Some(n) => m.contains_key(n) && m[n] == items[i],
                None => true,
            },
        forall|k: Seq<char>| #[trigger]
            m.contains_key(k) ==> exists|i: int|
                0 <= i < 8 && (#[trigger] items[i]).qualified() == Some(k),
    ensures
        holds_category_table(m),
{
    lemma_category_names(items);
    assert forall|i: int| 0 <= i < 8 implies m.contains_key(#[trigger] category_name(i)) && m[category_name(
        i,
    )]@ == category_row(i) by {
        assert(items[i].qualified() == Some(category_name(i)));
    }
    assert forall|k: Seq<char>| #[trigger] m.contains_key(k) implies category_named(k) by {
        let i = choose|i: int| 0 <= i < 8 && (#[trigger] items[i]).qualified() == Some(k);
        assert(category_name(i) == k);
    }
}

/// A built-in category.
fn make_std_cat(id: &str, uri: &str) -> (r: Category)
    ensures
        r@ == (DeclView { id: id@, uri: uri@, ns: seq![SYSTEM_NS@] }),
{
    let mut ns: Vec<String> = Vec::new();
    ns.push(SYSTEM_NS.to_owned());
    proof {
        assert(path_view(ns@) =~= seq![SYSTEM_NS@]);
    }
    Category { id: id.to_owned(), uri: uri.to_owned(), ns }
}

/// The attribute categories that XACML defines, as built-in declarations.
pub fn standard_categories() -> (r: Vec<Category>)
    ensures
        r@.len() == 8,
        forall|i: int| 0 <= i < 8 ==> (#[trigger] r@[i])@ == category_row(i),
        r@[0]@ == (DeclView {
            id: "subjectCat"@,
            uri: "urn:oasis:names:tc:xacml:1.0:subject-category:access-subject"@,
            ns: seq![SYSTEM_NS@],
        }),
        r@[1]@ == (DeclView {
            id: "codebaseCat"@,
            uri: "urn:oasis:names:tc:xacml:1.0:subject-category:codebase"@,
            ns: seq![SYSTEM_NS@],
        }),
        r@[2]@ == (DeclView {
            id: "intermediarySubjectCat"@,
            uri: "urn:oasis:names:tc:xacml:1.0:subject-category:intermediary-subject"@,
            ns: seq![SYSTEM_NS@],
        }),
        r@[3]@ == (DeclView {
            id: "recipientSubjectCat"@,
            uri: "urn:oasis:names:tc:xacml:1.0:subject-category:recipient-subject"@,
            ns: seq![SYSTEM_NS@],
        }),
        r@[4]@ == (DeclView {
            id: "requestingMachineCat"@,
            uri: "urn:oasis:names:tc:xacml:1.0:subject-category:requesting-machine"@,
            ns: seq![SYSTEM_NS@],
        }),
        r@[5]@ == (DeclView {
            id: "resourceCat"@,
            uri: "urn:oasis:names:tc:xacml:3.0:attribute-category:resource"@,
            ns: seq![SYSTEM_NS@],
        }),
        r@[6]@ == (DeclView {
            id: "actionCat"@,
            uri: "urn:oasis:names:tc:xacml:3.0:attribute-category:action"@,
            ns: seq![SYSTEM_NS@],
        }),
        r@[7]@ == (DeclView {
            id: "environmentCat"@,
            uri: "urn:oasis:names:tc:xacml:3.0:attribute-category:environment"@,
            ns: seq![SYSTEM_NS@],
        }),
{
    let mut out: Vec<Category> = Vec::new();
    out.push(
        make_std_cat(
            "subjectCat",
            "urn:oasis:names:tc:xacml:1.0:subject-category:access-subject",
        ),
    );
    out.push(make_std_cat("codebaseCat", "urn:oasis:names:tc:xacml:1.0:subject-category:codebase"));
    out.push(
        make_std_cat(
            "intermediarySubjectCat",
            "urn:oasis:names:tc:xacml:1.0:subject-category:intermediary-subject",
        ),
    );
    out.push(
        make_std_cat(
            "recipientSubjectCat",
            "urn:oasis:names:tc:xacml:1.0:subject-category:recipient-subject",
        ),
    );
    out.push(
        make_std_cat(
            "requestingMachineCat",
            "urn:oasis:names:tc:xacml:1.0:subject-category:requesting-machine",
        ),
    );
    out.push(
        make_std_cat(
            "resourceCat",
            "urn:oasis:names:tc:xacml:3.0:attribute-category:resource",
        ),
    );
    out.push(make_std_cat("actionCat", "urn:oasis:names:tc:xacml:3.0:attribute-category:action"));
    out.push(
        make_std_cat(
            "environmentCat",
            "urn:oasis:names:tc:xacml:3.0:attribute-category:environment",
        ),
    );
    out
}

} // verus!
