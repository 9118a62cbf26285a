//! A type definition statement.

use crate::ast::{AsAlfa, DeclView, PrettyPrint, QualifiedName};
use crate::text::{
    clone_strings, debug_quote, debug_quoted, dotted, indent, indent_string, join, join_strings,
    path_view,
};
use crate::ast::SYSTEM_NS;
use crate::context::lemma_dotted_injective;
use crate::resolver::registrable;
use vstd::prelude::*;
use vstd::string::*;

verus! {

/// A type definition statement.
#[derive(Debug, PartialEq, Eq)]
pub struct TypeDef {
    /// The name of the declaration.
    pub id: String,
    /// The URI that the name stands for.
    pub uri: String,
    /// The namespace from general to most specific.
    pub ns: Vec<String>,
}

impl View for TypeDef {
    type V = DeclView;

    open spec fn view(&self) -> DeclView {
        DeclView { id: self.id@, uri: self.uri@, ns: path_view(self.ns@) }
    }
}

impl Clone for TypeDef {
    fn clone(&self) -> (r: Self)
        ensures
            r@ == self@,
    {
        TypeDef {
            id: self.id.clone(),
            uri: self.uri.clone(),
            ns: clone_strings(self.ns.as_slice()),
        }
    }
}

impl QualifiedName for TypeDef {
    open spec fn qualified(&self) -> Option<Seq<char>> {
        Some(dotted(join(self@.ns, "."@), self@.id))
    }

    fn fully_qualified_name(&self) -> (r: Option<String>) {
        let mut qn = join_strings(self.ns.as_slice(), ".");
        qn.append(".");
        qn.append(self.id.as_str());
        Some(qn)
    }
}

impl TypeDef {
    /// The line that `to_string` returns.
    pub open spec fn display_text(&self) -> Seq<char> {
        "Type: \""@ + self@.id + "\" => "@ + debug_quoted(self@.uri)
    }

    /// One line that names the declaration and its URI.
    pub fn to_string(&self) -> (r: String)
        ensures
            r@ == self.display_text(),
    {
        let mut out = "Type: \"".to_owned();
        out.append(self.id.as_str());
        out.append("\" => ");
        out.append(debug_quote(self.uri.as_str()).as_str());
        out
    }
}

impl PrettyPrint for TypeDef {
    open spec fn listing(&self, margin: Seq<char>) -> Seq<char> {
        margin + self.display_text() + "\n"@
    }

    fn list(&self, margin: &str) -> (r: String) {
        let mut out = margin.to_owned();
        out.append(self.to_string().as_str());
        out.append("\n");
        out
    }
}

impl AsAlfa for TypeDef {
    open spec fn alfa_text(&self, indent_level: nat) -> Seq<char> {
        indent(indent_level) + "type "@ + self@.id + " = \""@ + self@.uri + "\"\n"@
    }

    fn to_alfa(&self, indent_level: usize) -> (r: String) {
        let mut out = indent_string(indent_level);
        out.append("type ");
        out.append(self.id.as_str());
        out.append(" = \"");
        out.append(self.uri.as_str());
        out.append("\"\n");
        out
    }
}

/// The XACML identifier of the boolean type.
pub const BOOLEAN_URI: &'static str = "http://www.w3.org/2001/XMLSchema#boolean";

/// The XACML identifier of the string type.
pub const STRING_URI: &'static str = "http://www.w3.org/2001/XMLSchema#string";

/// The XACML identifier of the integer type.
pub const INTEGER_URI: &'static str = "http://www.w3.org/2001/XMLSchema#integer";

/// The XACML identifier of the double type.
pub const DOUBLE_URI: &'static str = "http://www.w3.org/2001/XMLSchema#double";

/// The table of the built-in types: what the type at the place `i` declares.
/// The places count from 0, in the order of declaration; there are 17.
pub open spec fn typedef_row(i: int) -> DeclView {
    if i == 0 {
        DeclView { id: "string"@, uri: STRING_URI@, ns: seq![SYSTEM_NS@] }
    } else if i == 1 {
        DeclView { id: "boolean"@, uri: BOOLEAN_URI@, ns: seq![SYSTEM_NS@] }
    } else if i == 2 {
        DeclView { id: "integer"@, uri: INTEGER_URI@, ns: seq![SYSTEM_NS@] }
    } else if i == 3 {
        DeclView { id: "double"@, uri: DOUBLE_URI@, ns: seq![SYSTEM_NS@] }
    } else if i == 4 {
        DeclView { id: "anyURI"@, uri: "http://www.w3.org/2001/XMLSchema#anyURI"@, ns: seq![SYSTEM_NS@] }
    } else if i == 5 {
        DeclView { id: "base64Binary"@, uri: "http://www.w3.org/2001/XMLSchema#base64Binary"@, ns: seq![SYSTEM_NS@] }
    } else if i == 6 {
        DeclView { id: "date"@, uri: "http://www.w3.org/2001/XMLSchema#date"@, ns: seq![SYSTEM_NS@] }
    } else if i == 7 {
        DeclView { id: "dateTime"@, uri: "http://www.w3.org/2001/XMLSchema#dateTime"@, ns: seq![SYSTEM_NS@] }
    } else if i == 8 {
        DeclView { id: "dayTimeDuration"@, uri: "http://www.w3.org/2001/XMLSchema#dayTimeDuration"@, ns: seq![SYSTEM_NS@] }
    } else if i == 9 {
        DeclView { id: "hexBinary"@, uri: "http://www.w3.org/2001/XMLSchema#hexBinary"@, ns: seq![SYSTEM_NS@] }
    } else if i == 10 {
        DeclView { id: "rfc822Name"@, uri: "urn:oasis:names:tc:xacml:1.0:data-type:rfc822Name"@, ns: seq![SYSTEM_NS@] }
    } else if i == 11 {
        DeclView { id: "time"@, uri: "http://www.w3.org/2001/XMLSchema#time"@, ns: seq![SYSTEM_NS@] }
    } else if i == 12 {
        DeclView { id: "x500Name"@, uri: "urn:oasis:names:tc:xacml:1.0:data-type:x500Name"@, ns: seq![SYSTEM_NS@] }
    } else if i == 13 {
        DeclView { id: "xpath"@, uri: "urn:oasis:names:tc:xacml:3.0:data-type:xpathExpression"@, ns: seq![SYSTEM_NS@] }
    } else if i == 14 {
        DeclView { id: "yearMonthDuration"@, uri: "http://www.w3.org/2001/XMLSchema#yearMonthDuration"@, ns: seq![SYSTEM_NS@] }
    } else if i == 15 {
        DeclView { id: "dnsName"@, uri: "urn:oasis:names:tc:xacml:2.0:data-type:dnsName"@, ns: seq![SYSTEM_NS@] }
    } else {
        DeclView { id: "ipAddress"@, uri: "urn:oasis:names:tc:xacml:2.0:data-type:ipAddress"@, ns: seq![SYSTEM_NS@] }
    }
}

/// The place in the table of the built-in type named `name`, and -1 for a
/// name that the table lacks.
pub open spec fn typedef_place(name: Seq<char>) -> int {
    if name.len() == 4 {
        if name[0] == 'd' {
            if name == "date"@ {
                6
            } else {
                -1
            }
        } else if name[0] == 't' {
            if name == "time"@ {
                11
            } else {
                -1
            }
        } else {
            -1
        }
    } else if name.len() == 5 {
        if name == "xpath"@ {
            13
        } else {
            -1
        }
    } else if name.len() == 6 {
        if name[0] == 'a' {
            if name == "anyURI"@ {
                4
            } else {
                -1
            }
        } else if name[0] == 'd' {
            if name == "double"@ {
                3
            } else {
                -1
            }
        } else if name[0] == 's' {
            if name == "string"@ {
                0
            } else {
                -1
            }
        } else {
            -1
        }
    } else if name.len() == 7 {
        if name[0] == 'b' {
            if name == "boolean"@ {
                1
            } else {
                -1
            }
        } else if name[0] == 'd' {
            if name == "dnsName"@ {
                15
            } else {
                -1
            }
        } else if name[0] == 'i' {
            if name == "integer"@ {
                2
            } else {
                -1
            }
        } else {
            -1
        }
    } else if name.len() == 8 {
        if name[0] == 'd' {
            if name == "dateTime"@ {
                7
            } else {
                -1
            }
        } else if name[0] == 'x' {
            if name == "x500Name"@ {
                12
            } else {
                -1
            }
        } else {
            -1
        }
    } else if name.len() == 9 {
        if name[0] == 'h' {
            if name == "hexBinary"@ {
                9
            } else {
                -1
            }
        } else if name[0] == 'i' {
            if name == "ipAddress"@ {
                16
            } else {
                -1
            }
        } else {
            -1
        }
    } else if name.len() == 10 {
        if name == "rfc822Name"@ {
            10
        } else {
            -1
        }
    } else if name.len() == 12 {
        if name == "base64Binary"@ {
            5
        } else {
            -1
        }
    } else if name.len() == 15 {
        if name == "dayTimeDuration"@ {
            8
        } else {
            -1
        }
    } else if name.len() == 17 {
        if name == "yearMonthDuration"@ {
            14
        } else {
            -1
        }
    } else {
        -1
    }
}

/// Each built-in type stands at its own place: the table names none twice.
pub proof fn lemma_typedef_place(i: int)
    requires
        0 <= i < 17,
    ensures
        typedef_place(typedef_row(i).id) == i,
        typedef_row(i).ns == seq![SYSTEM_NS@],
{
    reveal_strlit("string");
    reveal_strlit("boolean");
    reveal_strlit("integer");
    reveal_strlit("double");
    reveal_strlit("anyURI");
    reveal_strlit("base64Binary");
    reveal_strlit("date");
    reveal_strlit("dateTime");
    reveal_strlit("dayTimeDuration");
    reveal_strlit("hexBinary");
    reveal_strlit("rfc822Name");
    reveal_strlit("time");
    reveal_strlit("x500Name");
    reveal_strlit("xpath");
    reveal_strlit("yearMonthDuration");
    reveal_strlit("dnsName");
    reveal_strlit("ipAddress");
}

/// The fully-qualified name of the built-in type at the place `i`.
pub open spec fn typedef_name(i: int) -> Seq<char> {
    dotted(SYSTEM_NS@, typedef_row(i).id)
}

/// Whether `k` is the fully-qualified name of a built-in type.
pub open spec fn typedef_named(k: Seq<char>) -> bool {
    exists|i: int| 0 <= i < 17 && #[trigger] typedef_name(i) == k
}

/// Whether `m` holds the built-in types, each under its fully-qualified
/// name, and nothing else.
pub open spec fn holds_typedef_table(m: Map<Seq<char>, TypeDef>) -> bool {
    &&& forall|i: int|
        0 <= i < 17 ==> m.contains_key(#[trigger] typedef_name(i)) && m[typedef_name(i)]@ == typedef_row(i)
    &&& forall|k: Seq<char>| #[trigger] m.contains_key(k) ==> typedef_named(k)
}

/// The rows of the table have their fully-qualified names, no two the
/// same: they can be registered in an empty resolver.
pub proof fn lemma_typedef_names(items: Seq<TypeDef>)
    requires
        items.len() == 17,
        forall|i: int| 0 <= i < 17 ==> (#[trigger] items[i])@ == typedef_row(i),
    ensures
        forall|i: int| 0 <= i < 17 ==> (#[trigger] items[i]).qualified() == Some(typedef_name(i)),
        forall|i: int, j: int|
            0 <= i < 17 && 0 <= j < 17 && i != j ==> #[trigger] typedef_name(i) != #[trigger] typedef_name(j),
        registrable(Map::<Seq<char>, TypeDef>::empty(), items),
{
    assert(join(seq![SYSTEM_NS@], "."@) == SYSTEM_NS@);
    assert forall|i: int| 0 <= i < 17 implies (#[trigger] items[i]).qualified() == Some(
        typedef_name(i),
    ) by {
        lemma_typedef_place(i);
        assert(items[i]@ == typedef_row(i));
    }
    assert forall|i: int, j: int| 0 <= i < 17 && 0 <= j < 17 && i != j implies #[trigger] typedef_name(
        i,
    ) != #[trigger] typedef_name(j) by {
        if typedef_name(i) == typedef_name(j) {
            lemma_dotted_injective(SYSTEM_NS@, typedef_row(i).id, typedef_row(j).id);
            lemma_typedef_place(i);
            lemma_typedef_place(j);
        }
    }
}

/// A resolver that holds the rows of the table under their names, and
/// nothing but rows of the table, holds the table.
pub proof fn lemma_typedef_registered(m: Map<Seq<char>, TypeDef>, items: Seq<TypeDef>)
    requires
        items.len() == 17,
        forall|i: int| 0 <= i < 17 ==> (#[trigger] items[i])@ == typedef_row(i),
        forall|i: int|
            0 <= i < 17 ==> match (#[trigger] items[i]).qualified() {
                Some(n) => m.contains_key(n) && m[n] == items[i],
                None => true,
            },
        forall|k: Seq<char>| #[trigger]
            m.contains_key(k) ==> exists|i: int|
                0 <= i < 17 && (#[trigger] items[i]).qualified() == Some(k),
    ensures
        holds_typedef_table(m),
{
    lemma_typedef_names(items);
    assert forall|i: int| 0 <= i < 17 implies m.contains_key(#[trigger] typedef_name(i)) && m[typedef_name(
        i,
    )]@ == typedef_row(i) by {
        assert(items[i].qualified() == Some(typedef_name(i)));
    }
    assert forall|k: Seq<char>| #[trigger] m.contains_key(k) implies typedef_named(k) by {
        let i = choose|i: int| 0 <= i < 17 && (#[trigger] items[i]).qualified() == Some(k);
        assert(typedef_name(i) == k);
    }
}

/// A built-in type definition.
fn make_std_type(id: &str, uri: &str) -> (r: TypeDef)
    ensures
        r@ == (DeclView { id: id@, uri: uri@, ns: seq![SYSTEM_NS@] }),
{
    let mut ns: Vec<String> = Vec::new();
    ns.push(SYSTEM_NS.to_owned());
    proof {
        assert(path_view(ns@) =~= seq![SYSTEM_NS@]);
    }
    TypeDef { id: id.to_owned(), uri: uri.to_owned(), ns }
}

/// The data types that XACML defines, as built-in type definitions.
pub fn standard_types() -> (r: Vec<TypeDef>)
    ensures
        r@.len() == 17,
        forall|i: int| 0 <= i < 17 ==> (#[trigger] r@[i])@ == typedef_row(i),
        r@[0]@ == (DeclView { id: "string"@, uri: STRING_URI@, ns: seq![SYSTEM_NS@] }),
        r@[1]@ == (DeclView { id: "boolean"@, uri: BOOLEAN_URI@, ns: seq![SYSTEM_NS@] }),
        r@[2]@ == (DeclView { id: "integer"@, uri: INTEGER_URI@, ns: seq![SYSTEM_NS@] }),
        r@[3]@ == (DeclView { id: "double"@, uri: DOUBLE_URI@, ns: seq![SYSTEM_NS@] }),
        r@[4]@ == (DeclView {
            id: "anyURI"@,
            uri: "http://www.w3.org/2001/XMLSchema#anyURI"@,
            ns: seq![SYSTEM_NS@],
        }),
        r@[5]@ == (DeclView {
            id: "base64Binary"@,
            uri: "http://www.w3.org/2001/XMLSchema#base64Binary"@,
            ns: seq![SYSTEM_NS@],
        }),
        r@[6]@ == (DeclView {
            id: "date"@,
            uri: "http://www.w3.org/2001/XMLSchema#date"@,
            ns: seq![SYSTEM_NS@],
        }),
        r@[7]@ == (DeclView {
            id: "dateTime"@,
            uri: "http://www.w3.org/2001/XMLSchema#dateTime"@,
            ns: seq![SYSTEM_NS@],
        }),
        r@[8]@ == (DeclView {
            id: "dayTimeDuration"@,
            uri: "http://www.w3.org/2001/XMLSchema#dayTimeDuration"@,
            ns: seq![SYSTEM_NS@],
        }),
        r@[9]@ == (DeclView {
            id: "hexBinary"@,
            uri: "http://www.w3.org/2001/XMLSchema#hexBinary"@,
            ns: seq![SYSTEM_NS@],
        }),
        r@[10]@ == (DeclView {
            id: "rfc822Name"@,
            uri: "urn:oasis:names:tc:xacml:1.0:data-type:rfc822Name"@,
            ns: seq![SYSTEM_NS@],
        }),
        r@[11]@ == (DeclView {
            id: "time"@,
            uri: "http://www.w3.org/2001/XMLSchema#time"@,
            ns: seq![SYSTEM_NS@],
        }),
        r@[12]@ == (DeclView {
            id: "x500Name"@,
            uri: "urn:oasis:names:tc:xacml:1.0:data-type:x500Name"@,
            ns: seq![SYSTEM_NS@],
        }),
        r@[13]@ == (DeclView {
            id: "xpath"@,
            uri: "urn:oasis:names:tc:xacml:3.0:data-type:xpathExpression"@,
            ns: seq![SYSTEM_NS@],
        }),
        r@[14]@ == (DeclView {
            id: "yearMonthDuration"@,
            uri: "http://www.w3.org/2001/XMLSchema#yearMonthDuration"@,
            ns: seq![SYSTEM_NS@],
        }),
        r@[15]@ == (DeclView {
            id: "dnsName"@,
            uri: "urn:oasis:names:tc:xacml:2.0:data-type:dnsName"@,
            ns: seq![SYSTEM_NS@],
        }),
        r@[16]@ == (DeclView {
            id: "ipAddress"@,
            uri: "urn:oasis:names:tc:xacml:2.0:data-type:ipAddress"@,
            ns: seq![SYSTEM_NS@],
        }),
{
    let mut out: Vec<TypeDef> = Vec::new();
    out.push(make_std_type("string", STRING_URI));
    out.push(make_std_type("boolean", BOOLEAN_URI));
    out.push(make_std_type("integer", INTEGER_URI));
    out.push(make_std_type("double", DOUBLE_URI));
    out.push(make_std_type("anyURI", "http://www.w3.org/2001/XMLSchema#anyURI"));
    out.push(make_std_type("base64Binary", "http://www.w3.org/2001/XMLSchema#base64Binary"));
    out.push(make_std_type("date", "http://www.w3.org/2001/XMLSchema#date"));
    out.push(make_std_type("dateTime", "http://www.w3.org/2001/XMLSchema#dateTime"));
    out.push(make_std_type("dayTimeDuration", "http://www.w3.org/2001/XMLSchema#dayTimeDuration"));
    out.push(make_std_type("hexBinary", "http://www.w3.org/2001/XMLSchema#hexBinary"));
    out.push(make_std_type("rfc822Name", "urn:oasis:names:tc:xacml:1.0:data-type:rfc822Name"));
    out.push(make_std_type("time", "http://www.w3.org/2001/XMLSchema#time"));
    out.push(make_std_type("x500Name", "urn:oasis:names:tc:xacml:1.0:data-type:x500Name"));
    out.push(make_std_type("xpath", "urn:oasis:names:tc:xacml:3.0:data-type:xpathExpression"));
    out.push(
        make_std_type(
            "yearMonthDuration",
            "http://www.w3.org/2001/XMLSchema#yearMonthDuration",
        ),
    );
    out.push(make_std_type("dnsName", "urn:oasis:names:tc:xacml:2.0:data-type:dnsName"));
    out.push(make_std_type("ipAddress", "urn:oasis:names:tc:xacml:2.0:data-type:ipAddress"));
    out
}

} // verus!
