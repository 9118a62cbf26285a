//! The attributes that XACML defines.

use crate::ast::attribute::{Attribute, AttributeView};
use crate::ast::{QualifiedName, SYSTEM_NS};
use crate::context::lemma_dotted_injective;
use crate::resolver::registrable;
use crate::text::{dotted, join, path_view};
use vstd::prelude::*;
use vstd::string::*;

verus! {

/// The table of the built-in attributes: what the attribute at the place `i` declares.
/// The places count from 0, in the order of declaration; there are 17.
pub open spec fn attribute_row(i: int) -> AttributeView {
    if i == 0 {
        AttributeView {
            id: "currentTime"@,
            typedef: "time"@,
            category: "environmentCat"@,
            uri: "urn:oasis:names:tc:xacml:1.0:environment:current-time"@,
            ns: seq![SYSTEM_NS@],
        }
    } else if i == 1 {
        AttributeView {
            id: "currentDate"@,
            typedef: "time"@,
            category: "environmentCat"@,
            uri: "urn:oasis:names:tc:xacml:1.0:environment:current-date"@,
            ns: seq![SYSTEM_NS@],
        }
    } else if i == 2 {
        AttributeView {
            id: "currentDateTime"@,
            typedef: "time"@,
            category: "environmentCat"@,
            uri: "urn:oasis:names:tc:xacml:1.0:environment:current-dateTime"@,
            ns: seq![SYSTEM_NS@],
        }
    } else if i == 3 {
        AttributeView {
            id: "subjectLocalityDnsName"@,
            typedef: "string"@,
            category: "subjectCat"@,
            uri: "urn:oasis:names:tc:xacml:1.0:subject:authn-locality:dns-name"@,
            ns: seq![SYSTEM_NS@],
        }
    } else if i == 4 {
        AttributeView {
            id: "subjectLocalityIpAddress"@,
            typedef: "string"@,
            category: "subjectCat"@,
            uri: "urn:oasis:names:tc:xacml:1.0:subject:authn-locality:ip-address"@,
            ns: seq![SYSTEM_NS@],
        }
    } else if i == 5 {
        AttributeView {
            id: "authenticationMethod"@,
            typedef: "string"@,
            category: "subjectCat"@,
            uri: "urn:oasis:names:tc:xacml:1.0:subject:authentication-method"@,
            ns: seq![SYSTEM_NS@],
        }
    } else if i == 6 {
        AttributeView {
            id: "authenticationTime"@,
            typedef: "dateTime"@,
            category: "subjectCat"@,
            uri: "urn:oasis:names:tc:xacml:1.0:subject:authentication-time"@,
            ns: seq![SYSTEM_NS@],
        }
    } else if i == 7 {
        AttributeView {
            id: "keyInfo"@,
            typedef: "string"@,
            category: "subjectCat"@,
            uri: "urn:oasis:names:tc:xacml:1.0:subject:key-info"@,
            ns: seq![SYSTEM_NS@],
        }
    } else if i == 8 {
        AttributeView {
            id: "requestTime"@,
            typedef: "dateTime"@,
            category: "subjectCat"@,
            uri: "urn:oasis:names:tc:xacml:1.0:subject:request-time"@,
            ns: seq![SYSTEM_NS@],
        }
    } else if i == 9 {
        AttributeView {
            id: "sessionStartTime"@,
            typedef: "dateTime"@,
            category: "subjectCat"@,
            uri: "urn:oasis:names:tc:xacml:1.0:subject:session-start-time"@,
            ns: seq![SYSTEM_NS@],
        }
    } else if i == 10 {
        AttributeView {
            id: "subjectId"@,
            typedef: "string"@,
            category: "subjectCat"@,
            uri: "urn:oasis:names:tc:xacml:1.0:subject:subject-id"@,
            ns: seq![SYSTEM_NS@],
        }
    } else if i == 11 {
        AttributeView {
            id: "subjectIdQualifier"@,
            typedef: "string"@,
            category: "subjectCat"@,
            uri: "urn:oasis:names:tc:xacml:1.0:subject:subject-id-qualifier"@,
            ns: seq![SYSTEM_NS@],
        }
    } else if i == 12 {
        AttributeView {
            id: "resourceLocation"@,
            typedef: "string"@,
            category: "resourceCat"@,
            uri: "urn:oasis:names:tc:xacml:1.0:resource:resource-location"@,
            ns: seq![SYSTEM_NS@],
        }
    } else if i == 13 {
        AttributeView {
            id: "resourceId"@,
            typedef: "string"@,
            category: "resourceCat"@,
            uri: "urn:oasis:names:tc:xacml:1.0:resource:resource-id"@,
            ns: seq![SYSTEM_NS@],
        }
    } else if i == 14 {
        AttributeView {
            id: "simpleFileName"@,
            typedef: "string"@,
            category: "resourceCat"@,
            uri: "urn:oasis:names:tc:xacml:1.0:resource:simple-file-name"@,
            ns: seq![SYSTEM_NS@],
        }
    } else if i == 15 {
        AttributeView {
            id: "actionId"@,
            typedef: "string"@,
            category: "actionCat"@,
            uri: "urn:oasis:names:tc:xacml:1.0:action:action-id"@,
            ns: seq![SYSTEM_NS@],
        }
    } else {
        AttributeView {
            id: "impliedAction"@,
            typedef: "string"@,
            category: "actionCat"@,
            uri: "urn:oasis:names:tc:xacml:1.0:action:implied-action"@,
            ns: seq![SYSTEM_NS@],
        }
    }
}

/// The place in the table of the built-in attribute named `name`, and -1 for a
/// name that the table lacks.
pub open spec fn attribute_place(name: Seq<char>) -> int {
    if name.len() == 7 {
        if name == "keyInfo"@ {
            7
        } else {
            -1
        }
    } else if name.len() == 8 {
        if name == "actionId"@ {
            15
        } else {
            -1
        }
    } else if name.len() == 9 {
        if name == "subjectId"@ {
            10
        } else {
            -1
        }
    } else if name.len() == 10 {
        if name == "resourceId"@ {
            13
        } else {
            -1
        }
    } else if name.len() == 11 {
        if name[0] == 'c' {
            if name[7] == 'D' {
                if name == "currentDate"@ {
                    1
                } else {
                    -1
                }
            } else if name[7] == 'T' {
                if name == "currentTime"@ {
                    0
                } else {
                    -1
                }
            } else {
                -1
            }
        } else if name[0] == 'r' {
            if name == "requestTime"@ {
                8
            } else {
                -1
            }
        } else {
            -1
        }
    } else if name.len() == 13 {
        if name == "impliedAction"@ {
            16
        } else {
            -1
        }
    } else if name.len() == 14 {
        if name == "simpleFileName"@ {
            14
        } else {
            -1
        }
    } else if name.len() == 15 {
        if name == "currentDateTime"@ {
            2
        } else {
            -1
        }
    } else if name.len() == 16 {
        if name[0] == 'r' {
            if name == "resourceLocation"@ {
                12
            } else {
                -1
            }
        } else if name[0] == 's' {
            if name == "sessionStartTime"@ {
                9
            } else {
                -1
            }
        } else {
            -1
        }
    } else if name.len() == 18 {
        if name[0] == 'a' {
            if name == "authenticationTime"@ {
                6
            } else {
                -1
            }
        } else if name[0] == 's' {
            if name == "subjectIdQualifier"@ {
                11
            } else {
                -1
            }
        } else {
            -1
        }
    } else if name.len() == 20 {
        if name == "authenticationMethod"@ {
            5
        } else {
            -1
        }
    } else if name.len() == 22 {
        if name == "subjectLocalityDnsName"@ {
            3
        } else {
            -1
        }
    } else if name.len() == 24 {
        if name == "subjectLocalityIpAddress"@ {
            4
        } else {
            -1
        }
    } else {
        -1
    }
}

/// Each built-in attribute stands at its own place: the table names none twice.
pub proof fn lemma_attribute_place(i: int)
    requires
        0 <= i < 17,
    ensures
        attribute_place(attribute_row(i).id) == i,
        attribute_row(i).ns == seq![SYSTEM_NS@],
{
    reveal_strlit("currentTime");
    reveal_strlit("currentDate");
    reveal_strlit("currentDateTime");
    reveal_strlit("subjectLocalityDnsName");
    reveal_strlit("subjectLocalityIpAddress");
    reveal_strlit("authenticationMethod");
    reveal_strlit("authenticationTime");
    reveal_strlit("keyInfo");
    reveal_strlit("requestTime");
    reveal_strlit("sessionStartTime");
    reveal_strlit("subjectId");
    reveal_strlit("subjectIdQualifier");
    reveal_strlit("resourceLocation");
    reveal_strlit("resourceId");
    reveal_strlit("simpleFileName");
    reveal_strlit("actionId");
    reveal_strlit("impliedAction");
}

/// The fully-qualified name of the built-in attribute at the place `i`.
pub open spec fn attribute_name(i: int) -> Seq<char> {
    dotted(SYSTEM_NS@, attribute_row(i).id)
}

/// Whether `k` is the fully-qualified name of a built-in attribute.
pub open spec fn attribute_named(k: Seq<char>) -> bool {
    exists|i: int| 0 <= i < 17 && #[trigger] attribute_name(i) == k
}

/// Whether `m` holds the built-in attributes, each under its fully-qualified
/// name, and nothing else.
pub open spec fn holds_attribute_table(m: Map<Seq<char>, Attribute>) -> bool {
    &&& forall|i: int|
        0 <= i < 17 ==> m.contains_key(#[trigger] attribute_name(i)) && m[attribute_name(i)]@ == attribute_row(i)
    &&& forall|k: Seq<char>| #[trigger] m.contains_key(k) ==> attribute_named(k)
}

/// The rows of the table have their fully-qualified names, no two the
/// same: they can be registered in an empty resolver.
pub proof fn lemma_attribute_names(items: Seq<Attribute>)
    requires
        items.len() == 17,
        forall|i: int| 0 <= i < 17 ==> (#[trigger] items[i])@ == attribute_row(i),
    ensures
        forall|i: int| 0 <= i < 17 ==> (#[trigger] items[i]).qualified() == Some(attribute_name(i)),
        forall|i: int, j: int|
            0 <= i < 17 && 0 <= j < 17 && i != j ==> #[trigger] attribute_name(i) != #[trigger] attribute_name(j),
        registrable(Map::<Seq<char>, Attribute>::empty(), items),
{
    assert(join(seq![SYSTEM_NS@], "."@) == SYSTEM_NS@);
    assert forall|i: int| 0 <= i < 17 implies (#[trigger] items[i]).qualified() == Some(
        attribute_name(i),
    ) by {
        lemma_attribute_place(i);
        assert(items[i]@ == attribute_row(i));
    }
    assert forall|i: int, j: int| 0 <= i < 17 && 0 <= j < 17 && i != j implies #[trigger] attribute_name(
        i,
    ) != #[trigger] attribute_name(j) by {
        if attribute_name(i) == attribute_name(j) {
            lemma_dotted_injective(SYSTEM_NS@, attribute_row(i).id, attribute_row(j).id);
            lemma_attribute_place(i);
            lemma_attribute_place(j);
        }
    }
}

/// A resolver that holds the rows of the table under their names, and
/// nothing but rows of the table, holds the table.
pub proof fn lemma_attribute_registered(m: Map<Seq<char>, Attribute>, items: Seq<Attribute>)
    requires
        items.len() == 17,
        forall|i: int| 0 <= i < 17 ==> (#[trigger] items[i])@ == attribute_row(i),
        forall|i: int|
            0 <= i < 17 ==> match (#[trigger] items[i]).qualified() {
                Some(n) => m.contains_key(n) && m[n] == items[i],
                None => true,
            },
        forall|k: Seq<char>| #[trigger]
            m.contains_key(k) ==> exists|i: int|
                0 <= i < 17 && (#[trigger] items[i]).qualified() == Some(k),
    ensures
        holds_attribute_table(m),
{
    lemma_attribute_names(items);
    assert forall|i: int| 0 <= i < 17 implies m.contains_key(#[trigger] attribute_name(i)) && m[attribute_name(
        i,
    )]@ == attribute_row(i) by {
        assert(items[i].qualified() == Some(attribute_name(i)));
    }
    assert forall|k: Seq<char>| #[trigger] m.contains_key(k) implies attribute_named(k) by {
        let i = choose|i: int| 0 <= i < 17 && (#[trigger] items[i]).qualified() == Some(k);
        assert(attribute_name(i) == k);
    }
}

/// A built-in attribute.
fn mk_attr(id: &str, typedef: &str, cat: &str, uri: &str) -> (r: Attribute)
    ensures
        r@ == (AttributeView {
            id: id@,
            typedef: typedef@,
            category: cat@,
            uri: uri@,
            ns: seq![SYSTEM_NS@],
        }),
{
    let mut ns: Vec<String> = Vec::new();
    ns.push(SYSTEM_NS.to_owned());
    proof {
        assert(path_view(ns@) =~= seq![SYSTEM_NS@]);
    }
    Attribute {
        id: id.to_owned(),
        typedef: typedef.to_owned(),
        category: cat.to_owned(),
        uri: uri.to_owned(),
        ns,
    }
}

/// The built-in attribute at the place `i` of the table.
fn attribute_at(i: usize) -> (r: Attribute)
    requires
        i < 17,
    ensures
        r@ == attribute_row(i as int),
{
    if i == 0 {
        mk_attr("currentTime", "time", "environmentCat", "urn:oasis:names:tc:xacml:1.0:environment:current-time")
    } else if i == 1 {
        mk_attr("currentDate", "time", "environmentCat", "urn:oasis:names:tc:xacml:1.0:environment:current-date")
    } else if i == 2 {
        mk_attr("currentDateTime", "time", "environmentCat", "urn:oasis:names:tc:xacml:1.0:environment:current-dateTime")
    } else if i == 3 {
        mk_attr("subjectLocalityDnsName", "string", "subjectCat", "urn:oasis:names:tc:xacml:1.0:subject:authn-locality:dns-name")
    } else if i == 4 {
        mk_attr("subjectLocalityIpAddress", "string", "subjectCat", "urn:oasis:names:tc:xacml:1.0:subject:authn-locality:ip-address")
    } else if i == 5 {
        mk_attr("authenticationMethod", "string", "subjectCat", "urn:oasis:names:tc:xacml:1.0:subject:authentication-method")
    } else if i == 6 {
        mk_attr("authenticationTime", "dateTime", "subjectCat", "urn:oasis:names:tc:xacml:1.0:subject:authentication-time")
    } else if i == 7 {
        mk_attr("keyInfo", "string", "subjectCat", "urn:oasis:names:tc:xacml:1.0:subject:key-info")
    } else if i == 8 {
        mk_attr("requestTime", "dateTime", "subjectCat", "urn:oasis:names:tc:xacml:1.0:subject:request-time")
    } else if i == 9 {
        mk_attr("sessionStartTime", "dateTime", "subjectCat", "urn:oasis:names:tc:xacml:1.0:subject:session-start-time")
    } else if i == 10 {
        mk_attr("subjectId", "string", "subjectCat", "urn:oasis:names:tc:xacml:1.0:subject:subject-id")
    } else if i == 11 {
        mk_attr("subjectIdQualifier", "string", "subjectCat", "urn:oasis:names:tc:xacml:1.0:subject:subject-id-qualifier")
    } else if i == 12 {
        mk_attr("resourceLocation", "string", "resourceCat", "urn:oasis:names:tc:xacml:1.0:resource:resource-location")
    } else if i == 13 {
        mk_attr("resourceId", "string", "resourceCat", "urn:oasis:names:tc:xacml:1.0:resource:resource-id")
    } else if i == 14 {
        mk_attr("simpleFileName", "string", "resourceCat", "urn:oasis:names:tc:xacml:1.0:resource:simple-file-name")
    } else if i == 15 {
        mk_attr("actionId", "string", "actionCat", "urn:oasis:names:tc:xacml:1.0:action:action-id")
    } else {
        mk_attr("impliedAction", "string", "actionCat", "urn:oasis:names:tc:xacml:1.0:action:implied-action")
    }
}

/// The attributes that XACML defines, as built-in declarations: the rows
/// of `attribute_row`, in order.
pub fn standard_attributes() -> (r: Vec<Attribute>)
    ensures
        r@.len() == 17,
        forall|i: int| 0 <= i < 17 ==> (#[trigger] r@[i])@ == attribute_row(i),
{
    let mut out: Vec<Attribute> = Vec::new();
    let mut i: usize = 0;
    while i < 17
        invariant
            i <= 17,
            out@.len() == i,
            forall|j: int| 0 <= j < i ==> (#[trigger] out@[j])@ == attribute_row(j),
        decreases 17 - i,
    {
        out.push(attribute_at(i));
        i = i + 1;
    }
    out
}

} // verus!
