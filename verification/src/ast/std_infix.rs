//! The infix operators that are built in: comparison, arithmetic and logic.

use crate::ast::infix::{signatures_view, Infix, InfixSignature, InfixView, SignatureView};
use crate::ast::{QualifiedName, SYSTEM_NS};
use crate::context::lemma_dotted_injective;
use crate::resolver::registrable;
use crate::text::{dotted, join, path_view};
use vstd::prelude::*;
use vstd::string::*;

verus! {

/// The table of the built-in infix operators: what the operator at the place `i` declares.
/// The places count from 0, in the order of declaration; there are 11.
pub open spec fn infix_row(i: int) -> InfixView {
    if i == 0 {
        InfixView {
            operator: "=="@,
            allow_bags: true,
            commutative: true,
            signatures: seq![
                SignatureView { uri: "urn:oasis:names:tc:xacml:1.0:function:string-equal"@, first_arg: "string"@, second_arg: "string"@, output: "boolean"@ },
                SignatureView { uri: "urn:oasis:names:tc:xacml:1.0:function:boolean-equal"@, first_arg: "boolean"@, second_arg: "boolean"@, output: "boolean"@ },
                SignatureView { uri: "urn:oasis:names:tc:xacml:1.0:function:integer-equal"@, first_arg: "integer"@, second_arg: "integer"@, output: "boolean"@ },
                SignatureView { uri: "urn:oasis:names:tc:xacml:1.0:function:date-equal"@, first_arg: "date"@, second_arg: "date"@, output: "boolean"@ },
                SignatureView { uri: "urn:oasis:names:tc:xacml:1.0:function:double-equal"@, first_arg: "double"@, second_arg: "double"@, output: "boolean"@ },
                SignatureView { uri: "urn:oasis:names:tc:xacml:1.0:function:time-equal"@, first_arg: "time"@, second_arg: "time"@, output: "boolean"@ },
                SignatureView { uri: "urn:oasis:names:tc:xacml:1.0:function:dateTime-equal"@, first_arg: "dateTime"@, second_arg: "dateTime"@, output: "boolean"@ },
                SignatureView { uri: "urn:oasis:names:tc:xacml:3.0:function:dayTimeDuration-equal"@, first_arg: "dayTimeDuration"@, second_arg: "dayTimeDuration"@, output: "boolean"@ },
                SignatureView { uri: "urn:oasis:names:tc:xacml:3.0:function:yearMonthDuration-equal"@, first_arg: "yearMonthDuration"@, second_arg: "yearMonthDuration"@, output: "boolean"@ },
                SignatureView { uri: "urn:oasis:names:tc:xacml:1.0:function:anyURI-equal"@, first_arg: "anyURI"@, second_arg: "anyURI"@, output: "boolean"@ },
                SignatureView { uri: "urn:oasis:names:tc:xacml:1.0:function:x500Name-equal"@, first_arg: "x500Name"@, second_arg: "x500Name"@, output: "boolean"@ },
                SignatureView { uri: "urn:oasis:names:tc:xacml:1.0:function:rfc822Name-equal"@, first_arg: "rfc822Name"@, second_arg: "rfc822Name"@, output: "boolean"@ },
                SignatureView { uri: "urn:oasis:names:tc:xacml:1.0:function:hexBinary-equal"@, first_arg: "hexBinary"@, second_arg: "hexBinary"@, output: "boolean"@ },
                SignatureView { uri: "urn:oasis:names:tc:xacml:1.0:function:base64Binary-equal"@, first_arg: "base64Binary"@, second_arg: "base64Binary"@, output: "boolean"@ },
            ],
            inverse: None,
            ns: seq![SYSTEM_NS@],
        }
    } else if i == 1 {
        InfixView {
            operator: "<"@,
            allow_bags: true,
            commutative: false,
            signatures: seq![
                SignatureView { uri: "urn:oasis:names:tc:xacml:1.0:function:integer-less-than"@, first_arg: "integer"@, second_arg: "integer"@, output: "boolean"@ },
                SignatureView { uri: "urn:oasis:names:tc:xacml:1.0:function:double-less-than"@, first_arg: "double"@, second_arg: "double"@, output: "boolean"@ },
                SignatureView { uri: "urn:oasis:names:tc:xacml:1.0:function:string-less-than"@, first_arg: "string"@, second_arg: "string"@, output: "boolean"@ },
                SignatureView { uri: "urn:oasis:names:tc:xacml:1.0:function:time-less-than"@, first_arg: "time"@, second_arg: "time"@, output: "boolean"@ },
                SignatureView { uri: "urn:oasis:names:tc:xacml:1.0:function:dateTime-less-than"@, first_arg: "dateTime"@, second_arg: "dateTime"@, output: "boolean"@ },
                SignatureView { uri: "urn:oasis:names:tc:xacml:1.0:function:date-less-than"@, first_arg: "date"@, second_arg: "date"@, output: "boolean"@ },
            ],
            inverse: Some(">"@),
            ns: seq![SYSTEM_NS@],
        }
    } else if i == 2 {
        InfixView {
            operator: ">="@,
            allow_bags: true,
            commutative: false,
            signatures: seq![
                SignatureView { uri: "urn:oasis:names:tc:xacml:1.0:function:integer-greater-than-or-equal"@, first_arg: "integer"@, second_arg: "integer"@, output: "boolean"@ },
                SignatureView { uri: "urn:oasis:names:tc:xacml:1.0:function:double-greater-than-or-equal"@, first_arg: "double"@, second_arg: "double"@, output: "boolean"@ },
                SignatureView { uri: "urn:oasis:names:tc:xacml:1.0:function:string-greater-than-or-equal"@, first_arg: "string"@, second_arg: "string"@, output: "boolean"@ },
                SignatureView { uri: "urn:oasis:names:tc:xacml:1.0:function:time-greater-than-or-equal"@, first_arg: "time"@, second_arg: "time"@, output: "boolean"@ },
                SignatureView { uri: "urn:oasis:names:tc:xacml:1.0:function:dateTime-greater-than-or-equal"@, first_arg: "dateTime"@, second_arg: "dateTime"@, output: "boolean"@ },
                SignatureView { uri: "urn:oasis:names:tc:xacml:1.0:function:date-greater-than-or-equal"@, first_arg: "date"@, second_arg: "date"@, output: "boolean"@ },
            ],
            inverse: Some("<="@),
            ns: seq![SYSTEM_NS@],
        }
    } else if i == 3 {
        InfixView {
            operator: "<="@,
            allow_bags: true,
            commutative: false,
            signatures: seq![
                SignatureView { uri: "urn:oasis:names:tc:xacml:1.0:function:integer-less-than-or-equal"@, first_arg: "integer"@, second_arg: "integer"@, output: "boolean"@ },
                SignatureView { uri: "urn:oasis:names:tc:xacml:1.0:function:double-less-than-or-equal"@, first_arg: "double"@, second_arg: "double"@, output: "boolean"@ },
                SignatureView { uri: "urn:oasis:names:tc:xacml:1.0:function:string-less-than-or-equal"@, first_arg: "string"@, second_arg: "string"@, output: "boolean"@ },
                SignatureView { uri: "urn:oasis:names:tc:xacml:1.0:function:time-less-than-or-equal"@, first_arg: "time"@, second_arg: "time"@, output: "boolean"@ },
                SignatureView { uri: "urn:oasis:names:tc:xacml:1.0:function:dateTime-less-than-or-equal"@, first_arg: "dateTime"@, second_arg: "dateTime"@, output: "boolean"@ },
                SignatureView { uri: "urn:oasis:names:tc:xacml:1.0:function:date-less-than-or-equal"@, first_arg: "date"@, second_arg: "date"@, output: "boolean"@ },
            ],
            inverse: Some(">="@),
            ns: seq![SYSTEM_NS@],
        }
    } else if i == 4 {
        InfixView {
            operator: ">"@,
            allow_bags: true,
            commutative: false,
            signatures: seq![
                SignatureView { uri: "urn:oasis:names:tc:xacml:1.0:function:integer-greater-than"@, first_arg: "integer"@, second_arg: "integer"@, output: "boolean"@ },
                SignatureView { uri: "urn:oasis:names:tc:xacml:1.0:function:double-greater-than"@, first_arg: "double"@, second_arg: "double"@, output: "boolean"@ },
                SignatureView { uri: "urn:oasis:names:tc:xacml:1.0:function:string-greater-than"@, first_arg: "string"@, second_arg: "string"@, output: "boolean"@ },
                SignatureView { uri: "urn:oasis:names:tc:xacml:1.0:function:time-greater-than"@, first_arg: "time"@, second_arg: "time"@, output: "boolean"@ },
                SignatureView { uri: "urn:oasis:names:tc:xacml:1.0:function:dateTime-greater-than"@, first_arg: "dateTime"@, second_arg: "dateTime"@, output: "boolean"@ },
                SignatureView { uri: "urn:oasis:names:tc:xacml:1.0:function:date-greater-than"@, first_arg: "date"@, second_arg: "date"@, output: "boolean"@ },
            ],
            inverse: Some("<"@),
            ns: seq![SYSTEM_NS@],
        }
    } else if i == 5 {
        InfixView {
            operator: "&&"@,
            allow_bags: false,
            commutative: true,
            signatures: seq![
                SignatureView { uri: "urn:oasis:names:tc:xacml:1.0:function:and"@, first_arg: "boolean"@, second_arg: "boolean"@, output: "boolean"@ },
            ],
            inverse: None,
            ns: seq![SYSTEM_NS@],
        }
    } else if i == 6 {
        InfixView {
            operator: "||"@,
            allow_bags: false,
            commutative: true,
            signatures: seq![
                SignatureView { uri: "urn:oasis:names:tc:xacml:1.0:function:or"@, first_arg: "boolean"@, second_arg: "boolean"@, output: "boolean"@ },
            ],
            inverse: None,
            ns: seq![SYSTEM_NS@],
        }
    } else if i == 7 {
        InfixView {
            operator: "+"@,
            allow_bags: false,
            commutative: true,
            signatures: seq![
                SignatureView { uri: "urn:oasis:names:tc:xacml:1.0:function:integer-add"@, first_arg: "integer"@, second_arg: "integer"@, output: "integer"@ },
                SignatureView { uri: "urn:oasis:names:tc:xacml:1.0:function:double-add"@, first_arg: "double"@, second_arg: "double"@, output: "double"@ },
                SignatureView { uri: "urn:oasis:names:tc:xacml:2.0:function:string-concatenate"@, first_arg: "string"@, second_arg: "string"@, output: "string"@ },
            ],
            inverse: None,
            ns: seq![SYSTEM_NS@],
        }
    } else if i == 8 {
        InfixView {
            operator: "-"@,
            allow_bags: false,
            commutative: false,
            signatures: seq![
                SignatureView { uri: "urn:oasis:names:tc:xacml:1.0:function:integer-subtract"@, first_arg: "integer"@, second_arg: "integer"@, output: "integer"@ },
                SignatureView { uri: "urn:oasis:names:tc:xacml:1.0:function:double-subtract"@, first_arg: "double"@, second_arg: "double"@, output: "double"@ },
            ],
            inverse: None,
            ns: seq![SYSTEM_NS@],
        }
    } else if i == 9 {
        InfixView {
            operator: "*"@,
            allow_bags: false,
            commutative: true,
            signatures: seq![
                SignatureView { uri: "urn:oasis:names:tc:xacml:1.0:function:integer-multiply"@, first_arg: "integer"@, second_arg: "integer"@, output: "integer"@ },
                SignatureView { uri: "urn:oasis:names:tc:xacml:1.0:function:double-multiply"@, first_arg: "double"@, second_arg: "double"@, output: "double"@ },
            ],
            inverse: None,
            ns: seq![SYSTEM_NS@],
        }
    } else {
        InfixView {
            operator: "/"@,
            allow_bags: false,
            commutative: false,
            signatures: seq![
                SignatureView { uri: "urn:oasis:names:tc:xacml:1.0:function:integer-divide"@, first_arg: "integer"@, second_arg: "integer"@, output: "integer"@ },
                SignatureView { uri: "urn:oasis:names:tc:xacml:1.0:function:double-divide"@, first_arg: "double"@, second_arg: "double"@, output: "double"@ },
            ],
            inverse: None,
            ns: seq![SYSTEM_NS@],
        }
    }
}

/// The place in the table of the built-in operator named `name`, and -1 for a
/// name that the table lacks.
pub open spec fn infix_place(name: Seq<char>) -> int {
    if name.len() == 1 {
        if name[0] == '*' {
            if name == "*"@ {
                9
            } else {
                -1
            }
        } else if name[0] == '+' {
            if name == "+"@ {
                7
            } else {
                -1
            }
        } else if name[0] == '-' {
            if name == "-"@ {
                8
            } else {
                -1
            }
        } else if name[0] == '/' {
            if name == "/"@ {
                10
            } else {
                -1
            }
        } else if name[0] == '<' {
            if name == "<"@ {
                1
            } else {
                -1
            }
        } else if name[0] == '>' {
            if name == ">"@ {
                4
            } else {
                -1
            }
        } else {
            -1
        }
    } else if name.len() == 2 {
        if name[0] == '&' {
            if name == "&&"@ {
                5
            } else {
                -1
            }
        } else if name[0] == '<' {
            if name == "<="@ {
                3
            } else {
                -1
            }
        } else if name[0] == '=' {
            if name == "=="@ {
                0
            } else {
                -1
            }
        } else if name[0] == '>' {
            if name == ">="@ {
                2
            } else {
                -1
            }
        } else if name[0] == '|' {
            if name == "||"@ {
                6
            } else {
                -1
            }
        } else {
            -1
        }
    } else {
        -1
    }
}

/// Each built-in operator stands at its own place: the table names none twice.
pub proof fn lemma_infix_place(i: int)
    requires
        0 <= i < 11,
    ensures
        infix_place(infix_row(i).operator) == i,
        infix_row(i).ns == seq![SYSTEM_NS@],
{
    reveal_strlit("==");
    reveal_strlit("<");
    reveal_strlit(">=");
    reveal_strlit("<=");
    reveal_strlit(">");
    reveal_strlit("&&");
    reveal_strlit("||");
    reveal_strlit("+");
    reveal_strlit("-");
    reveal_strlit("*");
    reveal_strlit("/");
}

/// The fully-qualified name of the built-in operator at the place `i`.
pub open spec fn infix_name(i: int) -> Seq<char> {
    dotted(SYSTEM_NS@, infix_row(i).operator)
}

/// Whether `k` is the fully-qualified name of a built-in operator.
pub open spec fn infix_named(k: Seq<char>) -> bool {
    exists|i: int| 0 <= i < 11 && #[trigger] infix_name(i) == k
}

/// Whether `m` holds the built-in infix operators, each under its fully-qualified
/// name, and nothing else.
pub open spec fn holds_infix_table(m: Map<Seq<char>, Infix>) -> bool {
    &&& forall|i: int|
        0 <= i < 11 ==> m.contains_key(#[trigger] infix_name(i)) && m[infix_name(i)]@ == infix_row(i)
    &&& forall|k: Seq<char>| #[trigger] m.contains_key(k) ==> infix_named(k)
}

/// The rows of the table have their fully-qualified names, no two the
/// same: they can be registered in an empty resolver.
pub proof fn lemma_infix_names(items: Seq<Infix>)
    requires
        items.len() == 11,
        forall|i: int| 0 <= i < 11 ==> (#[trigger] items[i])@ == infix_row(i),
    ensures
        forall|i: int| 0 <= i < 11 ==> (#[trigger] items[i]).qualified() == Some(infix_name(i)),
        forall|i: int, j: int|
            0 <= i < 11 && 0 <= j < 11 && i != j ==> #[trigger] infix_name(i) != #[trigger] infix_name(j),
        registrable(Map::<Seq<char>, Infix>::empty(), items),
{
    assert(join(seq![SYSTEM_NS@], "."@) == SYSTEM_NS@);
    assert forall|i: int| 0 <= i < 11 implies (#[trigger] items[i]).qualified() == Some(
        infix_name(i),
    ) by {
        lemma_infix_place(i);
        assert(items[i]@ == infix_row(i));
    }
    assert forall|i: int, j: int| 0 <= i < 11 && 0 <= j < 11 && i != j implies #[trigger] infix_name(
        i,
    ) != #[trigger] infix_name(j) by {
        if infix_name(i) == infix_name(j) {
            lemma_dotted_injective(SYSTEM_NS@, infix_row(i).operator, infix_row(j).operator);
            lemma_infix_place(i);
            lemma_infix_place(j);
        }
    }
}

/// A resolver that holds the rows of the table under their names, and
/// nothing but rows of the table, holds the table.
pub proof fn lemma_infix_registered(m: Map<Seq<char>, Infix>, items: Seq<Infix>)
    requires
        items.len() == 11,
        forall|i: int| 0 <= i < 11 ==> (#[trigger] items[i])@ == infix_row(i),
        forall|i: int|
            0 <= i < 11 ==> match (#[trigger] items[i]).qualified() {
                Some(n) => m.contains_key(n) && m[n] == items[i],
                None => true,
            },
        forall|k: Seq<char>| #[trigger]
            m.contains_key(k) ==> exists|i: int|
                0 <= i < 11 && (#[trigger] items[i]).qualified() == Some(k),
    ensures
        holds_infix_table(m),
{
    lemma_infix_names(items);
    assert forall|i: int| 0 <= i < 11 implies m.contains_key(#[trigger] infix_name(i)) && m[infix_name(
        i,
    )]@ == infix_row(i) by {
        assert(items[i].qualified() == Some(infix_name(i)));
    }
    assert forall|k: Seq<char>| #[trigger] m.contains_key(k) implies infix_named(k) by {
        let i = choose|i: int| 0 <= i < 11 && (#[trigger] items[i]).qualified() == Some(k);
        assert(infix_name(i) == k);
    }
}

/// A signature: the function `uri` takes a `fst` and a `snd` and gives an
/// `out`.
fn mksig(uri: &str, fst: &str, snd: &str, out: &str) -> (r: InfixSignature)
    ensures
        r@ == (SignatureView { uri: uri@, first_arg: fst@, second_arg: snd@, output: out@ }),
{
    InfixSignature {
        uri: uri.to_owned(),
        first_arg: fst.to_owned(),
        second_arg: snd.to_owned(),
        output: out.to_owned(),
    }
}

/// A built-in operator.
fn mk_infix(
    operator: &str,
    allow_bags: bool,
    commutative: bool,
    signatures: Vec<InfixSignature>,
    inverse: Option<&str>,
) -> (r: Infix)
    ensures
        r@ == (InfixView {
            operator: operator@,
            allow_bags,
            commutative,
            signatures: signatures_view(signatures@),
            inverse: match inverse {
                Some(s) => Some(s@),
                None => None,
            },
            ns: seq![SYSTEM_NS@],
        }),
{
    let mut ns: Vec<String> = Vec::new();
    ns.push(SYSTEM_NS.to_owned());
    proof {
        assert(path_view(ns@) =~= seq![SYSTEM_NS@]);
    }
    let inverse = match inverse {
        Some(s) => Some(s.to_owned()),
        None => None,
    };
    Infix { operator: operator.to_owned(), allow_bags, commutative, signatures, ns, inverse }
}

/// The built-in operator at the place `i` of the table.
fn infix_at(i: usize) -> (r: Infix)
    requires
        i < 11,
    ensures
        r@ == infix_row(i as int),
{
    let mut sigs: Vec<InfixSignature> = Vec::new();
    if i == 0 {
        sigs.push(mksig("urn:oasis:names:tc:xacml:1.0:function:string-equal", "string", "string", "boolean"));
        sigs.push(mksig("urn:oasis:names:tc:xacml:1.0:function:boolean-equal", "boolean", "boolean", "boolean"));
        sigs.push(mksig("urn:oasis:names:tc:xacml:1.0:function:integer-equal", "integer", "integer", "boolean"));
        sigs.push(mksig("urn:oasis:names:tc:xacml:1.0:function:date-equal", "date", "date", "boolean"));
        sigs.push(mksig("urn:oasis:names:tc:xacml:1.0:function:double-equal", "double", "double", "boolean"));
        sigs.push(mksig("urn:oasis:names:tc:xacml:1.0:function:time-equal", "time", "time", "boolean"));
        sigs.push(mksig("urn:oasis:names:tc:xacml:1.0:function:dateTime-equal", "dateTime", "dateTime", "boolean"));
        sigs.push(mksig("urn:oasis:names:tc:xacml:3.0:function:dayTimeDuration-equal", "dayTimeDuration", "dayTimeDuration", "boolean"));
        sigs.push(mksig("urn:oasis:names:tc:xacml:3.0:function:yearMonthDuration-equal", "yearMonthDuration", "yearMonthDuration", "boolean"));
        sigs.push(mksig("urn:oasis:names:tc:xacml:1.0:function:anyURI-equal", "anyURI", "anyURI", "boolean"));
        sigs.push(mksig("urn:oasis:names:tc:xacml:1.0:function:x500Name-equal", "x500Name", "x500Name", "boolean"));
        sigs.push(mksig("urn:oasis:names:tc:xacml:1.0:function:rfc822Name-equal", "rfc822Name", "rfc822Name", "boolean"));
        sigs.push(mksig("urn:oasis:names:tc:xacml:1.0:function:hexBinary-equal", "hexBinary", "hexBinary", "boolean"));
        sigs.push(mksig("urn:oasis:names:tc:xacml:1.0:function:base64Binary-equal", "base64Binary", "base64Binary", "boolean"));
        proof {
            assert(signatures_view(sigs@) =~= infix_row(0).signatures);
        }
        mk_infix("==", true, true, sigs, None)
    } else if i == 1 {
        sigs.push(mksig("urn:oasis:names:tc:xacml:1.0:function:integer-less-than", "integer", "integer", "boolean"));
        sigs.push(mksig("urn:oasis:names:tc:xacml:1.0:function:double-less-than", "double", "double", "boolean"));
        sigs.push(mksig("urn:oasis:names:tc:xacml:1.0:function:string-less-than", "string", "string", "boolean"));
        sigs.push(mksig("urn:oasis:names:tc:xacml:1.0:function:time-less-than", "time", "time", "boolean"));
        sigs.push(mksig("urn:oasis:names:tc:xacml:1.0:function:dateTime-less-than", "dateTime", "dateTime", "boolean"));
        sigs.push(mksig("urn:oasis:names:tc:xacml:1.0:function:date-less-than", "date", "date", "boolean"));
        proof {
            assert(signatures_view(sigs@) =~= infix_row(1).signatures);
        }
        mk_infix("<", true, false, sigs, Some(">"))
    } else if i == 2 {
        sigs.push(mksig("urn:oasis:names:tc:xacml:1.0:function:integer-greater-than-or-equal", "integer", "integer", "boolean"));
        sigs.push(mksig("urn:oasis:names:tc:xacml:1.0:function:double-greater-than-or-equal", "double", "double", "boolean"));
        sigs.push(mksig("urn:oasis:names:tc:xacml:1.0:function:string-greater-than-or-equal", "string", "string", "boolean"));
        sigs.push(mksig("urn:oasis:names:tc:xacml:1.0:function:time-greater-than-or-equal", "time", "time", "boolean"));
        sigs.push(mksig("urn:oasis:names:tc:xacml:1.0:function:dateTime-greater-than-or-equal", "dateTime", "dateTime", "boolean"));
        sigs.push(mksig("urn:oasis:names:tc:xacml:1.0:function:date-greater-than-or-equal", "date", "date", "boolean"));
        proof {
            assert(signatures_view(sigs@) =~= infix_row(2).signatures);
        }
        mk_infix(">=", true, false, sigs, Some("<="))
    } else if i == 3 {
        sigs.push(mksig("urn:oasis:names:tc:xacml:1.0:function:integer-less-than-or-equal", "integer", "integer", "boolean"));
        sigs.push(mksig("urn:oasis:names:tc:xacml:1.0:function:double-less-than-or-equal", "double", "double", "boolean"));
        sigs.push(mksig("urn:oasis:names:tc:xacml:1.0:function:string-less-than-or-equal", "string", "string", "boolean"));
        sigs.push(mksig("urn:oasis:names:tc:xacml:1.0:function:time-less-than-or-equal", "time", "time", "boolean"));
        sigs.push(mksig("urn:oasis:names:tc:xacml:1.0:function:dateTime-less-than-or-equal", "dateTime", "dateTime", "boolean"));
        sigs.push(mksig("urn:oasis:names:tc:xacml:1.0:function:date-less-than-or-equal", "date", "date", "boolean"));
        proof {
            assert(signatures_view(sigs@) =~= infix_row(3).signatures);
        }
        mk_infix("<=", true, false, sigs, Some(">="))
    } else if i == 4 {
        sigs.push(mksig("urn:oasis:names:tc:xacml:1.0:function:integer-greater-than", "integer", "integer", "boolean"));
        sigs.push(mksig("urn:oasis:names:tc:xacml:1.0:function:double-greater-than", "double", "double", "boolean"));
        sigs.push(mksig("urn:oasis:names:tc:xacml:1.0:function:string-greater-than", "string", "string", "boolean"));
        sigs.push(mksig("urn:oasis:names:tc:xacml:1.0:function:time-greater-than", "time", "time", "boolean"));
        sigs.push(mksig("urn:oasis:names:tc:xacml:1.0:function:dateTime-greater-than", "dateTime", "dateTime", "boolean"));
        sigs.push(mksig("urn:oasis:names:tc:xacml:1.0:function:date-greater-than", "date", "date", "boolean"));
        proof {
            assert(signatures_view(sigs@) =~= infix_row(4).signatures);
        }
        mk_infix(">", true, false, sigs, Some("<"))
    } else if i == 5 {
        sigs.push(mksig("urn:oasis:names:tc:xacml:1.0:function:and", "boolean", "boolean", "boolean"));
        proof {
            assert(signatures_view(sigs@) =~= infix_row(5).signatures);
        }
        mk_infix("&&", false, true, sigs, None)
    } else if i == 6 {
        sigs.push(mksig("urn:oasis:names:tc:xacml:1.0:function:or", "boolean", "boolean", "boolean"));
        proof {
            assert(signatures_view(sigs@) =~= infix_row(6).signatures);
        }
        mk_infix("||", false, true, sigs, None)
    } else if i == 7 {
        sigs.push(mksig("urn:oasis:names:tc:xacml:1.0:function:integer-add", "integer", "integer", "integer"));
        sigs.push(mksig("urn:oasis:names:tc:xacml:1.0:function:double-add", "double", "double", "double"));
        sigs.push(mksig("urn:oasis:names:tc:xacml:2.0:function:string-concatenate", "string", "string", "string"));
        proof {
            assert(signatures_view(sigs@) =~= infix_row(7).signatures);
        }
        mk_infix("+", false, true, sigs, None)
    } else if i == 8 {
        sigs.push(mksig("urn:oasis:names:tc:xacml:1.0:function:integer-subtract", "integer", "integer", "integer"));
        sigs.push(mksig("urn:oasis:names:tc:xacml:1.0:function:double-subtract", "double", "double", "double"));
        proof {
            assert(signatures_view(sigs@) =~= infix_row(8).signatures);
        }
        mk_infix("-", false, false, sigs, None)
    } else if i == 9 {
        sigs.push(mksig("urn:oasis:names:tc:xacml:1.0:function:integer-multiply", "integer", "integer", "integer"));
        sigs.push(mksig("urn:oasis:names:tc:xacml:1.0:function:double-multiply", "double", "double", "double"));
        proof {
            assert(signatures_view(sigs@) =~= infix_row(9).signatures);
        }
        mk_infix("*", false, true, sigs, None)
    } else {
        sigs.push(mksig("urn:oasis:names:tc:xacml:1.0:function:integer-divide", "integer", "integer", "integer"));
        sigs.push(mksig("urn:oasis:names:tc:xacml:1.0:function:double-divide", "double", "double", "double"));
        proof {
            assert(signatures_view(sigs@) =~= infix_row(10).signatures);
        }
        mk_infix("/", false, false, sigs, None)
    }
}

/// The built-in infix operators: the rows of `infix_row`, in order.
pub fn standard_infix() -> (r: Vec<Infix>)
    ensures
        r@.len() == 11,
        forall|i: int| 0 <= i < 11 ==> (#[trigger] r@[i])@ == infix_row(i),
{
    let mut out: Vec<Infix> = Vec::new();
    let mut i: usize = 0;
    while i < 11
        invariant
            i <= 11,
            out@.len() == i,
            forall|j: int| 0 <= j < i ==> (#[trigger] out@[j])@ == infix_row(j),
        decreases 11 - i,
    {
        out.push(infix_at(i));
        i = i + 1;
    }
    out
}

/// An operator that names an inverse is not commutative, and its inverse
/// is in the table and names it in turn.
pub proof fn lemma_inverses_pair(i: int)
    requires
        0 <= i < 11,
        infix_row(i).inverse is Some,
    ensures
        !infix_row(i).commutative,
        0 <= infix_place(infix_row(i).inverse->Some_0) < 11,
        infix_row(infix_place(infix_row(i).inverse->Some_0)).inverse == Some(infix_row(i).operator),
{

    reveal_strlit("==");
    reveal_strlit("<");
    reveal_strlit(">=");
    reveal_strlit("<=");
    reveal_strlit(">");
    reveal_strlit("&&");
    reveal_strlit("||");
    reveal_strlit("+");
    reveal_strlit("-");
    reveal_strlit("*");
    reveal_strlit("/");
}

} // verus!
