//! Infix operator declarations.

use crate::ast::{list_each, listing_of, AsAlfa, PrettyPrint, QualifiedName};
use crate::text::{dotted, indent, indent_string, join, join_strings, path_view};
use vstd::prelude::*;
use vstd::string::*;

verus! {

/// The declaration of an infix operator.
#[derive(Debug, PartialEq, Eq)]
pub struct Infix {
    /// The operator's symbols.
    pub operator: String,
    /// Whether an operand may be a bag.
    pub allow_bags: bool,
    /// Whether the operands may change places. A commutative operator names
    /// no inverse.
    pub commutative: bool,
    /// The signatures of the operator, in the order of their declaration.
    pub signatures: Vec<InfixSignature>,
    /// The namespace of the declaration.
    pub ns: Vec<String>,
    /// The operator that takes the operands in reverse order, if one is
    /// named, with its namespace.
    pub inverse: Option<String>,
}

/// One signature of an infix operator: a function and the types it takes and
/// returns.
#[derive(Debug, PartialEq, Eq)]
pub struct InfixSignature {
    /// The XACML identifier of the function.
    pub uri: String,
    /// The name of the type of the first operand.
    pub first_arg: String,
    /// The name of the type of the second operand.
    pub second_arg: String,
    /// The name of the type of the result.
    pub output: String,
}

/// What a signature holds.
pub ghost struct SignatureView {
    pub uri: Seq<char>,
    pub first_arg: Seq<char>,
    pub second_arg: Seq<char>,
    pub output: Seq<char>,
}

impl View for InfixSignature {
    type V = SignatureView;

    open spec fn view(&self) -> SignatureView {
        SignatureView {
            uri: self.uri@,
            first_arg: self.first_arg@,
            second_arg: self.second_arg@,
            output: self.output@,
        }
    }
}

/// What the signatures `sigs` hold, in order.
pub open spec fn signatures_view(sigs: Seq<InfixSignature>) -> Seq<SignatureView> {
    Seq::new(sigs.len(), |i: int| sigs[i]@)
}

/// What the declaration of an infix operator holds.
pub ghost struct InfixView {
    pub operator: Seq<char>,
    pub allow_bags: bool,
    pub commutative: bool,
    pub signatures: Seq<SignatureView>,
    pub inverse: Option<Seq<char>>,
    pub ns: Seq<Seq<char>>,
}

impl View for Infix {
    type V = InfixView;

    open spec fn view(&self) -> InfixView {
        InfixView {
            operator: self.operator@,
            allow_bags: self.allow_bags,
            commutative: self.commutative,
            signatures: signatures_view(self.signatures@),
            inverse: crate::text::opt_view(self.inverse),
            ns: path_view(self.ns@),
        }
    }
}

impl Clone for InfixSignature {
    fn clone(&self) -> (r: Self)
        ensures
            r@ == self@,
    {
        InfixSignature {
            uri: self.uri.clone(),
            first_arg: self.first_arg.clone(),
            second_arg: self.second_arg.clone(),
            output: self.output.clone(),
        }
    }
}

impl InfixSignature {
    /// The line that `to_string` returns.
    pub open spec fn display_text(&self) -> Seq<char> {
        "infix-sig ("@ + self.uri@ + ") "@ + self.first_arg@ + ", "@ + self.second_arg@ + " => "@
            + self.output@
    }

    /// One line with the function and the types of the signature.
    pub fn to_string(&self) -> (r: String)
        ensures
            r@ == self.display_text(),
    {
        let mut out = "infix-sig (".to_owned();
        out.append(self.uri.as_str());
        out.append(") ");
        out.append(self.first_arg.as_str());
        out.append(", ");
        out.append(self.second_arg.as_str());
        out.append(" => ");
        out.append(self.output.as_str());
        out
    }
}

impl InfixSignature {
    /// The signature as a line of ALFA source behind the indentation `lead`.
    pub open spec fn alfa_line(&self, lead: Seq<char>) -> Seq<char> {
        lead + "\""@ + self.uri@ + "\" : "@ + self.first_arg@ + " "@ + self.second_arg@ + " -> "@
            + self.output@ + "\n"@
    }

    /// The signature as a line of ALFA source behind the indentation `lead`.
    pub fn to_alfa_line(&self, lead: &str) -> (r: String)
        ensures
            r@ == self.alfa_line(lead@),
    {
        let mut out = lead.to_owned();
        out.append("\"");
        out.append(self.uri.as_str());
        out.append("\" : ");
        out.append(self.first_arg.as_str());
        out.append(" ");
        out.append(self.second_arg.as_str());
        out.append(" -> ");
        out.append(self.output.as_str());
        out.append("\n");
        out
    }
}

impl AsAlfa for InfixSignature {
    open spec fn alfa_text(&self, indent_level: nat) -> Seq<char> {
        self.alfa_line(indent(indent_level))
    }

    fn to_alfa(&self, indent_level: usize) -> (r: String) {
        let mut out = indent_string(indent_level);
        out.append("\"");
        out.append(self.uri.as_str());
        out.append("\" : ");
        out.append(self.first_arg.as_str());
        out.append(" ");
        out.append(self.second_arg.as_str());
        out.append(" -> ");
        out.append(self.output.as_str());
        out.append("\n");
        out
    }
}

impl PrettyPrint for InfixSignature {
    open spec fn listing(&self, margin: Seq<char>) -> Seq<char> {
        margin + self.display_text() + "\n"@
    }

    fn list(&self, margin: &str) -> (r: String) {
        let mut out = margin.to_owned();
        out.append(self.to_string().as_str());
        out.append("\n");
        out
    }
}

/// The signatures as ALFA source, one line each.
pub open spec fn signatures_alfa(sigs: Seq<InfixSignature>, indent_level: nat) -> Seq<char>
    decreases sigs.len(),
{
    if sigs.len() == 0 {
        Seq::empty()
    } else {
        signatures_alfa(sigs.drop_last(), indent_level) + sigs.last().alfa_text(indent_level)
    }
}

impl QualifiedName for Infix {
    open spec fn qualified(&self) -> Option<Seq<char>> {
        Some(dotted(join(path_view(self.ns@), "."@), self.operator@))
    }

    fn fully_qualified_name(&self) -> (r: Option<String>) {
        let mut qn = join_strings(self.ns.as_slice(), ".");
        qn.append(".");
        qn.append(self.operator.as_str());
        Some(qn)
    }
}

impl AsAlfa for Infix {
    open spec fn alfa_text(&self, indent_level: nat) -> Seq<char> {
        indent(indent_level) + "infix "@ + (if self.allow_bags {
            "allowbags "@
        } else {
            Seq::empty()
        }) + (if self.commutative {
            "comm "@
        } else {
            Seq::empty()
        }) + "("@ + self.operator@ + ") = {\n"@ + signatures_alfa(
            self.signatures@,
            indent_level + 1,
        ) + indent(indent_level) + (match self.inverse {
            Some(i) => "} inv "@ + i@ + "\n"@,
            None => "}\n"@,
        })
    }

    fn to_alfa(&self, indent_level: usize) -> (r: String) {
        let mut out = indent_string(indent_level);
        out.append("infix ");
        if self.allow_bags {
            out.append("allowbags ");
        }
        if self.commutative {
            out.append("comm ");
        }
        out.append("(");
        out.append(self.operator.as_str());
        out.append(") = {\n");
        let mut inner = indent_string(indent_level);
        inner.append("  ");
        let ghost head = out@;
        let mut i: usize = 0;
        while i < self.signatures.len()
            invariant
                i <= self.signatures.len(),
                inner@ == indent((indent_level + 1) as nat),
                out@ == head + signatures_alfa(
                    self.signatures@.take(i as int),
                    (indent_level + 1) as nat,
                ),
            decreases self.signatures.len() - i,
        {
            proof {
                let next = self.signatures@.take(i + 1);
                assert(next.drop_last() =~= self.signatures@.take(i as int));
                assert(next.last() == self.signatures@[i as int]);
            }
            out.append(self.signatures[i].to_alfa_line(inner.as_str()).as_str());
            proof {
                assert(out@ =~= head + signatures_alfa(
                    self.signatures@.take(i + 1),
                    (indent_level + 1) as nat,
                ));
            }
            i = i + 1;
        }
        proof {
            assert(self.signatures@.take(self.signatures.len() as int) =~= self.signatures@);
        }
        out.append(indent_string(indent_level).as_str());
        match &self.inverse {
            Some(inv) => {
                out.append("} inv ");
                out.append(inv.as_str());
                out.append("\n");
            },
            None => {
                out.append("}\n");
            },
        }
        proof {
            assert(out@ =~= self.alfa_text(indent_level as nat));
        }
        out
    }
}

impl Infix {
    /// The line that `to_string` returns.
    pub open spec fn display_text(&self) -> Seq<char> {
        "infix ("@ + self.operator@ + ")"@
    }

    /// One line that names the operator.
    pub fn to_string(&self) -> (r: String)
        ensures
            r@ == self.display_text(),
    {
        let mut out = "infix (".to_owned();
        out.append(self.operator.as_str());
        out.append(")");
        out
    }
}

impl PrettyPrint for Infix {
    open spec fn listing(&self, margin: Seq<char>) -> Seq<char> {
        margin + self.display_text() + listing_of(self.signatures@, margin + "  "@)
    }

    fn list(&self, margin: &str) -> (r: String) {
        let mut out = margin.to_owned();
        out.append(self.to_string().as_str());
        let mut inner = margin.to_owned();
        inner.append("  ");
        list_each(&mut out, &self.signatures, inner.as_str());
        out
    }
}

} // verus!
