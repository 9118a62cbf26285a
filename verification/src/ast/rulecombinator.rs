//! A rule combining algorithm.

use crate::ast::{AsAlfa, DeclView, PrettyPrint, QualifiedName};
use crate::text::{
    clone_strings, debug_quote, debug_quoted, dotted, indent, indent_string, join, join_strings,
    path_view,
};
use crate::ast::{PROTECTED_NS, SYSTEM_NS};
use crate::context::lemma_dotted_injective;
use crate::resolver::registrable;
use vstd::prelude::*;
use vstd::string::*;

verus! {

/// A rule combining algorithm.
#[derive(Debug, PartialEq, Eq)]
pub struct RuleCombinator {
    /// The name of the declaration.
    pub id: String,
    /// The URI that the name stands for.
    pub uri: String,
    /// The namespace from general to most specific.
    pub ns: Vec<String>,
}

impl View for RuleCombinator {
    type V = DeclView;

    open spec fn view(&self) -> DeclView {
        DeclView { id: self.id@, uri: self.uri@, ns: path_view(self.ns@) }
    }
}

impl Clone for RuleCombinator {
    fn clone(&self) -> (r: Self)
        ensures
            r@ == self@,
    {
        RuleCombinator {
            id: self.id.clone(),
            uri: self.uri.clone(),
            ns: clone_strings(self.ns.as_slice()),
        }
    }
}

impl QualifiedName for RuleCombinator {
    open spec fn qualified(&self) -> Option<Seq<char>> {
        Some(dotted(join(self@.ns, "."@), self@.id))
    }

    fn fully_qualified_name(&self) -> (r: Option<String>) {
        let mut qn = join_strings(self.ns.as_slice(), ".");
        qn.append(".");
        qn.append(self.id.as_str());
        Some(qn)
    }
}

impl RuleCombinator {
    /// The line that `to_string` returns.
    pub open spec fn display_text(&self) -> Seq<char> {
        "RuleCombinator: \""@ + dotted(join(self@.ns, "."@), self@.id) + "\" => "@ + debug_quoted(self@.uri)
    }

    /// One line that names the declaration and its URI.
    pub fn to_string(&self) -> (r: String)
        ensures
            r@ == self.display_text(),
    {
        let mut out = "RuleCombinator: \"".to_owned();
        let ns = join_strings(self.ns.as_slice(), ".");
        out.append(ns.as_str());
        out.append(".");
        out.append(self.id.as_str());
        out.append("\" => ");
        out.append(debug_quote(self.uri.as_str()).as_str());
        proof {
            assert(out@ =~= self.display_text());
        }
        out
    }
}

impl PrettyPrint for RuleCombinator {
    open spec fn listing(&self, margin: Seq<char>) -> Seq<char> {
        margin + self.display_text() + "\n"@
    }

    fn list(&self, margin: &str) -> (r: String) {
        let mut out = margin.to_owned();
        out.append(self.to_string().as_str());
        out.append("\n");
        out
    }
}

impl AsAlfa for RuleCombinator {
    open spec fn alfa_text(&self, indent_level: nat) -> Seq<char> {
        indent(indent_level) + "ruleCombinator "@ + self@.id + " = \""@ + self@.uri + "\"\n"@
    }

    fn to_alfa(&self, indent_level: usize) -> (r: String) {
        let mut out = indent_string(indent_level);
        out.append("ruleCombinator ");
        out.append(self.id.as_str());
        out.append(" = \"");
        out.append(self.uri.as_str());
        out.append("\"\n");
        out
    }
}

/// The table of the built-in rule-combining algorithms: what the rule-combining algorithm at the place `i` declares.
/// The places count from 0, in the order of declaration; there are 7.
pub open spec fn rule_combinator_row(i: int) -> DeclView {
    if i == 0 {
        DeclView { id: "denyOverrides"@, uri: "urn:oasis:names:tc:xacml:3.0:rule-combining-algorithm:deny-overrides"@, ns: seq![SYSTEM_NS@] }
    } else if i == 1 {
        DeclView { id: "denyUnlessPermit"@, uri: "urn:oasis:names:tc:xacml:3.0:rule-combining-algorithm:deny-unless-permit"@, ns: seq![SYSTEM_NS@] }
    } else if i == 2 {
        DeclView { id: "firstApplicable"@, uri: "urn:oasis:names:tc:xacml:1.0:rule-combining-algorithm:first-applicable"@, ns: seq![SYSTEM_NS@] }
    } else if i == 3 {
        DeclView { id: "orderedDenyOverrides"@, uri: "urn:oasis:names:tc:xacml:3.0:rule-combining-algorithm:ordered-deny-overrides"@, ns: seq![SYSTEM_NS@] }
    } else if i == 4 {
        DeclView { id: "orderedPermitOverrides"@, uri: "urn:oasis:names:tc:xacml:3.0:rule-combining-algorithm:ordered-permit-overrides"@, ns: seq![SYSTEM_NS@] }
    } else if i == 5 {
        DeclView { id: "permitUnlessDeny"@, uri: "urn:oasis:names:tc:xacml:3.0:rule-combining-algorithm:permit-unless-deny"@, ns: seq![SYSTEM_NS@] }
    } else {
        DeclView { id: "permitOverrides"@, uri: "urn:oasis:names:tc:xacml:3.0:rule-combining-algorithm:permit-overrides"@, ns: seq![SYSTEM_NS@] }
    }
}

/// The place in the table of the built-in rule-combining algorithm named `name`, and -1 for a
/// name that the table lacks.
pub open spec fn rule_combinator_place(name: Seq<char>) -> int {
    if name.len() == 13 {
        if name == "denyOverrides"@ {
            0
        } else {
            -1
        }
    } else if name.len() == 15 {
        if name[0] == 'f' {
            if name == "firstApplicable"@ {
                2
            } else {
                -1
            }
        } else if name[0] == 'p' {
            if name == "permitOverrides"@ {
                6
            } else {
                -1
            }
        } else {
            -1
        }
    } else if name.len() == 16 {
        if name[0] == 'd' {
            if name == "denyUnlessPermit"@ {
                1
            } else {
                -1
            }
        } else if name[0] == 'p' {
            if name == "permitUnlessDeny"@ {
                5
            } else {
                -1
            }
        } else {
            -1
        }
    } else if name.len() == 20 {
        if name == "orderedDenyOverrides"@ {
            3
        } else {
            -1
        }
    } else if name.len() == 22 {
        if name == "orderedPermitOverrides"@ {
            4
        } else {
            -1
        }
    } else {
        -1
    }
}

/// Each built-in rule-combining algorithm stands at its own place: the table names none twice.
pub proof fn lemma_rule_combinator_place(i: int)
    requires
        0 <= i < 7,
    ensures
        rule_combinator_place(rule_combinator_row(i).id) == i,
        rule_combinator_row(i).ns == seq![SYSTEM_NS@],
{
    reveal_strlit("denyOverrides");
    reveal_strlit("denyUnlessPermit");
    reveal_strlit("firstApplicable");
    reveal_strlit("orderedDenyOverrides");
    reveal_strlit("orderedPermitOverrides");
    reveal_strlit("permitUnlessDeny");
    reveal_strlit("permitOverrides");
}

/// The fully-qualified name of the built-in rule-combining algorithm at the place `i`.
pub open spec fn rule_combinator_name(i: int) -> Seq<char> {
    dotted(SYSTEM_NS@, rule_combinator_row(i).id)
}

/// Whether `k` is the fully-qualified name of a built-in rule-combining algorithm.
pub open spec fn rule_combinator_named(k: Seq<char>) -> bool {
    exists|i: int| 0 <= i < 7 && #[trigger] rule_combinator_name(i) == k
}

/// Whether `m` holds the built-in rule-combining algorithms, each under its fully-qualified
/// name, and nothing else.
pub open spec fn holds_rule_combinator_table(m: Map<Seq<char>, RuleCombinator>) -> bool {
    &&& forall|i: int|
        0 <= i < 7 ==> m.contains_key(#[trigger] rule_combinator_name(i)) && m[rule_combinator_name(i)]@ == rule_combinator_row(i)
    &&& forall|k: Seq<char>| #[trigger] m.contains_key(k) ==> rule_combinator_named(k)
}

/// The rows of the table have their fully-qualified names, no two the
/// same: they can be registered in an empty resolver.
pub proof fn lemma_rule_combinator_names(items: Seq<RuleCombinator>)
    requires
        items.len() == 7,
        forall|i: int| 0 <= i < 7 ==> (#[trigger] items[i])@ == rule_combinator_row(i),
    ensures
        forall|i: int| 0 <= i < 7 ==> (#[trigger] items[i]).qualified() == Some(rule_combinator_name(i)),
        forall|i: int, j: int|
            0 <= i < 7 && 0 <= j < 7 && i != j ==> #[trigger] rule_combinator_name(i) != #[trigger] rule_combinator_name(j),
        registrable(Map::<Seq<char>, RuleCombinator>::empty(), items),
{
    assert(join(seq![SYSTEM_NS@], "."@) == SYSTEM_NS@);
    assert forall|i: int| 0 <= i < 7 implies (#[trigger] items[i]).qualified() == Some(
        rule_combinator_name(i),
    ) by {
        lemma_rule_combinator_place(i);
        assert(items[i]@ == rule_combinator_row(i));
    }
    assert forall|i: int, j: int| 0 <= i < 7 && 0 <= j < 7 && i != j implies #[trigger] rule_combinator_name(
        i,
    ) != #[trigger] rule_combinator_name(j) by {
        if rule_combinator_name(i) == rule_combinator_name(j) {
            lemma_dotted_injective(SYSTEM_NS@, rule_combinator_row(i).id, rule_combinator_row(j).id);
            lemma_rule_combinator_place(i);
            lemma_rule_combinator_place(j);
        }
    }
}

/// A resolver that holds the rows of the table under their names, and
/// nothing but rows of the table, holds the table.
pub proof fn lemma_rule_combinator_registered(m: Map<Seq<char>, RuleCombinator>, items: Seq<RuleCombinator>)
    requires
        items.len() == 7,
        forall|i: int| 0 <= i < 7 ==> (#[trigger] items[i])@ == rule_combinator_row(i),
        forall|i: int|
            0 <= i < 7 ==> match (#[trigger] items[i]).qualified() {
                Some(n) => m.contains_key(n) && m[n] == items[i],
                None => true,
            },
        forall|k: Seq<char>| #[trigger]
            m.contains_key(k) ==> exists|i: int|
                0 <= i < 7 && (#[trigger] items[i]).qualified() == Some(k),
    ensures
        holds_rule_combinator_table(m),
{
    lemma_rule_combinator_names(items);
    assert forall|i: int| 0 <= i < 7 implies m.contains_key(#[trigger] rule_combinator_name(i)) && m[rule_combinator_name(
        i,
    )]@ == rule_combinator_row(i) by {
        assert(items[i].qualified() == Some(rule_combinator_name(i)));
    }
    assert forall|k: Seq<char>| #[trigger] m.contains_key(k) implies rule_combinator_named(k) by {
        let i = choose|i: int| 0 <= i < 7 && (#[trigger] items[i]).qualified() == Some(k);
        assert(rule_combinator_name(i) == k);
    }
}

/// A built-in rule-combining algorithm.
fn make_std_comb(id: &str, uri: &str) -> (r: RuleCombinator)
    ensures
        r@ == (DeclView { id: id@, uri: uri@, ns: seq![SYSTEM_NS@] }),
{
    let mut ns: Vec<String> = Vec::new();
    ns.push(SYSTEM_NS.to_owned());
    proof {
        assert(path_view(ns@) =~= seq![SYSTEM_NS@]);
    }
    RuleCombinator { id: id.to_owned(), uri: uri.to_owned(), ns }
}

/// The rule-combining algorithms that XACML defines, as built-in declarations.
pub fn standard_rulecombinators() -> (r: Vec<RuleCombinator>)
    ensures
        r@.len() == 7,
        forall|i: int| 0 <= i < 7 ==> (#[trigger] r@[i])@ == rule_combinator_row(i),
        r@[0]@ == (DeclView {
            id: "denyOverrides"@,
            uri: "urn:oasis:names:tc:xacml:3.0:rule-combining-algorithm:deny-overrides"@,
            ns: seq![SYSTEM_NS@],
        }),
        r@[1]@ == (DeclView {
            id: "denyUnlessPermit"@,
            uri: "urn:oasis:names:tc:xacml:3.0:rule-combining-algorithm:deny-unless-permit"@,
            ns: seq![SYSTEM_NS@],
        }),
        r@[2]@ == (DeclView {
            id: "firstApplicable"@,
            uri: "urn:oasis:names:tc:xacml:1.0:rule-combining-algorithm:first-applicable"@,
            ns: seq![SYSTEM_NS@],
        }),
        r@[3]@ == (DeclView {
            id: "orderedDenyOverrides"@,
            uri: "urn:oasis:names:tc:xacml:3.0:rule-combining-algorithm:ordered-deny-overrides"@,
            ns: seq![SYSTEM_NS@],
        }),
        r@[4]@ == (DeclView {
            id: "orderedPermitOverrides"@,
            uri: "urn:oasis:names:tc:xacml:3.0:rule-combining-algorithm:ordered-permit-overrides"@,
            ns: seq![SYSTEM_NS@],
        }),
        r@[5]@ == (DeclView {
            id: "permitUnlessDeny"@,
            uri: "urn:oasis:names:tc:xacml:3.0:rule-combining-algorithm:permit-unless-deny"@,
            ns: seq![SYSTEM_NS@],
        }),
        r@[6]@ == (DeclView {
            id: "permitOverrides"@,
            uri: "urn:oasis:names:tc:xacml:3.0:rule-combining-algorithm:permit-overrides"@,
            ns: seq![SYSTEM_NS@],
        }),
{
    let mut out: Vec<RuleCombinator> = Vec::new();
    out.push(
        make_std_comb(
            "denyOverrides",
            "urn:oasis:names:tc:xacml:3.0:rule-combining-algorithm:deny-overrides",
        ),
    );
    out.push(
        make_std_comb(
            "denyUnlessPermit",
            "urn:oasis:names:tc:xacml:3.0:rule-combining-algorithm:deny-unless-permit",
        ),
    );
    out.push(
        make_std_comb(
            "firstApplicable",
            "urn:oasis:names:tc:xacml:1.0:rule-combining-algorithm:first-applicable",
        ),
    );
    out.push(
        make_std_comb(
            "orderedDenyOverrides",
            "urn:oasis:names:tc:xacml:3.0:rule-combining-algorithm:ordered-deny-overrides",
        ),
    );
    out.push(
        make_std_comb(
            "orderedPermitOverrides",
            "urn:oasis:names:tc:xacml:3.0:rule-combining-algorithm:ordered-permit-overrides",
        ),
    );
    out.push(
        make_std_comb(
            "permitUnlessDeny",
            "urn:oasis:names:tc:xacml:3.0:rule-combining-algorithm:permit-unless-deny",
        ),
    );
    out.push(
        make_std_comb(
            "permitOverrides",
            "urn:oasis:names:tc:xacml:3.0:rule-combining-algorithm:permit-overrides",
        ),
    );
    out
}

/// A rule-combining algorithm of the protected namespace.
fn make_protected_comb(id: &str, uri: &str) -> (r: RuleCombinator)
    ensures
        r@ == (DeclView { id: id@, uri: uri@, ns: seq![PROTECTED_NS@] }),
{
    let mut ns: Vec<String> = Vec::new();
    ns.push(PROTECTED_NS.to_owned());
    proof {
        assert(path_view(ns@) =~= seq![PROTECTED_NS@]);
    }
    RuleCombinator { id: id.to_owned(), uri: uri.to_owned(), ns }
}

/// The rule-combining algorithm that deconditioning relies on. It is declared
/// in a namespace that is not imported by default.
pub fn protected_rulecombinators() -> (r: Vec<RuleCombinator>)
    ensures
        r@.len() == 1,
        r@[0]@ == (DeclView {
            id: "permitOverrides"@,
            uri: "urn:oasis:names:tc:xacml:3.0:rule-combining-algorithm:permit-overrides"@,
            ns: seq![PROTECTED_NS@],
        }),
{
    let mut out: Vec<RuleCombinator> = Vec::new();
    out.push(
        make_protected_comb(
            "permitOverrides",
            "urn:oasis:names:tc:xacml:3.0:rule-combining-algorithm:permit-overrides",
        ),
    );
    out
}

} // verus!
