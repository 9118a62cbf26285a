//! From the parse tree to the syntax tree.
//!
//! The nodes of a parse are read here: the text that a node took gives
//! names and literals, and the nodes below it give the parts of a
//! declaration, in the order of the source. Comments may stand between
//! the parts and are passed over.

use crate::ast::advice::AdviceDef;
use crate::ast::assemble::InfixPart;
use crate::ast::attribute::Attribute;
use crate::ast::category::Category;
use crate::ast::assemble::RuleStatement;
use crate::ast::condition::{
    CondAtomUnparsed, CondExpressionUnparsed, CondFunctionCallUnparsed, CondItemUnparsed,
    Condition, ConditionUnparsed, FunctionReference,
};
use crate::ast::constant::{Constant, ConstantView, CustomType};
use crate::ast::naming::GenName;
use crate::ast::prescription::{
    AttrAssignmentSource, AttributeAssignment, Prescription, PrescriptionExpr, PrescriptionType,
};
use crate::ast::rule::{Effect, RuleDef};
use crate::ast::designator::AttributeDesignator;
use crate::ast::function::{Function, FunctionInputArg, FunctionInputs, FunctionOutputArg};
use crate::ast::import::{Import, ImportView};
use crate::ast::infix::{Infix, InfixSignature};
use crate::ast::obligation::ObligationDef;
use crate::ast::operator::Operator;
use crate::ast::policycombinator::PolicyCombinator;
use crate::ast::rulecombinator::RuleCombinator;
use crate::ast::target::{
    ConjunctiveSeq, DisjunctiveSeq, Match, MatchFunction, MatchOperation, Target,
};
use crate::ast::typedef::TypeDef;
use crate::ast::{dot_parts, split_dotted_string, DeclView};
use crate::errors::{span_contents, trimmed_len, ErrorKind, ParseError, SrcLoc, SrcLocView};
use crate::grammar::{part, part_of, Pair, Rule};
use crate::peg::{to_chars, Node};
use crate::text::{clone_strings, opt_view, path_view, same_text};
use vstd::prelude::*;
use vstd::string::*;

verus! {

/// The text that the node `n` took of `src`.
pub open spec fn text_of(src: Seq<char>, n: Node) -> Seq<char> {
    part(src, n.start as int, n.end as int)
}

/// The text that the node `n` took of `src`.
pub fn node_text<'a>(src: &'a str, n: &Node) -> (r: &'a str)
    ensures
        r@ == text_of(src@, *n),
{
    part_of(src, n.start, n.end)
}

/// The position of the first of `nodes` from `i` on that is no comment;
/// the number of nodes where there is none.
pub open spec fn next_at(nodes: Seq<Node>, i: int) -> int
    decreases nodes.len() - i,
{
    if 0 <= i < nodes.len() && nodes[i].rule == Rule::COMMENT {
        next_at(nodes, i + 1)
    } else {
        i
    }
}

/// The position of the first of `nodes` from `i` on that is no comment.
pub fn skip_comments(nodes: &Vec<Node>, i: usize) -> (r: usize)
    requires
        i <= nodes@.len(),
    ensures
        r == next_at(nodes@, i as int),
        i <= r <= nodes@.len(),
        r < nodes@.len() ==> nodes@[r as int].rule != Rule::COMMENT,
{
    let mut at = i;
    while at < nodes.len() && is_comment(&nodes[at])
        invariant
            i <= at <= nodes@.len(),
            next_at(nodes@, i as int) == next_at(nodes@, at as int),
        decreases nodes@.len() - at,
    {
        at = at + 1;
    }
    at
}

fn is_comment(n: &Node) -> (r: bool)
    ensures
        r == (n.rule == Rule::COMMENT),
{
    match n.rule {
        Rule::COMMENT => true,
        _ => false,
    }
}

/// Those of `nodes` from the position `from` up to the position `to`
/// that are no comments, in order.
pub open spec fn kept(nodes: Seq<Node>, from: int, to: int) -> Seq<Node>
    decreases to - from,
{
    if from < 0 || to <= from || to > nodes.len() {
        Seq::empty()
    } else if nodes[to - 1].rule == Rule::COMMENT {
        kept(nodes, from, to - 1)
    } else {
        kept(nodes, from, to - 1).push(nodes[to - 1])
    }
}

/// What is kept of fewer nodes stands at the start of what is kept of
/// more.
pub proof fn lemma_kept_prefix(nodes: Seq<Node>, from: int, a: int, b: int)
    requires
        0 <= from <= a <= b <= nodes.len(),
    ensures
        kept(nodes, from, a).len() <= kept(nodes, from, b).len(),
        forall|k: int|
            0 <= k < kept(nodes, from, a).len() ==> kept(nodes, from, b)[k] == kept(
                nodes,
                from,
                a,
            )[k],
    decreases b - a,
{
    if a < b {
        lemma_kept_prefix(nodes, from, a, b - 1);
    }
}

/// Where the double quotes end that stand in `s` from `lo` on, below `hi`.
pub open spec fn quotes_front(s: Seq<char>, lo: int, hi: int) -> int
    decreases hi - lo,
{
    if 0 <= lo < hi <= s.len() && s[lo] == '"' {
        quotes_front(s, lo + 1, hi)
    } else {
        lo
    }
}

/// Where the double quotes start that stand at the end of `s` below `hi`,
/// from `lo` on.
pub open spec fn quotes_back(s: Seq<char>, lo: int, hi: int) -> int
    decreases hi - lo,
{
    if 0 <= lo < hi <= s.len() && s[hi - 1] == '"' {
        quotes_back(s, lo, hi - 1)
    } else {
        hi
    }
}

/// `s` without the double quotes at its start and at its end, however
/// many there are.
pub open spec fn without_quotes(s: Seq<char>) -> Seq<char> {
    let a = quotes_front(s, 0, s.len() as int);
    let b = quotes_back(s, a, s.len() as int);
    s.subrange(a, b)
}

/// `text` without the double quotes at its start and at its end.
pub fn trim_quotes(text: &str) -> (r: &str)
    ensures
        r@ == without_quotes(text@),
{
    let s = to_chars(text);
    let n = s.len();
    let mut a: usize = 0;
    while a < n && s[a] == '"'
        invariant
            a <= n,
            n == s@.len(),
            quotes_front(s@, 0, n as int) == quotes_front(s@, a as int, n as int),
        decreases n - a,
    {
        a = a + 1;
    }
    let mut b: usize = n;
    while a < b && s[b - 1] == '"'
        invariant
            a <= b <= n,
            n == s@.len(),
            quotes_back(s@, a as int, n as int) == quotes_back(s@, a as int, b as int),
        decreases b - a,
    {
        b = b - 1;
    }
    text.substring_char(a, b)
}

/// The parts of a name with dots.
pub fn name_parts(text: &str) -> (r: Vec<String>)
    ensures
        path_view(r@) == dot_parts(text@, 0, 0),
{
    let (mut front, last) = split_dotted_string(text);
    let ghost before = path_view(front@);
    front.push(last);
    proof {
        assert(path_view(front@) =~= before.push(last@));
    }
    front
}

/// The error with which `unescaper::unescape` refuses a string.
#[verifier::external_type_specification]
#[verifier::external_body]
pub struct ExUnescapeError(unescaper::Error);

/// The text of a string with its escape sequences replaced by what they
/// stand for, as `unescaper::unescape` replaces them; nothing where an
/// escape sequence is not well formed.
pub uninterp spec fn unescaped(s: Seq<char>) -> Option<Seq<char>>;

/// `s` with its escape sequences replaced, by `unescaper::unescape`. The
/// function reads nothing but the characters of `s`, so its result is named
/// after them; which sequences it knows, and what each stands for, is not
/// stated here.
#[verifier::external_body]
fn unescape_text(s: &str) -> (r: Result<String, unescaper::Error>)
    ensures
        match unescaped(s@) {
            Some(u) => r matches Ok(x) && x@ == u,
            None => r is Err,
        },
{
    unescaper::unescape(s)
}

/// The string constant for the content `content` of a string literal, once
/// its escape sequences are replaced: `replaced` is what the replacement
/// gave. A content with an escape sequence that is not well formed is
/// refused with `AstConvertError`.
pub fn string_constant(replaced: Result<String, unescaper::Error>) -> (r: Result<
    Constant,
    ParseError,
>)
    ensures
        match replaced {
            Ok(u) => r == Ok::<Constant, ParseError>(Constant::String(u)),
            Err(_) => r == Err::<Constant, ParseError>(ParseError::AstConvertError),
        },
{
    match replaced {
        Ok(u) => Ok(Constant::String(u)),
        Err(_) => Err(ParseError::AstConvertError),
    }
}

/// What stands between the quotes of the string literal `n`: the text of
/// the first node below the first node below `n`, comments apart.
pub open spec fn string_content(src: Seq<char>, n: Node) -> Option<Seq<char>> {
    let a = next_at(n.children@, 0);
    if a < n.children@.len() {
        let quoted = n.children@[a];
        let b = next_at(quoted.children@, 0);
        if b < quoted.children@.len() {
            Some(text_of(src, quoted.children@[b]))
        } else {
            None
        }
    } else {
        None
    }
}

/// What stands between the quotes of the string literal `n`, as written;
/// `AstConvertError` for a node that is built otherwise.
pub fn string_from_string_literal<'a>(src: &'a str, n: &Node) -> (r: Result<&'a str, ParseError>)
    ensures
        match string_content(src@, *n) {
            Some(c) => r matches Ok(t) && t@ == c,
            None => r == Err::<&str, ParseError>(ParseError::AstConvertError),
        },
{
    let a = skip_comments(&n.children, 0);
    if a >= n.children.len() {
        return Err(ParseError::AstConvertError);
    }
    let quoted = &n.children[a];
    let b = skip_comments(&quoted.children, 0);
    if b >= quoted.children.len() {
        return Err(ParseError::AstConvertError);
    }
    Ok(node_text(src, &quoted.children[b]))
}

/// The constant that the literal `n` stands for.
///
/// A number stands for a double where it has a point, and else for an
/// integer, both as written. `true` and `false` stand for the booleans.
/// A string literal stands for its content with the escape sequences
/// replaced; with the name of a type behind a colon it stands for its
/// content, as written, as a value of that type.
pub open spec fn constant_at(src: Seq<char>, n: Node) -> Result<ConstantView, ErrorKind> {
    let t = text_of(src, n);
    match n.rule {
        Rule::numeric_literal => if t.contains('.') {
            Ok(ConstantView::Double(t))
        } else {
            Ok(ConstantView::Integer(t))
        },
        Rule::boolean_literal => if t == "true"@ {
            Ok(ConstantView::Boolean(true))
        } else if t == "false"@ {
            Ok(ConstantView::Boolean(false))
        } else {
            Err(ErrorKind::AstConvertError)
        },
        Rule::string_literal => match string_content(src, n) {
            Some(c) => match unescaped(c) {
                Some(u) => Ok(ConstantView::String(u)),
                None => Err(ErrorKind::AstConvertError),
            },
            None => Err(ErrorKind::AstConvertError),
        },
        Rule::custom_literal => {
            let a = next_at(n.children@, 0);
            let b = next_at(n.children@, a + 1);
            if b < n.children@.len() {
                match string_content(src, n.children@[a]) {
                    Some(c) => Ok(ConstantView::Custom(text_of(src, n.children@[b]), c)),
                    None => Err(ErrorKind::AstConvertError),
                }
            } else {
                Err(ErrorKind::AstConvertError)
            }
        },
        _ => Err(ErrorKind::AstConvertError),
    }
}

fn has_point(text: &str) -> (r: bool)
    ensures
        r == text@.contains('.'),
{
    let s = to_chars(text);
    let mut i: usize = 0;
    while i < s.len()
        invariant
            i <= s.len(),
            s@ == text@,
            forall|j: int| 0 <= j < i ==> s@[j] != '.',
        decreases s.len() - i,
    {
        if s[i] == '.' {
            return true;
        }
        i = i + 1;
    }
    false
}

/// The constant that the literal `n` stands for, as `constant_at` states
/// it.
pub fn constant_from_node(src: &str, n: &Node) -> (r: Result<Constant, ParseError>)
    ensures
        match constant_at(src@, *n) {
            Ok(v) => r matches Ok(c) && c@ == v,
            Err(k) => r matches Err(e) && e.spec_kind() == k,
        },
{
    let text = node_text(src, n);
    match n.rule {
        Rule::numeric_literal => {
            if has_point(text) {
                Ok(Constant::Double(text.to_owned()))
            } else {
                Ok(Constant::Integer(text.to_owned()))
            }
        },
        Rule::boolean_literal => {
            if same_text(text, "true") {
                Ok(Constant::Boolean(true))
            } else if same_text(text, "false") {
                Ok(Constant::Boolean(false))
            } else {
                Err(ParseError::AstConvertError)
            }
        },
        Rule::string_literal => {
            let content = string_from_string_literal(src, n)?;
            string_constant(unescape_text(content))
        },
        Rule::custom_literal => {
            let a = skip_comments(&n.children, 0);
            if a >= n.children.len() {
                return Err(ParseError::AstConvertError);
            }
            let b = skip_comments(&n.children, a + 1);
            if b >= n.children.len() {
                return Err(ParseError::AstConvertError);
            }
            let value = string_from_string_literal(src, &n.children[a])?;
            let name = node_text(src, &n.children[b]);
            Ok(Constant::Custom(CustomType { name: name.to_owned() }, value.to_owned()))
        },
        _ => Err(ParseError::AstConvertError),
    }
}

/// The constant that a literal stands for, as `constant_at` states it of
/// the node of the literal.
pub fn constant_from_token(tok: Pair) -> (r: Result<Constant, ParseError>)
    ensures
        match constant_at(tok.spec_input(), tok.spec_tree()) {
            Ok(v) => r matches Ok(c) && c@ == v,
            Err(k) => r matches Err(e) && e.spec_kind() == k,
        },
{
    let (src, node) = tok.into_parts();
    constant_from_node(src, &node)
}

/// The operator that the text `text` of an operator with its namespace
/// stands for: the names in front of the last dot are the namespace, and
/// what stands behind it is the operator.
pub fn operator_of(text: &str) -> (r: Operator)
    ensures
        path_view(r.ns@).push(r.operator@) == dot_parts(text@, 0, 0),
{
    let (ns, operator) = split_dotted_string(text);
    Operator { ns, operator }
}

/// The operator that an operator with its namespace stands for.
pub fn process_operator(op_ident: &Pair) -> (r: Result<Operator, ParseError>)
    ensures
        r matches Ok(o) && path_view(o.ns@).push(o.operator@) == dot_parts(
            op_ident.spec_text(),
            0,
            0,
        ),
{
    Ok(operator_of(op_ident.as_str()))
}

/// What the options of an attribute designator say, from the entry `i`
/// on: whether the attribute must be present, and the issuer, where `must`
/// and `issuer` were said before. Of several issuers the last counts.
pub open spec fn options_from(
    src: Seq<char>,
    entries: Seq<Node>,
    i: int,
    must: bool,
    issuer: Option<Seq<char>>,
) -> Result<(bool, Option<Seq<char>>), ErrorKind>
    decreases entries.len() - i,
{
    if i < 0 || i >= entries.len() {
        Ok((must, issuer))
    } else if entries[i].rule == Rule::mustbepresent {
        options_from(src, entries, i + 1, true, issuer)
    } else if entries[i].rule == Rule::issuer {
        let inner = entries[i].children@;
        let s = next_at(inner, 0);
        if 0 <= s < inner.len() {
            match string_content(src, inner[s]) {
                Some(c) => options_from(src, entries, i + 1, must, Some(c)),
                None => Err(ErrorKind::AstConvertError),
            }
        } else {
            Err(ErrorKind::AstConvertError)
        }
    } else {
        options_from(src, entries, i + 1, must, issuer)
    }
}

/// What the attribute designator `n` says: the parts of the attribute's
/// name, whether the attribute must be present, and the issuer.
pub open spec fn designator_at(src: Seq<char>, n: Node) -> Result<
    (Seq<Seq<char>>, bool, Option<Seq<char>>),
    ErrorKind,
> {
    let a = next_at(n.children@, 0);
    if a < n.children@.len() && n.children@[a].rule == Rule::elem_identifier {
        let name = dot_parts(text_of(src, n.children@[a]), 0, 0);
        let b = next_at(n.children@, a + 1);
        if b < n.children@.len() {
            match options_from(src, n.children@[b].children@, 0, false, None) {
                Ok((must, issuer)) => Ok((name, must, issuer)),
                Err(k) => Err(k),
            }
        } else {
            Ok((name, false, None))
        }
    } else {
        Err(ErrorKind::AstConvertError)
    }
}

pub(crate) fn rule_is(n: &Node, rule: Rule) -> (r: bool)
    ensures
        r == (n.rule == rule),
{
    n.rule == rule
}

/// The attribute designator that the node `n` stands for, as
/// `designator_at` states it.
#[verifier::loop_isolation(false)]
pub fn process_attribute_designator(src: &str, n: &Node) -> (r: Result<
    AttributeDesignator,
    ParseError,
>)
    ensures
        match designator_at(src@, *n) {
            Ok((name, must, issuer)) => {
                &&& r matches Ok(d)
                &&& path_view(d.attribute@) == name
                &&& d.mustbepresent == must
                &&& opt_view(d.issuer) == issuer
            },
            Err(k) => r matches Err(e) && e.spec_kind() == k,
        },
{
    let a = skip_comments(&n.children, 0);
    if a >= n.children.len() || !rule_is(&n.children[a], Rule::elem_identifier) {
        return Err(ParseError::AstConvertError);
    }
    let attribute = name_parts(node_text(src, &n.children[a]));
    let mut mustbepresent = false;
    let mut issuer: Option<String> = None;
    let b = skip_comments(&n.children, a + 1);
    if b < n.children.len() {
        let entries = &n.children[b].children;
        let mut i: usize = 0;
        while i < entries.len()
            invariant
                i <= entries@.len(),
                options_from(src@, entries@, 0, false, None) == options_from(
                    src@,
                    entries@,
                    i as int,
                    mustbepresent,
                    opt_view(issuer),
                ),
            decreases entries@.len() - i,
        {
            let entry = &entries[i];
            if rule_is(entry, Rule::mustbepresent) {
                mustbepresent = true;
            } else if rule_is(entry, Rule::issuer) {
                let s = skip_comments(&entry.children, 0);
                if s >= entry.children.len() {
                    return Err(ParseError::AstConvertError);
                }
                let content = string_from_string_literal(src, &entry.children[s])?;
                issuer = Some(content.to_owned());
            }
            i = i + 1;
        }
    }
    Ok(AttributeDesignator { attribute, issuer, mustbepresent })
}

/// The name and the URI of a declaration of a name for a URI, of which
/// `nodes` are the parts: the text of the first part is the name, and
/// the text of the second, without the double quotes around it, the URI.
pub open spec fn named_uri(src: Seq<char>, nodes: Seq<Node>) -> Option<(Seq<char>, Seq<char>)> {
    let a = next_at(nodes, 0);
    let b = next_at(nodes, a + 1);
    if 0 <= a < b < nodes.len() {
        Some((text_of(src, nodes[a]), without_quotes(text_of(src, nodes[b]))))
    } else {
        None
    }
}

fn name_and_uri(src: &str, nodes: &Vec<Node>) -> (r: Result<(String, String), ParseError>)
    ensures
        match named_uri(src@, nodes@) {
            Some((id, uri)) => r matches Ok(p) && p.0@ == id && p.1@ == uri,
            None => r == Err::<(String, String), ParseError>(ParseError::AstConvertError),
        },
{
    let a = skip_comments(nodes, 0);
    if a >= nodes.len() {
        return Err(ParseError::AstConvertError);
    }
    let b = skip_comments(nodes, a + 1);
    if b >= nodes.len() {
        return Err(ParseError::AstConvertError);
    }
    let id = node_text(src, &nodes[a]).to_owned();
    let uri = trim_quotes(node_text(src, &nodes[b])).to_owned();
    Ok((id, uri))
}

/// The type that is declared in the namespace `ns` by the parts `nodes`,
/// as `named_uri` states its name and its URI.
pub fn process_typedef(
    src: &str,
    nodes: &Vec<Node>,
    ns: Vec<String>,
) -> (r: Result<TypeDef, ParseError>)
    ensures
        match named_uri(src@, nodes@) {
            Some((id, uri)) => r matches Ok(d) && d@ == (DeclView { id, uri, ns: path_view(ns@) }),
            None => r == Err::<TypeDef, ParseError>(ParseError::AstConvertError),
        },
{
    let (id, uri) = name_and_uri(src, nodes)?;
    Ok(TypeDef { id, uri, ns })
}

/// The category that is declared in the namespace `ns` by the parts `nodes`,
/// as `named_uri` states its name and its URI.
pub fn process_category(
    src: &str,
    nodes: &Vec<Node>,
    ns: Vec<String>,
) -> (r: Result<Category, ParseError>)
    ensures
        match named_uri(src@, nodes@) {
            Some((id, uri)) => r matches Ok(d) && d@ == (DeclView { id, uri, ns: path_view(ns@) }),
            None => r == Err::<Category, ParseError>(ParseError::AstConvertError),
        },
{
    let (id, uri) = name_and_uri(src, nodes)?;
    Ok(Category { id, uri, ns })
}

/// The advice that is declared in the namespace `ns` by the parts `nodes`,
/// as `named_uri` states its name and its URI.
pub fn process_advice(
    src: &str,
    nodes: &Vec<Node>,
    ns: Vec<String>,
) -> (r: Result<AdviceDef, ParseError>)
    ensures
        match named_uri(src@, nodes@) {
            Some((id, uri)) => r matches Ok(d) && d@ == (DeclView { id, uri, ns: path_view(ns@) }),
            None => r == Err::<AdviceDef, ParseError>(ParseError::AstConvertError),
        },
{
    let (id, uri) = name_and_uri(src, nodes)?;
    Ok(AdviceDef { id, uri, ns })
}

/// The obligation that is declared in the namespace `ns` by the parts `nodes`,
/// as `named_uri` states its name and its URI.
pub fn process_obligation(
    src: &str,
    nodes: &Vec<Node>,
    ns: Vec<String>,
) -> (r: Result<ObligationDef, ParseError>)
    ensures
        match named_uri(src@, nodes@) {
            Some((id, uri)) => r matches Ok(d) && d@ == (DeclView { id, uri, ns: path_view(ns@) }),
            None => r == Err::<ObligationDef, ParseError>(ParseError::AstConvertError),
        },
{
    let (id, uri) = name_and_uri(src, nodes)?;
    Ok(ObligationDef { id, uri, ns })
}

/// The rule-combining algorithm that is declared in the namespace `ns` by the parts `nodes`,
/// as `named_uri` states its name and its URI.
pub fn process_rulecombinator(
    src: &str,
    nodes: &Vec<Node>,
    ns: Vec<String>,
) -> (r: Result<RuleCombinator, ParseError>)
    ensures
        match named_uri(src@, nodes@) {
            Some((id, uri)) => r matches Ok(d) && d@ == (DeclView { id, uri, ns: path_view(ns@) }),
            None => r == Err::<RuleCombinator, ParseError>(ParseError::AstConvertError),
        },
{
    let (id, uri) = name_and_uri(src, nodes)?;
    Ok(RuleCombinator { id, uri, ns })
}

/// The policy-combining algorithm that is declared in the namespace `ns` by the parts `nodes`,
/// as `named_uri` states its name and its URI.
pub fn process_policycombinator(
    src: &str,
    nodes: &Vec<Node>,
    ns: Vec<String>,
) -> (r: Result<PolicyCombinator, ParseError>)
    ensures
        match named_uri(src@, nodes@) {
            Some((id, uri)) => r matches Ok(d) && d@ == (DeclView { id, uri, ns: path_view(ns@) }),
            None => r == Err::<PolicyCombinator, ParseError>(ParseError::AstConvertError),
        },
{
    let (id, uri) = name_and_uri(src, nodes)?;
    Ok(PolicyCombinator { id, uri, ns })
}

/// Whether the node `n` names the type of an argument or of a result.
pub open spec fn argument_valid(n: Node) -> bool {
    match n.rule {
        Rule::func_bag_ident => 0 <= next_at(n.children@, 0) < n.children@.len(),
        Rule::func_anyatomic | Rule::func_bag_anyatomic | Rule::func_atomicorbag
        | Rule::ns_identifier | Rule::func_fn => true,
        _ => false,
    }
}

/// Whether `x` is the type that the node `n` names: a bag of a named
/// type, any atomic type, a bag of any atomic type, any atomic type or
/// bag, a named type, or a function.
pub open spec fn is_argument(src: Seq<char>, n: Node, x: FunctionInputArg) -> bool {
    match x {
        FunctionInputArg::AtomicBag(t) => {
            let a = next_at(n.children@, 0);
            &&& n.rule == Rule::func_bag_ident
            &&& 0 <= a < n.children@.len()
            &&& t@ == text_of(src, n.children@[a])
        },
        FunctionInputArg::AnyAtomic => n.rule == Rule::func_anyatomic,
        FunctionInputArg::AnyAtomicBag => n.rule == Rule::func_bag_anyatomic,
        FunctionInputArg::AnyAtomicOrBag => n.rule == Rule::func_atomicorbag,
        FunctionInputArg::Atomic(t) => n.rule == Rule::ns_identifier && t@ == text_of(src, n),
        FunctionInputArg::Function => n.rule == Rule::func_fn,
    }
}

/// The type that the node `n` names, as `is_argument` states it; a node
/// that names no type is refused with `AstConvertError`.
pub(crate) fn argument_type(src: &str, n: &Node) -> (r: Result<FunctionInputArg, ParseError>)
    ensures
        if argument_valid(*n) {
            r matches Ok(x) && is_argument(src@, *n, x)
        } else {
            r == Err::<FunctionInputArg, ParseError>(ParseError::AstConvertError)
        },
{
    match n.rule {
        Rule::func_bag_ident => {
            let a = skip_comments(&n.children, 0);
            if a >= n.children.len() {
                return Err(ParseError::AstConvertError);
            }
            Ok(FunctionInputArg::AtomicBag(node_text(src, &n.children[a]).to_owned()))
        },
        Rule::func_anyatomic => Ok(FunctionInputArg::AnyAtomic),
        Rule::func_bag_anyatomic => Ok(FunctionInputArg::AnyAtomicBag),
        Rule::func_atomicorbag => Ok(FunctionInputArg::AnyAtomicOrBag),
        Rule::ns_identifier => Ok(FunctionInputArg::Atomic(node_text(src, n).to_owned())),
        Rule::func_fn => Ok(FunctionInputArg::Function),
        _ => Err(ParseError::AstConvertError),
    }
}

/// The nodes of the argument types that the node `n` lists: the nodes
/// that are no comments below the first node below the first node of
/// `n`; none where one of the two is missing.
pub open spec fn argument_nodes(n: Node) -> Seq<Node> {
    let a = next_at(n.children@, 0);
    if 0 <= a < n.children@.len() {
        let tok = n.children@[a];
        let b = next_at(tok.children@, 0);
        if 0 <= b < tok.children@.len() {
            kept(tok.children@[b].children@, 0, tok.children@[b].children@.len() as int)
        } else {
            Seq::empty()
        }
    } else {
        Seq::empty()
    }
}

/// Whether the node `n` lists argument types: each of its argument
/// nodes names a type.
pub open spec fn inputs_valid(n: Node) -> bool {
    forall|k: int| 0 <= k < argument_nodes(n).len() ==> argument_valid(#[trigger] argument_nodes(n)[k])
}

/// Whether `x` holds the argument types that the node `n` lists: the
/// type of each argument node, in order, and whether the first node
/// below `n` says that the last type may be repeated.
pub open spec fn is_inputs(src: Seq<char>, n: Node, x: FunctionInputs) -> bool {
    let a = next_at(n.children@, 0);
    &&& x.wildcard == (0 <= a < n.children@.len() && n.children@[a].rule == Rule::wildcard_arg)
    &&& x.args@.len() == argument_nodes(n).len()
    &&& forall|k: int|
        0 <= k < x.args@.len() ==> is_argument(src, argument_nodes(n)[k], #[trigger] x.args@[k])
}

/// The argument types that the node `n` lists, as `is_inputs` states
/// it; a node with an argument node that names no type is refused with
/// `AstConvertError`.
#[verifier::loop_isolation(false)]
pub(crate) fn process_function_arguments(src: &str, n: &Node) -> (r: Result<
    FunctionInputs,
    ParseError,
>)
    ensures
        if inputs_valid(*n) {
            r matches Ok(x) && is_inputs(src@, *n, x)
        } else {
            r == Err::<FunctionInputs, ParseError>(ParseError::AstConvertError)
        },
{
    let mut args: Vec<FunctionInputArg> = Vec::new();
    let a = skip_comments(&n.children, 0);
    if a >= n.children.len() {
        return Ok(FunctionInputs { args, wildcard: false });
    }
    let tok = &n.children[a];
    let wildcard = rule_is(tok, Rule::wildcard_arg);
    let b = skip_comments(&tok.children, 0);
    if b < tok.children.len() {
        let list = &tok.children[b].children;
        let mut i: usize = 0;
        while i < list.len()
            invariant
                i <= list@.len(),
                args@.len() == kept(list@, 0, i as int).len(),
                forall|k: int|
                    0 <= k < args@.len() ==> is_argument(
                        src@,
                        kept(list@, 0, i as int)[k],
                        #[trigger] args@[k],
                    ),
                forall|k: int|
                    0 <= k < kept(list@, 0, i as int).len() ==> argument_valid(
                        #[trigger] kept(list@, 0, i as int)[k],
                    ),
            decreases list@.len() - i,
        {
            if !is_comment(&list[i]) {
                let ghost before = kept(list@, 0, i as int);
                proof {
                    lemma_kept_prefix(list@, 0, i + 1, list@.len() as int);
                    assert(kept(list@, 0, i + 1) == before.push(list@[i as int]));
                    assert(argument_nodes(*n)[before.len() as int] == list@[i as int]);
                }
                match argument_type(src, &list[i]) {
                    Ok(t) => args.push(t),
                    Err(e) => {
                        return Err(e);
                    },
                }
            }
            i = i + 1;
        }
    }
    Ok(FunctionInputs { args, wildcard })
}

/// Whether the node `n` names the type of a result: the first node
/// below it that is no comment names a type that is no function and not
/// any atomic type or bag.
pub open spec fn output_valid(n: Node) -> bool {
    let a = next_at(n.children@, 0);
    &&& 0 <= a < n.children@.len()
    &&& argument_valid(n.children@[a])
    &&& n.children@[a].rule != Rule::func_atomicorbag
    &&& n.children@[a].rule != Rule::func_fn
}

/// Whether `x` is the type of a result that the node `n` names.
pub open spec fn is_output(src: Seq<char>, n: Node, x: FunctionOutputArg) -> bool {
    let a = next_at(n.children@, 0);
    &&& 0 <= a < n.children@.len()
    &&& is_argument(
        src,
        n.children@[a],
        match x {
            FunctionOutputArg::AtomicBag(t) => FunctionInputArg::AtomicBag(t),
            FunctionOutputArg::AnyAtomic => FunctionInputArg::AnyAtomic,
            FunctionOutputArg::AnyAtomicBag => FunctionInputArg::AnyAtomicBag,
            FunctionOutputArg::Atomic(t) => FunctionInputArg::Atomic(t),
        },
    )
}

/// The result type that the node `n` names, as `is_output` states it; a
/// node that names none is refused with `AstConvertError`.
pub(crate) fn process_function_output(src: &str, n: &Node) -> (r: Result<
    FunctionOutputArg,
    ParseError,
>)
    ensures
        if output_valid(*n) {
            r matches Ok(x) && is_output(src@, *n, x)
        } else {
            r == Err::<FunctionOutputArg, ParseError>(ParseError::AstConvertError)
        },
{
    let a = skip_comments(&n.children, 0);
    if a >= n.children.len() {
        return Err(ParseError::AstConvertError);
    }
    match argument_type(src, &n.children[a])? {
        FunctionInputArg::AtomicBag(t) => Ok(FunctionOutputArg::AtomicBag(t)),
        FunctionInputArg::AnyAtomic => Ok(FunctionOutputArg::AnyAtomic),
        FunctionInputArg::AnyAtomicBag => Ok(FunctionOutputArg::AnyAtomicBag),
        FunctionInputArg::Atomic(t) => Ok(FunctionOutputArg::Atomic(t)),
        _ => Err(ParseError::AstConvertError),
    }
}

/// Where the result type stands among the parts `nodes` of a function
/// declaration whose third part stands at `c`: behind the argument
/// types, where the third part lists them, and else at `c`.
pub open spec fn output_at(nodes: Seq<Node>, c: int) -> int {
    if nodes[c].rule == Rule::function_args {
        next_at(nodes, c + 1)
    } else {
        c
    }
}

/// Whether the node `n` declares a function: a name, a URI in quotes,
/// argument types where there are any, and a result type.
pub open spec fn function_valid(src: Seq<char>, n: Node) -> bool {
    let nodes = n.children@;
    let a = next_at(nodes, 0);
    let b = next_at(nodes, a + 1);
    let c = next_at(nodes, b + 1);
    &&& 0 <= a < b < c < nodes.len()
    &&& nodes[a].rule == Rule::function_name
    &&& nodes[b].rule == Rule::string_literal
    &&& string_content(src, nodes[b]) is Some
    &&& (nodes[c].rule == Rule::function_args ==> inputs_valid(nodes[c]))
    &&& 0 <= output_at(nodes, c) < nodes.len()
    &&& nodes[output_at(nodes, c)].rule == Rule::func_out
    &&& output_valid(nodes[output_at(nodes, c)])
}

/// Whether `f` is the function that the node `n` declares: with the
/// text of the first part as its name, what stands between the quotes
/// of the second as its URI, the argument types that the third lists,
/// or none where it lists none, and the result type that the last names.
pub open spec fn is_function(src: Seq<char>, n: Node, f: Function) -> bool {
    let nodes = n.children@;
    let a = next_at(nodes, 0);
    let b = next_at(nodes, a + 1);
    let c = next_at(nodes, b + 1);
    &&& 0 <= a < b < c < nodes.len()
    &&& f.id@ == text_of(src, nodes[a])
    &&& Some(f.function_uri@) == string_content(src, nodes[b])
    &&& if nodes[c].rule == Rule::function_args {
        is_inputs(src, nodes[c], f.input_args)
    } else {
        f.input_args.args@.len() == 0 && !f.input_args.wildcard
    }
    &&& 0 <= output_at(nodes, c) < nodes.len()
    &&& is_output(src, nodes[output_at(nodes, c)], f.output_arg)
}

/// The function that the node `n` declares in the namespace `ns`, as
/// `is_function` states it; a node that declares none is refused with
/// `AstConvertError`.
pub(crate) fn process_function(src: &str, n: &Node, ns: Vec<String>) -> (r: Result<
    Function,
    ParseError,
>)
    ensures
        if function_valid(src@, *n) {
            r matches Ok(f) && f.ns == ns && is_function(src@, *n, f)
        } else {
            r == Err::<Function, ParseError>(ParseError::AstConvertError)
        },
{
    let nodes = &n.children;
    let a = skip_comments(nodes, 0);
    if a >= nodes.len() || !rule_is(&nodes[a], Rule::function_name) {
        return Err(ParseError::AstConvertError);
    }
    let id = node_text(src, &nodes[a]).to_owned();
    let b = skip_comments(nodes, a + 1);
    if b >= nodes.len() || !rule_is(&nodes[b], Rule::string_literal) {
        return Err(ParseError::AstConvertError);
    }
    let function_uri = string_from_string_literal(src, &nodes[b])?.to_owned();
    let c = skip_comments(nodes, b + 1);
    if c >= nodes.len() {
        return Err(ParseError::AstConvertError);
    }
    let (input_args, d) = if rule_is(&nodes[c], Rule::function_args) {
        (process_function_arguments(src, &nodes[c])?, skip_comments(nodes, c + 1))
    } else {
        (FunctionInputs { args: Vec::new(), wildcard: false }, c)
    };
    if d >= nodes.len() || !rule_is(&nodes[d], Rule::func_out) {
        return Err(ParseError::AstConvertError);
    }
    let output_arg = process_function_output(src, &nodes[d])?;
    Ok(Function { id, ns, function_uri, input_args, output_arg })
}

/// The text from the start of the first of `nodes` to the end of the
/// last; nothing where there are no nodes.
pub open spec fn span_of(src: Seq<char>, nodes: Seq<Node>) -> Seq<char> {
    if nodes.len() == 0 {
        Seq::empty()
    } else {
        part(src, nodes[0].start as int, nodes.last().end as int)
    }
}

fn nodes_text<'a>(src: &'a str, nodes: &Vec<Node>) -> (r: &'a str)
    ensures
        r@ == span_of(src@, nodes@),
{
    if nodes.len() == 0 {
        part_of(src, 0, 0)
    } else {
        part_of(src, nodes[0].start, nodes[nodes.len() - 1].end)
    }
}

/// The position of the one of the three parts at `p`, `q` and `r` of
/// `nodes` that is of the rule `rule`, if one is.
pub open spec fn part_with(nodes: Seq<Node>, p: int, q: int, r: int, rule: Rule) -> Option<int> {
    if nodes[p].rule == rule {
        Some(p)
    } else if nodes[q].rule == rule {
        Some(q)
    } else if nodes[r].rule == rule {
        Some(r)
    } else {
        None
    }
}

fn find_part(nodes: &Vec<Node>, p: usize, q: usize, r: usize, rule: Rule) -> (x: Option<usize>)
    requires
        p < nodes@.len(),
        q < nodes@.len(),
        r < nodes@.len(),
    ensures
        match part_with(nodes@, p as int, q as int, r as int, rule) {
            Some(i) => x == Some(i as usize) && 0 <= i < nodes@.len(),
            None => x is None,
        },
{
    if rule_is(&nodes[p], rule) {
        Some(p)
    } else if rule_is(&nodes[q], rule) {
        Some(q)
    } else if rule_is(&nodes[r], rule) {
        Some(r)
    } else {
        None
    }
}

/// Whether the parts `nodes` declare an attribute: a name, and behind
/// it three parts, of which one gives the type, one the identifier and
/// one the category.
pub open spec fn attribute_valid(nodes: Seq<Node>) -> bool {
    let a = next_at(nodes, 0);
    let p = next_at(nodes, a + 1);
    let q = next_at(nodes, p + 1);
    let r = next_at(nodes, q + 1);
    &&& 0 <= a < p < q < r < nodes.len()
    &&& part_with(nodes, p, q, r, Rule::attr_type_assoc) is Some
    &&& part_with(nodes, p, q, r, Rule::attr_id_assoc) is Some
    &&& part_with(nodes, p, q, r, Rule::attr_category_assoc) is Some
}

/// Whether `x` is the attribute that the parts `nodes` declare: with
/// the text of the first part as its name, and with what the three parts
/// behind it give as its type, as its identifier, without the double
/// quotes around it, and as its category.
pub open spec fn is_attribute(src: Seq<char>, nodes: Seq<Node>, x: Attribute) -> bool {
    let a = next_at(nodes, 0);
    let p = next_at(nodes, a + 1);
    let q = next_at(nodes, p + 1);
    let r = next_at(nodes, q + 1);
    &&& 0 <= a < p < q < r < nodes.len()
    &&& x.id@ == text_of(src, nodes[a])
    &&& part_with(nodes, p, q, r, Rule::attr_type_assoc) matches Some(t)
    &&& x.typedef@ == span_of(src, nodes[t].children@)
    &&& part_with(nodes, p, q, r, Rule::attr_id_assoc) matches Some(i)
    &&& x.uri@ == without_quotes(span_of(src, nodes[i].children@))
    &&& part_with(nodes, p, q, r, Rule::attr_category_assoc) matches Some(c)
    &&& x.category@ == span_of(src, nodes[c].children@)
}

/// The attribute that is declared in the namespace `ns` by the parts
/// `nodes`, as `is_attribute` states it; parts that declare none are
/// refused with `AstConvertError`.
pub(crate) fn process_attribute(src: &str, nodes: &Vec<Node>, ns: Vec<String>) -> (r: Result<
    Attribute,
    ParseError,
>)
    ensures
        if attribute_valid(nodes@) {
            r matches Ok(x) && x.ns == ns && is_attribute(src@, nodes@, x)
        } else {
            r == Err::<Attribute, ParseError>(ParseError::AstConvertError)
        },
{
    let a = skip_comments(nodes, 0);
    if a >= nodes.len() {
        return Err(ParseError::AstConvertError);
    }
    let p = skip_comments(nodes, a + 1);
    if p >= nodes.len() {
        return Err(ParseError::AstConvertError);
    }
    let q = skip_comments(nodes, p + 1);
    if q >= nodes.len() {
        return Err(ParseError::AstConvertError);
    }
    let r = skip_comments(nodes, q + 1);
    if r >= nodes.len() {
        return Err(ParseError::AstConvertError);
    }
    let id = node_text(src, &nodes[a]).to_owned();
    match (
        find_part(nodes, p, q, r, Rule::attr_type_assoc),
        find_part(nodes, p, q, r, Rule::attr_id_assoc),
        find_part(nodes, p, q, r, Rule::attr_category_assoc),
    ) {
        (Some(t), Some(i), Some(c)) => Ok(
            Attribute {
                id,
                typedef: nodes_text(src, &nodes[t].children).to_owned(),
                category: nodes_text(src, &nodes[c].children).to_owned(),
                uri: trim_quotes(nodes_text(src, &nodes[i].children)).to_owned(),
                ns,
            },
        ),
        _ => Err(ParseError::AstConvertError),
    }
}

/// Whether the parts `nodes` state a signature: a URI in quotes and
/// three names of types.
pub open spec fn signature_valid(src: Seq<char>, nodes: Seq<Node>) -> bool {
    let a = next_at(nodes, 0);
    let b = next_at(nodes, a + 1);
    let c = next_at(nodes, b + 1);
    let d = next_at(nodes, c + 1);
    &&& 0 <= a < b < c < d < nodes.len()
    &&& string_content(src, nodes[a]) is Some
}

/// Whether `sig` is the signature that the parts `nodes` state: what
/// stands between the quotes of the first is the URI, and the texts of
/// the next three are the types of the operands and of the result.
pub open spec fn is_signature(src: Seq<char>, nodes: Seq<Node>, sig: InfixSignature) -> bool {
    let a = next_at(nodes, 0);
    let b = next_at(nodes, a + 1);
    let c = next_at(nodes, b + 1);
    let d = next_at(nodes, c + 1);
    &&& 0 <= a < b < c < d < nodes.len()
    &&& Some(sig.uri@) == string_content(src, nodes[a])
    &&& sig.first_arg@ == text_of(src, nodes[b])
    &&& sig.second_arg@ == text_of(src, nodes[c])
    &&& sig.output@ == text_of(src, nodes[d])
}

/// The signature that the parts `nodes` state, as `is_signature` states
/// it; parts that state none are refused with `AstConvertError`.
pub(crate) fn process_infix_signature(src: &str, nodes: &Vec<Node>) -> (r: Result<
    InfixSignature,
    ParseError,
>)
    ensures
        if signature_valid(src@, nodes@) {
            r matches Ok(sig) && is_signature(src@, nodes@, sig)
        } else {
            r == Err::<InfixSignature, ParseError>(ParseError::AstConvertError)
        },
{
    let a = skip_comments(nodes, 0);
    if a >= nodes.len() {
        return Err(ParseError::AstConvertError);
    }
    let b = skip_comments(nodes, a + 1);
    if b >= nodes.len() {
        return Err(ParseError::AstConvertError);
    }
    let c = skip_comments(nodes, b + 1);
    if c >= nodes.len() {
        return Err(ParseError::AstConvertError);
    }
    let d = skip_comments(nodes, c + 1);
    if d >= nodes.len() {
        return Err(ParseError::AstConvertError);
    }
    let uri = string_from_string_literal(src, &nodes[a])?.to_owned();
    Ok(
        InfixSignature {
            uri,
            first_arg: node_text(src, &nodes[b]).to_owned(),
            second_arg: node_text(src, &nodes[c]).to_owned(),
            output: node_text(src, &nodes[d]).to_owned(),
        },
    )
}

/// Whether the node `n` of an infix declaration is well formed: a
/// modifier and an inverse hold a node, and a signature is one.
pub open spec fn infix_node_valid(src: Seq<char>, n: Node) -> bool {
    match n.rule {
        Rule::infix_modifier | Rule::infix_inverse => 0 <= next_at(n.children@, 0)
            < n.children@.len(),
        Rule::infix_arg_decl => signature_valid(src, n.children@),
        _ => true,
    }
}

/// Whether the node `n` of an infix declaration gives a part of it: a
/// modifier that is one of the two, the operator, a signature, or the
/// inverse.
pub open spec fn gives_part(n: Node) -> bool {
    match n.rule {
        Rule::infix_modifier => {
            let inner = n.children@[next_at(n.children@, 0)].rule;
            inner == Rule::comm_modifier || inner == Rule::allowbags_modifier
        },
        Rule::operator_name | Rule::infix_arg_decl | Rule::infix_inverse => true,
        _ => false,
    }
}

/// Whether `part` is the part of an infix declaration that the node `n`
/// gives.
pub open spec fn is_part(src: Seq<char>, n: Node, part: InfixPart) -> bool {
    let inner = n.children@[next_at(n.children@, 0)];
    match part {
        InfixPart::Commutative => n.rule == Rule::infix_modifier && inner.rule
            == Rule::comm_modifier,
        InfixPart::AllowBags => n.rule == Rule::infix_modifier && inner.rule
            == Rule::allowbags_modifier,
        InfixPart::Operator(o) => n.rule == Rule::operator_name && o@ == text_of(src, n),
        InfixPart::Signature(sig) => n.rule == Rule::infix_arg_decl && is_signature(
            src,
            n.children@,
            sig,
        ),
        InfixPart::Inverse(i) => n.rule == Rule::infix_inverse && i@ == text_of(src, inner),
    }
}

/// Whether the first `upto` of `nodes` are well formed nodes of an infix
/// declaration.
pub open spec fn infix_nodes_valid(src: Seq<char>, nodes: Seq<Node>, upto: nat) -> bool
    decreases upto,
{
    if upto == 0 || upto > nodes.len() {
        upto == 0
    } else {
        infix_nodes_valid(src, nodes, (upto - 1) as nat) && infix_node_valid(src, nodes[upto - 1])
    }
}

/// Whether `parts` are the parts of an infix declaration that the first
/// `upto` of `nodes` give, in order.
pub open spec fn is_parts(src: Seq<char>, nodes: Seq<Node>, upto: nat, parts: Seq<InfixPart>) -> bool
    decreases upto,
{
    if upto == 0 || upto > nodes.len() {
        upto == 0 && parts.len() == 0
    } else if !gives_part(nodes[upto - 1]) {
        is_parts(src, nodes, (upto - 1) as nat, parts)
    } else {
        &&& parts.len() > 0
        &&& is_parts(src, nodes, (upto - 1) as nat, parts.drop_last())
        &&& is_part(src, nodes[upto - 1], parts.last())
    }
}

proof fn lemma_infix_nodes_invalid(src: Seq<char>, nodes: Seq<Node>, a: nat, b: nat)
    requires
        a <= b <= nodes.len(),
        !infix_nodes_valid(src, nodes, a),
    ensures
        !infix_nodes_valid(src, nodes, b),
    decreases b - a,
{
    if a < b {
        lemma_infix_nodes_invalid(src, nodes, a, (b - 1) as nat);
    }
}

/// The parts of an infix declaration that the nodes `nodes` give, as
/// `is_parts` states it; nodes of which one is not well formed are
/// refused with `AstConvertError`.
#[verifier::loop_isolation(false)]
pub(crate) fn read_infix_parts(src: &str, nodes: &Vec<Node>) -> (r: Result<
    Vec<InfixPart>,
    ParseError,
>)
    ensures
        if infix_nodes_valid(src@, nodes@, nodes@.len()) {
            r matches Ok(parts) && is_parts(src@, nodes@, nodes@.len(), parts@)
        } else {
            r == Err::<Vec<InfixPart>, ParseError>(ParseError::AstConvertError)
        },
{
    let mut parts: Vec<InfixPart> = Vec::new();
    let mut i: usize = 0;
    while i < nodes.len()
        invariant
            i <= nodes@.len(),
            infix_nodes_valid(src@, nodes@, i as nat),
            is_parts(src@, nodes@, i as nat, parts@),
        decreases nodes@.len() - i,
    {
        let t = &nodes[i];
        let ghost before = parts@;
        match t.rule {
            Rule::infix_modifier => {
                let m = skip_comments(&t.children, 0);
                if m >= t.children.len() {
                    proof {
                        lemma_infix_nodes_invalid(src@, nodes@, (i + 1) as nat, nodes@.len() as nat);
                    }
                    return Err(ParseError::AstConvertError);
                }
                match t.children[m].rule {
                    Rule::comm_modifier => {
                        parts.push(InfixPart::Commutative);
                        proof {
                            assert(parts@.drop_last() == before);
                        }
                    },
                    Rule::allowbags_modifier => {
                        parts.push(InfixPart::AllowBags);
                        proof {
                            assert(parts@.drop_last() == before);
                        }
                    },
                    _ => {},
                }
            },
            Rule::operator_name => {
                parts.push(InfixPart::Operator(node_text(src, t).to_owned()));
                proof {
                    assert(parts@.drop_last() == before);
                }
            },
            Rule::infix_arg_decl => {
                match process_infix_signature(src, &t.children) {
                    Ok(sig) => {
                        parts.push(InfixPart::Signature(sig));
                        proof {
                            assert(parts@.drop_last() == before);
                        }
                    },
                    Err(e) => {
                        proof {
                            lemma_infix_nodes_invalid(
                                src@,
                                nodes@,
                                (i + 1) as nat,
                                nodes@.len() as nat,
                            );
                        }
                        return Err(e);
                    },
                }
            },
            Rule::infix_inverse => {
                let m = skip_comments(&t.children, 0);
                if m >= t.children.len() {
                    proof {
                        lemma_infix_nodes_invalid(src@, nodes@, (i + 1) as nat, nodes@.len() as nat);
                    }
                    return Err(ParseError::AstConvertError);
                }
                parts.push(InfixPart::Inverse(node_text(src, &t.children[m]).to_owned()));
                proof {
                    assert(parts@.drop_last() == before);
                }
            },
            _ => {},
        }
        i = i + 1;
    }
    Ok(parts)
}

/// Whether `r` is what becomes of an infix declaration in the namespace
/// `ns` whose parts are `parts`, as `Infix::assemble` puts them
/// together.
pub open spec fn infix_from(parts: Seq<InfixPart>, ns: Vec<String>, r: Result<Infix, ParseError>) -> bool {
    match crate::ast::assemble::infix_refused(parts) {
        Some(k) => r matches Err(e) && e.spec_kind() == k,
        None => {
            &&& r matches Ok(x)
            &&& crate::ast::assemble::infix_parts(parts, parts.len()) matches Ok(st)
            &&& x.ns == ns
            &&& Some(x.operator) == st.operator
            &&& x.allow_bags == st.allow_bags
            &&& x.commutative == st.commutative
            &&& x.signatures@ == st.signatures
            &&& x.inverse == st.inverse
        },
    }
}

/// The infix operator that is declared in the namespace `ns` by the nodes
/// `nodes`: what `Infix::assemble` makes of the parts that the nodes
/// give, in their order. Nodes of which one is not well formed are
/// refused with `AstConvertError`.
pub(crate) fn process_infix(src: &str, nodes: &Vec<Node>, ns: Vec<String>) -> (r: Result<
    Infix,
    ParseError,
>)
    ensures
        if infix_nodes_valid(src@, nodes@, nodes@.len()) {
            exists|parts: Seq<InfixPart>|
                is_parts(src@, nodes@, nodes@.len(), parts) && #[trigger] infix_from(parts, ns, r)
        } else {
            r == Err::<Infix, ParseError>(ParseError::AstConvertError)
        },
{
    let parts = read_infix_parts(src, nodes)?;
    let ghost given = parts@;
    let r = Infix::assemble(ns, parts);
    proof {
        assert(infix_from(given, ns, r));
    }
    r
}

/// What the parts `entries` of an imported name say, from the part `i`
/// on, where `components` and `wildcard` were said before: each component
/// and an operator at the end add to the components, and `*` makes the
/// import one of everything in the namespace.
pub open spec fn import_from(
    src: Seq<char>,
    entries: Seq<Node>,
    i: int,
    components: Seq<Seq<char>>,
    wildcard: bool,
) -> ImportView
    decreases entries.len() - i,
{
    if i < 0 || i >= entries.len() {
        ImportView { components, is_wildcard: wildcard }
    } else if entries[i].rule == Rule::ns_component || entries[i].rule == Rule::infix_import {
        import_from(src, entries, i + 1, components.push(text_of(src, entries[i])), wildcard)
    } else if entries[i].rule == Rule::import_wildcard {
        import_from(src, entries, i + 1, components, true)
    } else {
        import_from(src, entries, i + 1, components, wildcard)
    }
}

/// What the parts `nodes` of an import statement say, from the part `i`
/// on: every imported name among them adds what it says.
pub open spec fn imports_from(src: Seq<char>, nodes: Seq<Node>, i: int, sofar: ImportView) -> ImportView
    decreases nodes.len() - i,
{
    if i < 0 || i >= nodes.len() {
        sofar
    } else if nodes[i].rule == Rule::import_identifier {
        imports_from(
            src,
            nodes,
            i + 1,
            import_from(src, nodes[i].children@, 0, sofar.components, sofar.is_wildcard),
        )
    } else {
        imports_from(src, nodes, i + 1, sofar)
    }
}

/// The import statement that the parts `nodes` stand for, as
/// `imports_from` states it.
#[verifier::loop_isolation(false)]
pub fn process_import(src: &str, nodes: &Vec<Node>) -> (r: Import)
    ensures
        r@ == imports_from(
            src@,
            nodes@,
            0,
            ImportView { components: Seq::empty(), is_wildcard: false },
        ),
{
    let mut components: Vec<String> = Vec::new();
    let mut is_wildcard = false;
    let ghost start = ImportView { components: Seq::empty(), is_wildcard: false };
    proof {
        assert(path_view(components@) =~= Seq::<Seq<char>>::empty());
    }
    let mut i: usize = 0;
    while i < nodes.len()
        invariant
            i <= nodes@.len(),
            imports_from(src@, nodes@, 0, start) == imports_from(
                src@,
                nodes@,
                i as int,
                ImportView { components: path_view(components@), is_wildcard },
            ),
        decreases nodes@.len() - i,
    {
        if rule_is(&nodes[i], Rule::import_identifier) {
            let entries = &nodes[i].children;
            let ghost c0 = path_view(components@);
            let ghost w0 = is_wildcard;
            let mut j: usize = 0;
            while j < entries.len()
                invariant
                    j <= entries@.len(),
                    import_from(src@, entries@, 0, c0, w0) == import_from(
                        src@,
                        entries@,
                        j as int,
                        path_view(components@),
                        is_wildcard,
                    ),
                decreases entries@.len() - j,
            {
                let ghost before = path_view(components@);
                match entries[j].rule {
                    Rule::ns_component | Rule::infix_import => {
                        let t = node_text(src, &entries[j]).to_owned();
                        components.push(t);
                        proof {
                            assert(path_view(components@) =~= before.push(t@));
                        }
                    },
                    Rule::import_wildcard => {
                        is_wildcard = true;
                    },
                    _ => {},
                }
                j = j + 1;
            }
        }
        i = i + 1;
    }
    Import { components, is_wildcard }
}

fn constant_or_refusal(src: &str, n: &Node) -> (r: Result<Constant, ParseError>)
    ensures
        match constant_at(src@, *n) {
            Ok(v) => r matches Ok(c) && c@ == v,
            Err(_) => r == Err::<Constant, ParseError>(ParseError::AstConvertError),
        },
{
    match constant_from_node(src, n) {
        Ok(c) => Ok(c),
        Err(_) => Err(ParseError::AstConvertError),
    }
}

/// Whether `d` is the attribute designator that the node `n` stands for.
pub open spec fn is_designator(src: Seq<char>, n: Node, d: AttributeDesignator) -> bool {
    designates(src, n, d.attribute, d.issuer, d.mustbepresent)
}

fn designator_or_refusal(src: &str, n: &Node) -> (r: Result<AttributeDesignator, ParseError>)
    ensures
        match designator_at(src@, *n) {
            Ok(_) => r matches Ok(d) && is_designator(src@, *n, d),
            Err(_) => r == Err::<AttributeDesignator, ParseError>(ParseError::AstConvertError),
        },
{
    match process_attribute_designator(src, n) {
        Ok(c) => Ok(c),
        Err(_) => Err(ParseError::AstConvertError),
    }
}

/// Whether the node `n` makes a match: three parts, of which one is an
/// attribute designator and one a literal, in the order that the rule of
/// the node asks for.
pub open spec fn match_valid(src: Seq<char>, n: Node) -> bool {
    let nodes = n.children@;
    let a = next_at(nodes, 0);
    let b = next_at(nodes, a + 1);
    let c = next_at(nodes, b + 1);
    &&& 0 <= a < b < c < nodes.len()
    &&& match n.rule {
        Rule::target_match_rev_op => designator_at(src, nodes[a]) is Ok && constant_at(
            src,
            nodes[c],
        ) is Ok,
        Rule::target_match_op => constant_at(src, nodes[a]) is Ok && designator_at(
            src,
            nodes[c],
        ) is Ok,
        Rule::target_match_func => constant_at(src, nodes[b]) is Ok && designator_at(
            src,
            nodes[c],
        ) is Ok,
        _ => false,
    }
}

/// Whether the attribute with the name `attribute`, the issuer `issuer`
/// and the flag `must` is what the attribute designator `n` says.
pub open spec fn designates(
    src: Seq<char>,
    n: Node,
    attribute: Vec<String>,
    issuer: Option<String>,
    must: bool,
) -> bool {
    designator_at(src, n) == Ok::<(Seq<Seq<char>>, bool, Option<Seq<char>>), ErrorKind>(
        (path_view(attribute@), must, opt_view(issuer)),
    )
}

/// Whether `m` is the match that the node `n` stands for.
///
/// A comparison by an operator holds the attribute, the operator with
/// its namespace and the literal; it is the reversed one where the
/// literal is written in front. A comparison by a function holds the
/// parts of the function's name, the literal and the attribute.
pub open spec fn is_match(src: Seq<char>, n: Node, m: Match) -> bool {
    let nodes = n.children@;
    let a = next_at(nodes, 0);
    let b = next_at(nodes, a + 1);
    let c = next_at(nodes, b + 1);
    &&& 0 <= a < b < c < nodes.len()
    &&& match n.rule {
        Rule::target_match_rev_op => {
            &&& m matches Match::MatchOp(o)
            &&& !o.reversed
            &&& designates(src, nodes[a], o.attribute, o.issuer, o.mustbepresent)
            &&& path_view(o.operator.ns@).push(o.operator.operator@) == dot_parts(
                text_of(src, nodes[b]),
                0,
                0,
            )
            &&& constant_at(src, nodes[c]) == Ok::<ConstantView, ErrorKind>(o.literal@)
        },
        Rule::target_match_op => {
            &&& m matches Match::MatchOp(o)
            &&& o.reversed
            &&& constant_at(src, nodes[a]) == Ok::<ConstantView, ErrorKind>(o.literal@)
            &&& path_view(o.operator.ns@).push(o.operator.operator@) == dot_parts(
                text_of(src, nodes[b]),
                0,
                0,
            )
            &&& designates(src, nodes[c], o.attribute, o.issuer, o.mustbepresent)
        },
        Rule::target_match_func => {
            &&& m matches Match::MatchFunc(f)
            &&& path_view(f.function_id@) == dot_parts(text_of(src, nodes[a]), 0, 0)
            &&& constant_at(src, nodes[b]) == Ok::<ConstantView, ErrorKind>(f.literal@)
            &&& designates(src, nodes[c], f.attribute, f.issuer, f.mustbepresent)
        },
        _ => false,
    }
}

/// The match that the node `n` stands for, as `is_match` states it; a
/// node that makes no match is refused with `AstConvertError`.
pub(crate) fn process_target_match(src: &str, n: &Node) -> (r: Result<Match, ParseError>)
    ensures
        if match_valid(src@, *n) {
            r matches Ok(m) && is_match(src@, *n, m)
        } else {
            r == Err::<Match, ParseError>(ParseError::AstConvertError)
        },
{
    let nodes = &n.children;
    let a = skip_comments(nodes, 0);
    if a >= nodes.len() {
        return Err(ParseError::AstConvertError);
    }
    let b = skip_comments(nodes, a + 1);
    if b >= nodes.len() {
        return Err(ParseError::AstConvertError);
    }
    let c = skip_comments(nodes, b + 1);
    if c >= nodes.len() {
        return Err(ParseError::AstConvertError);
    }
    match n.rule {
        Rule::target_match_rev_op => {
            let attr = designator_or_refusal(src, &nodes[a])?;
            let operator = operator_of(node_text(src, &nodes[b]));
            let literal = constant_or_refusal(src, &nodes[c])?;
            Ok(
                Match::MatchOp(
                    MatchOperation {
                        attribute: attr.attribute,
                        operator,
                        literal,
                        reversed: false,
                        issuer: attr.issuer,
                        mustbepresent: attr.mustbepresent,
                    },
                ),
            )
        },
        Rule::target_match_op => {
            let literal = constant_or_refusal(src, &nodes[a])?;
            let operator = operator_of(node_text(src, &nodes[b]));
            let attr = designator_or_refusal(src, &nodes[c])?;
            Ok(
                Match::MatchOp(
                    MatchOperation {
                        attribute: attr.attribute,
                        operator,
                        literal,
                        reversed: true,
                        issuer: attr.issuer,
                        mustbepresent: attr.mustbepresent,
                    },
                ),
            )
        },
        Rule::target_match_func => {
            let function_id = name_parts(node_text(src, &nodes[a]));
            let literal = constant_or_refusal(src, &nodes[b])?;
            let attr = designator_or_refusal(src, &nodes[c])?;
            Ok(
                Match::MatchFunc(
                    MatchFunction {
                        function_id,
                        literal,
                        attribute: attr.attribute,
                        issuer: attr.issuer,
                        mustbepresent: attr.mustbepresent,
                    },
                ),
            )
        },
        _ => Err(ParseError::AstConvertError),
    }
}

/// Whether the parts `nodes` make the matches of one alternative: each
/// part that is no comment makes a match.
pub open spec fn conjunction_valid(src: Seq<char>, nodes: Seq<Node>) -> bool {
    forall|k: int|
        0 <= k < kept(nodes, 0, nodes.len() as int).len() ==> match_valid(
            src,
            #[trigger] kept(nodes, 0, nodes.len() as int)[k],
        )
}

/// Whether `c` holds the matches that the parts `nodes` stand for: the
/// match of each part that is no comment, in order.
pub open spec fn is_conjunction(src: Seq<char>, nodes: Seq<Node>, c: ConjunctiveSeq) -> bool {
    &&& c.matches@.len() == kept(nodes, 0, nodes.len() as int).len()
    &&& forall|k: int|
        0 <= k < c.matches@.len() ==> is_match(
            src,
            kept(nodes, 0, nodes.len() as int)[k],
            #[trigger] c.matches@[k],
        )
}

/// The matches that the parts `nodes` stand for, as `is_conjunction`
/// states it: they must all hold.
#[verifier::loop_isolation(false)]
pub(crate) fn process_target_conjunctions(src: &str, nodes: &Vec<Node>) -> (r: Result<
    ConjunctiveSeq,
    ParseError,
>)
    ensures
        if conjunction_valid(src@, nodes@) {
            r matches Ok(c) && is_conjunction(src@, nodes@, c)
        } else {
            r == Err::<ConjunctiveSeq, ParseError>(ParseError::AstConvertError)
        },
{
    let mut matches: Vec<Match> = Vec::new();
    let mut i: usize = 0;
    while i < nodes.len()
        invariant
            i <= nodes@.len(),
            matches@.len() == kept(nodes@, 0, i as int).len(),
            forall|k: int|
                0 <= k < matches@.len() ==> is_match(
                    src@,
                    kept(nodes@, 0, i as int)[k],
                    #[trigger] matches@[k],
                ),
            forall|k: int|
                0 <= k < kept(nodes@, 0, i as int).len() ==> match_valid(
                    src@,
                    #[trigger] kept(nodes@, 0, i as int)[k],
                ),
        decreases nodes@.len() - i,
    {
        if !is_comment(&nodes[i]) {
            let ghost before = kept(nodes@, 0, i as int);
            proof {
                lemma_kept_prefix(nodes@, 0, i + 1, nodes@.len() as int);
                assert(kept(nodes@, 0, i + 1) == before.push(nodes@[i as int]));
                assert(kept(nodes@, 0, nodes@.len() as int)[before.len() as int] == nodes@[i as int]);
            }
            match process_target_match(src, &nodes[i]) {
                Ok(m) => matches.push(m),
                Err(e) => {
                    return Err(e);
                },
            }
        }
        i = i + 1;
    }
    Ok(ConjunctiveSeq { matches })
}

/// Whether the parts `nodes` make the alternatives of a clause: each
/// part that is no comment holds the matches of one alternative.
pub open spec fn clause_valid(src: Seq<char>, nodes: Seq<Node>) -> bool {
    forall|k: int|
        0 <= k < kept(nodes, 0, nodes.len() as int).len() ==> conjunction_valid(
            src,
            (#[trigger] kept(nodes, 0, nodes.len() as int)[k]).children@,
        )
}

/// Whether `d` holds the alternatives that the parts `nodes` of a clause
/// stand for: the matches of each part that is no comment, in order.
pub open spec fn is_clause(src: Seq<char>, nodes: Seq<Node>, d: DisjunctiveSeq) -> bool {
    &&& d.statements@.len() == kept(nodes, 0, nodes.len() as int).len()
    &&& forall|k: int|
        0 <= k < d.statements@.len() ==> is_conjunction(
            src,
            kept(nodes, 0, nodes.len() as int)[k].children@,
            #[trigger] d.statements@[k],
        )
}

/// The alternatives that the parts `nodes` of a clause stand for, as
/// `is_clause` states it: one of them must hold.
#[verifier::loop_isolation(false)]
pub(crate) fn process_target_clause(src: &str, nodes: &Vec<Node>) -> (r: Result<
    DisjunctiveSeq,
    ParseError,
>)
    ensures
        if clause_valid(src@, nodes@) {
            r matches Ok(d) && is_clause(src@, nodes@, d)
        } else {
            r == Err::<DisjunctiveSeq, ParseError>(ParseError::AstConvertError)
        },
{
    let mut statements: Vec<ConjunctiveSeq> = Vec::new();
    let mut i: usize = 0;
    while i < nodes.len()
        invariant
            i <= nodes@.len(),
            statements@.len() == kept(nodes@, 0, i as int).len(),
            forall|k: int|
                0 <= k < statements@.len() ==> is_conjunction(
                    src@,
                    kept(nodes@, 0, i as int)[k].children@,
                    #[trigger] statements@[k],
                ),
            forall|k: int|
                0 <= k < kept(nodes@, 0, i as int).len() ==> conjunction_valid(
                    src@,
                    (#[trigger] kept(nodes@, 0, i as int)[k]).children@,
                ),
        decreases nodes@.len() - i,
    {
        if !is_comment(&nodes[i]) {
            let ghost before = kept(nodes@, 0, i as int);
            proof {
                lemma_kept_prefix(nodes@, 0, i + 1, nodes@.len() as int);
                assert(kept(nodes@, 0, i + 1) == before.push(nodes@[i as int]));
                assert(kept(nodes@, 0, nodes@.len() as int)[before.len() as int] == nodes@[i as int]);
            }
            match process_target_conjunctions(src, &nodes[i].children) {
                Ok(m) => statements.push(m),
                Err(e) => {
                    return Err(e);
                },
            }
        }
        i = i + 1;
    }
    Ok(DisjunctiveSeq { statements })
}

/// Whether the parts `nodes` make a target: each part that is no comment
/// makes a clause.
pub open spec fn target_valid(src: Seq<char>, nodes: Seq<Node>) -> bool {
    forall|k: int|
        0 <= k < kept(nodes, 0, nodes.len() as int).len() ==> clause_valid(
            src,
            (#[trigger] kept(nodes, 0, nodes.len() as int)[k]).children@,
        )
}

/// Whether `t` is the target that the parts `nodes` of a target
/// statement stand for: the clause of each part that is no comment, in
/// order.
pub open spec fn is_target(src: Seq<char>, nodes: Seq<Node>, t: Target) -> bool {
    &&& t.clauses@.len() == kept(nodes, 0, nodes.len() as int).len()
    &&& forall|k: int|
        0 <= k < t.clauses@.len() ==> is_clause(
            src,
            kept(nodes, 0, nodes.len() as int)[k].children@,
            #[trigger] t.clauses@[k],
        )
}

/// The target that the parts `nodes` of a target statement stand for in
/// the namespace `ns`, as `is_target` states it; parts that make no
/// target are refused with `AstConvertError`.
#[verifier::loop_isolation(false)]
pub(crate) fn process_target(src: &str, nodes: &Vec<Node>, ns: Vec<String>) -> (r: Result<
    Target,
    ParseError,
>)
    ensures
        if target_valid(src@, nodes@) {
            r matches Ok(t) && t.ns == ns && is_target(src@, nodes@, t)
        } else {
            r == Err::<Target, ParseError>(ParseError::AstConvertError)
        },
{
    let mut clauses: Vec<DisjunctiveSeq> = Vec::new();
    let mut i: usize = 0;
    while i < nodes.len()
        invariant
            i <= nodes@.len(),
            clauses@.len() == kept(nodes@, 0, i as int).len(),
            forall|k: int|
                0 <= k < clauses@.len() ==> is_clause(
                    src@,
                    kept(nodes@, 0, i as int)[k].children@,
                    #[trigger] clauses@[k],
                ),
            forall|k: int|
                0 <= k < kept(nodes@, 0, i as int).len() ==> clause_valid(
                    src@,
                    (#[trigger] kept(nodes@, 0, i as int)[k]).children@,
                ),
        decreases nodes@.len() - i,
    {
        if !is_comment(&nodes[i]) {
            let ghost before = kept(nodes@, 0, i as int);
            proof {
                lemma_kept_prefix(nodes@, 0, i + 1, nodes@.len() as int);
                assert(kept(nodes@, 0, i + 1) == before.push(nodes@[i as int]));
                assert(kept(nodes@, 0, nodes@.len() as int)[before.len() as int] == nodes@[i as int]);
            }
            match process_target_clause(src, &nodes[i].children) {
                Ok(m) => clauses.push(m),
                Err(e) => {
                    return Err(e);
                },
            }
        }
        i = i + 1;
    }
    Ok(Target { clauses, ns })
}

/// Whether the first `upto` nodes below the node `n` of an expression
/// make operands and operators: each that is no comment is an operand
/// that is well formed, or an operator.
pub open spec fn items_valid(src: Seq<char>, n: Node, upto: nat) -> bool
    decreases n, 0nat, upto,
{
    if upto == 0 || upto > n.children@.len() {
        upto == 0
    } else {
        &&& items_valid(src, n, (upto - 1) as nat)
        &&& (n.children@[upto - 1].rule == Rule::COMMENT || item_valid(
            src,
            n.children@[upto - 1],
        ))
    }
}

/// Whether the node `tok` makes an operand or an operator.
pub open spec fn item_valid(src: Seq<char>, tok: Node) -> bool
    decreases tok, 3nat, 0nat,
{
    tok.rule == Rule::operator_identifier || (tok.rule == Rule::cond_atom && atom_valid(src, tok))
}

/// Whether the node `n` makes an operand: the first node below it that
/// is no comment is an application, a function as an argument, an
/// expression, an attribute designator or a literal, and is well formed.
pub open spec fn atom_valid(src: Seq<char>, n: Node) -> bool
    decreases n, 2nat, 0nat,
{
    let a = next_at(n.children@, 0);
    &&& 0 <= a < n.children@.len()
    &&& {
        let t = n.children@[a];
        match t.rule {
            Rule::cond_function_call => call_valid(src, t),
            Rule::cond_function_ref => 0 <= next_at(t.children@, 0) < t.children@.len(),
            Rule::cond_expr => items_valid(src, t, t.children@.len()),
            Rule::attribute_designator => designator_at(src, t) is Ok,
            Rule::numeric_literal | Rule::boolean_literal | Rule::string_literal
            | Rule::custom_literal => constant_at(src, t) is Ok,
            _ => false,
        }
    }
}

/// Whether the node `n` makes an application: a name, and behind it,
/// where there is a list of arguments, expressions that are well formed.
pub open spec fn call_valid(src: Seq<char>, n: Node) -> bool
    decreases n, 1nat, 0nat,
{
    let a = next_at(n.children@, 0);
    &&& 0 <= a < n.children@.len()
    &&& {
        let b = next_at(n.children@, a + 1);
        b < 0 || b >= n.children@.len() || arguments_valid(
            src,
            n.children@[b],
            n.children@[b].children@.len(),
        )
    }
}

/// Whether the first `upto` nodes below the list `list` make arguments:
/// each that is no comment is an expression that is well formed.
pub open spec fn arguments_valid(src: Seq<char>, list: Node, upto: nat) -> bool
    decreases list, 0nat, upto,
{
    if upto == 0 || upto > list.children@.len() {
        upto == 0
    } else {
        let c = list.children@[upto - 1];
        &&& arguments_valid(src, list, (upto - 1) as nat)
        &&& (c.rule == Rule::COMMENT || (c.rule == Rule::cond_expr && items_valid(
            src,
            c,
            c.children@.len(),
        )))
    }
}

/// Whether `items` are the operands and operators that the first `upto`
/// nodes below the node `n` of an expression stand for, in order.
pub open spec fn is_items(src: Seq<char>, n: Node, upto: nat, items: Seq<CondItemUnparsed>) -> bool
    decreases n, 0nat, upto,
{
    if upto == 0 || upto > n.children@.len() {
        upto == 0 && items.len() == 0
    } else if n.children@[upto - 1].rule == Rule::COMMENT {
        is_items(src, n, (upto - 1) as nat, items)
    } else {
        &&& items.len() > 0
        &&& is_items(src, n, (upto - 1) as nat, items.drop_last())
        &&& is_item(src, n.children@[upto - 1], items.last())
    }
}

/// Whether `x` is the operand or operator that the node `tok` stands
/// for.
pub open spec fn is_item(src: Seq<char>, tok: Node, x: CondItemUnparsed) -> bool
    decreases tok, 3nat, 0nat,
{
    match x {
        CondItemUnparsed::Atom(a) => tok.rule == Rule::cond_atom && is_atom(src, tok, a),
        CondItemUnparsed::Op(o) => tok.rule == Rule::operator_identifier && path_view(
            o.ns@,
        ).push(o.operator@) == dot_parts(text_of(src, tok), 0, 0),
        CondItemUnparsed::Empty => false,
    }
}

/// Whether `x` is the operand that the node `n` stands for: the
/// application, the function as an argument, the expression in
/// parentheses, the attribute or the literal that the first node below
/// `n` stands for.
pub open spec fn is_atom(src: Seq<char>, n: Node, x: CondAtomUnparsed) -> bool
    decreases n, 2nat, 0nat,
{
    let a = next_at(n.children@, 0);
    &&& 0 <= a < n.children@.len()
    &&& {
        let t = n.children@[a];
        match x {
            CondAtomUnparsed::Fn(f) => t.rule == Rule::cond_function_call && is_call(src, t, f),
            CondAtomUnparsed::FnRef(f) => {
                let j = next_at(t.children@, 0);
                &&& t.rule == Rule::cond_function_ref
                &&& 0 <= j < t.children@.len()
                &&& path_view(f.identifier@) == dot_parts(text_of(src, t.children@[j]), 0, 0)
            },
            CondAtomUnparsed::Expr(e) => t.rule == Rule::cond_expr && is_items(
                src,
                t,
                t.children@.len(),
                e.items@,
            ),
            CondAtomUnparsed::Attr(d) => t.rule == Rule::attribute_designator && is_designator(
                src,
                t,
                d,
            ),
            CondAtomUnparsed::Lit(c) => (t.rule == Rule::numeric_literal || t.rule
                == Rule::boolean_literal || t.rule == Rule::string_literal || t.rule
                == Rule::custom_literal) && constant_at(src, t) == Ok::<ConstantView, ErrorKind>(
                c@,
            ),
            CondAtomUnparsed::Empty => false,
        }
    }
}

/// Whether `f` is the application that the node `n` stands for: the
/// parts of the name of the function, and the expression of each
/// argument.
pub open spec fn is_call(src: Seq<char>, n: Node, f: CondFunctionCallUnparsed) -> bool
    decreases n, 1nat, 0nat,
{
    let a = next_at(n.children@, 0);
    &&& 0 <= a < n.children@.len()
    &&& path_view(f.identifier@) == dot_parts(text_of(src, n.children@[a]), 0, 0)
    &&& {
        let b = next_at(n.children@, a + 1);
        if 0 <= b < n.children@.len() {
            is_arguments(src, n.children@[b], n.children@[b].children@.len(), f.arguments@)
        } else {
            f.arguments@.len() == 0
        }
    }
}

/// Whether `args` are the expressions that the first `upto` nodes below
/// the list `list` stand for, in order.
pub open spec fn is_arguments(
    src: Seq<char>,
    list: Node,
    upto: nat,
    args: Seq<CondExpressionUnparsed>,
) -> bool
    decreases list, 0nat, upto,
{
    if upto == 0 || upto > list.children@.len() {
        upto == 0 && args.len() == 0
    } else if list.children@[upto - 1].rule == Rule::COMMENT {
        is_arguments(src, list, (upto - 1) as nat, args)
    } else {
        let c = list.children@[upto - 1];
        &&& args.len() > 0
        &&& is_arguments(src, list, (upto - 1) as nat, args.drop_last())
        &&& c.rule == Rule::cond_expr
        &&& is_items(src, c, c.children@.len(), args.last().items@)
    }
}

/// Validity stays what it was where more nodes are looked at that fit.
proof fn lemma_items_invalid(src: Seq<char>, n: Node, a: nat, b: nat)
    requires
        a <= b <= n.children@.len(),
        !items_valid(src, n, a),
    ensures
        !items_valid(src, n, b),
    decreases b - a,
{
    if a < b {
        lemma_items_invalid(src, n, a, (b - 1) as nat);
    }
}

proof fn lemma_arguments_invalid(src: Seq<char>, list: Node, a: nat, b: nat)
    requires
        a <= b <= list.children@.len(),
        !arguments_valid(src, list, a),
    ensures
        !arguments_valid(src, list, b),
    decreases b - a,
{
    if a < b {
        lemma_arguments_invalid(src, list, a, (b - 1) as nat);
    }
}

/// The application that the node `n` stands for, as `is_call` states
/// it; a node that makes no application is refused with
/// `AstConvertError`.
#[verifier::loop_isolation(false)]
pub(crate) fn process_condition_function(src: &str, n: &Node) -> (r: Result<
    CondFunctionCallUnparsed,
    ParseError,
>)
    ensures
        if call_valid(src@, *n) {
            r matches Ok(f) && is_call(src@, *n, f)
        } else {
            r == Err::<CondFunctionCallUnparsed, ParseError>(ParseError::AstConvertError)
        },
    decreases n, 2nat,
{
    let nodes = &n.children;
    let a = skip_comments(nodes, 0);
    if a >= nodes.len() {
        return Err(ParseError::AstConvertError);
    }
    let identifier = name_parts(node_text(src, &nodes[a]));
    let mut arguments: Vec<CondExpressionUnparsed> = Vec::new();
    let b = skip_comments(nodes, a + 1);
    if b < nodes.len() {
        let list = &nodes[b];
        let mut i: usize = 0;
        while i < list.children.len()
            invariant
                i <= list.children@.len(),
                arguments_valid(src@, *list, i as nat),
                is_arguments(src@, *list, i as nat, arguments@),
            decreases list.children@.len() - i,
        {
            let tok = &list.children[i];
            if !is_comment(tok) {
                if !rule_is(tok, Rule::cond_expr) {
                    proof {
                        lemma_arguments_invalid(
                            src@,
                            *list,
                            (i + 1) as nat,
                            list.children@.len() as nat,
                        );
                    }
                    return Err(ParseError::AstConvertError);
                }
                proof {
                    assert(decreases_to!(n => nodes@[b as int]));
                    assert(decreases_to!(nodes@[b as int] => list.children@[i as int]));
                }
                let ghost before = arguments@;
                match process_condition_expr_pair(src, tok) {
                    Ok(x) => {
                        arguments.push(x.0);
                        proof {
                            assert(arguments@.drop_last() == before);
                        }
                    },
                    Err(e) => {
                        proof {
                            lemma_arguments_invalid(
                                src@,
                                *list,
                                (i + 1) as nat,
                                list.children@.len() as nat,
                            );
                        }
                        return Err(e);
                    },
                }
            }
            i = i + 1;
        }
    }
    Ok(CondFunctionCallUnparsed { identifier, arguments })
}

/// The operand that the node `n` stands for, as `is_atom` states it; a
/// node that makes no operand is refused with `AstConvertError`.
pub(crate) fn process_condition_atom(src: &str, n: &Node) -> (r: Result<
    CondAtomUnparsed,
    ParseError,
>)
    ensures
        if atom_valid(src@, *n) {
            r matches Ok(x) && is_atom(src@, *n, x)
        } else {
            r == Err::<CondAtomUnparsed, ParseError>(ParseError::AstConvertError)
        },
    decreases n, 1nat,
{
    let a = skip_comments(&n.children, 0);
    if a >= n.children.len() {
        return Err(ParseError::AstConvertError);
    }
    let tok = &n.children[a];
    proof {
        assert(decreases_to!(n => n.children@[a as int]));
    }
    match tok.rule {
        Rule::cond_function_call => Ok(CondAtomUnparsed::Fn(process_condition_function(src, tok)?)),
        Rule::cond_function_ref => {
            let b = skip_comments(&tok.children, 0);
            if b >= tok.children.len() {
                return Err(ParseError::AstConvertError);
            }
            let identifier = name_parts(node_text(src, &tok.children[b]));
            Ok(CondAtomUnparsed::FnRef(FunctionReference { identifier }))
        },
        Rule::cond_expr => {
            let e = process_condition_expr_pair(src, tok)?;
            Ok(CondAtomUnparsed::Expr(e.0))
        },
        Rule::attribute_designator => Ok(CondAtomUnparsed::Attr(designator_or_refusal(src, tok)?)),
        Rule::numeric_literal | Rule::boolean_literal | Rule::string_literal
        | Rule::custom_literal => Ok(CondAtomUnparsed::Lit(constant_or_refusal(src, tok)?)),
        _ => Err(ParseError::AstConvertError),
    }
}

/// Where the last of the first `upto` nodes below `n` ends that is no
/// comment; where `n` itself ends if there is none.
pub open spec fn expression_end(n: Node, upto: nat) -> usize
    decreases upto,
{
    if upto == 0 || upto > n.children@.len() {
        n.end
    } else if n.children@[upto - 1].rule == Rule::COMMENT {
        expression_end(n, (upto - 1) as nat)
    } else {
        n.children@[upto - 1].end
    }
}

/// The expression as written that the node `n` stands for, as `is_items`
/// states its operands and operators, and with it the position at which
/// the last of them ends. A node that makes no expression is refused
/// with `AstConvertError`.
#[verifier::loop_isolation(false)]
pub(crate) fn process_condition_expr_pair(src: &str, n: &Node) -> (r: Result<
    (CondExpressionUnparsed, usize),
    ParseError,
>)
    ensures
        if items_valid(src@, *n, n.children@.len()) {
            &&& r matches Ok(x)
            &&& is_items(src@, *n, n.children@.len(), x.0.items@)
            &&& x.1 == expression_end(*n, n.children@.len())
        } else {
            r == Err::<(CondExpressionUnparsed, usize), ParseError>(ParseError::AstConvertError)
        },
    decreases n, 0nat,
{
    let mut items: Vec<CondItemUnparsed> = Vec::new();
    let mut end_pos = n.end;
    let mut i: usize = 0;
    while i < n.children.len()
        invariant
            i <= n.children@.len(),
            items_valid(src@, *n, i as nat),
            is_items(src@, *n, i as nat, items@),
            end_pos == expression_end(*n, i as nat),
        decreases n.children@.len() - i,
    {
        let tok = &n.children[i];
        if !is_comment(tok) {
            end_pos = tok.end;
            proof {
                assert(decreases_to!(n => n.children@[i as int]));
            }
            let ghost before = items@;
            match tok.rule {
                Rule::cond_atom => match process_condition_atom(src, tok) {
                    Ok(c) => {
                        items.push(CondItemUnparsed::Atom(c));
                        proof {
                            assert(items@.drop_last() == before);
                            assert(item_valid(src@, *tok));
                            assert(is_item(src@, *tok, items@.last()));
                        }
                    },
                    Err(e) => {
                        proof {
                            assert(!item_valid(src@, *tok));
                            lemma_items_invalid(
                                src@,
                                *n,
                                (i + 1) as nat,
                                n.children@.len() as nat,
                            );
                        }
                        return Err(e);
                    },
                },
                Rule::operator_identifier => {
                    items.push(CondItemUnparsed::Op(operator_of(node_text(src, tok))));
                    proof {
                        assert(items@.drop_last() == before);
                        assert(item_valid(src@, *tok));
                        assert(is_item(src@, *tok, items@.last()));
                    }
                },
                _ => {
                    proof {
                        assert(!item_valid(src@, *tok));
                        lemma_items_invalid(src@, *n, (i + 1) as nat, n.children@.len() as nat);
                    }
                    return Err(ParseError::AstConvertError);
                },
            }
        }
        i = i + 1;
    }
    Ok((CondExpressionUnparsed { items }, end_pos))
}

/// The place in the source of `base` from the position `start` to the
/// position `end`; the empty place at `start` where `end` lies before it.
pub fn place(base: &SrcLoc, start: usize, end: usize) -> (r: SrcLoc)
    ensures
        r@.src_name == base@.src_name,
        r@.offset == start,
        r@.length == (if start <= end {
            end - start
        } else {
            0
        }),
{
    if start <= end {
        base.with_start_end(start, end)
    } else {
        base.with_start_end(start, start)
    }
}

/// The position in bytes of the character at `pos` of `src`: the length
/// of what stands before it, written as UTF-8.
pub open spec fn byte_offset(src: Seq<char>, pos: int) -> usize {
    vstd::utf8::encode_utf8(part(src, 0, pos)).len() as usize
}

/// The position in bytes of the character at `pos` of `src`.
pub fn byte_position(src: &str, pos: usize) -> (r: usize)
    ensures
        r == byte_offset(src@, pos as int),
{
    part_of(src, 0, pos).len()
}

/// The place from the character at `start` to the character at `end` of
/// the text `src` of the source of `base`, in bytes, without the white
/// space at its end.
pub open spec fn located(src: &str, base: SrcLoc, start: int, end: int) -> SrcLocView {
    let from = byte_offset(src@, start);
    let to = byte_offset(src@, end);
    let length = if from <= to {
        (to - from) as nat
    } else {
        0
    };
    let raw = SrcLocView { src_name: base@.src_name, offset: from as nat, length };
    if from <= src.spec_bytes().len() && from + length <= usize::MAX {
        match span_contents(src.spec_bytes(), from as nat, length) {
            Some(b) => SrcLocView { length: trimmed_len(b), ..raw },
            None => raw,
        }
    } else {
        raw
    }
}

/// The place from the character at `start` to the character at `end` of
/// `src`, as `located` states it.
pub fn place_in(src: &str, base: &SrcLoc, start: usize, end: usize) -> (r: SrcLoc)
    ensures
        r@ == located(src, *base, start as int, end as int),
{
    let mut loc = place(base, byte_position(src, start), byte_position(src, end));
    let bytes = src.as_bytes();
    if loc.offset <= bytes.len() && loc.length <= usize::MAX - loc.offset {
        loc.trim_trailing_whitespace(bytes);
    }
    loc
}

/// Whether `r` is what becomes of the condition whose expression as
/// written is `e`: the condition with the expression grouped by the
/// binding power of its operators, in the namespace `ns` and at the
/// place `place`; `AstConvertError` for an expression that cannot be
/// grouped.
pub open spec fn condition_from(
    e: CondExpressionUnparsed,
    ns: Seq<Seq<char>>,
    place: SrcLocView,
    r: Result<Condition, ParseError>,
) -> bool {
    match crate::ast::condition::parse_expr(e.items@, 0, 0) {
        Some(v) => r matches Ok(c) && c.cond_expr@ == v.0 && path_view(c.ns@) == ns
            && c.src_loc@ == place,
        None => r == Err::<Condition, ParseError>(ParseError::AstConvertError),
    }
}

/// Whether `r` is what becomes of the parts `nodes` of a condition
/// statement in the namespace `ns`.
///
/// The first part that is no comment is the expression. Its operands
/// and operators are read as `is_items` states it, and grouped by the
/// binding power of the operators. The place of the condition reaches
/// from the start of the expression to the end of its last operand.
/// Parts that make no expression are refused with `AstConvertError`.
pub open spec fn condition_reads(
    src: &str,
    nodes: Seq<Node>,
    base: SrcLoc,
    ns: Seq<Seq<char>>,
    r: Result<Condition, ParseError>,
) -> bool {
    let a = next_at(nodes, 0);
    if 0 <= a < nodes.len() && nodes[a].rule == Rule::cond_expr && items_valid(
        src@,
        nodes[a],
        nodes[a].children@.len(),
    ) {
        exists|e: CondExpressionUnparsed|
            is_items(src@, nodes[a], nodes[a].children@.len(), e.items@)
                && #[trigger] condition_from(
                e,
                ns,
                located(
                    src,
                    base,
                    nodes[a].start as int,
                    expression_end(nodes[a], nodes[a].children@.len()) as int,
                ),
                r,
            )
    } else {
        r == Err::<Condition, ParseError>(ParseError::AstConvertError)
    }
}

/// The condition that the parts `nodes` of a condition statement stand
/// for in the namespace `ns`, as `condition_reads` states it.
pub fn process_condition(src: &str, nodes: &Vec<Node>, base: &SrcLoc, ns: Vec<String>) -> (r: Result<
    Condition,
    ParseError,
>)
    ensures
        condition_reads(src, nodes@, *base, path_view(ns@), r),
{
    let a = skip_comments(nodes, 0);
    if a >= nodes.len() || !rule_is(&nodes[a], Rule::cond_expr) {
        return Err(ParseError::AstConvertError);
    }
    let (cond_expr, end) = process_condition_expr_pair(src, &nodes[a])?;
    let src_loc = place_in(src, base, nodes[a].start, end);
    let ghost e = cond_expr;
    let ghost place = src_loc@;
    let unparsed = ConditionUnparsed { cond_expr, ns, src_loc };
    let r = Condition::try_from(&unparsed);
    proof {
        assert(condition_from(e, path_view(ns@), place, r));
    }
    r
}

/// Whether the parts `nodes` make an assignment: the name of the
/// attribute that receives the value, and an attribute designator or a
/// literal that gives it.
pub open spec fn assignment_valid(src: Seq<char>, nodes: Seq<Node>) -> bool {
    let a = next_at(nodes, 0);
    let b = next_at(nodes, a + 1);
    &&& 0 <= a < b < nodes.len()
    &&& if nodes[b].rule == Rule::attribute_designator {
        designator_at(src, nodes[b]) is Ok
    } else {
        constant_at(src, nodes[b]) is Ok
    }
}

/// Whether `x` is the assignment that the parts `nodes` stand for: the
/// text of the first part names the attribute that receives the value,
/// and the second part gives the value, as an attribute designator or as
/// a literal.
pub open spec fn is_assignment(src: Seq<char>, nodes: Seq<Node>, x: AttributeAssignment) -> bool {
    let a = next_at(nodes, 0);
    let b = next_at(nodes, a + 1);
    &&& 0 <= a < b < nodes.len()
    &&& x.destination_id@ == text_of(src, nodes[a])
    &&& match x.source {
        AttrAssignmentSource::Attribute(d) => nodes[b].rule == Rule::attribute_designator
            && is_designator(src, nodes[b], d),
        AttrAssignmentSource::Value(c) => nodes[b].rule != Rule::attribute_designator
            && constant_at(src, nodes[b]) == Ok::<ConstantView, ErrorKind>(c@),
    }
}

/// The assignment that the parts `nodes` stand for, as `is_assignment`
/// states it; parts that make no assignment are refused with
/// `AstConvertError`.
pub(crate) fn process_assignment(src: &str, nodes: &Vec<Node>) -> (r: Result<
    AttributeAssignment,
    ParseError,
>)
    ensures
        if assignment_valid(src@, nodes@) {
            r matches Ok(x) && is_assignment(src@, nodes@, x)
        } else {
            r == Err::<AttributeAssignment, ParseError>(ParseError::AstConvertError)
        },
{
    let a = skip_comments(nodes, 0);
    if a >= nodes.len() {
        return Err(ParseError::AstConvertError);
    }
    let b = skip_comments(nodes, a + 1);
    if b >= nodes.len() {
        return Err(ParseError::AstConvertError);
    }
    let destination_id = node_text(src, &nodes[a]).to_owned();
    let source = if rule_is(&nodes[b], Rule::attribute_designator) {
        AttrAssignmentSource::Attribute(designator_or_refusal(src, &nodes[b])?)
    } else {
        AttrAssignmentSource::Value(constant_or_refusal(src, &nodes[b])?)
    };
    Ok(AttributeAssignment { destination_id, source })
}

/// The parts of the obligation or advice below the node `n`: the nodes
/// below the first node below `n` that is no comment.
pub open spec fn statement_parts(n: Node) -> Seq<Node> {
    n.children@[next_at(n.children@, 0)].children@
}

/// The nodes of the assignments of the obligation or advice below the
/// node `n`: the parts behind the name that are no comments.
pub open spec fn assignment_nodes(n: Node) -> Seq<Node> {
    let parts = statement_parts(n);
    kept(parts, next_at(parts, 0) + 1, parts.len() as int)
}

/// Whether the node `n` makes an obligation or advice: its kind, its
/// name, and assignments behind the name.
pub open spec fn statement_valid(src: Seq<char>, n: Node) -> bool {
    let a = next_at(n.children@, 0);
    &&& 0 <= a < n.children@.len()
    &&& (n.children@[a].rule == Rule::apply_advice || n.children@[a].rule
        == Rule::apply_obligation)
    &&& 0 <= next_at(statement_parts(n), 0) < statement_parts(n).len()
    &&& forall|k: int|
        0 <= k < assignment_nodes(n).len() ==> assignment_valid(
            src,
            (#[trigger] assignment_nodes(n)[k]).children@,
        )
}

/// Whether `x` is the obligation or advice that the node `n` stands for:
/// of the kind that the first node below `n` says, with the text of the
/// first part as its name and with the assignment of each part behind
/// the name, in order.
pub open spec fn is_statement(src: Seq<char>, n: Node, x: PrescriptionExpr) -> bool {
    let a = next_at(n.children@, 0);
    let parts = statement_parts(n);
    &&& 0 <= a < n.children@.len()
    &&& match x.ptype {
        PrescriptionType::Advice => n.children@[a].rule == Rule::apply_advice,
        PrescriptionType::Obligation => n.children@[a].rule == Rule::apply_obligation,
    }
    &&& 0 <= next_at(parts, 0) < parts.len()
    &&& x.id@ == text_of(src, parts[next_at(parts, 0)])
    &&& x.assignments@.len() == assignment_nodes(n).len()
    &&& forall|k: int|
        0 <= k < x.assignments@.len() ==> is_assignment(
            src,
            assignment_nodes(n)[k].children@,
            #[trigger] x.assignments@[k],
        )
}

/// The obligation or advice that the node `n` stands for, as
/// `is_statement` states it; a node that makes none is refused with
/// `AstConvertError`.
#[verifier::loop_isolation(false)]
pub(crate) fn process_prescription_expr(src: &str, n: &Node) -> (r: Result<
    PrescriptionExpr,
    ParseError,
>)
    ensures
        if statement_valid(src@, *n) {
            r matches Ok(x) && is_statement(src@, *n, x)
        } else {
            r == Err::<PrescriptionExpr, ParseError>(ParseError::AstConvertError)
        },
{
    let a = skip_comments(&n.children, 0);
    if a >= n.children.len() {
        return Err(ParseError::AstConvertError);
    }
    let kind = &n.children[a];
    let ptype = match kind.rule {
        Rule::apply_advice => PrescriptionType::Advice,
        Rule::apply_obligation => PrescriptionType::Obligation,
        _ => {
            return Err(ParseError::AstConvertError);
        },
    };
    let parts = &kind.children;
    let b = skip_comments(parts, 0);
    if b >= parts.len() {
        return Err(ParseError::AstConvertError);
    }
    let id = node_text(src, &parts[b]).to_owned();
    let mut assignments: Vec<AttributeAssignment> = Vec::new();
    let mut i: usize = b + 1;
    while i < parts.len()
        invariant
            b < i <= parts@.len(),
            assignments@.len() == kept(parts@, b + 1, i as int).len(),
            forall|k: int|
                0 <= k < assignments@.len() ==> is_assignment(
                    src@,
                    kept(parts@, b + 1, i as int)[k].children@,
                    #[trigger] assignments@[k],
                ),
            forall|k: int|
                0 <= k < kept(parts@, b + 1, i as int).len() ==> assignment_valid(
                    src@,
                    (#[trigger] kept(parts@, b + 1, i as int)[k]).children@,
                ),
        decreases parts@.len() - i,
    {
        if !is_comment(&parts[i]) {
            let ghost before = kept(parts@, b + 1, i as int);
            match process_assignment(src, &parts[i].children) {
                Ok(x) => {
                    assignments.push(x);
                    proof {
                        assert(kept(parts@, b + 1, i + 1) == before.push(parts@[i as int]));
                    }
                },
                Err(e) => {
                    proof {
                        lemma_kept_prefix(parts@, b + 1, i + 1, parts@.len() as int);
                        let all = assignment_nodes(*n);
                        assert(kept(parts@, b + 1, i + 1) == before.push(parts@[i as int]));
                        assert(all[before.len() as int] == parts@[i as int]);
                        assert(!assignment_valid(src@, all[before.len() as int].children@));
                    }
                    return Err(e);
                },
            }
        }
        i = i + 1;
    }
    Ok(PrescriptionExpr { ptype, id, assignments })
}

/// The nodes of the obligations and advice of the block below the node
/// `n`: the nodes behind the effect that are no comments.
pub open spec fn statement_nodes(n: Node) -> Seq<Node> {
    kept(n.children@, next_at(n.children@, 0) + 1, n.children@.len() as int)
}

/// Whether the node `n` makes a block of obligations and advice: an
/// effect, and behind it obligations and advice.
pub open spec fn block_valid(src: Seq<char>, n: Node) -> bool {
    &&& 0 <= next_at(n.children@, 0) < n.children@.len()
    &&& forall|k: int|
        0 <= k < statement_nodes(n).len() ==> (#[trigger] statement_nodes(n)[k]).rule
            == Rule::apply_prescription && statement_valid(src, statement_nodes(n)[k])
}

/// Whether `p` is the block of obligations and advice that the node `n`
/// stands for: with the effect that the first node below `n` names,
/// `permit` or else `deny`, and with the obligation or advice of each
/// node behind it, in order.
pub open spec fn is_block(src: Seq<char>, n: Node, p: Prescription) -> bool {
    let a = next_at(n.children@, 0);
    &&& 0 <= a < n.children@.len()
    &&& (p.effect == Effect::Permit) == (n.children@[a].rule == Rule::effect_permit)
    &&& p.expressions@.len() == statement_nodes(n).len()
    &&& forall|k: int|
        0 <= k < p.expressions@.len() ==> is_statement(
            src,
            statement_nodes(n)[k],
            #[trigger] p.expressions@[k],
        )
}

/// The block of obligations and advice that the node `n` stands for in
/// the namespace `ns`, as `is_block` states it; a node that makes no
/// block is refused with `AstConvertError`.
#[verifier::loop_isolation(false)]
pub fn process_prescription(src: &str, n: &Node, ns: Vec<String>) -> (r: Result<
    Prescription,
    ParseError,
>)
    ensures
        if block_valid(src@, *n) {
            r matches Ok(p) && p.ns == ns && is_block(src@, *n, p)
        } else {
            r == Err::<Prescription, ParseError>(ParseError::AstConvertError)
        },
{
    let nodes = &n.children;
    let a = skip_comments(nodes, 0);
    if a >= nodes.len() {
        return Err(ParseError::AstConvertError);
    }
    let effect = if rule_is(&nodes[a], Rule::effect_permit) {
        Effect::Permit
    } else {
        Effect::Deny
    };
    let mut expressions: Vec<PrescriptionExpr> = Vec::new();
    let mut i: usize = a + 1;
    while i < nodes.len()
        invariant
            a < i <= nodes@.len(),
            expressions@.len() == kept(nodes@, a + 1, i as int).len(),
            forall|k: int|
                0 <= k < expressions@.len() ==> is_statement(
                    src@,
                    kept(nodes@, a + 1, i as int)[k],
                    #[trigger] expressions@[k],
                ),
            forall|k: int|
                0 <= k < kept(nodes@, a + 1, i as int).len() ==> (#[trigger] kept(
                    nodes@,
                    a + 1,
                    i as int,
                )[k]).rule == Rule::apply_prescription && statement_valid(
                    src@,
                    kept(nodes@, a + 1, i as int)[k],
                ),
        decreases nodes@.len() - i,
    {
        if !is_comment(&nodes[i]) {
            let ghost before = kept(nodes@, a + 1, i as int);
            proof {
                lemma_kept_prefix(nodes@, a + 1, i + 1, nodes@.len() as int);
                assert(kept(nodes@, a + 1, i + 1) == before.push(nodes@[i as int]));
                assert(statement_nodes(*n)[before.len() as int] == nodes@[i as int]);
            }
            if !rule_is(&nodes[i], Rule::apply_prescription) {
                return Err(ParseError::AstConvertError);
            }
            match process_prescription_expr(src, &nodes[i]) {
                Ok(x) => {
                    expressions.push(x);
                },
                Err(e) => {
                    return Err(e);
                },
            }
        }
        i = i + 1;
    }
    Ok(Prescription { effect, ns, expressions })
}

/// Whether `r` is what becomes of the node `n` as a statement of a rule
/// in the namespace `ns`: the effect that it names, the target, the
/// condition or the block of obligations and advice that it stands for,
/// or the error with which it is refused. A node that is none of these
/// is refused with `UnexpectedRuleError`.
pub open spec fn statement_reads(
    src: &str,
    n: Node,
    base: SrcLoc,
    ns: Seq<Seq<char>>,
    r: Result<RuleStatement, ParseError>,
) -> bool {
    match n.rule {
        Rule::effect_permit => r == Ok::<RuleStatement, ParseError>(
            RuleStatement::Effect(Effect::Permit),
        ),
        Rule::effect_deny => r == Ok::<RuleStatement, ParseError>(
            RuleStatement::Effect(Effect::Deny),
        ),
        Rule::target_stmt => if target_valid(src@, n.children@) {
            r matches Ok(RuleStatement::Target(t)) && path_view(t.ns@) == ns && is_target(
                src@,
                n.children@,
                t,
            )
        } else {
            r == Err::<RuleStatement, ParseError>(ParseError::AstConvertError)
        },
        Rule::condition_stmt => match r {
            Ok(RuleStatement::Condition(c)) => condition_reads(
                src,
                n.children@,
                base,
                ns,
                Ok(c),
            ),
            Ok(_) => false,
            Err(e) => condition_reads(src, n.children@, base, ns, Err(e)),
        },
        Rule::on_effect => if block_valid(src@, n) {
            r matches Ok(RuleStatement::Prescription(p)) && path_view(p.ns@) == ns && is_block(
                src@,
                n,
                p,
            )
        } else {
            r == Err::<RuleStatement, ParseError>(ParseError::AstConvertError)
        },
        _ => r matches Err(e) && e is UnexpectedRuleError,
    }
}

/// The statement of a rule that the node `n` stands for in the namespace
/// `ns`, as `statement_reads` states it.
pub(crate) fn rule_statement(src: &str, n: &Node, base: &SrcLoc, ns: &Vec<String>) -> (r: Result<
    RuleStatement,
    ParseError,
>)
    ensures
        statement_reads(src, *n, *base, path_view(ns@), r),
{
    match n.rule {
        Rule::effect_permit => Ok(RuleStatement::Effect(Effect::Permit)),
        Rule::effect_deny => Ok(RuleStatement::Effect(Effect::Deny)),
        Rule::target_stmt => Ok(
            RuleStatement::Target(process_target(src, &n.children, clone_strings(ns.as_slice()))?),
        ),
        Rule::condition_stmt => {
            match process_condition(src, &n.children, base, clone_strings(ns.as_slice())) {
                Ok(c) => Ok(RuleStatement::Condition(c)),
                Err(e) => Err(e),
            }
        },
        Rule::on_effect => Ok(
            RuleStatement::Prescription(process_prescription(src, n, clone_strings(ns.as_slice()))?),
        ),
        _ => Err(ParseError::UnexpectedRuleError("found unexpected rule".to_owned())),
    }
}

/// Whether `stmts` are the statements of a rule that the nodes of
/// `nodes` from `from` up to `upto` stand for, in order; comments are
/// passed over.
pub open spec fn statements_read(
    src: &str,
    nodes: Seq<Node>,
    from: int,
    upto: int,
    base: SrcLoc,
    ns: Seq<Seq<char>>,
    stmts: Seq<RuleStatement>,
) -> bool
    decreases upto - from,
{
    if upto <= from || from < 0 || upto > nodes.len() {
        upto <= from && stmts.len() == 0
    } else if nodes[upto - 1].rule == Rule::COMMENT {
        statements_read(src, nodes, from, upto - 1, base, ns, stmts)
    } else {
        &&& stmts.len() > 0
        &&& statements_read(src, nodes, from, upto - 1, base, ns, stmts.drop_last())
        &&& statement_reads(
            src,
            nodes[upto - 1],
            base,
            ns,
            Ok::<RuleStatement, ParseError>(stmts.last()),
        )
    }
}

/// Whether `r` is what becomes of a rule with the name `id`, in the
/// namespace `ns` and below the policies of `policy_ns`, whose statements
/// are `stmts`, as `RuleDef::assemble` puts them together.
pub open spec fn rule_from(
    id: Option<Seq<char>>,
    ns: Vec<String>,
    policy_ns: GenName,
    description: Option<String>,
    stmts: Seq<RuleStatement>,
    r: Result<RuleDef, ParseError>,
) -> bool {
    match crate::ast::assemble::rule_parts(stmts, stmts.len()) {
        Err(k) => r matches Err(e) && e.spec_kind() == k,
        Ok(st) => match st.effect {
            None => r == Err::<RuleDef, ParseError>(ParseError::AstConvertError),
            Some(effect) => r matches Ok(x) && opt_view(x.id) == id && x.ns == ns && x.policy_ns
                == policy_ns && x.description == description && x.effect == effect && x.target
                == st.target && x.condition == st.condition && x.prescriptions@
                == st.prescriptions,
        },
    }
}

/// Where the statements start among the parts `nodes` of a rule
/// declaration: behind the name, where the first part that is no comment
/// is a name, and else at that part.
pub open spec fn statements_start(nodes: Seq<Node>) -> int {
    let a = next_at(nodes, 0);
    if 0 <= a < nodes.len() && nodes[a].rule == Rule::identifier {
        a + 1
    } else {
        a
    }
}

/// The name of the rule of which `nodes` are the parts, where the first
/// part that is no comment is a name.
pub open spec fn rule_name(src: Seq<char>, nodes: Seq<Node>) -> Option<Seq<char>> {
    let a = next_at(nodes, 0);
    if 0 <= a < nodes.len() && nodes[a].rule == Rule::identifier {
        Some(text_of(src, nodes[a]))
    } else {
        None
    }
}

/// Whether `r` is what becomes of the part at `upto` of `nodes` and of
/// the statements `stmts` that stand before it: where a part stands at
/// `upto`, it is refused with the error of `r`; where `upto` is the end
/// of the parts, `r` is what `RuleDef::assemble` makes of the statements.
pub open spec fn rule_ends(
    src: &str,
    nodes: Seq<Node>,
    upto: int,
    base: SrcLoc,
    ns: Vec<String>,
    policy_ns: GenName,
    description: Option<String>,
    stmts: Seq<RuleStatement>,
    r: Result<RuleDef, ParseError>,
) -> bool {
    if upto == nodes.len() {
        rule_from(rule_name(src@, nodes), ns, policy_ns, description, stmts, r)
    } else {
        &&& 0 <= upto < nodes.len()
        &&& nodes[upto].rule != Rule::COMMENT
        &&& r matches Err(e)
        &&& statement_reads(
            src,
            nodes[upto],
            base,
            path_view(ns@),
            Err::<RuleStatement, ParseError>(e),
        )
    }
}

/// The rule that the parts `nodes` of a rule declaration stand for in the
/// namespace `ns`, below the policies of `policy_ns`.
///
/// The first part that is no comment is the name of the rule, where it
/// is a name. The parts behind it are read as statements, in order, as
/// `statement_reads` states it; the first that is refused ends the
/// reading with its error. The statements are put together by
/// `RuleDef::assemble`.
#[verifier::loop_isolation(false)]
pub(crate) fn process_rule(
    src: &str,
    nodes: &Vec<Node>,
    base: &SrcLoc,
    ns: Vec<String>,
    policy_ns: GenName,
    description: Option<String>,
) -> (r: Result<RuleDef, ParseError>)
    ensures
        exists|upto: int, stmts: Seq<RuleStatement>|
            #[trigger] statements_read(
                src,
                nodes@,
                statements_start(nodes@),
                upto,
                *base,
                path_view(ns@),
                stmts,
            ) && rule_ends(src, nodes@, upto, *base, ns, policy_ns, description, stmts, r),
        r matches Ok(x) ==> x.ns == ns && x.policy_ns == policy_ns && x.description == description
            && opt_view(x.id) == rule_name(src@, nodes@),
{
    let a = skip_comments(nodes, 0);
    let mut id: Option<String> = None;
    let mut i: usize = a;
    if a < nodes.len() && rule_is(&nodes[a], Rule::identifier) {
        id = Some(node_text(src, &nodes[a]).to_owned());
        i = a + 1;
    }
    let ghost from = i as int;
    proof {
        assert(from == statements_start(nodes@));
    }
    let mut stmts: Vec<RuleStatement> = Vec::new();
    while i < nodes.len()
        invariant
            from <= i <= nodes@.len(),
            from == statements_start(nodes@),
            statements_read(src, nodes@, from, i as int, *base, path_view(ns@), stmts@),
        decreases nodes@.len() - i,
    {
        if !is_comment(&nodes[i]) {
            let ghost before = stmts@;
            match rule_statement(src, &nodes[i], base, &ns) {
                Ok(st) => {
                    stmts.push(st);
                    proof {
                        assert(stmts@.drop_last() == before);
                    }
                },
                Err(e) => {
                    proof {
                        assert(statements_read(
                            src,
                            nodes@,
                            statements_start(nodes@),
                            i as int,
                            *base,
                            path_view(ns@),
                            before,
                        ));
                        assert(rule_ends(
                            src,
                            nodes@,
                            i as int,
                            *base,
                            ns,
                            policy_ns,
                            description,
                            before,
                            Err::<RuleDef, ParseError>(e),
                        ));
                    }
                    return Err(e);
                },
            }
        }
        i = i + 1;
    }
    let ghost read = stmts@;
    let r = RuleDef::assemble(id, ns, policy_ns, description, stmts);
    proof {
        assert(statements_read(
            src,
            nodes@,
            statements_start(nodes@),
            nodes@.len() as int,
            *base,
            path_view(ns@),
            read,
        ));
        assert(rule_ends(
            src,
            nodes@,
            nodes@.len() as int,
            *base,
            ns,
            policy_ns,
            description,
            read,
            r,
        ));
    }
    r
}

} // verus!
