//! From the parse tree of a document to its syntax tree.
//!
//! Policies, policy sets and namespaces are built here. What is declared
//! is registered in the context in the order of the source, and each
//! policy and policy set gets a slot for its name, which stays empty
//! where the source gives no name.

use crate::ast::assemble::{PolicySetStatement, PolicyStatement};
use crate::ast::namespace::Namespace;
use crate::ast::naming::{GenName, NameSlot};
use crate::ast::policy::{Policy, PolicyId};
use crate::ast::policyset::{
    entry_well_formed, set_well_formed, PolicyEntry, PolicyReference, PolicySet,
};
use crate::ast::assemble::RuleStatement;
use crate::ast::rule::{RuleDef, RuleEntry, RuleReference};
use crate::ast::{closed_comment, comment_cleanup, split_dotted_string};
use crate::collection::{
    compile, compile_outcome, AlfaFile, AlfaSyntaxTree, AstCollection, AstSource,
};
use crate::context::{Context, Declarations};
use crate::errors::{ParseError, SrcLoc, SrcLocView};
use crate::grammar::{parse_tree, AlfaDocParser, Pairs, Rule};
use crate::peg::{nodes_view, to_chars, Node, NodeView};
use crate::ast::advice::AdviceDef;
use crate::ast::assemble::InfixPart;
use crate::ast::attribute::Attribute;
use crate::ast::category::Category;
use crate::ast::function::Function;
use crate::ast::import::ImportView;
use crate::ast::infix::Infix;
use crate::ast::obligation::ObligationDef;
use crate::ast::policycombinator::PolicyCombinator;
use crate::ast::rulecombinator::RuleCombinator;
use crate::ast::typedef::TypeDef;
use crate::ast::DeclView;
use crate::context::{registered_as, set_registered, PolicyHandle};
use crate::resolver::declared;
use crate::syntax::{
    attribute_valid, function_valid, imports_from, infix_from, infix_nodes_valid, is_attribute,
    is_function, is_parts, named_uri,
    block_valid, condition_reads, is_block, is_target, located, rule_ends, statements_read,
    statements_start, target_valid,
    next_at, node_text, place_in, process_advice, process_attribute, process_category,
    process_condition, process_function, process_import, process_infix, process_obligation,
    process_policycombinator, process_prescription, process_rule, process_rulecombinator,
    process_target, process_typedef, rule_is, skip_comments, string_from_string_literal, text_of,
};
use crate::text::{clone_opt_string, clone_strings, join, opt_view, path_view};
use crate::xacml::XTopPolicy;
use vstd::prelude::*;
use vstd::string::*;

verus! {

fn is_closed(raw: &str) -> (r: bool)
    ensures
        r == closed_comment(raw@),
{
    let s = to_chars(raw);
    let n = s.len();
    if n >= 2 && s[0] == '/' && s[1] == '/' {
        n >= 3 && s[n - 1] == '\n'
    } else if n >= 2 && s[0] == '/' && s[1] == '*' {
        n >= 4 && s[n - 2] == '*' && s[n - 1] == '/'
    } else {
        true
    }
}

/// The description that a comment with the text `raw` gives: the text
/// without the markers. A comment that is not closed as it was opened
/// stays as it is.
pub open spec fn described(raw: Seq<char>) -> Seq<char> {
    if closed_comment(raw) {
        crate::ast::cleaned(raw)
    } else {
        raw
    }
}

/// The description that the part in front of the part at `i` gives: that
/// of a comment, and none where another part or nothing stands there.
pub open spec fn comment_before(src: Seq<char>, nodes: Seq<Node>, i: int) -> Option<Seq<char>> {
    if 0 < i <= nodes.len() && nodes[i - 1].rule == Rule::COMMENT {
        Some(described(text_of(src, nodes[i - 1])))
    } else {
        None
    }
}

/// The description that the comment `raw` gives: its text without the
/// markers. A comment that is not closed as it was opened stays as it is.
pub fn description_of(raw: &str) -> (r: String)
    ensures
        r@ == described(raw@),
{
    if is_closed(raw) {
        comment_cleanup(raw).to_owned()
    } else {
        raw.to_owned()
    }
}

/// Whether `r` is how a policy or policy set is named, as the node `n`
/// says it: not at all, by a name, or by a name and an identifier, which
/// is what stands between the quotes of the string behind the name. A
/// node without these parts is refused with `AstConvertError`, and
/// another node with `UnexpectedRuleError`.
pub open spec fn naming_reads(src: &str, n: Node, r: Result<PolicyId, ParseError>) -> bool {
    let a = next_at(n.children@, 0);
    let b = next_at(n.children@, a + 1);
    match n.rule {
        Rule::policy_empty => r == Ok::<PolicyId, ParseError>(PolicyId::PolicyNoName),
        Rule::policy_with_name => {
            if !(0 <= a < n.children@.len()) {
                r == Err::<PolicyId, ParseError>(ParseError::AstConvertError)
            } else if n.children@[a].rule == Rule::identifier {
                &&& r matches Ok(PolicyId::PolicyName(name))
                &&& name@ == text_of(src@, n.children@[a])
            } else {
                &&& r matches Err(e)
                &&& e is UnexpectedRuleError
            }
        },
        Rule::policy_with_id => {
            if !(0 <= a < n.children@.len() && b < n.children@.len()) {
                r == Err::<PolicyId, ParseError>(ParseError::AstConvertError)
            } else if n.children@[a].rule == Rule::identifier && n.children@[b].rule
                == Rule::string_literal {
                match crate::syntax::string_content(src@, n.children@[b]) {
                    Some(c) => {
                        &&& r matches Ok(PolicyId::PolicyNameAndId(name, id))
                        &&& name@ == text_of(src@, n.children@[a])
                        &&& id@ == c
                    },
                    None => r == Err::<PolicyId, ParseError>(ParseError::AstConvertError),
                }
            } else {
                &&& r matches Err(e)
                &&& e is UnexpectedRuleError
            }
        },
        _ => {
            &&& r matches Err(e)
            &&& e is UnexpectedRuleError
        },
    }
}

/// How a policy or policy set is named, as the node `n` says it: not at
/// all, by a name, or by a name and an identifier. Another node is
/// refused with `UnexpectedRuleError`.
pub(crate) fn policy_naming(src: &str, n: &Node) -> (r: Result<PolicyId, ParseError>)
    ensures
        naming_reads(src, *n, r),
{
    match n.rule {
        Rule::policy_empty => Ok(PolicyId::PolicyNoName),
        Rule::policy_with_name => {
            let a = skip_comments(&n.children, 0);
            if a >= n.children.len() {
                return Err(ParseError::AstConvertError);
            }
            if rule_is(&n.children[a], Rule::identifier) {
                Ok(PolicyId::PolicyName(node_text(src, &n.children[a]).to_owned()))
            } else {
                Err(ParseError::UnexpectedRuleError("expected a policy identifier".to_owned()))
            }
        },
        Rule::policy_with_id => {
            let a = skip_comments(&n.children, 0);
            if a >= n.children.len() {
                return Err(ParseError::AstConvertError);
            }
            let b = skip_comments(&n.children, a + 1);
            if b >= n.children.len() {
                return Err(ParseError::AstConvertError);
            }
            if rule_is(&n.children[a], Rule::identifier) && rule_is(
                &n.children[b],
                Rule::string_literal,
            ) {
                let id = string_from_string_literal(src, &n.children[b])?.to_owned();
                Ok(PolicyId::PolicyNameAndId(node_text(src, &n.children[a]).to_owned(), id))
            } else {
                Err(
                    ParseError::UnexpectedRuleError(
                        "expected a policy name and identifier".to_owned(),
                    ),
                )
            }
        },
        _ => Err(ParseError::UnexpectedRuleError("expected a policy naming rule".to_owned())),
    }
}

/// The path of names for an element with the identifier `id` below the
/// elements of `parent`: the path of `parent` and a new slot, which holds
/// the name of the element where it has one.
pub(crate) fn path_below(parent: &GenName, id: &PolicyId, ctx: &mut Context) -> (r: GenName)
    ensures
        r@ == parent@.push(old(ctx).slots@.len() as usize),
        final(ctx).slots@ == old(ctx).slots@.push(id.spec_name()),
        *final(ctx) == (Context { slots: final(ctx).slots, ..*old(ctx) }),
        grown(*old(ctx), *final(ctx)),
{
    proof {
        crate::strmap::lemma_submap_insert(
            ctx.decls.rule_resolver@,
            Seq::<char>::empty(),
            arbitrary::<RuleDef>(),
        );
    }
    let slot = ctx.slots.new_slot(id.get_name());
    let mut path = parent.clone();
    path.push_name(slot);
    path
}

/// Whether `after` is `before` after elements were built: name slots
/// were added, none was changed, and rules were registered. Nothing else
/// is different, and what was registered stays registered.
pub open spec fn grown(before: Context, after: Context) -> bool {
    &&& after == (Context {
        slots: after.slots,
        decls: Declarations { rule_resolver: after.decls.rule_resolver, ..before.decls },
        ..before
    })
    &&& before.slots@.len() <= after.slots@.len()
    &&& forall|i: int| 0 <= i < before.slots@.len() ==> after.slots@[i] == before.slots@[i]
    &&& before.decls.rule_resolver@.submap_of(after.decls.rule_resolver@)
}

/// A context has grown from itself.
pub proof fn lemma_grown_refl(a: Context)
    ensures
        grown(a, a),
{
    crate::strmap::lemma_submap_insert(
        a.decls.rule_resolver@,
        Seq::<char>::empty(),
        arbitrary::<RuleDef>(),
    );
}

/// Growth after growth is growth.
pub proof fn lemma_grown_trans(a: Context, b: Context, c: Context)
    requires
        grown(a, b),
        grown(b, c),
    ensures
        grown(a, c),
{
    crate::strmap::lemma_submap_trans(
        a.decls.rule_resolver@,
        b.decls.rule_resolver@,
        c.decls.rule_resolver@,
    );
}

/// Registers the rule `rule` under its fully-qualified name, as
/// `Context::register_rule` does: a name that is taken is refused with
/// `DuplicateSymbol` and nothing changes, and a rule without a
/// fully-qualified name is not registered.
fn register_named_rule(rule: RuleDef, ctx: &mut Context) -> (r: Result<(), ParseError>)
    ensures
        grown(*old(ctx), *final(ctx)),
        final(ctx).slots == old(ctx).slots,
        match rule.qualified(old(ctx).slots@) {
            None => r is Ok && final(ctx).decls.rule_resolver@ == old(ctx).decls.rule_resolver@,
            Some(n) => if old(ctx).decls.rule_resolver@.contains_key(n) {
                &&& r matches Err(ParseError::DuplicateSymbol(s))
                &&& s@ == n
                &&& final(ctx).decls.rule_resolver@ == old(ctx).decls.rule_resolver@
            } else {
                r is Ok && final(ctx).decls.rule_resolver@ == old(ctx).decls.rule_resolver@.insert(
                    n,
                    rule,
                )
            },
        },
{
    proof {
        match rule.qualified(ctx.slots@) {
            Some(n) => crate::strmap::lemma_submap_insert(ctx.decls.rule_resolver@, n, rule),
            None => crate::strmap::lemma_submap_insert(
                ctx.decls.rule_resolver@,
                Seq::empty(),
                rule,
            ),
        }
    }
    ctx.register_rule(rule)
}

/// Whether `r` is what becomes of the parts `nodes` of a rule declaration
/// in the namespace `ns`, below the policies of `path` and with the
/// description `comment`: the statements are read in order up to the
/// first that is refused, and put together where none is.
pub open spec fn rule_read_as(
    src: &str,
    nodes: Seq<Node>,
    base: SrcLoc,
    ns: Seq<Seq<char>>,
    path: Seq<NameSlot>,
    comment: Option<Seq<char>>,
    r: Result<RuleDef, ParseError>,
) -> bool {
    exists|
        own_ns: Vec<String>,
        own_path: GenName,
        description: Option<String>,
        upto: int,
        stmts: Seq<RuleStatement>,
    |
        {
            &&& path_view(own_ns@) == ns
            &&& own_path@ == path
            &&& opt_view(description) == comment
            &&& statements_read(src, nodes, statements_start(nodes), upto, base, ns, stmts)
            &&& #[trigger] rule_ends(
                src,
                nodes,
                upto,
                base,
                own_ns,
                own_path,
                description,
                stmts,
                r,
            )
        }
}

/// Whether `after` is `before` with a copy of the rule `rule`, which
/// holds what the rule holds, registered under its fully-qualified name,
/// which was free.
pub open spec fn rule_entered(before: Context, after: Context, rule: RuleDef) -> bool {
    &&& after == (Context {
        decls: Declarations { rule_resolver: after.decls.rule_resolver, ..before.decls },
        ..before
    })
    &&& rule.qualified(before.slots@) matches Some(n)
    &&& !before.decls.rule_resolver@.contains_key(n)
    &&& after.decls.rule_resolver@.dom() == before.decls.rule_resolver@.dom().insert(n)
    &&& before.decls.rule_resolver@.submap_of(after.decls.rule_resolver@)
    &&& after.decls.rule_resolver@[n]@ == rule@
}

/// Whether `after` is `before` but for the table of rules, which holds
/// the same rules under the same names.
pub open spec fn same_rules(before: Context, after: Context) -> bool {
    &&& after == (Context {
        decls: Declarations { rule_resolver: after.decls.rule_resolver, ..before.decls },
        ..before
    })
    &&& after.decls.rule_resolver@ == before.decls.rule_resolver@
}

/// Whether `e` is the refusal of the rule `rule`, whose fully-qualified
/// name is taken in `before`.
pub open spec fn rule_taken(before: Context, rule: RuleDef, e: ParseError) -> bool {
    &&& rule.qualified(before.slots@) matches Some(n)
    &&& before.decls.rule_resolver@.contains_key(n)
    &&& e matches ParseError::DuplicateSymbol(s)
    &&& s@ == n
}

/// Whether `r` is what becomes of the rule declaration with the parts
/// `nodes` as a statement of a policy, and `after` what becomes of the
/// context `before`: the rule is read, and a rule with a name is
/// registered where `register` holds. A rule that is refused leaves the
/// context as it was, and one whose name is taken leaves every rule as it
/// was.
pub open spec fn rule_declared(
    src: &str,
    nodes: Seq<Node>,
    base: SrcLoc,
    ns: Seq<Seq<char>>,
    path: Seq<NameSlot>,
    comment: Option<Seq<char>>,
    register: bool,
    before: Context,
    after: Context,
    r: Result<PolicyStatement, ParseError>,
) -> bool {
    match r {
        Ok(PolicyStatement::Rule(RuleEntry::Def(rule))) => {
            &&& rule_read_as(src, nodes, base, ns, path, comment, Ok(rule))
            &&& if rule.id is Some && register {
                rule_entered(before, after, rule)
            } else {
                after == before
            }
        },
        Ok(_) => false,
        Err(e) => {
            ||| after == before && rule_read_as(src, nodes, base, ns, path, comment, Err(e))
            ||| register && same_rules(before, after) && exists|rule: RuleDef| #[trigger]
                rule_read_as(src, nodes, base, ns, path, comment, Ok(rule)) && rule_taken(
                    before,
                    rule,
                    e,
                )
        },
    }
}

/// Whether `r` is what becomes of the node `n` as a statement of a policy
/// in the namespace `ns` with the name path `path`, and `after` what
/// becomes of the context `before`: the combining algorithm that it
/// names, the target, the condition, the rule, the reference to a rule or
/// the block of obligations and advice that stands below it, or the error
/// with which that is refused. A rule gets the description `comment`.
/// Only a rule that is registered changes the context.
pub open spec fn policy_statement_reads(
    src: &str,
    n: Node,
    base: SrcLoc,
    ns: Seq<Seq<char>>,
    path: Seq<NameSlot>,
    comment: Option<Seq<char>>,
    register: bool,
    before: Context,
    after: Context,
    r: Result<PolicyStatement, ParseError>,
) -> bool {
    let s = next_at(n.children@, 0);
    if !(0 <= s < n.children@.len()) {
        after == before && r == Err::<PolicyStatement, ParseError>(ParseError::AstConvertError)
    } else {
        let stmt = n.children@[s];
        match stmt.rule {
            Rule::apply_stmt => {
                let k = next_at(stmt.children@, 0);
                &&& after == before
                &&& if 0 <= k < stmt.children@.len() {
                    &&& r matches Ok(PolicyStatement::Apply(name, place))
                    &&& name@ == text_of(src@, stmt.children@[k])
                    &&& place@ == located(src, base, stmt.start as int, stmt.end as int)
                } else {
                    r == Err::<PolicyStatement, ParseError>(ParseError::AstConvertError)
                }
            },
            Rule::target_stmt => {
                &&& after == before
                &&& if target_valid(src@, stmt.children@) {
                    &&& r matches Ok(PolicyStatement::Target(t))
                    &&& path_view(t.ns@) == ns
                    &&& is_target(src@, stmt.children@, t)
                } else {
                    r == Err::<PolicyStatement, ParseError>(ParseError::AstConvertError)
                }
            },
            Rule::condition_stmt => {
                &&& after == before
                &&& match r {
                    Ok(PolicyStatement::Condition(c)) => condition_reads(
                        src,
                        stmt.children@,
                        base,
                        ns,
                        Ok(c),
                    ),
                    Ok(_) => false,
                    Err(e) => condition_reads(src, stmt.children@, base, ns, Err(e)),
                }
            },
            Rule::rule_decl => rule_declared(
                src,
                stmt.children@,
                base,
                ns,
                path,
                comment,
                register,
                before,
                after,
                r,
            ),
            Rule::rule_reference => {
                &&& after == before
                &&& r matches Ok(PolicyStatement::Rule(RuleEntry::Ref(named)))
                &&& path_view(named.ns@).push(named.id@) == crate::ast::dot_parts(
                    text_of(src@, stmt),
                    0,
                    0,
                )
                &&& named.src_loc@ == located(src, base, stmt.start as int, stmt.end as int)
            },
            Rule::on_effect => {
                &&& after == before
                &&& if block_valid(src@, stmt) {
                    &&& r matches Ok(PolicyStatement::Prescription(b))
                    &&& path_view(b.ns@) == ns
                    &&& is_block(src@, stmt, b)
                } else {
                    r == Err::<PolicyStatement, ParseError>(ParseError::AstConvertError)
                }
            },
            _ => {
                &&& after == before
                &&& r matches Err(e)
                &&& e is UnexpectedRuleError
            },
        }
    }
}

/// The statement of a policy that the node `n` stands for, as
/// `policy_statement_reads` states it.
fn policy_statement(
    src: &str,
    n: &Node,
    base: &SrcLoc,
    ns: &Vec<String>,
    path: &GenName,
    comment: &Option<String>,
    register: bool,
    ctx: &mut Context,
) -> (r: Result<PolicyStatement, ParseError>)
    ensures
        policy_statement_reads(
            src,
            *n,
            *base,
            path_view(ns@),
            path@,
            opt_view(*comment),
            register,
            *old(ctx),
            *final(ctx),
            r,
        ),
        grown(*old(ctx), *final(ctx)),
        final(ctx).slots@ == old(ctx).slots@,
{
    proof {
        lemma_grown_refl(*ctx);
    }
    let s = skip_comments(&n.children, 0);
    if s >= n.children.len() {
        return Err(ParseError::AstConvertError);
    }
    let stmt = &n.children[s];
    match stmt.rule {
        Rule::apply_stmt => {
            let k = skip_comments(&stmt.children, 0);
            if k >= stmt.children.len() {
                return Err(ParseError::AstConvertError);
            }
            Ok(
                PolicyStatement::Apply(
                    node_text(src, &stmt.children[k]).to_owned(),
                    place_in(src, base, stmt.start, stmt.end),
                ),
            )
        },
        Rule::target_stmt => {
            let t = process_target(src, &stmt.children, clone_strings(ns.as_slice()))?;
            Ok(PolicyStatement::Target(t))
        },
        Rule::condition_stmt => {
            match process_condition(src, &stmt.children, base, clone_strings(ns.as_slice())) {
                Ok(c) => Ok(PolicyStatement::Condition(c)),
                Err(e) => Err(e),
            }
        },
        Rule::rule_decl => {
            let own_ns = clone_strings(ns.as_slice());
            let own_path = path.clone();
            let description = clone_opt_string(comment);
            let read = process_rule(src, &stmt.children, base, own_ns, own_path, description);
            proof {
                assert(rule_read_as(
                    src,
                    stmt.children@,
                    *base,
                    path_view(ns@),
                    path@,
                    opt_view(*comment),
                    read,
                ));
            }
            let rule = read?;
            if rule.id.is_some() && register {
                let ghost before = *ctx;
                match register_named_rule(rule.copy(), ctx) {
                    Ok(()) => {
                        proof {
                            assert(rule_entered(before, *ctx, rule));
                        }
                    },
                    Err(e) => {
                        proof {
                            assert(same_rules(before, *ctx));
                            assert(rule_read_as(
                                src,
                                stmt.children@,
                                *base,
                                path_view(ns@),
                                path@,
                                opt_view(*comment),
                                Ok::<RuleDef, ParseError>(rule),
                            ) && rule_taken(before, rule, e));
                        }
                        return Err(e);
                    },
                }
            }
            Ok(PolicyStatement::Rule(RuleEntry::Def(rule)))
        },
        Rule::rule_reference => {
            let (rule_ns, rule_id) = split_dotted_string(node_text(src, stmt));
            Ok(
                PolicyStatement::Rule(
                    RuleEntry::Ref(
                        RuleReference {
                            id: rule_id,
                            ns: rule_ns,
                            src_loc: place_in(src, base, stmt.start, stmt.end),
                        },
                    ),
                ),
            )
        },
        Rule::on_effect => {
            let b = process_prescription(src, stmt, clone_strings(ns.as_slice()))?;
            Ok(PolicyStatement::Prescription(b))
        },
        _ => Err(
            ParseError::UnexpectedRuleError(
                "found an unexpected rule within a policy definition".to_owned(),
            ),
        ),
    }
}

/// Whether `stmts` are the statements that the parts of `nodes` from
/// `from` up to `upto` stand for, in order, and `now` is what becomes of
/// the context `start` as they are read. Only the parts that are
/// statements count; a rule takes the comment that stands directly in
/// front of it for its description.
pub open spec fn policy_statements_read(
    src: &str,
    nodes: Seq<Node>,
    from: int,
    upto: int,
    base: SrcLoc,
    ns: Seq<Seq<char>>,
    path: Seq<NameSlot>,
    register: bool,
    start: Context,
    now: Context,
    stmts: Seq<PolicyStatement>,
) -> bool
    decreases upto - from,
{
    if upto <= from || from < 0 || upto > nodes.len() {
        upto <= from && stmts.len() == 0 && now == start
    } else if nodes[upto - 1].rule != Rule::policy_stmt {
        policy_statements_read(src, nodes, from, upto - 1, base, ns, path, register, start, now, stmts)
    } else {
        &&& stmts.len() > 0
        &&& exists|mid: Context|
            {
                &&& policy_statements_read(
                    src,
                    nodes,
                    from,
                    upto - 1,
                    base,
                    ns,
                    path,
                    register,
                    start,
                    mid,
                    stmts.drop_last(),
                )
                &&& #[trigger] policy_statement_reads(
                    src,
                    nodes[upto - 1],
                    base,
                    ns,
                    path,
                    comment_before(src@, nodes, upto - 1),
                    register,
                    mid,
                    now,
                    Ok(stmts.last()),
                )
            }
    }
}

/// The statements that were read and one more statement are the
/// statements up to the part behind it.
proof fn lemma_statement_read(
    src: &str,
    nodes: Seq<Node>,
    from: int,
    upto: int,
    base: SrcLoc,
    ns: Seq<Seq<char>>,
    path: Seq<NameSlot>,
    register: bool,
    start: Context,
    mid: Context,
    now: Context,
    stmts: Seq<PolicyStatement>,
)
    requires
        0 <= from < upto <= nodes.len(),
        nodes[upto - 1].rule == Rule::policy_stmt,
        stmts.len() > 0,
        policy_statements_read(
            src,
            nodes,
            from,
            upto - 1,
            base,
            ns,
            path,
            register,
            start,
            mid,
            stmts.drop_last(),
        ),
        policy_statement_reads(
            src,
            nodes[upto - 1],
            base,
            ns,
            path,
            comment_before(src@, nodes, upto - 1),
            register,
            mid,
            now,
            Ok(stmts.last()),
        ),
    ensures
        policy_statements_read(src, nodes, from, upto, base, ns, path, register, start, now, stmts),
{
}

/// Whether `r` is what becomes of a policy with the identifier `id`, in
/// the namespace `ns` and with the name path `path`, that is declared at
/// `place` with the statements `stmts`, as `Policy::assemble` puts them
/// together.
pub open spec fn policy_from(
    id: PolicyId,
    ns: Seq<Seq<char>>,
    path: Seq<NameSlot>,
    place: SrcLocView,
    description: Option<Seq<char>>,
    stmts: Seq<PolicyStatement>,
    r: Result<Policy, ParseError>,
) -> bool {
    match crate::ast::assemble::policy_parts(stmts, stmts.len()) {
        Err(k) => r matches Err(e) && e.spec_kind() == k,
        Ok(st) => match st.apply {
            None => {
                &&& r matches Err(ParseError::MissingApplyStatement(e))
                &&& e.src_loc@ == place
            },
            Some(apply) => {
                &&& r matches Ok(x)
                &&& x.id == id
                &&& path_view(x.ns@) == ns
                &&& x.policy_ns@ == path
                &&& x.src_loc@ == place
                &&& opt_view(x.description) == description
                &&& x.apply.id == apply.0
                &&& x.apply.src_loc == apply.1
                &&& x.target == st.target
                &&& x.condition == st.condition
                &&& x.rules@ == st.rules
                &&& x.prescriptions@ == st.prescriptions
            },
        },
    }
}

/// Whether `r` is what becomes of a policy after the statements `stmts`
/// were read from the parts before `upto`, and `after` what becomes of
/// the context `now`: where a part stands at `upto`, it is a statement
/// that is refused with the error of `r`; where `upto` is the end of the
/// parts, `r` is what `Policy::assemble` makes of the statements.
pub open spec fn policy_ends(
    src: &str,
    nodes: Seq<Node>,
    upto: int,
    base: SrcLoc,
    id: PolicyId,
    ns: Seq<Seq<char>>,
    path: Seq<NameSlot>,
    place: SrcLocView,
    description: Option<Seq<char>>,
    register: bool,
    now: Context,
    after: Context,
    stmts: Seq<PolicyStatement>,
    r: Result<Policy, ParseError>,
) -> bool {
    if upto == nodes.len() {
        after == now && policy_from(id, ns, path, place, description, stmts, r)
    } else {
        &&& 0 <= upto < nodes.len()
        &&& nodes[upto].rule == Rule::policy_stmt
        &&& r matches Err(e)
        &&& policy_statement_reads(
            src,
            nodes[upto],
            base,
            ns,
            path,
            comment_before(src@, nodes, upto),
            register,
            now,
            after,
            Err::<PolicyStatement, ParseError>(e),
        )
    }
}

/// Whether `r` is the policy with the identifier `id` that the parts
/// `nodes` behind the naming part at `a` stand for, and `after` what
/// becomes of the context `before`: the policy gets a new slot with its
/// name, the statements are read in order up to the first that is
/// refused, and they are put together where none is. Rules with a name
/// are registered where `register` holds.
pub open spec fn policy_built(
    src: &str,
    nodes: Seq<Node>,
    a: int,
    base: SrcLoc,
    id: PolicyId,
    ns: Seq<Seq<char>>,
    parent: Seq<NameSlot>,
    description: Option<Seq<char>>,
    register: bool,
    before: Context,
    after: Context,
    r: Result<Policy, ParseError>,
) -> bool {
    let path = parent.push(before.slots@.len() as usize);
    let place = located(src, base, nodes[a].start as int, nodes[a].end as int);
    exists|upto: int, stmts: Seq<PolicyStatement>, start: Context, now: Context|
        {
            &&& start == (Context { slots: start.slots, ..before })
            &&& start.slots@ == before.slots@.push(id.spec_name())
            &&& #[trigger] policy_statements_read(
                src,
                nodes,
                a + 1,
                upto,
                base,
                ns,
                path,
                register,
                start,
                now,
                stmts,
            )
            &&& policy_ends(
                src,
                nodes,
                upto,
                base,
                id,
                ns,
                path,
                place,
                description,
                register,
                now,
                after,
                stmts,
                r,
            )
        }
}

/// Whether `r` is the policy that the parts `nodes` of a policy
/// declaration stand for in the namespace `ns`, below the policy sets of
/// `parent`, and `after` what becomes of the context `before`.
///
/// The first part that is no comment says how the policy is named; where
/// there is none the declaration is refused with `AstConvertError`, and
/// where it is refused the policy is refused with the same error. Both
/// leave the context as it was. Else the policy is built from the parts
/// behind it, as `policy_built` states it; its rules are registered where
/// `register` holds and the policy has a name.
pub open spec fn policy_reads(
    src: &str,
    nodes: Seq<Node>,
    base: SrcLoc,
    ns: Seq<Seq<char>>,
    parent: Seq<NameSlot>,
    description: Option<Seq<char>>,
    register: bool,
    before: Context,
    after: Context,
    r: Result<Policy, ParseError>,
) -> bool {
    let a = next_at(nodes, 0);
    if !(0 <= a < nodes.len()) {
        after == before && r == Err::<Policy, ParseError>(ParseError::AstConvertError)
    } else {
        exists|id: Result<PolicyId, ParseError>| #[trigger]
            naming_reads(src, nodes[a], id) && match id {
                Err(e) => after == before && r == Err::<Policy, ParseError>(e),
                Ok(id) => policy_built(
                    src,
                    nodes,
                    a,
                    base,
                    id,
                    ns,
                    parent,
                    description,
                    register && !(id is PolicyNoName),
                    before,
                    after,
                    r,
                ),
            }
    }
}

/// The policy that the parts `nodes` of a policy declaration stand for in
/// the namespace `ns`, below the policy sets of `parent`, as
/// `policy_reads` states it.
///
/// The policy gets a new slot for its name. Its statements are read in
/// order; a comment directly in front of a rule is the description of
/// that rule. A rule with a name is registered, where `register` says so
/// and the policy has a name. The statements are put together by
/// `Policy::assemble`.
#[verifier::loop_isolation(false)]
pub(crate) fn process_policy(
    src: &str,
    nodes: &Vec<Node>,
    base: &SrcLoc,
    ns: Vec<String>,
    parent: &GenName,
    description: Option<String>,
    register: bool,
    ctx: &mut Context,
) -> (r: Result<Policy, ParseError>)
    ensures
        policy_reads(
            src,
            nodes@,
            *base,
            path_view(ns@),
            parent@,
            opt_view(description),
            register,
            *old(ctx),
            *final(ctx),
            r,
        ),
        r matches Ok(p) ==> {
            &&& p.ns == ns
            &&& p.description == description
            &&& p.policy_ns@ == parent@.push(old(ctx).slots@.len() as usize)
            &&& final(ctx).slots@ == old(ctx).slots@.push(p.id.spec_name())
        },
        grown(*old(ctx), *final(ctx)),
{
    proof {
        lemma_grown_refl(*ctx);
    }
    let a = skip_comments(nodes, 0);
    if a >= nodes.len() {
        return Err(ParseError::AstConvertError);
    }
    let policy_src_loc = place_in(src, base, nodes[a].start, nodes[a].end);
    let naming = policy_naming(src, &nodes[a]);
    let id = match naming {
        Ok(id) => id,
        Err(e) => {
            proof {
                assert(naming_reads(src, nodes@[a as int], Err::<PolicyId, ParseError>(e)));
            }
            return Err(e);
        },
    };
    proof {
        assert(naming_reads(src, nodes@[a as int], Ok::<PolicyId, ParseError>(id)));
    }
    let named = match &id {
        PolicyId::PolicyNoName => false,
        _ => true,
    };
    let do_register = named && register;
    let path = path_below(parent, &id, ctx);
    let ghost start = *ctx;
    let ghost place = policy_src_loc@;
    let mut stmts: Vec<PolicyStatement> = Vec::new();
    let mut last_comment: Option<String> = None;
    let mut i: usize = a + 1;
    while i < nodes.len()
        invariant
            a < i <= nodes@.len(),
            ctx.slots@ == old(ctx).slots@.push(id.spec_name()),
            grown(*old(ctx), *ctx),
            opt_view(last_comment) == comment_before(src@, nodes@, i as int),
            policy_statements_read(
                src,
                nodes@,
                a + 1,
                i as int,
                *base,
                path_view(ns@),
                path@,
                do_register,
                start,
                *ctx,
                stmts@,
            ),
        decreases nodes@.len() - i,
    {
        let stmt_node = &nodes[i];
        if rule_is(stmt_node, Rule::COMMENT) {
            last_comment = Some(description_of(node_text(src, stmt_node)));
            i = i + 1;
            continue ;
        }
        if rule_is(stmt_node, Rule::policy_stmt) {
            let ghost before = *ctx;
            let ghost read = stmts@;
            let stmt = policy_statement(
                src,
                stmt_node,
                base,
                &ns,
                &path,
                &last_comment,
                do_register,
                ctx,
            );
            proof {
                lemma_grown_trans(*old(ctx), before, *ctx);
            }
            match stmt {
                Ok(st) => {
                    stmts.push(st);
                    proof {
                        assert(stmts@.drop_last() == read);
                        assert(stmts@.last() == st);
                        assert(policy_statements_read(
                            src,
                            nodes@,
                            a + 1,
                            i as int,
                            *base,
                            path_view(ns@),
                            path@,
                            do_register,
                            start,
                            before,
                            stmts@.drop_last(),
                        ));
                        lemma_statement_read(
                            src,
                            nodes@,
                            a + 1,
                            i + 1,
                            *base,
                            path_view(ns@),
                            path@,
                            do_register,
                            start,
                            before,
                            *ctx,
                            stmts@,
                        );
                    }
                },
                Err(e) => {
                    proof {
                        assert(policy_ends(
                            src,
                            nodes@,
                            i as int,
                            *base,
                            id,
                            path_view(ns@),
                            path@,
                            place,
                            opt_view(description),
                            do_register,
                            before,
                            *ctx,
                            read,
                            Err::<Policy, ParseError>(e),
                        ));
                        assert(policy_built(
                            src,
                            nodes@,
                            a as int,
                            *base,
                            id,
                            path_view(ns@),
                            parent@,
                            opt_view(description),
                            do_register,
                            *old(ctx),
                            *ctx,
                            Err::<Policy, ParseError>(e),
                        ));
                    }
                    return Err(e);
                },
            }
        }
        last_comment = None;
        i = i + 1;
    }
    let ghost read = stmts@;
    let ghost given = (id, ns, description);
    let r = Policy::assemble(id, ns, path, policy_src_loc, description, stmts);
    proof {
        assert(policy_ends(
            src,
            nodes@,
            nodes@.len() as int,
            *base,
            given.0,
            path_view(given.1@),
            parent@.push(old(ctx).slots@.len() as usize),
            place,
            opt_view(given.2),
            do_register,
            *ctx,
            *ctx,
            read,
            r,
        ));
        assert(policy_built(
            src,
            nodes@,
            a as int,
            *base,
            given.0,
            path_view(given.1@),
            parent@,
            opt_view(given.2),
            do_register,
            *old(ctx),
            *ctx,
            r,
        ));
    }
    r
}

/// The description that the last comment among the parts of `nodes` from
/// `from` up to `i` gives, and none where no comment stands there.
pub open spec fn comment_above(src: Seq<char>, nodes: Seq<Node>, from: int, i: int) -> Option<
    Seq<char>,
>
    decreases i - from,
{
    if i <= from || from < 0 || i > nodes.len() {
        None
    } else if nodes[i - 1].rule == Rule::COMMENT {
        Some(described(text_of(src, nodes[i - 1])))
    } else {
        comment_above(src, nodes, from, i - 1)
    }
}

/// Whether the context `now` can be what reading the parts of `nodes`
/// before `upto` made of `before`, with `count` statements read: the
/// context has grown, and no part gave more than one statement.
pub open spec fn read_so_far(
    before: Context,
    now: Context,
    nodes: Seq<Node>,
    upto: int,
    count: nat,
) -> bool {
    &&& grown(before, now)
    &&& 0 <= upto <= nodes.len()
    &&& count <= upto
}

/// Whether `r` is what becomes of the node `n` as a statement of a policy
/// set in the namespace `ns` with the name path `path`, and `after` what
/// becomes of the context `before`: the combining algorithm that it
/// names, the target, the condition, the policy, the policy set, the
/// reference or the block of obligations and advice that stands below it,
/// or the error with which that is refused. A policy and a policy set get
/// the description `comment`. Only a policy and a policy set change the
/// context.
pub open spec fn set_statement_reads(
    src: &str,
    n: Node,
    base: SrcLoc,
    ns: Seq<Seq<char>>,
    path: Seq<NameSlot>,
    comment: Option<Seq<char>>,
    register: bool,
    before: Context,
    after: Context,
    r: Result<PolicySetStatement, ParseError>,
) -> bool
    decreases n, 4nat, 0nat,
{
    let s = next_at(n.children@, 0);
    if !(0 <= s < n.children@.len()) {
        after == before && r == Err::<PolicySetStatement, ParseError>(ParseError::AstConvertError)
    } else {
        let stmt = n.children@[s];
        match stmt.rule {
            Rule::apply_stmt => {
                let k = next_at(stmt.children@, 0);
                &&& after == before
                &&& if 0 <= k < stmt.children@.len() {
                    &&& r matches Ok(PolicySetStatement::Apply(name, place))
                    &&& name@ == text_of(src@, stmt.children@[k])
                    &&& place@ == base@
                } else {
                    r == Err::<PolicySetStatement, ParseError>(ParseError::AstConvertError)
                }
            },
            Rule::target_stmt => {
                &&& after == before
                &&& if target_valid(src@, stmt.children@) {
                    &&& r matches Ok(PolicySetStatement::Target(t))
                    &&& path_view(t.ns@) == ns
                    &&& is_target(src@, stmt.children@, t)
                } else {
                    r == Err::<PolicySetStatement, ParseError>(ParseError::AstConvertError)
                }
            },
            Rule::condition_stmt => {
                &&& after == before
                &&& match r {
                    Ok(PolicySetStatement::Condition(c)) => condition_reads(
                        src,
                        stmt.children@,
                        base,
                        ns,
                        Ok(c),
                    ),
                    Ok(_) => false,
                    Err(e) => condition_reads(src, stmt.children@, base, ns, Err(e)),
                }
            },
            Rule::policy_decl => match r {
                Ok(PolicySetStatement::Member(PolicyEntry::Policy(p))) => policy_reads(
                    src,
                    stmt.children@,
                    base,
                    ns,
                    path,
                    comment,
                    register,
                    before,
                    after,
                    Ok(p),
                ),
                Ok(_) => false,
                Err(e) => policy_reads(
                    src,
                    stmt.children@,
                    base,
                    ns,
                    path,
                    comment,
                    register,
                    before,
                    after,
                    Err(e),
                ),
            },
            Rule::policyset_decl => match r {
                Ok(PolicySetStatement::Member(PolicyEntry::PolicySet(p))) => set_reads(
                    src,
                    stmt,
                    base,
                    ns,
                    path,
                    comment,
                    register,
                    before,
                    after,
                    Ok(p),
                ),
                Ok(_) => false,
                Err(e) => set_reads(
                    src,
                    stmt,
                    base,
                    ns,
                    path,
                    comment,
                    register,
                    before,
                    after,
                    Err(e),
                ),
            },
            Rule::policy_reference => {
                &&& after == before
                &&& r matches Ok(PolicySetStatement::Member(PolicyEntry::Ref(named)))
                &&& path_view(named.ns@).push(named.id@) == crate::ast::dot_parts(
                    text_of(src@, stmt),
                    0,
                    0,
                )
            },
            Rule::on_effect => {
                &&& after == before
                &&& if block_valid(src@, stmt) {
                    &&& r matches Ok(PolicySetStatement::Prescription(b))
                    &&& path_view(b.ns@) == ns
                    &&& is_block(src@, stmt, b)
                } else {
                    r == Err::<PolicySetStatement, ParseError>(ParseError::AstConvertError)
                }
            },
            _ => {
                &&& after == before
                &&& r matches Err(e)
                &&& e is UnexpectedRuleError
            },
        }
    }
}

/// Whether `stmts` are the statements that the parts below `n` from
/// `from` up to `upto` stand for, in order, and `now` is what becomes of
/// the context `start` as they are read. Only the parts that are
/// statements count; a policy and a policy set take the last comment in
/// front of them for their description.
pub open spec fn set_statements_read(
    src: &str,
    n: Node,
    from: int,
    upto: int,
    base: SrcLoc,
    ns: Seq<Seq<char>>,
    path: Seq<NameSlot>,
    register: bool,
    start: Context,
    now: Context,
    stmts: Seq<PolicySetStatement>,
) -> bool
    decreases n, 1nat, upto - from,
{
    let nodes = n.children@;
    if upto <= from || from < 0 || upto > nodes.len() {
        upto <= from && stmts.len() == 0 && now == start
    } else if nodes[upto - 1].rule != Rule::policyset_stmt {
        set_statements_read(src, n, from, upto - 1, base, ns, path, register, start, now, stmts)
    } else {
        &&& stmts.len() > 0
        &&& exists|mid: Context|
            {
                &&& #[trigger] grown(start, mid)
                &&& set_statements_read(
                    src,
                    n,
                    from,
                    upto - 1,
                    base,
                    ns,
                    path,
                    register,
                    start,
                    mid,
                    stmts.drop_last(),
                )
                &&& set_statement_reads(
                    src,
                    nodes[upto - 1],
                    base,
                    ns,
                    path,
                    comment_above(src@, nodes, from, upto - 1),
                    register,
                    mid,
                    now,
                    Ok(stmts.last()),
                )
            }
    }
}

/// Whether `r` is what becomes of a policy set with the identifier `id`,
/// in the namespace `ns` and with the name path `path`, that is declared
/// at `place` with the statements `stmts`, as `PolicySet::assemble` puts
/// them together.
pub open spec fn set_from(
    id: PolicyId,
    ns: Seq<Seq<char>>,
    path: Seq<NameSlot>,
    place: SrcLocView,
    description: Option<Seq<char>>,
    stmts: Seq<PolicySetStatement>,
    r: Result<PolicySet, ParseError>,
) -> bool {
    match crate::ast::assemble::policyset_parts(stmts, stmts.len()) {
        Err(k) => r matches Err(e) && e.spec_kind() == k,
        Ok(st) => match st.apply {
            None => {
                &&& r matches Err(ParseError::MissingApplyStatement(e))
                &&& e.src_loc@ == place
            },
            Some(apply) => {
                &&& r matches Ok(x)
                &&& x.id == id
                &&& path_view(x.ns@) == ns
                &&& x.policy_ns@ == path
                &&& x.src_loc@ == place
                &&& opt_view(x.description) == description
                &&& x.apply.id == apply.0
                &&& x.apply.src_loc == apply.1
                &&& x.target == st.target
                &&& x.condition == st.condition
                &&& x.policies@ == st.members
                &&& x.prescriptions@ == st.prescriptions
            },
        },
    }
}

/// Whether `r` is what becomes of a policy set after the statements
/// `stmts` were read from the parts below `n` before `upto`, and `after`
/// what becomes of the context `now`: where a part stands at `upto`, it
/// is a statement that is refused with the error of `r`; where `upto` is
/// the end of the parts, `r` is what `PolicySet::assemble` makes of the
/// statements.
pub open spec fn set_ends(
    src: &str,
    n: Node,
    from: int,
    upto: int,
    base: SrcLoc,
    id: PolicyId,
    ns: Seq<Seq<char>>,
    path: Seq<NameSlot>,
    description: Option<Seq<char>>,
    register: bool,
    now: Context,
    after: Context,
    stmts: Seq<PolicySetStatement>,
    r: Result<PolicySet, ParseError>,
) -> bool
    decreases n, 1nat, 0nat,
{
    let nodes = n.children@;
    if upto == nodes.len() {
        after == now && set_from(
            id,
            ns,
            path,
            located(src, base, n.start as int, n.end as int),
            description,
            stmts,
            r,
        )
    } else {
        &&& 0 <= upto < nodes.len()
        &&& nodes[upto].rule == Rule::policyset_stmt
        &&& r matches Err(e)
        &&& set_statement_reads(
            src,
            nodes[upto],
            base,
            ns,
            path,
            comment_above(src@, nodes, from, upto),
            register,
            now,
            after,
            Err::<PolicySetStatement, ParseError>(e),
        )
    }
}

/// Whether `r` is the policy set with the identifier `id` that the parts
/// below `n` behind the naming part at `a` stand for, and `after` what
/// becomes of the context `before`: the policy set gets a new slot with
/// its name, the statements are read in order up to the first that is
/// refused, and they are put together where none is. Rules with a name
/// are registered where `register` holds.
pub open spec fn set_built(
    src: &str,
    n: Node,
    a: int,
    base: SrcLoc,
    id: PolicyId,
    ns: Seq<Seq<char>>,
    parent: Seq<NameSlot>,
    description: Option<Seq<char>>,
    register: bool,
    before: Context,
    after: Context,
    r: Result<PolicySet, ParseError>,
) -> bool
    decreases n, 2nat, 0nat,
{
    let path = parent.push(before.slots@.len() as usize);
    exists|upto: int, stmts: Seq<PolicySetStatement>, start: Context, now: Context|
        {
            &&& start == (Context { slots: start.slots, ..before })
            &&& start.slots@ == before.slots@.push(id.spec_name())
            &&& #[trigger] read_so_far(start, now, n.children@, upto, stmts.len())
            &&& set_statements_read(
                src,
                n,
                a + 1,
                upto,
                base,
                ns,
                path,
                register,
                start,
                now,
                stmts,
            )
            &&& set_ends(
                src,
                n,
                a + 1,
                upto,
                base,
                id,
                ns,
                path,
                description,
                register,
                now,
                after,
                stmts,
                r,
            )
        }
}

/// Whether `r` is the policy set that the node `n` of a policy set
/// declaration stands for in the namespace `ns`, below the policy sets of
/// `parent`, and `after` what becomes of the context `before`.
///
/// The first part below `n` that is no comment says how the policy set is
/// named; where there is none the declaration is refused with
/// `AstConvertError`, and where it is refused the policy set is refused
/// with the same error. Both leave the context as it was. Else the policy
/// set is built from the parts behind it, as `set_built` states it; rules
/// are registered where `register` holds and the policy set has a name.
pub open spec fn set_reads(
    src: &str,
    n: Node,
    base: SrcLoc,
    ns: Seq<Seq<char>>,
    parent: Seq<NameSlot>,
    description: Option<Seq<char>>,
    register: bool,
    before: Context,
    after: Context,
    r: Result<PolicySet, ParseError>,
) -> bool
    decreases n, 3nat, 0nat,
{
    let nodes = n.children@;
    let a = next_at(nodes, 0);
    if !(0 <= a < nodes.len()) {
        after == before && r == Err::<PolicySet, ParseError>(ParseError::AstConvertError)
    } else {
        exists|id: Result<PolicyId, ParseError>| #[trigger]
            naming_reads(src, nodes[a], id) && match id {
                Err(e) => after == before && r == Err::<PolicySet, ParseError>(e),
                Ok(id) => set_built(
                    src,
                    n,
                    a,
                    base,
                    id,
                    ns,
                    parent,
                    description,
                    register && !(id is PolicyNoName),
                    before,
                    after,
                    r,
                ),
            }
    }
}

/// The statement of a policy set that the node `n` stands for, as
/// `set_statement_reads` states it.
fn set_statement(
    src: &str,
    n: &Node,
    base: &SrcLoc,
    ns: &Vec<String>,
    path: &GenName,
    comment: &Option<String>,
    register: bool,
    ctx: &mut Context,
) -> (r: Result<PolicySetStatement, ParseError>)
    ensures
        set_statement_reads(
            src,
            *n,
            *base,
            path_view(ns@),
            path@,
            opt_view(*comment),
            register,
            *old(ctx),
            *final(ctx),
            r,
        ),
        grown(*old(ctx), *final(ctx)),
        r matches Ok(PolicySetStatement::Member(e)) ==> entry_well_formed(e, path@.len() as int),
    decreases n, 1nat,
{
    proof {
        lemma_grown_refl(*ctx);
    }
    let s = skip_comments(&n.children, 0);
    if s >= n.children.len() {
        return Err(ParseError::AstConvertError);
    }
    let stmt = &n.children[s];
    proof {
        assert(decreases_to!(n => n.children@[s as int]));
    }
    match stmt.rule {
        Rule::apply_stmt => {
            let k = skip_comments(&stmt.children, 0);
            if k >= stmt.children.len() {
                return Err(ParseError::AstConvertError);
            }
            Ok(
                PolicySetStatement::Apply(
                    node_text(src, &stmt.children[k]).to_owned(),
                    base.clone(),
                ),
            )
        },
        Rule::target_stmt => {
            let t = process_target(src, &stmt.children, clone_strings(ns.as_slice()))?;
            Ok(PolicySetStatement::Target(t))
        },
        Rule::condition_stmt => {
            match process_condition(src, &stmt.children, base, clone_strings(ns.as_slice())) {
                Ok(c) => Ok(PolicySetStatement::Condition(c)),
                Err(e) => Err(e),
            }
        },
        Rule::policy_decl => {
            match process_policy(
                src,
                &stmt.children,
                base,
                clone_strings(ns.as_slice()),
                path,
                clone_opt_string(comment),
                register,
                ctx,
            ) {
                Ok(p) => Ok(PolicySetStatement::Member(PolicyEntry::Policy(p))),
                Err(e) => Err(e),
            }
        },
        Rule::policyset_decl => {
            match process_policyset(
                src,
                stmt,
                base,
                clone_strings(ns.as_slice()),
                path,
                clone_opt_string(comment),
                register,
                ctx,
            ) {
                Ok(p) => Ok(PolicySetStatement::Member(PolicyEntry::PolicySet(p))),
                Err(e) => Err(e),
            }
        },
        Rule::policy_reference => {
            let (policy_ns, policy_id) = split_dotted_string(node_text(src, stmt));
            Ok(
                PolicySetStatement::Member(
                    PolicyEntry::Ref(PolicyReference { id: policy_id, ns: policy_ns }),
                ),
            )
        },
        Rule::on_effect => {
            let b = process_prescription(src, stmt, clone_strings(ns.as_slice()))?;
            Ok(PolicySetStatement::Prescription(b))
        },
        _ => Err(
            ParseError::UnexpectedRuleError(
                "found an unexpected rule within a policy set definition".to_owned(),
            ),
        ),
    }
}

/// The statements that were read and one more statement are the
/// statements up to the part behind it.
proof fn lemma_set_statement_read(
    src: &str,
    n: Node,
    from: int,
    upto: int,
    base: SrcLoc,
    ns: Seq<Seq<char>>,
    path: Seq<NameSlot>,
    register: bool,
    start: Context,
    mid: Context,
    now: Context,
    stmts: Seq<PolicySetStatement>,
)
    requires
        0 <= from < upto <= n.children@.len(),
        n.children@[upto - 1].rule == Rule::policyset_stmt,
        stmts.len() > 0,
        grown(start, mid),
        set_statements_read(
            src,
            n,
            from,
            upto - 1,
            base,
            ns,
            path,
            register,
            start,
            mid,
            stmts.drop_last(),
        ),
        set_statement_reads(
            src,
            n.children@[upto - 1],
            base,
            ns,
            path,
            comment_above(src@, n.children@, from, upto - 1),
            register,
            mid,
            now,
            Ok(stmts.last()),
        ),
    ensures
        set_statements_read(src, n, from, upto, base, ns, path, register, start, now, stmts),
{
}

/// The policy set that the node `n` of a policy set declaration stands
/// for in the namespace `ns`, below the policy sets of `parent`, as
/// `set_reads` states it.
///
/// The policy set gets a new slot for its name. Its statements are read
/// in order, the policies and policy sets in it with the path of this
/// policy set above them. The last comment in front of a member is its
/// description, whatever stands between the two. The statements are put
/// together by `PolicySet::assemble`.
#[verifier::loop_isolation(false)]
pub(crate) fn process_policyset(
    src: &str,
    n: &Node,
    base: &SrcLoc,
    ns: Vec<String>,
    parent: &GenName,
    description: Option<String>,
    register: bool,
    ctx: &mut Context,
) -> (r: Result<PolicySet, ParseError>)
    ensures
        set_reads(
            src,
            *n,
            *base,
            path_view(ns@),
            parent@,
            opt_view(description),
            register,
            *old(ctx),
            *final(ctx),
            r,
        ),
        r matches Ok(p) ==> {
            &&& p.ns == ns
            &&& p.description == description
            &&& p.policy_ns@ == parent@.push(old(ctx).slots@.len() as usize)
            &&& old(ctx).slots@.len() < final(ctx).slots@.len()
            &&& final(ctx).slots@[old(ctx).slots@.len() as int] == p.id.spec_name()
            &&& set_well_formed(p, parent@.len() as int)
        },
        grown(*old(ctx), *final(ctx)),
    decreases n, 2nat,
{
    proof {
        lemma_grown_refl(*ctx);
    }
    let nodes = &n.children;
    let a = skip_comments(nodes, 0);
    if a >= nodes.len() {
        return Err(ParseError::AstConvertError);
    }
    let naming = policy_naming(src, &nodes[a]);
    let id = match naming {
        Ok(id) => id,
        Err(e) => {
            proof {
                assert(naming_reads(src, nodes@[a as int], Err::<PolicyId, ParseError>(e)));
            }
            return Err(e);
        },
    };
    proof {
        assert(naming_reads(src, nodes@[a as int], Ok::<PolicyId, ParseError>(id)));
    }
    let named = match &id {
        PolicyId::PolicyNoName => false,
        _ => true,
    };
    let do_register = named && register;
    let path = path_below(parent, &id, ctx);
    let ghost start = *ctx;
    proof {
        lemma_grown_refl(start);
    }
    let mut stmts: Vec<PolicySetStatement> = Vec::new();
    let mut last_comment: Option<String> = None;
    let mut i: usize = a + 1;
    while i < nodes.len()
        invariant
            a < i <= nodes@.len(),
            nodes == &n.children,
            old(ctx).slots@.len() < ctx.slots@.len(),
            ctx.slots@[old(ctx).slots@.len() as int] == id.spec_name(),
            grown(*old(ctx), *ctx),
            grown(start, *ctx),
            stmts@.len() <= i,
            opt_view(last_comment) == comment_above(src@, nodes@, a + 1, i as int),
            set_statements_read(
                src,
                *n,
                a + 1,
                i as int,
                *base,
                path_view(ns@),
                path@,
                do_register,
                start,
                *ctx,
                stmts@,
            ),
            forall|j: int|
                0 <= j < stmts@.len() ==> (#[trigger] stmts@[j] matches PolicySetStatement::Member(
                    e,
                ) ==> entry_well_formed(e, path@.len() as int)),
        decreases nodes@.len() - i,
    {
        let stmt_node = &nodes[i];
        proof {
            assert(decreases_to!(n => n.children@[i as int]));
        }
        if rule_is(stmt_node, Rule::COMMENT) {
            last_comment = Some(description_of(node_text(src, stmt_node)));
            i = i + 1;
            continue ;
        }
        if rule_is(stmt_node, Rule::policyset_stmt) {
            let ghost before = *ctx;
            let ghost read = stmts@;
            let stmt = set_statement(
                src,
                stmt_node,
                base,
                &ns,
                &path,
                &last_comment,
                do_register,
                ctx,
            );
            proof {
                lemma_grown_trans(*old(ctx), before, *ctx);
                lemma_grown_trans(start, before, *ctx);
            }
            match stmt {
                Ok(st) => {
                    stmts.push(st);
                    proof {
                        assert(stmts@.drop_last() == read);
                        assert(stmts@.last() == st);
                        lemma_set_statement_read(
                            src,
                            *n,
                            a + 1,
                            i + 1,
                            *base,
                            path_view(ns@),
                            path@,
                            do_register,
                            start,
                            before,
                            *ctx,
                            stmts@,
                        );
                    }
                },
                Err(e) => {
                    proof {
                        assert(read_so_far(start, before, n.children@, i as int, read.len()));
                        assert(set_ends(
                            src,
                            *n,
                            a + 1,
                            i as int,
                            *base,
                            id,
                            path_view(ns@),
                            path@,
                            opt_view(description),
                            do_register,
                            before,
                            *ctx,
                            read,
                            Err::<PolicySet, ParseError>(e),
                        ));
                        assert(set_built(
                            src,
                            *n,
                            a as int,
                            *base,
                            id,
                            path_view(ns@),
                            parent@,
                            opt_view(description),
                            do_register,
                            *old(ctx),
                            *ctx,
                            Err::<PolicySet, ParseError>(e),
                        ));
                    }
                    return Err(e);
                },
            }
        }
        i = i + 1;
    }
    let ghost read = stmts@;
    let ghost given = (id, ns, description);
    let r = PolicySet::assemble(id, ns, path, place_in(src, base, n.start, n.end), description, stmts);
    proof {
        assert(read_so_far(start, *ctx, n.children@, nodes@.len() as int, read.len()));
        assert(set_ends(
            src,
            *n,
            a + 1,
            nodes@.len() as int,
            *base,
            given.0,
            path_view(given.1@),
            parent@.push(old(ctx).slots@.len() as usize),
            opt_view(given.2),
            do_register,
            *ctx,
            *ctx,
            read,
            r,
        ));
        assert(set_built(
            src,
            *n,
            a as int,
            *base,
            given.0,
            path_view(given.1@),
            parent@,
            opt_view(given.2),
            do_register,
            *old(ctx),
            *ctx,
            r,
        ));
        if r is Ok {
            let p = r->Ok_0;
            crate::ast::assemble::lemma_members_come_from_statements(read, read.len());
            assert forall|k: int| 0 <= k < p.policies@.len() implies entry_well_formed(
                #[trigger] p.policies@[k],
                p.policy_ns@.len() as int,
            ) by {
                assert(crate::ast::assemble::gives_member(read, read.len(), p.policies@[k]));
                let j = choose|j: int|
                    0 <= j < read.len() && #[trigger] read[j] == PolicySetStatement::Member(
                        p.policies@[k],
                    );
                assert(read[j] matches PolicySetStatement::Member(e) ==> entry_well_formed(
                    e,
                    path@.len() as int,
                ));
            }
        }
    }
    r
}

/// The texts of the nodes `nodes`, in order.
pub open spec fn texts_of(src: Seq<char>, nodes: Seq<Node>) -> Seq<Seq<char>> {
    Seq::new(nodes.len(), |i: int| text_of(src, nodes[i]))
}

fn components_to_path(src: &str, nodes: &Vec<Node>) -> (r: Vec<String>)
    ensures
        path_view(r@) == texts_of(src@, nodes@),
{
    let mut path: Vec<String> = Vec::new();
    let mut i: usize = 0;
    while i < nodes.len()
        invariant
            i <= nodes@.len(),
            path@.len() == i,
            forall|j: int| 0 <= j < i ==> path@[j]@ == text_of(src@, nodes@[j]),
        decreases nodes@.len() - i,
    {
        path.push(node_text(src, &nodes[i]).to_owned());
        i = i + 1;
    }
    proof {
        assert(path_view(path@) =~= texts_of(src@, nodes@));
    }
    path
}

fn append_strings(a: &Vec<String>, b: Vec<String>) -> (r: Vec<String>)
    ensures
        path_view(r@) == path_view(a@) + path_view(b@),
{
    let mut out = clone_strings(a.as_slice());
    let mut rest = b;
    out.append(&mut rest);
    proof {
        assert(path_view(out@) =~= path_view(a@) + path_view(b@));
    }
    out
}

/// The name that the node `n` of a namespace gives the namespace below
/// `above`: the components of `above`, and then the components that are
/// written; `None` where the first node below `n` is no name.
pub open spec fn namespace_path(src: Seq<char>, n: Node, above: Seq<Seq<char>>) -> Option<
    Seq<Seq<char>>,
> {
    if n.children@.len() > 0 && n.children@[0].rule == Rule::ns_identifier {
        Some(above + texts_of(src, n.children@[0].children@))
    } else {
        None
    }
}

/// Whether the name paths in the namespace `ns` are as the conversion to
/// XACML asks: each policy has a name path, the name paths in each
/// policy set are nested, and the same holds in every namespace that is
/// declared in `ns`.
pub open spec fn namespace_sound(ns: Namespace) -> bool
    decreases ns,
{
    &&& forall|i: int| 0 <= i < ns.policies@.len() ==> (#[trigger] ns.policies@[i]).well_formed()
    &&& forall|i: int|
        0 <= i < ns.policysets@.len() ==> (#[trigger] ns.policysets@[i]).well_formed()
    &&& forall|i: int|
        0 <= i < ns.namespaces@.len() ==> namespace_sound(#[trigger] ns.namespaces@[i])
}

/// Whether the namespace `after` keeps the name, the namespaces, the
/// policy sets and the policies of `before`.
pub open spec fn keeps_elements(before: Namespace, after: Namespace) -> bool {
    &&& after.path == before.path
    &&& after.namespaces == before.namespaces
    &&& after.policysets == before.policysets
    &&& after.policies == before.policies
}

/// Whether `ns` is a namespace with the name `path` in which nothing is
/// declared.
pub open spec fn fresh_namespace(ns: Namespace, path: Seq<Seq<char>>) -> bool {
    &&& path_view(ns.path@) == path
    &&& ns.namespaces@.len() == 0
    &&& ns.imports@.len() == 0
    &&& ns.policysets@.len() == 0
    &&& ns.policies@.len() == 0
    &&& ns.rulecombinators@.len() == 0
    &&& ns.policycombinators@.len() == 0
    &&& ns.types@.len() == 0
    &&& ns.categories@.len() == 0
    &&& ns.attributes@.len() == 0
    &&& ns.functions@.len() == 0
    &&& ns.infix_fns@.len() == 0
    &&& ns.advice@.len() == 0
    &&& ns.obligations@.len() == 0
}

/// Whether `after` and `r` are what the registration of the rule `rule`
/// makes of `before`: a rule without a fully-qualified name is not
/// registered, one whose name is taken is refused with `DuplicateSymbol`,
/// and any other is added to the rules under its name.
pub open spec fn rule_declared_in(
    before: Context,
    after: Context,
    rule: RuleDef,
    r: Result<(), ParseError>,
) -> bool {
    &&& after == (Context {
        decls: (Declarations { rule_resolver: after.decls.rule_resolver, ..before.decls }),
        ..before
    })
    &&& match rule.qualified(before.slots@) {
        None => r is Ok && after.decls.rule_resolver@ == before.decls.rule_resolver@,
        Some(n) => if before.decls.rule_resolver@.contains_key(n) {
            &&& r matches Err(ParseError::DuplicateSymbol(s))
            &&& s@ == n
            &&& after.decls.rule_resolver@ == before.decls.rule_resolver@
        } else {
            r is Ok && after.decls.rule_resolver@ == before.decls.rule_resolver@.insert(n, rule)
        },
    }
}

/// Whether `r` is what the statement with the first node `first` makes of
/// the namespace `was`, whose name is `path`, and `after` what it makes of
/// the context `before`.
///
/// A declaration is read, added to the namespace and registered; a name
/// that is taken is refused as the registration of its kind refuses it. A
/// policy and a policy set are read with a slot of their own at the
/// start of their name path and registered with all that they hold; they
/// and a rule take `comment` for their description. A namespace is read
/// with all that is declared in it. Another node is refused with
/// `UnexpectedRuleError`.
pub open spec fn namespace_statement_reads(
    src: &str,
    first: Node,
    base: SrcLoc,
    path: Seq<Seq<char>>,
    comment: Option<Seq<char>>,
    before: Context,
    after: Context,
    was: Namespace,
    ns: Namespace,
    r: Result<(), ParseError>,
) -> bool
    decreases first, 4nat, 0nat,
{
    match first.rule {
        Rule::namespace => match r {
            Ok(_) => {
                &&& ns.namespaces@.len() > 0
                &&& ns.namespaces@ == was.namespaces@.push(ns.namespaces@.last())
                &&& ns == (Namespace { namespaces: ns.namespaces, ..was })
                &&& namespace_reads(
                    src,
                    first,
                    base,
                    path,
                    before,
                    after,
                    Ok(ns.namespaces@.last()),
                )
            },
            Err(e) => namespace_reads(src, first, base, path, before, after, Err(e)),
        },
        Rule::policyset_decl => match r {
            Ok(_) => {
                &&& ns.policysets@.len() > 0
                &&& ns.policysets@ == was.policysets@.push(ns.policysets@.last())
                &&& ns == (Namespace { policysets: ns.policysets, ..was })
                &&& exists|mid: Context|
                    {
                        &&& #[trigger] set_reads(
                            src,
                            first,
                            base,
                            path,
                            Seq::empty(),
                            comment,
                            true,
                            before,
                            mid,
                            Ok(ns.policysets@.last()),
                        )
                        &&& set_registered(mid, after, Ok(()), ns.policysets@.last())
                    }
            },
            Err(e) => {
                ||| set_reads(
                    src,
                    first,
                    base,
                    path,
                    Seq::empty(),
                    comment,
                    true,
                    before,
                    after,
                    Err(e),
                )
                ||| exists|p: PolicySet, mid: Context|
                    {
                        &&& #[trigger] set_reads(
                            src,
                            first,
                            base,
                            path,
                            Seq::empty(),
                            comment,
                            true,
                            before,
                            mid,
                            Ok(p),
                        )
                        &&& set_registered(mid, after, Err(e), p)
                    }
            },
        },
        Rule::policy_decl => match r {
            Ok(_) => {
                &&& ns.policies@.len() > 0
                &&& ns.policies@ == was.policies@.push(ns.policies@.last())
                &&& ns == (Namespace { policies: ns.policies, ..was })
                &&& exists|mid: Context|
                    {
                        &&& #[trigger] policy_reads(
                            src,
                            first.children@,
                            base,
                            path,
                            Seq::empty(),
                            comment,
                            true,
                            before,
                            mid,
                            Ok(ns.policies@.last()),
                        )
                        &&& registered_as(
                            mid,
                            after,
                            Ok(()),
                            ns.policies@.last().id@,
                            ns.policies@.last().qualified(mid.slots@),
                            PolicyHandle::policy_view(ns.policies@.last()),
                            false,
                        )
                    }
            },
            Err(e) => {
                ||| policy_reads(
                    src,
                    first.children@,
                    base,
                    path,
                    Seq::empty(),
                    comment,
                    true,
                    before,
                    after,
                    Err(e),
                )
                ||| exists|p: Policy, mid: Context|
                    {
                        &&& #[trigger] policy_reads(
                            src,
                            first.children@,
                            base,
                            path,
                            Seq::empty(),
                            comment,
                            true,
                            before,
                            mid,
                            Ok(p),
                        )
                        &&& registered_as(
                            mid,
                            after,
                            Err(e),
                            p.id@,
                            p.qualified(mid.slots@),
                            PolicyHandle::policy_view(p),
                            false,
                        )
                    }
            },
        },
        Rule::rule_combinator_decl => match named_uri(src@, first.children@) {
            Some((id, uri)) => exists|d: RuleCombinator|
                {
                    &&& d@ == (DeclView { id, uri, ns: path })
                    &&& #[trigger] declared(
                        before.decls.rulecombinator_resolver@,
                        after.decls.rulecombinator_resolver@,
                        d,
                        r,
                    )
                    &&& after == (Context {
                        decls: (Declarations { rulecombinator_resolver: after.decls.rulecombinator_resolver, ..before.decls }),
                        ..before
                    })
                    &&& r is Ok ==> keeps_elements(was, ns)
                },
            None => after == before && r == Err::<(), ParseError>(
                ParseError::AstConvertError,
            ),
        },
        Rule::policy_combinator_decl => match named_uri(src@, first.children@) {
            Some((id, uri)) => exists|d: PolicyCombinator|
                {
                    &&& d@ == (DeclView { id, uri, ns: path })
                    &&& #[trigger] declared(
                        before.decls.policycombinator_resolver@,
                        after.decls.policycombinator_resolver@,
                        d,
                        r,
                    )
                    &&& after == (Context {
                        decls: (Declarations { policycombinator_resolver: after.decls.policycombinator_resolver, ..before.decls }),
                        ..before
                    })
                    &&& r is Ok ==> keeps_elements(was, ns)
                },
            None => after == before && r == Err::<(), ParseError>(
                ParseError::AstConvertError,
            ),
        },
        Rule::type_decl => match named_uri(src@, first.children@) {
            Some((id, uri)) => exists|d: TypeDef|
                {
                    &&& d@ == (DeclView { id, uri, ns: path })
                    &&& #[trigger] declared(
                        before.decls.typedef_resolver@,
                        after.decls.typedef_resolver@,
                        d,
                        r,
                    )
                    &&& after == (Context {
                        decls: (Declarations { typedef_resolver: after.decls.typedef_resolver, ..before.decls }),
                        ..before
                    })
                    &&& r is Ok ==> keeps_elements(was, ns)
                },
            None => after == before && r == Err::<(), ParseError>(
                ParseError::AstConvertError,
            ),
        },
        Rule::cat_decl => match named_uri(src@, first.children@) {
            Some((id, uri)) => exists|d: Category|
                {
                    &&& d@ == (DeclView { id, uri, ns: path })
                    &&& #[trigger] declared(
                        before.decls.category_resolver@,
                        after.decls.category_resolver@,
                        d,
                        r,
                    )
                    &&& after == (Context {
                        decls: (Declarations { category_resolver: after.decls.category_resolver, ..before.decls }),
                        ..before
                    })
                    &&& r is Ok ==> keeps_elements(was, ns)
                },
            None => after == before && r == Err::<(), ParseError>(
                ParseError::AstConvertError,
            ),
        },
        Rule::advice_decl => match named_uri(src@, first.children@) {
            Some((id, uri)) => exists|d: AdviceDef|
                {
                    &&& d@ == (DeclView { id, uri, ns: path })
                    &&& #[trigger] declared(
                        before.decls.advice_resolver@,
                        after.decls.advice_resolver@,
                        d,
                        r,
                    )
                    &&& after == (Context {
                        decls: (Declarations { advice_resolver: after.decls.advice_resolver, ..before.decls }),
                        ..before
                    })
                    &&& r is Ok ==> keeps_elements(was, ns)
                },
            None => after == before && r == Err::<(), ParseError>(
                ParseError::AstConvertError,
            ),
        },
        Rule::obligation_decl => match named_uri(src@, first.children@) {
            Some((id, uri)) => exists|d: ObligationDef|
                {
                    &&& d@ == (DeclView { id, uri, ns: path })
                    &&& #[trigger] declared(
                        before.decls.obligation_resolver@,
                        after.decls.obligation_resolver@,
                        d,
                        r,
                    )
                    &&& after == (Context {
                        decls: (Declarations { obligation_resolver: after.decls.obligation_resolver, ..before.decls }),
                        ..before
                    })
                    &&& r is Ok ==> keeps_elements(was, ns)
                },
            None => after == before && r == Err::<(), ParseError>(
                ParseError::AstConvertError,
            ),
        },
        Rule::function_decl => if function_valid(src@, first) {
            exists|d: Function|
                {
                    &&& path_view(d.ns@) == path
                    &&& is_function(src@, first, d)
                    &&& #[trigger] declared(
                        before.decls.function_resolver@,
                        after.decls.function_resolver@,
                        d,
                        r,
                    )
                    &&& after == (Context {
                        decls: (Declarations { function_resolver: after.decls.function_resolver, ..before.decls }),
                        ..before
                    })
                    &&& r is Ok ==> keeps_elements(was, ns)
                }
        } else {
            after == before && r == Err::<(), ParseError>(ParseError::AstConvertError)
        },
        Rule::attribute_decl => if attribute_valid(first.children@) {
            exists|d: Attribute|
                {
                    &&& path_view(d.ns@) == path
                    &&& is_attribute(src@, first.children@, d)
                    &&& #[trigger] declared(
                        before.decls.attribute_resolver@,
                        after.decls.attribute_resolver@,
                        d,
                        r,
                    )
                    &&& after == (Context {
                        decls: (Declarations { attribute_resolver: after.decls.attribute_resolver, ..before.decls }),
                        ..before
                    })
                    &&& r is Ok ==> keeps_elements(was, ns)
                }
        } else {
            after == before && r == Err::<(), ParseError>(ParseError::AstConvertError)
        },
        Rule::infix_decl => if infix_nodes_valid(src@, first.children@, first.children@.len()) {
            exists|parts: Seq<InfixPart>, own: Vec<String>, read: Result<Infix, ParseError>|
                {
                    &&& path_view(own@) == path
                    &&& is_parts(src@, first.children@, first.children@.len(), parts)
                    &&& #[trigger] infix_from(parts, own, read)
                    &&& match read {
                        Err(e) => after == before && r == Err::<(), ParseError>(e),
                        Ok(d) => {
                            &&& declared(
                                before.decls.infix_resolver@,
                                after.decls.infix_resolver@,
                                d,
                                r,
                            )
                            &&& after == (Context {
                                decls: (Declarations {
                                    infix_resolver: after.decls.infix_resolver,
                                    ..before.decls
                                }),
                                ..before
                            })
                            &&& r is Ok ==> keeps_elements(was, ns)
                        },
                    }
                }
        } else {
            after == before && r == Err::<(), ParseError>(ParseError::AstConvertError)
        },
        Rule::import_decl => {
            &&& r is Ok
            &&& keeps_elements(was, ns)
            &&& after == (Context {
                decls: (Declarations { imports: after.decls.imports, ..before.decls }),
                ..before
            })
            &&& after.decls.imports@.contains_key(join(path, "."@))
            &&& crate::ast::import::imports_view(after.decls.imports@[join(path, "."@)]@).last()
                == imports_from(
                src@,
                first.children@,
                0,
                ImportView { components: Seq::empty(), is_wildcard: false },
            )
        },
        Rule::rule_decl => {
            ||| exists|rule: RuleDef|
                {
                    &&& #[trigger] rule_read_as(
                        src,
                        first.children@,
                        base,
                        path,
                        Seq::empty(),
                        comment,
                        Ok(rule),
                    )
                    &&& rule_declared_in(before, after, rule, r)
                    &&& r is Ok ==> ns == was
                }
            ||| {
                &&& r matches Err(e)
                &&& after == before
                &&& rule_read_as(src, first.children@, base, path, Seq::empty(), comment, Err(e))
            }
        },
        _ => {
            &&& after == before
            &&& r matches Err(e)
            &&& e is UnexpectedRuleError
        },
    }
}

/// Whether reading has come from the context `start` to the context `now`
/// in the namespace `ns` with the name `path`: the configuration is the
/// same, and the namespace has its name.
pub open spec fn reached(start: Context, now: Context, ns: Namespace, path: Seq<Seq<char>>) -> bool {
    now.config == start.config && path_view(ns.path@) == path
}

/// Whether `ns` is what the statements below `n` before `upto` make of
/// the namespace `was`, whose name is `path`, and `now` what they make of
/// the context `start`. The first node below `n` is the name; a comment
/// and a node without parts are no statements.
pub open spec fn namespace_statements_read(
    src: &str,
    n: Node,
    upto: int,
    base: SrcLoc,
    path: Seq<Seq<char>>,
    start: Context,
    now: Context,
    was: Namespace,
    ns: Namespace,
) -> bool
    decreases n, 1nat, upto,
{
    let nodes = n.children@;
    if upto <= 1 || upto > nodes.len() {
        upto == 1 && now == start && ns == was
    } else if nodes[upto - 1].rule == Rule::COMMENT || nodes[upto - 1].children@.len() == 0 {
        namespace_statements_read(src, n, upto - 1, base, path, start, now, was, ns)
    } else {
        exists|mid: Context, between: Namespace|
            {
                &&& #[trigger] reached(start, mid, between, path)
                &&& namespace_statements_read(src, n, upto - 1, base, path, start, mid, was, between)
                &&& namespace_statement_reads(
                    src,
                    nodes[upto - 1].children@[0],
                    base,
                    path,
                    comment_before(src@, nodes, upto - 1),
                    mid,
                    now,
                    between,
                    ns,
                    Ok(()),
                )
            }
    }
}

/// Whether reading the statements of a namespace with the name `path`
/// has come to the part at `upto`, with the namespace `ns` made of the
/// empty namespace `was` and the context `now` of `start`.
pub open spec fn reached_at(
    start: Context,
    now: Context,
    was: Namespace,
    ns: Namespace,
    path: Seq<Seq<char>>,
    upto: int,
) -> bool {
    &&& reached(start, now, ns, path)
    &&& fresh_namespace(was, path)
    &&& 1 <= upto
}

/// Whether `r` is the namespace with the name `path` that the statements
/// below `n` make, and `after` what becomes of the context `before`: the
/// statements are read in order, as `namespace_statement_reads` states
/// it, and the first that is refused ends the reading with its error.
pub open spec fn namespace_built(
    src: &str,
    n: Node,
    base: SrcLoc,
    path: Seq<Seq<char>>,
    before: Context,
    after: Context,
    r: Result<Namespace, ParseError>,
) -> bool
    decreases n, 2nat, 0nat,
{
    let nodes = n.children@;
    exists|upto: int, now: Context, was: Namespace, ns: Namespace|
        {
            &&& #[trigger] reached_at(before, now, was, ns, path, upto)
            &&& namespace_statements_read(src, n, upto, base, path, before, now, was, ns)
            &&& namespace_ends(src, n, upto, base, path, now, after, ns, r)
        }
}

/// Whether `r` is what becomes of the namespace `ns` that the statements
/// before `upto` made, and `after` what becomes of the context `now`:
/// where a part stands at `upto`, it is a statement that is refused with
/// the error of `r`; where `upto` is the end of the parts, `r` is `ns`.
pub open spec fn namespace_ends(
    src: &str,
    n: Node,
    upto: int,
    base: SrcLoc,
    path: Seq<Seq<char>>,
    now: Context,
    after: Context,
    ns: Namespace,
    r: Result<Namespace, ParseError>,
) -> bool
    decreases n, 1nat, 0nat,
{
    let nodes = n.children@;
    if upto == nodes.len() {
        after == now && r == Ok::<Namespace, ParseError>(ns)
    } else {
        &&& 1 <= upto < nodes.len()
        &&& nodes[upto].rule != Rule::COMMENT
        &&& nodes[upto].children@.len() > 0
        &&& r matches Err(e)
        &&& namespace_statement_reads(
            src,
            nodes[upto].children@[0],
            base,
            path,
            comment_before(src@, nodes, upto),
            now,
            after,
            ns,
            ns,
            Err(e),
        )
    }
}

/// Whether `r` is the namespace that the node `n` stands for below the
/// namespace `above`, with all that is declared in it, and `after` what
/// becomes of the context `before`.
///
/// A node without a name is refused with `AstConvertError` and leaves the
/// context as it was. Else the namespace is built from the statements, as
/// `namespace_built` states it.
pub open spec fn namespace_reads(
    src: &str,
    n: Node,
    base: SrcLoc,
    above: Seq<Seq<char>>,
    before: Context,
    after: Context,
    r: Result<Namespace, ParseError>,
) -> bool
    decreases n, 3nat, 0nat,
{
    match namespace_path(src@, n, above) {
        None => after == before && r == Err::<Namespace, ParseError>(ParseError::AstConvertError),
        Some(path) => namespace_built(src, n, base, path, before, after, r),
    }
}

/// The statements that were read and one more statement are the
/// statements up to the part behind it.
proof fn lemma_namespace_statement_read(
    src: &str,
    n: Node,
    upto: int,
    base: SrcLoc,
    path: Seq<Seq<char>>,
    start: Context,
    mid: Context,
    now: Context,
    was: Namespace,
    between: Namespace,
    ns: Namespace,
)
    requires
        1 < upto <= n.children@.len(),
        n.children@[upto - 1].rule != Rule::COMMENT,
        n.children@[upto - 1].children@.len() > 0,
        reached(start, mid, between, path),
        namespace_statements_read(src, n, upto - 1, base, path, start, mid, was, between),
        namespace_statement_reads(
            src,
            n.children@[upto - 1].children@[0],
            base,
            path,
            comment_before(src@, n.children@, upto - 1),
            mid,
            now,
            between,
            ns,
            Ok(()),
        ),
    ensures
        namespace_statements_read(src, n, upto, base, path, start, now, was, ns),
{
}

/// What the statement with the first node `first` makes of the namespace
/// and of the context, as `namespace_statement_reads` states it.
fn namespace_statement(
    src: &str,
    first: &Node,
    base: &SrcLoc,
    path: &Vec<String>,
    comment: &Option<String>,
    ns: &mut Namespace,
    ctx: &mut Context,
) -> (r: Result<(), ParseError>)
    requires
        path_view(old(ns).path@) == path_view(path@),
        namespace_sound(*old(ns)),
    ensures
        namespace_statement_reads(
            src,
            *first,
            *base,
            path_view(path@),
            opt_view(*comment),
            *old(ctx),
            *final(ctx),
            *old(ns),
            *final(ns),
            r,
        ),
        path_view(final(ns).path@) == path_view(path@),
        namespace_sound(*final(ns)),
        final(ctx).config == old(ctx).config,
    decreases first, 3nat,
{
    let here = clone_strings(path.as_slice());
    let top = GenName::default();
    proof {
        assert(top@ =~= Seq::<NameSlot>::empty());
    }
    match first.rule {
        Rule::namespace => {
            let child = process_namespace(src, first, base, path, ctx)?;
            ns.add_namespace(child);
            Ok(())
        },
        Rule::policyset_decl => {
            let built = process_policyset(
                src,
                first,
                base,
                here,
                &top,
                clone_opt_string(comment),
                true,
                ctx,
            );
            let p = match built {
                Ok(p) => p,
                Err(e) => {
                    return Err(e);
                },
            };
            let ghost mid = *ctx;
            let ghost read = p;
            let r = ns.add_policyset(p, ctx);
            proof {
                assert(set_reads(
                    src,
                    *first,
                    *base,
                    path_view(path@),
                    Seq::empty(),
                    opt_view(*comment),
                    true,
                    *old(ctx),
                    mid,
                    Ok::<PolicySet, ParseError>(read),
                ));
                assert(ns.policysets@.last() == read);
                assert(read.well_formed());
            }
            r
        },
        Rule::policy_decl => {
            let built = process_policy(
                src,
                &first.children,
                base,
                here,
                &top,
                clone_opt_string(comment),
                true,
                ctx,
            );
            let p = match built {
                Ok(p) => p,
                Err(e) => {
                    return Err(e);
                },
            };
            let ghost mid = *ctx;
            let ghost read = p;
            let r = ns.add_policy(p, ctx);
            proof {
                assert(policy_reads(
                    src,
                    first.children@,
                    *base,
                    path_view(path@),
                    Seq::empty(),
                    opt_view(*comment),
                    true,
                    *old(ctx),
                    mid,
                    Ok::<Policy, ParseError>(read),
                ));
                assert(ns.policies@.last() == read);
                assert(read.well_formed());
            }
            r
        },
        Rule::rule_combinator_decl => {
            let d = process_rulecombinator(src, &first.children, here)?;
            let ghost elem = d;
            let r = ns.add_rulecombinator(d, ctx);
            proof {
                assert(declared(
                    old(ctx).decls.rulecombinator_resolver@,
                    ctx.decls.rulecombinator_resolver@,
                    elem,
                    r,
                ));
            }
            r
        },
        Rule::policy_combinator_decl => {
            let d = process_policycombinator(src, &first.children, here)?;
            let ghost elem = d;
            let r = ns.add_policycombinator(d, ctx);
            proof {
                assert(declared(
                    old(ctx).decls.policycombinator_resolver@,
                    ctx.decls.policycombinator_resolver@,
                    elem,
                    r,
                ));
            }
            r
        },
        Rule::type_decl => {
            let d = process_typedef(src, &first.children, here)?;
            let ghost elem = d;
            let r = ns.add_typedef(d, ctx);
            proof {
                assert(declared(
                    old(ctx).decls.typedef_resolver@,
                    ctx.decls.typedef_resolver@,
                    elem,
                    r,
                ));
            }
            r
        },
        Rule::cat_decl => {
            let d = process_category(src, &first.children, here)?;
            let ghost elem = d;
            let r = ns.add_category(d, ctx);
            proof {
                assert(declared(
                    old(ctx).decls.category_resolver@,
                    ctx.decls.category_resolver@,
                    elem,
                    r,
                ));
            }
            r
        },
        Rule::advice_decl => {
            let d = process_advice(src, &first.children, here)?;
            let ghost elem = d;
            let r = ns.add_advice(d, ctx);
            proof {
                assert(declared(
                    old(ctx).decls.advice_resolver@,
                    ctx.decls.advice_resolver@,
                    elem,
                    r,
                ));
            }
            r
        },
        Rule::obligation_decl => {
            let d = process_obligation(src, &first.children, here)?;
            let ghost elem = d;
            let r = ns.add_obligation(d, ctx);
            proof {
                assert(declared(
                    old(ctx).decls.obligation_resolver@,
                    ctx.decls.obligation_resolver@,
                    elem,
                    r,
                ));
            }
            r
        },
        Rule::function_decl => {
            let d = process_function(src, first, here)?;
            let ghost elem = d;
            let r = ns.add_function(d, ctx);
            proof {
                assert(declared(
                    old(ctx).decls.function_resolver@,
                    ctx.decls.function_resolver@,
                    elem,
                    r,
                ));
            }
            r
        },
        Rule::attribute_decl => {
            let d = process_attribute(src, &first.children, here)?;
            let ghost elem = d;
            let r = ns.add_attribute(d, ctx);
            proof {
                assert(declared(
                    old(ctx).decls.attribute_resolver@,
                    ctx.decls.attribute_resolver@,
                    elem,
                    r,
                ));
            }
            r
        },
        Rule::infix_decl => {
            let read = process_infix(src, &first.children, here);
            let d = match read {
                Ok(d) => d,
                Err(e) => {
                    return Err(e);
                },
            };
            let ghost elem = d;
            let r = ns.add_infix(d, ctx);
            proof {
                assert(declared(
                    old(ctx).decls.infix_resolver@,
                    ctx.decls.infix_resolver@,
                    elem,
                    r,
                ));
            }
            r
        },
        Rule::import_decl => {
            ns.add_import(process_import(src, &first.children), ctx);
            Ok(())
        },
        Rule::rule_decl => {
            let description = clone_opt_string(comment);
            let read = process_rule(src, &first.children, base, here, top, description);
            proof {
                assert(rule_read_as(
                    src,
                    first.children@,
                    *base,
                    path_view(path@),
                    Seq::empty(),
                    opt_view(*comment),
                    read,
                ));
            }
            let rule = match read {
                Ok(rule) => rule,
                Err(e) => {
                    return Err(e);
                },
            };
            let ghost elem = rule;
            let r = ns.add_rule(rule, ctx);
            proof {
                assert(rule_declared_in(*old(ctx), *ctx, elem, r));
            }
            r
        },
        _ => Err(ParseError::UnexpectedRuleError("found unexpected rule".to_owned())),
    }
}

/// The namespace that the node `n` stands for below the namespace
/// `above`, with all that is declared in it, as `namespace_reads` states
/// it.
///
/// The statements are read in order, and what each declares is added to
/// the namespace and registered in the context before the next is read.
/// A comment directly in front of a policy, policy set or rule is its
/// description. The first statement that is refused ends the reading with
/// its error.
#[verifier::loop_isolation(false)]
pub(crate) fn process_namespace(
    src: &str,
    n: &Node,
    base: &SrcLoc,
    above: &Vec<String>,
    ctx: &mut Context,
) -> (r: Result<Namespace, ParseError>)
    ensures
        namespace_reads(src, *n, *base, path_view(above@), *old(ctx), *final(ctx), r),
        match namespace_path(src@, *n, path_view(above@)) {
            Some(path) => r matches Ok(ns) ==> path_view(ns.path@) == path && namespace_sound(ns),
            None => r == Err::<Namespace, ParseError>(ParseError::AstConvertError) && *final(ctx)
                == *old(ctx),
        },
        final(ctx).config == old(ctx).config,
    decreases n, 2nat,
{
    let nodes = &n.children;
    if nodes.len() == 0 || !rule_is(&nodes[0], Rule::ns_identifier) {
        return Err(ParseError::AstConvertError);
    }
    let path = append_strings(above, components_to_path(src, &nodes[0].children));
    let mut ns = Namespace::from_components(clone_strings(path.as_slice()));
    let ghost was = ns;
    let mut last_comment: Option<String> = None;
    let mut i: usize = 1;
    while i < nodes.len()
        invariant
            1 <= i <= nodes@.len(),
            nodes == &n.children,
            path_view(ns.path@) == path_view(path@),
            namespace_sound(ns),
            ctx.config == old(ctx).config,
            fresh_namespace(was, path_view(path@)),
            namespace_path(src@, *n, path_view(above@)) == Some(path_view(path@)),
            opt_view(last_comment) == comment_before(src@, nodes@, i as int),
            namespace_statements_read(
                src,
                *n,
                i as int,
                *base,
                path_view(path@),
                *old(ctx),
                *ctx,
                was,
                ns,
            ),
        decreases nodes@.len() - i,
    {
        let stmt_node = &nodes[i];
        proof {
            assert(decreases_to!(n => n.children@[i as int]));
        }
        if rule_is(stmt_node, Rule::COMMENT) {
            last_comment = Some(description_of(node_text(src, stmt_node)));
            i = i + 1;
            continue ;
        }
        if stmt_node.children.len() > 0 {
            let first = &stmt_node.children[0];
            proof {
                assert(decreases_to!(stmt_node => stmt_node.children@[0]));
            }
            let ghost mid = *ctx;
            let ghost between = ns;
            let step = namespace_statement(src, first, base, &path, &last_comment, &mut ns, ctx);
            proof {
                assert(reached(*old(ctx), mid, between, path_view(path@)));
            }
            match step {
                Ok(()) => {
                    proof {
                        assert(step->Ok_0 == ());
                        assert(step == Ok::<(), ParseError>(step->Ok_0));
                        assert(step == Ok::<(), ParseError>(()));
                        assert(namespace_statement_reads(
                            src,
                            n.children@[i as int].children@[0],
                            *base,
                            path_view(path@),
                            comment_before(src@, n.children@, i as int),
                            mid,
                            *ctx,
                            between,
                            ns,
                            step,
                        ));
                        lemma_namespace_statement_read(
                            src,
                            *n,
                            i + 1,
                            *base,
                            path_view(path@),
                            *old(ctx),
                            mid,
                            *ctx,
                            was,
                            between,
                            ns,
                        );
                    }
                },
                Err(e) => {
                    proof {
                        assert(reached_at(
                            *old(ctx),
                            mid,
                            was,
                            between,
                            path_view(path@),
                            i as int,
                        ));
                        assert(namespace_statement_reads(
                            src,
                            n.children@[i as int].children@[0],
                            *base,
                            path_view(path@),
                            comment_before(src@, n.children@, i as int),
                            mid,
                            *ctx,
                            between,
                            between,
                            Err::<(), ParseError>(e),
                        ));
                        assert(namespace_ends(
                            src,
                            *n,
                            i as int,
                            *base,
                            path_view(path@),
                            mid,
                            *ctx,
                            between,
                            Err::<Namespace, ParseError>(e),
                        ));
                        assert(namespace_built(
                            src,
                            *n,
                            *base,
                            path_view(path@),
                            *old(ctx),
                            *ctx,
                            Err::<Namespace, ParseError>(e),
                        ));
                    }
                    return Err(e);
                },
            }
        }
        last_comment = None;
        i = i + 1;
    }
    proof {
        assert(namespace_path(src@, *n, path_view(above@)) == Some(path_view(path@)));
        assert(namespace_statements_read(
            src,
            *n,
            n.children@.len() as int,
            *base,
            path_view(path@),
            *old(ctx),
            *ctx,
            was,
            ns,
        ));
        assert(reached_at(*old(ctx), *ctx, was, ns, path_view(path@), n.children@.len() as int));
        assert(namespace_ends(
            src,
            *n,
            n.children@.len() as int,
            *base,
            path_view(path@),
            *ctx,
            *ctx,
            ns,
            Ok::<Namespace, ParseError>(ns),
        ));
        assert(namespace_built(
            src,
            *n,
            *base,
            path_view(path@),
            *old(ctx),
            *ctx,
            Ok::<Namespace, ParseError>(ns),
        ));
    }
    Ok(ns)
}

/// The parse tree of a document.
#[derive(Debug, PartialEq, Eq)]
pub struct AlfaParseTree<'a> {
    /// What the parse of the document left.
    pub pairs: Pairs<'a>,
}

/// Parses a document of ALFA into its parse tree, as `parse_tree` states
/// it for the rule of a document. A text that is no document is refused
/// with `SyntaxError`.
pub fn parse_alfadoc(policystr: &str) -> (r: Result<AlfaParseTree<'_>, ParseError>)
    ensures
        match parse_tree(Rule::alfa_doc, policystr@) {
            Some((end, nodes)) => {
                &&& r matches Ok(pt)
                &&& pt.pairs.spec_input() == policystr@
                &&& pt.pairs.spec_nodes() == nodes
            },
            None => r matches Err(e) && e is SyntaxError,
        },
{
    let pairs = AlfaDocParser::parse(Rule::alfa_doc, policystr)?;
    Ok(AlfaParseTree { pairs })
}

/// The number of namespaces among the first `n` of `nodes`.
pub open spec fn namespaces_among(nodes: Seq<Node>, n: nat) -> nat
    decreases n,
{
    if n == 0 || n > nodes.len() {
        0
    } else if nodes[n - 1].rule == Rule::namespace {
        namespaces_among(nodes, (n - 1) as nat) + 1
    } else {
        namespaces_among(nodes, (n - 1) as nat)
    }
}

/// Whether the name paths in every namespace of the tree `t` are as the
/// conversion to XACML asks.
pub open spec fn tree_sound(t: AlfaSyntaxTree) -> bool {
    forall|k: int| 0 <= k < t.namespaces@.len() ==> namespace_sound(#[trigger] t.namespaces@[k])
}

/// Whether `spaces` are the namespaces that the nodes of `nodes` before
/// `upto` stand for, in order, and `now` what becomes of the context
/// `start` as they are read. Only the nodes of namespaces count.
pub open spec fn namespaces_read(
    src: &str,
    base: SrcLoc,
    nodes: Seq<Node>,
    upto: int,
    start: Context,
    now: Context,
    spaces: Seq<Namespace>,
) -> bool
    decreases upto,
{
    if upto <= 0 || upto > nodes.len() {
        upto == 0 && now == start && spaces.len() == 0
    } else if nodes[upto - 1].rule != Rule::namespace {
        namespaces_read(src, base, nodes, upto - 1, start, now, spaces)
    } else {
        &&& spaces.len() > 0
        &&& exists|mid: Context|
            {
                &&& namespaces_read(src, base, nodes, upto - 1, start, mid, spaces.drop_last())
                &&& #[trigger] namespace_reads(
                    src,
                    nodes[upto - 1],
                    base,
                    Seq::empty(),
                    mid,
                    now,
                    Ok(spaces.last()),
                )
            }
    }
}

/// Whether `r` is the syntax tree for the nodes `nodes` that the parse of
/// a document named `name` left, and `after` what becomes of the context
/// `before`.
///
/// A parse without the node of a document is refused with
/// `AstConvertError` and leaves the context as it was. Else the
/// namespaces at the top of the document are read in order, as
/// `namespace_reads` states it, with places in the source `name`; the
/// first that is refused ends the reading with its error.
pub open spec fn tree_reads(
    src: &str,
    name: Seq<char>,
    nodes: Seq<Node>,
    before: Context,
    after: Context,
    r: Result<AlfaSyntaxTree, ParseError>,
) -> bool {
    if nodes.len() == 0 {
        after == before && r == Err::<AlfaSyntaxTree, ParseError>(ParseError::AstConvertError)
    } else {
        let parts = nodes[0].children@;
        exists|base: SrcLoc, upto: int, now: Context, spaces: Seq<Namespace>|
            {
                &&& base@ == (SrcLocView { src_name: name, offset: 0, length: 0 })
                &&& #[trigger] namespaces_read(src, base, parts, upto, before, now, spaces)
                &&& if upto == parts.len() {
                    &&& after == now
                    &&& r matches Ok(t)
                    &&& t.namespaces@ == spaces
                } else {
                    &&& 0 <= upto < parts.len()
                    &&& parts[upto].rule == Rule::namespace
                    &&& r matches Err(e)
                    &&& namespace_reads(
                        src,
                        parts[upto],
                        base,
                        Seq::empty(),
                        now,
                        after,
                        Err(e),
                    )
                }
            }
    }
}

/// The namespaces that were read and one more are the namespaces up to
/// the node behind it.
proof fn lemma_namespace_read(
    src: &str,
    base: SrcLoc,
    nodes: Seq<Node>,
    upto: int,
    start: Context,
    mid: Context,
    now: Context,
    spaces: Seq<Namespace>,
)
    requires
        0 < upto <= nodes.len(),
        nodes[upto - 1].rule == Rule::namespace,
        spaces.len() > 0,
        namespaces_read(src, base, nodes, upto - 1, start, mid, spaces.drop_last()),
        namespace_reads(src, nodes[upto - 1], base, Seq::empty(), mid, now, Ok(spaces.last())),
    ensures
        namespaces_read(src, base, nodes, upto, start, now, spaces),
{
}

/// The syntax tree for the nodes `nodes` that the parse of a document
/// named `src_name` left, as `tree_reads` states it: a namespace for each
/// namespace at the top of the document. A parse without the node of a
/// document is refused with `AstConvertError`.
#[verifier::loop_isolation(false)]
pub(crate) fn tree_of(src: &str, src_name: &str, nodes: &Vec<Node>, ctx: &mut Context) -> (r: Result<
    AlfaSyntaxTree,
    ParseError,
>)
    ensures
        tree_reads(src, src_name@, nodes@, *old(ctx), *final(ctx), r),
        nodes@.len() == 0 ==> r == Err::<AlfaSyntaxTree, ParseError>(ParseError::AstConvertError)
            && *final(ctx) == *old(ctx),
        r matches Ok(t) ==> nodes@.len() > 0 && t.namespaces@.len() == namespaces_among(
            nodes@[0].children@,
            nodes@[0].children@.len(),
        ) && tree_sound(t),
{
    if nodes.len() == 0 {
        return Err(ParseError::AstConvertError);
    }
    let doc = &nodes[0];
    let base = SrcLoc::new(src_name, 0, 0);
    let top: Vec<String> = Vec::new();
    proof {
        assert(path_view(top@) =~= Seq::<Seq<char>>::empty());
    }
    let mut namespaces: Vec<Namespace> = Vec::new();
    let mut i: usize = 0;
    while i < doc.children.len()
        invariant
            i <= doc.children@.len(),
            namespaces@.len() == namespaces_among(doc.children@, i as nat),
            forall|k: int| 0 <= k < namespaces@.len() ==> namespace_sound(#[trigger] namespaces@[k]),
            namespaces_read(src, base, doc.children@, i as int, *old(ctx), *ctx, namespaces@),
        decreases doc.children@.len() - i,
    {
        if rule_is(&doc.children[i], Rule::namespace) {
            let ghost mid = *ctx;
            let ghost read = namespaces@;
            match process_namespace(src, &doc.children[i], &base, &top, ctx) {
                Ok(ns) => {
                    namespaces.push(ns);
                    proof {
                        assert(namespaces@.drop_last() == read);
                        lemma_namespace_read(
                            src,
                            base,
                            doc.children@,
                            i + 1,
                            *old(ctx),
                            mid,
                            *ctx,
                            namespaces@,
                        );
                    }
                },
                Err(e) => {
                    return Err(e);
                },
            }
        }
        i = i + 1;
    }
    Ok(AlfaSyntaxTree { namespaces })
}

/// The number of namespaces among the first `n` of `nodes`.
pub open spec fn namespace_count(nodes: Seq<NodeView>, n: nat) -> nat
    decreases n,
{
    if n == 0 || n > nodes.len() {
        0
    } else if nodes[n - 1].rule == Rule::namespace {
        namespace_count(nodes, (n - 1) as nat) + 1
    } else {
        namespace_count(nodes, (n - 1) as nat)
    }
}

proof fn lemma_namespace_count(nodes: Seq<Node>, n: nat)
    ensures
        namespaces_among(nodes, n) == namespace_count(nodes_view(nodes), n),
    decreases n,
{
    if n > 0 && n <= nodes.len() {
        lemma_namespace_count(nodes, (n - 1) as nat);
        crate::peg::lemma_node_view(nodes[n - 1]);
    }
}

/// The number of namespaces at the top of the document of which `nodes`
/// is the parse: those below the first node.
pub open spec fn top_namespaces(nodes: Seq<NodeView>) -> nat {
    namespace_count(nodes[0].children, nodes[0].children.len())
}

/// Whether `r` is the syntax tree of the document `text` named `name`,
/// and `after` what becomes of the context `before`: a text that is no
/// document is refused with `SyntaxError` and leaves the context as it
/// was, and the tree of a document is read from its parse, as `tree_reads`
/// states it.
pub open spec fn ast_made(
    text: Seq<char>,
    name: Seq<char>,
    before: Context,
    after: Context,
    r: Result<AlfaSyntaxTree, ParseError>,
) -> bool {
    match parse_tree(Rule::alfa_doc, text) {
        None => {
            &&& after == before
            &&& r matches Err(e)
            &&& e is SyntaxError
        },
        Some(parse) => exists|src: &str, nodes: Seq<Node>|
            {
                &&& src@ == text
                &&& nodes_view(nodes) == parse.1
                &&& #[trigger] tree_reads(src, name, nodes, before, after, r)
            },
    }
}

impl AlfaSyntaxTree {
    /// The syntax tree for the parse tree `pt` of a document named
    /// `src_name`: a namespace for each namespace at the top of the
    /// document, with all that is declared in it, which is registered in
    /// the context. A parse tree without a node is refused with
    /// `AstConvertError`, and leaves the context as it was.
    pub fn try_from(pt: AlfaParseTree, src_name: &str, ctx: &mut Context) -> (r: Result<
        AlfaSyntaxTree,
        ParseError,
    >)
        ensures
            exists|src: &str, nodes: Seq<Node>|
                {
                    &&& src@ == pt.pairs.spec_input()
                    &&& nodes_view(nodes) == pt.pairs.spec_nodes()
                    &&& #[trigger] tree_reads(src, src_name@, nodes, *old(ctx), *final(ctx), r)
                },
            pt.pairs.spec_nodes().len() == 0 ==> r == Err::<AlfaSyntaxTree, ParseError>(
                ParseError::AstConvertError,
            ) && *final(ctx) == *old(ctx),
            r matches Ok(t) ==> pt.pairs.spec_nodes().len() > 0 && t.namespaces@.len()
                == top_namespaces(pt.pairs.spec_nodes()) && tree_sound(t),
    {
        let (src, nodes) = pt.pairs.into_parts();
        proof {
            if nodes@.len() > 0 {
                crate::peg::lemma_node_view(nodes@[0]);
                lemma_namespace_count(nodes@[0].children@, nodes@[0].children@.len());
            }
        }
        let ghost read = nodes@;
        let r = tree_of(src, src_name, &nodes, ctx);
        proof {
            assert(tree_reads(src, src_name@, read, *old(ctx), *ctx, r));
        }
        r
    }
}

/// Parses a document of ALFA named `src_name` into its syntax tree, and
/// registers what it declares in the context, as `ast_made` states it.
///
/// A text that is no document is refused with `SyntaxError`, and leaves
/// the context as it was.
pub fn make_alfa_ast(policystr: &str, src_name: &str, ctx: &mut Context) -> (r: Result<
    AlfaSyntaxTree,
    ParseError,
>)
    ensures
        ast_made(policystr@, src_name@, *old(ctx), *final(ctx), r),
        parse_tree(Rule::alfa_doc, policystr@) is None ==> {
            &&& r matches Err(e)
            &&& e is SyntaxError
            &&& *final(ctx) == *old(ctx)
        },
        r matches Ok(t) ==> {
            &&& parse_tree(Rule::alfa_doc, policystr@) matches Some(parse)
            &&& parse.1.len() > 0
            &&& t.namespaces@.len() == top_namespaces(parse.1)
            &&& tree_sound(t)
        },
{
    let parse_tree = parse_alfadoc(policystr)?;
    AlfaSyntaxTree::try_from(parse_tree, src_name, ctx)
}

/// Whether `asts` are the syntax trees of the first `n` of the sources
/// `sources`, each made as `ast_made` states it and kept under the name
/// of its source, and `now` what becomes of the context `start` as they
/// are read in order.
pub open spec fn sources_read(
    sources: Seq<AlfaFile>,
    n: int,
    start: Context,
    now: Context,
    asts: Seq<AstSource>,
) -> bool
    decreases n,
{
    if n <= 0 || n > sources.len() {
        n == 0 && now == start && asts.len() == 0
    } else {
        &&& asts.len() > 0
        &&& asts.last().filename@ == sources[n - 1].filename@
        &&& exists|mid: Context|
            {
                &&& sources_read(sources, n - 1, start, mid, asts.drop_last())
                &&& #[trigger] ast_made(
                    sources[n - 1].contents@,
                    sources[n - 1].filename@,
                    mid,
                    now,
                    Ok(asts.last().ast),
                )
            }
    }
}

/// Whether `r` is what the compilation of the sources `sources` gives,
/// and `after` what it makes of the context `before`.
///
/// Without sources the result is empty and the context stays as it was.
/// Else the sources are read in order, as `sources_read` states it; the
/// first whose tree cannot be made ends the compilation with its error.
/// Where all are read, the policy sets and the policies of all trees are
/// compiled, as `compile_outcome` states it.
pub open spec fn compiles(
    sources: Seq<AlfaFile>,
    before: Context,
    after: Context,
    r: Result<Vec<XTopPolicy>, ParseError>,
) -> bool {
    if sources.len() == 0 {
        &&& after == before
        &&& r matches Ok(v)
        &&& v@.len() == 0
    } else {
        ||| exists|asts: Seq<AstSource>, mid: Context|
            {
                &&& #[trigger] sources_read(sources, sources.len() as int, before, mid, asts)
                &&& compile_outcome(
                    crate::collection::collected_policysets(asts, asts.len()),
                    crate::collection::collected_policies(asts, asts.len()),
                    mid,
                    after,
                    r,
                )
            }
        ||| r is Err && exists|n: int, asts: Seq<AstSource>, mid: Context|
            {
                &&& 0 <= n < sources.len()
                &&& #[trigger] sources_read(sources, n, before, mid, asts)
                &&& ast_made(
                    sources[n].contents@,
                    sources[n].filename@,
                    mid,
                    after,
                    Err(r->Err_0),
                )
            }
    }
}

/// The sources that were read and one more are the sources up to the one
/// behind it.
proof fn lemma_source_read(
    sources: Seq<AlfaFile>,
    n: int,
    start: Context,
    mid: Context,
    now: Context,
    asts: Seq<AstSource>,
)
    requires
        0 < n <= sources.len(),
        asts.len() > 0,
        asts.last().filename@ == sources[n - 1].filename@,
        sources_read(sources, n - 1, start, mid, asts.drop_last()),
        ast_made(
            sources[n - 1].contents@,
            sources[n - 1].filename@,
            mid,
            now,
            Ok(asts.last().ast),
        ),
    ensures
        sources_read(sources, n, start, now, asts),
{
}

/// Compiles the sources `alfa_sources` into XACML, as `compiles` states
/// it: every source is parsed and its declarations are registered, in
/// the order of the sources, and then every policy set and every policy
/// of all of them is converted, as `compile` does it.
///
/// The first source that is no document ends the compilation with
/// `SyntaxError`, and the first declaration or element that is refused
/// with its error.
#[verifier::loop_isolation(false)]
pub fn alfa_compile(ctx: &mut Context, alfa_sources: &Vec<AlfaFile>) -> (r: Result<
    Vec<XTopPolicy>,
    ParseError,
>)
    ensures
        compiles(alfa_sources@, *old(ctx), *final(ctx), r),
        alfa_sources@.len() > 0 && parse_tree(Rule::alfa_doc, alfa_sources@[0].contents@) is None
            ==> {
            &&& r matches Err(e)
            &&& e is SyntaxError
            &&& *final(ctx) == *old(ctx)
        },
{
    if alfa_sources.len() == 0 {
        return Ok(Vec::new());
    }
    let mut collection = AstCollection::new();
    let mut i: usize = 0;
    while i < alfa_sources.len()
        invariant
            i <= alfa_sources@.len(),
            i == 0 ==> *ctx == *old(ctx),
            i > 0 ==> parse_tree(Rule::alfa_doc, alfa_sources@[0].contents@) is Some,
            collection.sources().len() == i,
            sources_read(alfa_sources@, i as int, *old(ctx), *ctx, collection.sources()),
        decreases alfa_sources@.len() - i,
    {
        let source = &alfa_sources[i];
        let ghost mid = *ctx;
        let ghost read = collection.sources();
        let ast = match make_alfa_ast(source.contents.as_str(), source.filename.as_str(), ctx) {
            Ok(ast) => ast,
            Err(e) => {
                proof {
                    assert(sources_read(alfa_sources@, i as int, *old(ctx), mid, read));
                }
                return Err(e);
            },
        };
        collection.add_ast(AstSource { filename: source.filename.clone(), ast });
        proof {
            assert(collection.sources().drop_last() == read);
            lemma_source_read(
                alfa_sources@,
                i + 1,
                *old(ctx),
                mid,
                *ctx,
                collection.sources(),
            );
        }
        i = i + 1;
    }
    let ghost mid = *ctx;
    let ghost asts = collection.sources();
    let r = compile(collection, ctx);
    proof {
        assert(sources_read(alfa_sources@, alfa_sources@.len() as int, *old(ctx), mid, asts));
    }
    r
}

} // verus!
