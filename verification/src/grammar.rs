//! The grammar of ALFA.
//!
//! Each rule has a kind and a parsing expression. A parse by a rule gives
//! the tree of the rules that took part of the text.

use crate::errors::ParseError;
use crate::peg::{
    among, any, call, chain2, chain3, chain4, chain5, chain6, either2, either3, either4, either5,
    either6, end, many, maybe, more, nodes_view, not, parse_expr, parsed, range, text, to_chars,
    word, Kind, Mode, Node, NodeView, Peg,
};
use vstd::prelude::*;
use vstd::string::*;

verus! {

/// The rules of the grammar.
#[allow(non_camel_case_types)]
#[derive(Debug, Clone, Copy, PartialEq, Eq, Structural)]
pub enum Rule {
    /// White space: a space, a tab, a line feed or a carriage return.
    WHITESPACE,
    /// A comment: from `/*` to the next `*/`, or from `//` to the end of the
    /// line, the line feed included.
    COMMENT,
    /// A letter or an underscore.
    name_start,
    /// A letter, a digit or an underscore.
    name_char,
    /// A character that operators are made of.
    symbol,
    /// A document: namespaces, one after another, to the end of the text.
    alfa_doc,
    /// `namespace <name> { <statements> }`.
    namespace,
    /// A name of one or more components with dots between them.
    ns_identifier,
    /// One component of a name with dots.
    ns_component,
    /// A name: a letter or underscore, then letters, digits and underscores.
    identifier,
    /// The name of an element, with the namespace in front where one is
    /// written: names with dots between them.
    elem_identifier,
    /// A statement of a namespace.
    alfa_statement,
    /// `import <name>`.
    import_decl,
    /// What is imported: a name with dots, which may end in `.*` or in an
    /// operator.
    import_identifier,
    /// The `*` at the end of an import of everything in a namespace.
    import_wildcard,
    /// The operator at the end of an import of an operator.
    infix_import,
    /// `type <name> = "<uri>"`.
    type_decl,
    /// `category <name> = "<uri>"`.
    cat_decl,
    /// `advice <name> = "<uri>"`.
    advice_decl,
    /// `obligation <name> = "<uri>"`.
    obligation_decl,
    /// `ruleCombinator <name> = "<uri>"`.
    rule_combinator_decl,
    /// `policyCombinator <name> = "<uri>"`.
    policy_combinator_decl,
    /// `function <name> = "<uri>" : <argument types> -> <result type>`.
    function_decl,
    /// The name of a function in its declaration.
    function_name,
    /// The argument types of a function.
    function_args,
    /// Argument types of which the last may be repeated: they end in `*`.
    wildcard_arg,
    /// Argument types of which none is repeated.
    func_arg,
    /// One or more argument types.
    func_identifier,
    /// One argument type.
    func_type,
    /// `bag[anyAtomic]`.
    func_bag_anyatomic,
    /// `bag[<type>]`.
    func_bag_ident,
    /// `anyAtomic`.
    func_anyatomic,
    /// `anyAtomicOrBag`.
    func_atomicorbag,
    /// `function`, the type of a function as an argument.
    func_fn,
    /// The result type of a function.
    func_out,
    /// `attribute <name> { <id, type and category, in any order> }`.
    attribute_decl,
    /// One of the three parts of an attribute declaration.
    attr_assoc,
    /// `id = "<uri>"`.
    attr_id_assoc,
    /// `type = <name>`.
    attr_type_assoc,
    /// `category = <name>`.
    attr_category_assoc,
    /// `infix <modifiers> (<operator>) = { <signatures> }`, with an optional
    /// `inv <operator>` behind it.
    infix_decl,
    /// A modifier of an infix declaration.
    infix_modifier,
    /// `comm`: the operands may change places.
    comm_modifier,
    /// `allowbags`: an operand may be a bag.
    allowbags_modifier,
    /// The symbols of an operator.
    operator_name,
    /// A signature: `"<uri>" : <type> <type> -> <type>`.
    infix_arg_decl,
    /// `inv <operator>`, which names the operator that takes the operands
    /// in reverse order.
    infix_inverse,
    /// An operator with the namespace in front of it: `main.lib.>>`.
    operator_identifier,
    /// `policyset <name> { <statements> }`.
    policyset_decl,
    /// `policy <name> { <statements> }`.
    policy_decl,
    /// How a policy or policy set is named.
    policy_naming,
    /// `<name> = "<identifier>"`.
    policy_with_id,
    /// A name alone.
    policy_with_name,
    /// No name.
    policy_empty,
    /// A statement of a policy set.
    policyset_stmt,
    /// A statement of a policy.
    policy_stmt,
    /// The name of a policy or policy set that is declared elsewhere.
    policy_reference,
    /// The name of a rule that is declared elsewhere.
    rule_reference,
    /// `apply <algorithm>`.
    apply_stmt,
    /// `rule <name> { <statements> }`; the name may be missing.
    rule_decl,
    /// A statement of a rule.
    rule_stmt,
    /// `permit`.
    effect_permit,
    /// `deny`.
    effect_deny,
    /// `target` and its clauses.
    target_stmt,
    /// `clause` and the alternatives of the clause, with `or` between them.
    target_disjunction,
    /// The matches of one alternative, with `and` between them.
    target_conjunction,
    /// One match of a target.
    target_match,
    /// `<function>(<literal>, <attribute>)`.
    target_match_func,
    /// `<attribute> <operator> <literal>`.
    target_match_rev_op,
    /// `<literal> <operator> <attribute>`.
    target_match_op,
    /// An attribute by its name, with its options in square brackets.
    attribute_designator,
    /// The options of an attribute designator, in square brackets.
    designator_options,
    /// `mustbepresent`.
    mustbepresent,
    /// `issuer = "<name>"`.
    issuer,
    /// `condition <expression>`.
    condition_stmt,
    /// An expression: operands with operators between them.
    cond_expr,
    /// An operand: an expression in parentheses, a function as an argument,
    /// a literal, the application of a function, or an attribute.
    cond_atom,
    /// `function[<name>]`.
    cond_function_ref,
    /// `<function>(<arguments>)`.
    cond_function_call,
    /// Arguments with commas between them.
    cond_argument_list,
    /// A literal: a string with the name of its type behind a colon, a
    /// string, a number, or `true` or `false`.
    literal,
    /// `"<value>":<type>`.
    custom_literal,
    /// A string in double or single quotes.
    string_literal,
    /// A string in double quotes.
    double_string_literal,
    /// What stands between double quotes; a backslash takes the character
    /// behind it along.
    double_string_content,
    /// A string in single quotes.
    single_string_literal,
    /// What stands between single quotes; a backslash takes the character
    /// behind it along.
    single_string_content,
    /// A number: an optional minus sign, then digits with an optional
    /// fraction, or a fraction alone.
    numeric_literal,
    /// `true` or `false`.
    boolean_literal,
    /// `on permit { .. }` or `on deny { .. }`: obligations and advice.
    on_effect,
    /// An obligation or an advice of a block.
    apply_prescription,
    /// `obligation <name> { <assignments> }`; the braces may be missing.
    apply_obligation,
    /// `advice <name> { <assignments> }`; the braces may be missing.
    apply_advice,
    /// `<attribute> = <literal or attribute>`.
    prescription_assignment,
}

/// The kind of the rule `rule`.
pub open spec fn kind(rule: Rule) -> Kind {
    match rule {
        Rule::WHITESPACE
        | Rule::name_start
        | Rule::name_char
        | Rule::symbol
        | Rule::func_type
        | Rule::attr_assoc
        | Rule::policy_naming
        | Rule::rule_stmt
        | Rule::target_match
        | Rule::literal => Kind::Silent,
        Rule::COMMENT
        | Rule::ns_component
        | Rule::identifier
        | Rule::infix_import
        | Rule::function_name
        | Rule::operator_name
        | Rule::double_string_content
        | Rule::single_string_content
        | Rule::numeric_literal
        | Rule::boolean_literal => Kind::Atomic,
        Rule::ns_identifier
        | Rule::elem_identifier
        | Rule::import_identifier
        | Rule::operator_identifier
        | Rule::policy_reference
        | Rule::rule_reference
        | Rule::string_literal
        | Rule::double_string_literal
        | Rule::single_string_literal => Kind::Compound,
        _ => Kind::Normal,
    }
}

/// The kind of the rule `rule`.
pub fn rule_kind(rule: Rule) -> (r: Kind)
    ensures
        r == kind(rule),
{
    match rule {
        Rule::WHITESPACE
        | Rule::name_start
        | Rule::name_char
        | Rule::symbol
        | Rule::func_type
        | Rule::attr_assoc
        | Rule::policy_naming
        | Rule::rule_stmt
        | Rule::target_match
        | Rule::literal => Kind::Silent,
        Rule::COMMENT
        | Rule::ns_component
        | Rule::identifier
        | Rule::infix_import
        | Rule::function_name
        | Rule::operator_name
        | Rule::double_string_content
        | Rule::single_string_content
        | Rule::numeric_literal
        | Rule::boolean_literal => Kind::Atomic,
        Rule::ns_identifier
        | Rule::elem_identifier
        | Rule::import_identifier
        | Rule::operator_identifier
        | Rule::policy_reference
        | Rule::rule_reference
        | Rule::string_literal
        | Rule::double_string_literal
        | Rule::single_string_literal => Kind::Compound,
        _ => Kind::Normal,
    }
}

/// The expression of the rule `rule`.
pub open spec fn body(rule: Rule) -> Peg {
    match rule {
        Rule::WHITESPACE => among(" \t\n\r"),
        Rule::COMMENT => either2(
            chain3(text("/*"), many(chain2(not(text("*/")), any())), text("*/")),
            chain3(text("//"), many(chain2(not(text("\n")), any())), maybe(text("\n"))),
        ),
        Rule::name_start => either3(range('a', 'z'), range('A', 'Z'), among("_")),
        Rule::name_char => either2(call(Rule::name_start), range('0', '9')),
        Rule::symbol => among("|&=<>$@^+-*/%!~?#"),
        Rule::alfa_doc => chain3(text(""), many(call(Rule::namespace)), end()),
        Rule::namespace => chain5(
            word("namespace"),
            call(Rule::ns_identifier),
            text("{"),
            many(call(Rule::alfa_statement)),
            text("}"),
        ),
        Rule::ns_identifier => chain2(
            call(Rule::ns_component),
            many(chain2(text("."), call(Rule::ns_component))),
        ),
        Rule::ns_component => chain2(call(Rule::name_start), many(call(Rule::name_char))),
        Rule::identifier => chain2(call(Rule::name_start), many(call(Rule::name_char))),
        Rule::elem_identifier => chain2(
            call(Rule::identifier),
            many(chain2(text("."), call(Rule::identifier))),
        ),
        Rule::alfa_statement => either6(
            call(Rule::namespace),
            call(Rule::policyset_decl),
            call(Rule::policy_decl),
            call(Rule::rule_combinator_decl),
            call(Rule::policy_combinator_decl),
            either6(
                call(Rule::import_decl),
                call(Rule::type_decl),
                call(Rule::function_decl),
                call(Rule::cat_decl),
                call(Rule::attribute_decl),
                either4(
                    call(Rule::infix_decl),
                    call(Rule::advice_decl),
                    call(Rule::obligation_decl),
                    call(Rule::rule_decl),
                ),
            ),
        ),
        Rule::import_decl => chain2(word("import"), call(Rule::import_identifier)),
        Rule::import_identifier => chain3(
            call(Rule::ns_component),
            many(chain2(text("."), call(Rule::ns_component))),
            maybe(
                chain2(
                    text("."),
                    either2(call(Rule::import_wildcard), call(Rule::infix_import)),
                ),
            ),
        ),
        Rule::import_wildcard => chain2(text("*"), not(call(Rule::symbol))),
        Rule::infix_import => more(call(Rule::symbol)),
        Rule::type_decl => chain4(
            word("type"),
            call(Rule::identifier),
            text("="),
            call(Rule::string_literal),
        ),
        Rule::cat_decl => chain4(
            word("category"),
            call(Rule::identifier),
            text("="),
            call(Rule::string_literal),
        ),
        Rule::advice_decl => chain4(
            word("advice"),
            call(Rule::identifier),
            text("="),
            call(Rule::string_literal),
        ),
        Rule::obligation_decl => chain4(
            word("obligation"),
            call(Rule::identifier),
            text("="),
            call(Rule::string_literal),
        ),
        Rule::rule_combinator_decl => chain4(
            word("ruleCombinator"),
            call(Rule::identifier),
            text("="),
            call(Rule::string_literal),
        ),
        Rule::policy_combinator_decl => chain4(
            word("policyCombinator"),
            call(Rule::identifier),
            text("="),
            call(Rule::string_literal),
        ),
        Rule::function_decl => chain6(
            word("function"),
            call(Rule::function_name),
            text("="),
            call(Rule::string_literal),
            text(":"),
            chain3(maybe(call(Rule::function_args)), text("->"), call(Rule::func_out)),
        ),
        Rule::function_name => chain2(call(Rule::name_start), many(call(Rule::name_char))),
        Rule::function_args => either2(call(Rule::wildcard_arg), call(Rule::func_arg)),
        Rule::wildcard_arg => chain2(call(Rule::func_identifier), text("*")),
        Rule::func_arg => call(Rule::func_identifier),
        Rule::func_identifier => more(call(Rule::func_type)),
        Rule::func_type => either6(
            call(Rule::func_bag_anyatomic),
            call(Rule::func_bag_ident),
            call(Rule::func_atomicorbag),
            call(Rule::func_anyatomic),
            call(Rule::func_fn),
            call(Rule::ns_identifier),
        ),
        Rule::func_bag_anyatomic => chain4(word("bag"), text("["), word("anyAtomic"), text("]")),
        Rule::func_bag_ident => chain4(
            word("bag"),
            text("["),
            call(Rule::ns_identifier),
            text("]"),
        ),
        Rule::func_anyatomic => word("anyAtomic"),
        Rule::func_atomicorbag => word("anyAtomicOrBag"),
        Rule::func_fn => word("function"),
        Rule::func_out => either4(
            call(Rule::func_bag_anyatomic),
            call(Rule::func_bag_ident),
            call(Rule::func_anyatomic),
            call(Rule::ns_identifier),
        ),
        Rule::attribute_decl => chain6(
            word("attribute"),
            call(Rule::identifier),
            text("{"),
            call(Rule::attr_assoc),
            call(Rule::attr_assoc),
            chain2(call(Rule::attr_assoc), text("}")),
        ),
        Rule::attr_assoc => either3(
            call(Rule::attr_id_assoc),
            call(Rule::attr_type_assoc),
            call(Rule::attr_category_assoc),
        ),
        Rule::attr_id_assoc => chain3(word("id"), text("="), call(Rule::string_literal)),
        Rule::attr_type_assoc => chain3(word("type"), text("="), call(Rule::elem_identifier)),
        Rule::attr_category_assoc => chain3(
            word("category"),
            text("="),
            call(Rule::elem_identifier),
        ),
        Rule::infix_decl => chain6(
            word("infix"),
            many(call(Rule::infix_modifier)),
            text("("),
            call(Rule::operator_name),
            text(")"),
            chain5(
                text("="),
                text("{"),
                many(call(Rule::infix_arg_decl)),
                text("}"),
                maybe(call(Rule::infix_inverse)),
            ),
        ),
        Rule::infix_modifier => either2(
            call(Rule::comm_modifier),
            call(Rule::allowbags_modifier),
        ),
        Rule::comm_modifier => word("comm"),
        Rule::allowbags_modifier => word("allowbags"),
        Rule::operator_name => more(call(Rule::symbol)),
        Rule::infix_arg_decl => chain6(
            call(Rule::string_literal),
            text(":"),
            call(Rule::identifier),
            call(Rule::identifier),
            text("->"),
            call(Rule::identifier),
        ),
        Rule::infix_inverse => chain2(word("inv"), call(Rule::operator_identifier)),
        Rule::operator_identifier => chain2(
            many(chain2(call(Rule::identifier), text("."))),
            call(Rule::operator_name),
        ),
        Rule::policyset_decl => chain5(
            word("policyset"),
            call(Rule::policy_naming),
            text("{"),
            many(call(Rule::policyset_stmt)),
            text("}"),
        ),
        Rule::policy_decl => chain5(
            word("policy"),
            call(Rule::policy_naming),
            text("{"),
            many(call(Rule::policy_stmt)),
            text("}"),
        ),
        Rule::policy_naming => either3(
            call(Rule::policy_with_id),
            call(Rule::policy_with_name),
            call(Rule::policy_empty),
        ),
        Rule::policy_with_id => chain3(
            call(Rule::identifier),
            text("="),
            call(Rule::string_literal),
        ),
        Rule::policy_with_name => call(Rule::identifier),
        Rule::policy_empty => text(""),
        Rule::policyset_stmt => either6(
            call(Rule::apply_stmt),
            call(Rule::target_stmt),
            call(Rule::condition_stmt),
            call(Rule::policyset_decl),
            call(Rule::policy_decl),
            either2(call(Rule::on_effect), call(Rule::policy_reference)),
        ),
        Rule::policy_stmt => either6(
            call(Rule::apply_stmt),
            call(Rule::target_stmt),
            call(Rule::condition_stmt),
            call(Rule::rule_decl),
            call(Rule::on_effect),
            call(Rule::rule_reference),
        ),
        Rule::policy_reference => call(Rule::elem_identifier),
        Rule::rule_reference => call(Rule::elem_identifier),
        Rule::apply_stmt => chain2(word("apply"), call(Rule::elem_identifier)),
        Rule::rule_decl => chain5(
            word("rule"),
            maybe(call(Rule::identifier)),
            text("{"),
            many(call(Rule::rule_stmt)),
            text("}"),
        ),
        Rule::rule_stmt => either5(
            call(Rule::effect_permit),
            call(Rule::effect_deny),
            call(Rule::target_stmt),
            call(Rule::condition_stmt),
            call(Rule::on_effect),
        ),
        Rule::effect_permit => word("permit"),
        Rule::effect_deny => word("deny"),
        Rule::target_stmt => chain2(word("target"), many(call(Rule::target_disjunction))),
        Rule::target_disjunction => chain3(
            word("clause"),
            call(Rule::target_conjunction),
            many(chain2(word("or"), call(Rule::target_conjunction))),
        ),
        Rule::target_conjunction => chain2(
            call(Rule::target_match),
            many(chain2(word("and"), call(Rule::target_match))),
        ),
        Rule::target_match => either3(
            call(Rule::target_match_func),
            call(Rule::target_match_rev_op),
            call(Rule::target_match_op),
        ),
        Rule::target_match_func => chain6(
            call(Rule::elem_identifier),
            text("("),
            call(Rule::literal),
            text(","),
            call(Rule::attribute_designator),
            text(")"),
        ),
        Rule::target_match_rev_op => chain3(
            call(Rule::attribute_designator),
            call(Rule::operator_identifier),
            call(Rule::literal),
        ),
        Rule::target_match_op => chain3(
            call(Rule::literal),
            call(Rule::operator_identifier),
            call(Rule::attribute_designator),
        ),
        Rule::attribute_designator => chain2(
            call(Rule::elem_identifier),
            maybe(call(Rule::designator_options)),
        ),
        Rule::designator_options => chain3(
            text("["),
            many(either2(call(Rule::mustbepresent), call(Rule::issuer))),
            text("]"),
        ),
        Rule::mustbepresent => word("mustbepresent"),
        Rule::issuer => chain3(word("issuer"), text("="), call(Rule::string_literal)),
        Rule::condition_stmt => chain2(word("condition"), call(Rule::cond_expr)),
        Rule::cond_expr => chain2(
            call(Rule::cond_atom),
            many(chain2(call(Rule::operator_identifier), call(Rule::cond_atom))),
        ),
        Rule::cond_atom => either5(
            chain3(text("("), call(Rule::cond_expr), text(")")),
            call(Rule::cond_function_ref),
            call(Rule::literal),
            call(Rule::cond_function_call),
            call(Rule::attribute_designator),
        ),
        Rule::cond_function_ref => chain4(
            word("function"),
            text("["),
            call(Rule::elem_identifier),
            text("]"),
        ),
        Rule::cond_function_call => chain4(
            call(Rule::elem_identifier),
            text("("),
            maybe(call(Rule::cond_argument_list)),
            text(")"),
        ),
        Rule::cond_argument_list => chain2(
            call(Rule::cond_expr),
            many(chain2(text(","), call(Rule::cond_expr))),
        ),
        Rule::literal => either4(
            call(Rule::custom_literal),
            call(Rule::string_literal),
            call(Rule::numeric_literal),
            call(Rule::boolean_literal),
        ),
        Rule::custom_literal => chain3(
            call(Rule::string_literal),
            text(":"),
            call(Rule::identifier),
        ),
        Rule::string_literal => either2(
            call(Rule::double_string_literal),
            call(Rule::single_string_literal),
        ),
        Rule::double_string_literal => chain3(
            text("\""),
            call(Rule::double_string_content),
            text("\""),
        ),
        Rule::double_string_content => many(
            either2(chain2(text("\\"), any()), chain2(not(text("\"")), any())),
        ),
        Rule::single_string_literal => chain3(
            text("'"),
            call(Rule::single_string_content),
            text("'"),
        ),
        Rule::single_string_content => many(
            either2(chain2(text("\\"), any()), chain2(not(text("'")), any())),
        ),
        Rule::numeric_literal => chain2(
            maybe(text("-")),
            either2(
                chain2(more(range('0', '9')), maybe(chain2(text("."), more(range('0', '9'))))),
                chain2(text("."), more(range('0', '9'))),
            ),
        ),
        Rule::boolean_literal => either2(text("true"), text("false")),
        Rule::on_effect => chain5(
            word("on"),
            either2(call(Rule::effect_permit), call(Rule::effect_deny)),
            text("{"),
            many(call(Rule::apply_prescription)),
            text("}"),
        ),
        Rule::apply_prescription => either2(
            call(Rule::apply_obligation),
            call(Rule::apply_advice),
        ),
        Rule::apply_obligation => chain3(
            word("obligation"),
            call(Rule::elem_identifier),
            maybe(chain3(text("{"), many(call(Rule::prescription_assignment)), text("}"))),
        ),
        Rule::apply_advice => chain3(
            word("advice"),
            call(Rule::elem_identifier),
            maybe(chain3(text("{"), many(call(Rule::prescription_assignment)), text("}"))),
        ),
        Rule::prescription_assignment => chain3(
            call(Rule::elem_identifier),
            text("="),
            either2(call(Rule::literal), call(Rule::attribute_designator)),
        ),
    }
}

/// The expression of the rule `rule`.
pub fn rule_body(rule: Rule) -> (r: Peg)
    ensures
        r == body(rule),
{
    match rule {
        Rule::WHITESPACE => among(" \t\n\r"),
        Rule::COMMENT => either2(
            chain3(text("/*"), many(chain2(not(text("*/")), any())), text("*/")),
            chain3(text("//"), many(chain2(not(text("\n")), any())), maybe(text("\n"))),
        ),
        Rule::name_start => either3(range('a', 'z'), range('A', 'Z'), among("_")),
        Rule::name_char => either2(call(Rule::name_start), range('0', '9')),
        Rule::symbol => among("|&=<>$@^+-*/%!~?#"),
        Rule::alfa_doc => chain3(text(""), many(call(Rule::namespace)), end()),
        Rule::namespace => chain5(
            word("namespace"),
            call(Rule::ns_identifier),
            text("{"),
            many(call(Rule::alfa_statement)),
            text("}"),
        ),
        Rule::ns_identifier => chain2(
            call(Rule::ns_component),
            many(chain2(text("."), call(Rule::ns_component))),
        ),
        Rule::ns_component => chain2(call(Rule::name_start), many(call(Rule::name_char))),
        Rule::identifier => chain2(call(Rule::name_start), many(call(Rule::name_char))),
        Rule::elem_identifier => chain2(
            call(Rule::identifier),
            many(chain2(text("."), call(Rule::identifier))),
        ),
        Rule::alfa_statement => either6(
            call(Rule::namespace),
            call(Rule::policyset_decl),
            call(Rule::policy_decl),
            call(Rule::rule_combinator_decl),
            call(Rule::policy_combinator_decl),
            either6(
                call(Rule::import_decl),
                call(Rule::type_decl),
                call(Rule::function_decl),
                call(Rule::cat_decl),
                call(Rule::attribute_decl),
                either4(
                    call(Rule::infix_decl),
                    call(Rule::advice_decl),
                    call(Rule::obligation_decl),
                    call(Rule::rule_decl),
                ),
            ),
        ),
        Rule::import_decl => chain2(word("import"), call(Rule::import_identifier)),
        Rule::import_identifier => chain3(
            call(Rule::ns_component),
            many(chain2(text("."), call(Rule::ns_component))),
            maybe(
                chain2(
                    text("."),
                    either2(call(Rule::import_wildcard), call(Rule::infix_import)),
                ),
            ),
        ),
        Rule::import_wildcard => chain2(text("*"), not(call(Rule::symbol))),
        Rule::infix_import => more(call(Rule::symbol)),
        Rule::type_decl => chain4(
            word("type"),
            call(Rule::identifier),
            text("="),
            call(Rule::string_literal),
        ),
        Rule::cat_decl => chain4(
            word("category"),
            call(Rule::identifier),
            text("="),
            call(Rule::string_literal),
        ),
        Rule::advice_decl => chain4(
            word("advice"),
            call(Rule::identifier),
            text("="),
            call(Rule::string_literal),
        ),
        Rule::obligation_decl => chain4(
            word("obligation"),
            call(Rule::identifier),
            text("="),
            call(Rule::string_literal),
        ),
        Rule::rule_combinator_decl => chain4(
            word("ruleCombinator"),
            call(Rule::identifier),
            text("="),
            call(Rule::string_literal),
        ),
        Rule::policy_combinator_decl => chain4(
            word("policyCombinator"),
            call(Rule::identifier),
            text("="),
            call(Rule::string_literal),
        ),
        Rule::function_decl => chain6(
            word("function"),
            call(Rule::function_name),
            text("="),
            call(Rule::string_literal),
            text(":"),
            chain3(maybe(call(Rule::function_args)), text("->"), call(Rule::func_out)),
        ),
        Rule::function_name => chain2(call(Rule::name_start), many(call(Rule::name_char))),
        Rule::function_args => either2(call(Rule::wildcard_arg), call(Rule::func_arg)),
        Rule::wildcard_arg => chain2(call(Rule::func_identifier), text("*")),
        Rule::func_arg => call(Rule::func_identifier),
        Rule::func_identifier => more(call(Rule::func_type)),
        Rule::func_type => either6(
            call(Rule::func_bag_anyatomic),
            call(Rule::func_bag_ident),
            call(Rule::func_atomicorbag),
            call(Rule::func_anyatomic),
            call(Rule::func_fn),
            call(Rule::ns_identifier),
        ),
        Rule::func_bag_anyatomic => chain4(word("bag"), text("["), word("anyAtomic"), text("]")),
        Rule::func_bag_ident => chain4(
            word("bag"),
            text("["),
            call(Rule::ns_identifier),
            text("]"),
        ),
        Rule::func_anyatomic => word("anyAtomic"),
        Rule::func_atomicorbag => word("anyAtomicOrBag"),
        Rule::func_fn => word("function"),
        Rule::func_out => either4(
            call(Rule::func_bag_anyatomic),
            call(Rule::func_bag_ident),
            call(Rule::func_anyatomic),
            call(Rule::ns_identifier),
        ),
        Rule::attribute_decl => chain6(
            word("attribute"),
            call(Rule::identifier),
            text("{"),
            call(Rule::attr_assoc),
            call(Rule::attr_assoc),
            chain2(call(Rule::attr_assoc), text("}")),
        ),
        Rule::attr_assoc => either3(
            call(Rule::attr_id_assoc),
            call(Rule::attr_type_assoc),
            call(Rule::attr_category_assoc),
        ),
        Rule::attr_id_assoc => chain3(word("id"), text("="), call(Rule::string_literal)),
        Rule::attr_type_assoc => chain3(word("type"), text("="), call(Rule::elem_identifier)),
        Rule::attr_category_assoc => chain3(
            word("category"),
            text("="),
            call(Rule::elem_identifier),
        ),
        Rule::infix_decl => chain6(
            word("infix"),
            many(call(Rule::infix_modifier)),
            text("("),
            call(Rule::operator_name),
            text(")"),
            chain5(
                text("="),
                text("{"),
                many(call(Rule::infix_arg_decl)),
                text("}"),
                maybe(call(Rule::infix_inverse)),
            ),
        ),
        Rule::infix_modifier => either2(
            call(Rule::comm_modifier),
            call(Rule::allowbags_modifier),
        ),
        Rule::comm_modifier => word("comm"),
        Rule::allowbags_modifier => word("allowbags"),
        Rule::operator_name => more(call(Rule::symbol)),
        Rule::infix_arg_decl => chain6(
            call(Rule::string_literal),
            text(":"),
            call(Rule::identifier),
            call(Rule::identifier),
            text("->"),
            call(Rule::identifier),
        ),
        Rule::infix_inverse => chain2(word("inv"), call(Rule::operator_identifier)),
        Rule::operator_identifier => chain2(
            many(chain2(call(Rule::identifier), text("."))),
            call(Rule::operator_name),
        ),
        Rule::policyset_decl => chain5(
            word("policyset"),
            call(Rule::policy_naming),
            text("{"),
            many(call(Rule::policyset_stmt)),
            text("}"),
        ),
        Rule::policy_decl => chain5(
            word("policy"),
            call(Rule::policy_naming),
            text("{"),
            many(call(Rule::policy_stmt)),
            text("}"),
        ),
        Rule::policy_naming => either3(
            call(Rule::policy_with_id),
            call(Rule::policy_with_name),
            call(Rule::policy_empty),
        ),
        Rule::policy_with_id => chain3(
            call(Rule::identifier),
            text("="),
            call(Rule::string_literal),
        ),
        Rule::policy_with_name => call(Rule::identifier),
        Rule::policy_empty => text(""),
        Rule::policyset_stmt => either6(
            call(Rule::apply_stmt),
            call(Rule::target_stmt),
            call(Rule::condition_stmt),
            call(Rule::policyset_decl),
            call(Rule::policy_decl),
            either2(call(Rule::on_effect), call(Rule::policy_reference)),
        ),
        Rule::policy_stmt => either6(
            call(Rule::apply_stmt),
            call(Rule::target_stmt),
            call(Rule::condition_stmt),
            call(Rule::rule_decl),
            call(Rule::on_effect),
            call(Rule::rule_reference),
        ),
        Rule::policy_reference => call(Rule::elem_identifier),
        Rule::rule_reference => call(Rule::elem_identifier),
        Rule::apply_stmt => chain2(word("apply"), call(Rule::elem_identifier)),
        Rule::rule_decl => chain5(
            word("rule"),
            maybe(call(Rule::identifier)),
            text("{"),
            many(call(Rule::rule_stmt)),
            text("}"),
        ),
        Rule::rule_stmt => either5(
            call(Rule::effect_permit),
            call(Rule::effect_deny),
            call(Rule::target_stmt),
            call(Rule::condition_stmt),
            call(Rule::on_effect),
        ),
        Rule::effect_permit => word("permit"),
        Rule::effect_deny => word("deny"),
        Rule::target_stmt => chain2(word("target"), many(call(Rule::target_disjunction))),
        Rule::target_disjunction => chain3(
            word("clause"),
            call(Rule::target_conjunction),
            many(chain2(word("or"), call(Rule::target_conjunction))),
        ),
        Rule::target_conjunction => chain2(
            call(Rule::target_match),
            many(chain2(word("and"), call(Rule::target_match))),
        ),
        Rule::target_match => either3(
            call(Rule::target_match_func),
            call(Rule::target_match_rev_op),
            call(Rule::target_match_op),
        ),
        Rule::target_match_func => chain6(
            call(Rule::elem_identifier),
            text("("),
            call(Rule::literal),
            text(","),
            call(Rule::attribute_designator),
            text(")"),
        ),
        Rule::target_match_rev_op => chain3(
            call(Rule::attribute_designator),
            call(Rule::operator_identifier),
            call(Rule::literal),
        ),
        Rule::target_match_op => chain3(
            call(Rule::literal),
            call(Rule::operator_identifier),
            call(Rule::attribute_designator),
        ),
        Rule::attribute_designator => chain2(
            call(Rule::elem_identifier),
            maybe(call(Rule::designator_options)),
        ),
        Rule::designator_options => chain3(
            text("["),
            many(either2(call(Rule::mustbepresent), call(Rule::issuer))),
            text("]"),
        ),
        Rule::mustbepresent => word("mustbepresent"),
        Rule::issuer => chain3(word("issuer"), text("="), call(Rule::string_literal)),
        Rule::condition_stmt => chain2(word("condition"), call(Rule::cond_expr)),
        Rule::cond_expr => chain2(
            call(Rule::cond_atom),
            many(chain2(call(Rule::operator_identifier), call(Rule::cond_atom))),
        ),
        Rule::cond_atom => either5(
            chain3(text("("), call(Rule::cond_expr), text(")")),
            call(Rule::cond_function_ref),
            call(Rule::literal),
            call(Rule::cond_function_call),
            call(Rule::attribute_designator),
        ),
        Rule::cond_function_ref => chain4(
            word("function"),
            text("["),
            call(Rule::elem_identifier),
            text("]"),
        ),
        Rule::cond_function_call => chain4(
            call(Rule::elem_identifier),
            text("("),
            maybe(call(Rule::cond_argument_list)),
            text(")"),
        ),
        Rule::cond_argument_list => chain2(
            call(Rule::cond_expr),
            many(chain2(text(","), call(Rule::cond_expr))),
        ),
        Rule::literal => either4(
            call(Rule::custom_literal),
            call(Rule::string_literal),
            call(Rule::numeric_literal),
            call(Rule::boolean_literal),
        ),
        Rule::custom_literal => chain3(
            call(Rule::string_literal),
            text(":"),
            call(Rule::identifier),
        ),
        Rule::string_literal => either2(
            call(Rule::double_string_literal),
            call(Rule::single_string_literal),
        ),
        Rule::double_string_literal => chain3(
            text("\""),
            call(Rule::double_string_content),
            text("\""),
        ),
        Rule::double_string_content => many(
            either2(chain2(text("\\"), any()), chain2(not(text("\"")), any())),
        ),
        Rule::single_string_literal => chain3(
            text("'"),
            call(Rule::single_string_content),
            text("'"),
        ),
        Rule::single_string_content => many(
            either2(chain2(text("\\"), any()), chain2(not(text("'")), any())),
        ),
        Rule::numeric_literal => chain2(
            maybe(text("-")),
            either2(
                chain2(more(range('0', '9')), maybe(chain2(text("."), more(range('0', '9'))))),
                chain2(text("."), more(range('0', '9'))),
            ),
        ),
        Rule::boolean_literal => either2(text("true"), text("false")),
        Rule::on_effect => chain5(
            word("on"),
            either2(call(Rule::effect_permit), call(Rule::effect_deny)),
            text("{"),
            many(call(Rule::apply_prescription)),
            text("}"),
        ),
        Rule::apply_prescription => either2(
            call(Rule::apply_obligation),
            call(Rule::apply_advice),
        ),
        Rule::apply_obligation => chain3(
            word("obligation"),
            call(Rule::elem_identifier),
            maybe(chain3(text("{"), many(call(Rule::prescription_assignment)), text("}"))),
        ),
        Rule::apply_advice => chain3(
            word("advice"),
            call(Rule::elem_identifier),
            maybe(chain3(text("{"), many(call(Rule::prescription_assignment)), text("}"))),
        ),
        Rule::prescription_assignment => chain3(
            call(Rule::elem_identifier),
            text("="),
            either2(call(Rule::literal), call(Rule::attribute_designator)),
        ),
    }
}

/// The depth to which rules may call rules in a parse.
pub const DEPTH: usize = 256;

/// What the rule `rule` takes at the start of `s`: where that text ends,
/// and the nodes that are left; `None` where the rule fails.
pub open spec fn parse_tree(rule: Rule, s: Seq<char>) -> Option<(int, Seq<NodeView>)> {
    parsed(Peg::Call(rule), s, 0, Mode::Normal, DEPTH as nat)
}

/// The part of `s` from `start` to `end`; nothing where there is no such
/// part.
pub open spec fn part(s: Seq<char>, start: int, end: int) -> Seq<char> {
    if 0 <= start <= end <= s.len() {
        s.subrange(start, end)
    } else {
        Seq::empty()
    }
}

/// The part of `input` from `start` to `end`, in characters.
pub fn part_of<'a>(input: &'a str, start: usize, end: usize) -> (r: &'a str)
    ensures
        r@ == part(input@, start as int, end as int),
{
    if start <= end && end <= input.unicode_len() {
        input.substring_char(start, end)
    } else {
        input.substring_char(0, 0)
    }
}

/// A node of a parse tree together with the text that was parsed.
#[derive(Debug, PartialEq, Eq)]
pub struct Pair<'a> {
    input: &'a str,
    node: Node,
}

impl<'a> Pair<'a> {
    /// The node.
    pub closed spec fn spec_tree(&self) -> Node {
        self.node
    }

    /// What the node holds.
    pub open spec fn spec_node(&self) -> NodeView {
        self.spec_tree()@
    }

    /// The text that was parsed.
    pub closed spec fn spec_input(&self) -> Seq<char> {
        self.input@
    }

    /// The rule that took the text.
    pub open spec fn spec_rule(&self) -> Rule {
        self.spec_node().rule
    }

    /// The text that the rule took.
    pub open spec fn spec_text(&self) -> Seq<char> {
        part(self.spec_input(), self.spec_node().start, self.spec_node().end)
    }

    /// The rule that took the text.
    pub fn as_rule(&self) -> (r: Rule)
        ensures
            r == self.spec_rule(),
    {
        proof {
            crate::peg::lemma_node_view(self.node);
        }
        self.node.rule
    }

    /// The text that the rule took.
    pub fn as_str(&self) -> (r: &'a str)
        ensures
            r@ == self.spec_text(),
    {
        proof {
            crate::peg::lemma_node_view(self.node);
        }
        part_of(self.input, self.node.start, self.node.end)
    }

    /// Where the text that the rule took starts and ends, in characters.
    pub fn as_span(&self) -> (r: (usize, usize))
        ensures
            r.0 == self.spec_node().start,
            r.1 == self.spec_node().end,
    {
        proof {
            crate::peg::lemma_node_view(self.node);
        }
        (self.node.start, self.node.end)
    }

    /// The nodes of the rules that the rule called.
    pub fn into_inner(self) -> (r: Pairs<'a>)
        ensures
            r.spec_input() == self.spec_input(),
            r.spec_nodes() == self.spec_node().children,
    {
        proof {
            crate::peg::lemma_node_view(self.node);
        }
        Pairs { input: self.input, nodes: self.node.children }
    }

    /// The node and the text, apart.
    pub fn into_parts(self) -> (r: (&'a str, Node))
        ensures
            r.0@ == self.spec_input(),
            r.1 == self.spec_tree(),
    {
        (self.input, self.node)
    }
}

/// The nodes that a parse left, in order, together with the text that was
/// parsed.
#[derive(Debug, PartialEq, Eq)]
pub struct Pairs<'a> {
    input: &'a str,
    nodes: Vec<Node>,
}

/// The part of `s` from the start of the first of `nodes` to the end of
/// the last; nothing where there are no nodes.
pub open spec fn span_text(s: Seq<char>, nodes: Seq<NodeView>) -> Seq<char> {
    if nodes.len() == 0 {
        Seq::empty()
    } else {
        part(s, nodes[0].start, nodes.last().end)
    }
}

impl<'a> Pairs<'a> {
    /// The nodes that are still to be handed out.
    pub closed spec fn spec_nodes(&self) -> Seq<NodeView> {
        nodes_view(self.nodes@)
    }

    /// The text that was parsed.
    pub closed spec fn spec_input(&self) -> Seq<char> {
        self.input@
    }

    /// The text from the start of the first node to the end of the last.
    pub fn as_str(&self) -> (r: &'a str)
        ensures
            r@ == span_text(self.spec_input(), self.spec_nodes()),
    {
        if self.nodes.len() == 0 {
            part_of(self.input, 0, 0)
        } else {
            proof {
                crate::peg::lemma_node_view(self.nodes@[0]);
                crate::peg::lemma_node_view(self.nodes@.last());
            }
            part_of(self.input, self.nodes[0].start, self.nodes[self.nodes.len() - 1].end)
        }
    }

    /// Hands out the first of the nodes that are left.
    pub fn next(&mut self) -> (r: Option<Pair<'a>>)
        ensures
            final(self).spec_input() == old(self).spec_input(),
            match r {
                Some(p) => {
                    &&& old(self).spec_nodes().len() > 0
                    &&& p.spec_node() == old(self).spec_nodes()[0]
                    &&& p.spec_input() == old(self).spec_input()
                    &&& final(self).spec_nodes() == old(self).spec_nodes().drop_first()
                },
                None => old(self).spec_nodes().len() == 0 && final(self).spec_nodes().len() == 0,
            },
    {
        if self.nodes.len() == 0 {
            None
        } else {
            let node = self.nodes.remove(0);
            proof {
                assert(nodes_view(self.nodes@) =~= nodes_view(old(self).nodes@).drop_first());
            }
            Some(Pair { input: self.input, node })
        }
    }

    /// The nodes and the text, apart.
    pub fn into_parts(self) -> (r: (&'a str, Vec<Node>))
        ensures
            r.0@ == self.spec_input(),
            nodes_view(r.1@) == self.spec_nodes(),
    {
        (self.input, self.nodes)
    }
}

/// The parser for the grammar of ALFA.
pub struct AlfaDocParser;

impl AlfaDocParser {
    /// Parses the start of `input` by `rule`, as `parse_tree` states it.
    ///
    /// What follows the text that the rule takes is not looked at. Where
    /// the rule fails the parse fails with `SyntaxError`.
    pub fn parse<'a>(rule: Rule, input: &'a str) -> (r: Result<Pairs<'a>, ParseError>)
        ensures
            match parse_tree(rule, input@) {
                Some((end, nodes)) => {
                    &&& r matches Ok(pairs)
                    &&& pairs.spec_input() == input@
                    &&& pairs.spec_nodes() == nodes
                },
                None => r matches Err(e) && e is SyntaxError,
            },
    {
        let chars = to_chars(input);
        match parse_expr(&Peg::Call(rule), &chars, 0, Mode::Normal, DEPTH) {
            Some((_, nodes)) => Ok(Pairs { input, nodes }),
            None => Err(ParseError::SyntaxError("the text does not start as the rule asks".to_owned())),
        }
    }
}

} // verus!
