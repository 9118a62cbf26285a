//! Tree listings of policies, rules, targets and namespaces.
//!
//! A listing shows an element in one line and what the element holds in
//! the lines below it, two spaces further from the margin. The elements
//! whose names are settled late are listed against the name slots.

use crate::ast::condition::{complete, expression_text, Condition};
use crate::ast::constant::Constant;
use crate::ast::namespace::Namespace;
use crate::ast::naming::NameSlots;
use crate::ast::policy::Policy;
use crate::ast::policyset::{PolicyEntry, PolicyReference, PolicySet};
use crate::ast::prescription::Prescription;
use crate::ast::rule::{RuleDef, RuleEntry, RuleReference};
use crate::ast::target::{
    ConjunctiveSeq, DisjunctiveSeq, Match, MatchFunction, MatchOperation, Target,
};
use crate::ast::{list_each, listing_of, PrettyPrint, QualifiedName};
use crate::context::Context;
use crate::resolver::Resolver;
use crate::text::{
    debug_quote, debug_quote_option, debug_quoted, debug_quoted_option, dotted, dotted_name,
    indent, indent_string, join, join_strings, opt_view, path_view, truth, truth_text,
};
use vstd::prelude::*;
use vstd::string::*;

verus! {

/// The first `n` of `parts`, each in quotes as `{:?}` shows a string, with
/// a comma and a space between neighbours.
pub open spec fn quoted_items(parts: Seq<Seq<char>>, n: nat) -> Seq<char>
    decreases n,
{
    if n == 0 || n > parts.len() {
        Seq::empty()
    } else if n == 1 {
        debug_quoted(parts[0])
    } else {
        quoted_items(parts, (n - 1) as nat) + ", "@ + debug_quoted(parts[n - 1])
    }
}

/// A list of strings as `{:?}` shows it: the strings in quotes, with
/// commas, in square brackets.
pub open spec fn quoted_list(parts: Seq<Seq<char>>) -> Seq<char> {
    "["@ + quoted_items(parts, parts.len()) + "]"@
}

/// A list of strings as `{:?}` shows it.
pub fn debug_quote_list(parts: &[String]) -> (r: String)
    ensures
        r@ == quoted_list(path_view(parts@)),
{
    let mut out = "[".to_owned();
    let ghost head = out@;
    let mut i: usize = 0;
    while i < parts.len()
        invariant
            i <= parts.len(),
            out@ == head + quoted_items(path_view(parts@), i as nat),
        decreases parts.len() - i,
    {
        if i > 0 {
            out.append(", ");
        }
        out.append(debug_quote(parts[i].as_str()).as_str());
        proof {
            assert(out@ =~= head + quoted_items(path_view(parts@), (i + 1) as nat));
        }
        i = i + 1;
    }
    out.append("]");
    out
}

impl Constant {
    /// The constant with the name of its kind, as `{:?}` shows a value of
    /// an enum: the name of the variant and, in parentheses, what it
    /// holds.
    pub open spec fn debug_text(&self) -> Seq<char> {
        match self {
            Constant::String(s) => "String("@ + debug_quoted(s@) + ")"@,
            Constant::Integer(s) => "Integer("@ + debug_quoted(s@) + ")"@,
            Constant::Double(s) => "Double("@ + debug_quoted(s@) + ")"@,
            Constant::Boolean(b) => "Boolean("@ + truth_text(*b) + ")"@,
            Constant::Custom(t, s) => "Custom(CustomType { name: "@ + debug_quoted(t.name@)
                + " }, "@ + debug_quoted(s@) + ")"@,
            Constant::Undefined => "Undefined"@,
        }
    }

    /// The constant with the name of its kind, as `debug_text` states it.
    pub fn to_debug_string(&self) -> (r: String)
        ensures
            r@ == self.debug_text(),
    {
        match self {
            Constant::String(s) => {
                let mut out = "String(".to_owned();
                out.append(debug_quote(s.as_str()).as_str());
                out.append(")");
                out
            },
            Constant::Integer(s) => {
                let mut out = "Integer(".to_owned();
                out.append(debug_quote(s.as_str()).as_str());
                out.append(")");
                out
            },
            Constant::Double(s) => {
                let mut out = "Double(".to_owned();
                out.append(debug_quote(s.as_str()).as_str());
                out.append(")");
                out
            },
            Constant::Boolean(b) => {
                let mut out = "Boolean(".to_owned();
                out.append(truth(*b));
                out.append(")");
                out
            },
            Constant::Custom(t, s) => {
                let mut out = "Custom(CustomType { name: ".to_owned();
                out.append(debug_quote(t.name.as_str()).as_str());
                out.append(" }, ");
                out.append(debug_quote(s.as_str()).as_str());
                out.append(")");
                out
            },
            Constant::Undefined => "Undefined".to_owned(),
        }
    }
}

impl MatchOperation {
    /// The line that `to_string` returns.
    pub open spec fn display_text(&self) -> Seq<char> {
        debug_quoted(join(path_view(self.attribute@), "."@)) + " "@
            + self.operator.spec_qualified_name() + " "@ + self.literal.debug_text()
    }

    /// The comparison in one line: the attribute in quotes, the operator,
    /// and the literal with the name of its kind.
    pub fn to_string(&self) -> (r: String)
        ensures
            r@ == self.display_text(),
    {
        let mut out = debug_quote(join_strings(self.attribute.as_slice(), ".").as_str());
        out.append(" ");
        out.append(self.operator.to_string().as_str());
        out.append(" ");
        out.append(self.literal.to_debug_string().as_str());
        out
    }
}

impl MatchFunction {
    /// The line that `to_string` returns.
    pub open spec fn display_text(&self) -> Seq<char> {
        "MatchFunction { function_id: "@ + quoted_list(path_view(self.function_id@))
            + ", literal: "@ + self.literal.debug_text() + ", attribute: "@ + quoted_list(
            path_view(self.attribute@),
        ) + ", issuer: "@ + debug_quoted_option(opt_view(self.issuer)) + ", mustbepresent: "@
            + truth_text(self.mustbepresent) + " }"@
    }

    /// The comparison in one line, field by field as `{:?}` shows a
    /// struct.
    pub fn to_string(&self) -> (r: String)
        ensures
            r@ == self.display_text(),
    {
        let mut out = "MatchFunction { function_id: ".to_owned();
        out.append(debug_quote_list(self.function_id.as_slice()).as_str());
        out.append(", literal: ");
        out.append(self.literal.to_debug_string().as_str());
        out.append(", attribute: ");
        out.append(debug_quote_list(self.attribute.as_slice()).as_str());
        out.append(", issuer: ");
        out.append(debug_quote_option(&self.issuer).as_str());
        out.append(", mustbepresent: ");
        out.append(truth(self.mustbepresent));
        out.append(" }");
        out
    }
}

impl Match {
    /// The line that `to_string` returns.
    pub open spec fn display_text(&self) -> Seq<char> {
        match self {
            Match::MatchFunc(x) => x.display_text(),
            Match::MatchOp(x) => x.display_text(),
        }
    }

    /// The comparison in one line.
    pub fn to_string(&self) -> (r: String)
        ensures
            r@ == self.display_text(),
    {
        match self {
            Match::MatchFunc(x) => x.to_string(),
            Match::MatchOp(x) => x.to_string(),
        }
    }
}

impl Prescription {
    /// The text that stands for a block of obligations and advice in a
    /// tree listing.
    pub fn to_string(&self) -> (r: String)
        ensures
            r@ == "Prescription"@,
    {
        "Prescription".to_owned()
    }
}

/// One line of a listing: the margin, the text and a line feed.
pub open spec fn line(margin: Seq<char>, text: Seq<char>) -> Seq<char> {
    margin + text + "\n"@
}

fn line_of(margin: &str, text: &str) -> (r: String)
    ensures
        r@ == line(margin@, text@),
{
    let mut out = margin.to_owned();
    out.append(text);
    out.append("\n");
    out
}

/// The margin of what an element at `margin` holds.
pub open spec fn inner(margin: Seq<char>) -> Seq<char> {
    margin + "  "@
}

fn inner_margin(margin: &str) -> (r: String)
    ensures
        r@ == inner(margin@),
{
    let mut out = margin.to_owned();
    out.append("  ");
    out
}

impl PrettyPrint for Match {
    open spec fn listing(&self, margin: Seq<char>) -> Seq<char> {
        line(margin, self.display_text())
    }

    fn list(&self, margin: &str) -> (r: String) {
        line_of(margin, self.to_string().as_str())
    }
}

impl PrettyPrint for ConjunctiveSeq {
    open spec fn listing(&self, margin: Seq<char>) -> Seq<char> {
        line(margin, self.display_text()) + listing_of(self.matches@, inner(margin))
    }

    fn list(&self, margin: &str) -> (r: String) {
        let mut out = line_of(margin, self.to_string().as_str());
        list_each(&mut out, &self.matches, inner_margin(margin).as_str());
        out
    }
}

impl PrettyPrint for DisjunctiveSeq {
    open spec fn listing(&self, margin: Seq<char>) -> Seq<char> {
        line(margin, self.display_text()) + listing_of(self.statements@, inner(margin))
    }

    fn list(&self, margin: &str) -> (r: String) {
        let mut out = line_of(margin, self.to_string().as_str());
        list_each(&mut out, &self.statements, inner_margin(margin).as_str());
        out
    }
}

impl PrettyPrint for Target {
    open spec fn listing(&self, margin: Seq<char>) -> Seq<char> {
        line(margin, self.display_text()) + listing_of(self.clauses@, inner(margin))
    }

    fn list(&self, margin: &str) -> (r: String) {
        let mut out = line_of(margin, self.to_string().as_str());
        list_each(&mut out, &self.clauses, inner_margin(margin).as_str());
        out
    }
}

impl PrettyPrint for Prescription {
    open spec fn listing(&self, margin: Seq<char>) -> Seq<char> {
        line(margin, "Prescription"@)
    }

    fn list(&self, margin: &str) -> (r: String) {
        line_of(margin, self.to_string().as_str())
    }
}

impl PrettyPrint for PolicySet {
    open spec fn listing(&self, margin: Seq<char>) -> Seq<char> {
        line(margin, "policy set"@)
    }

    fn list(&self, margin: &str) -> (r: String) {
        line_of(margin, self.to_string().as_str())
    }
}

impl PrettyPrint for PolicyReference {
    open spec fn listing(&self, margin: Seq<char>) -> Seq<char> {
        line(margin, "policy reference"@)
    }

    fn list(&self, margin: &str) -> (r: String) {
        line_of(margin, self.to_string().as_str())
    }
}

impl PrettyPrint for RuleReference {
    open spec fn listing(&self, margin: Seq<char>) -> Seq<char> {
        line(margin, self.display_text())
    }

    fn list(&self, margin: &str) -> (r: String) {
        line_of(margin, self.to_string().as_str())
    }
}

/// The listing of a target that may be missing.
pub open spec fn target_listing(t: Option<Target>, margin: Seq<char>) -> Seq<char> {
    match t {
        Some(t) => t.listing(margin),
        None => Seq::empty(),
    }
}

impl Condition {
    /// The line that shows the condition, behind `margin`.
    pub open spec fn listing(&self, margin: Seq<char>) -> Seq<char> {
        line(margin, "Condition: "@ + expression_text(self.cond_expr))
    }

    /// The line that shows the condition, behind `margin`. The empty
    /// expression stands nowhere in a condition that is shown.
    pub fn list(&self, margin: &str) -> (r: String)
        requires
            complete(self.cond_expr),
        ensures
            r@ == self.listing(margin@),
    {
        line_of(margin, self.to_string().as_str())
    }

    /// The line that shows the condition at nesting depth `indent_level`.
    pub fn pretty_print(&self, indent_level: usize) -> (r: String)
        requires
            complete(self.cond_expr),
        ensures
            r@ == self.listing(indent(indent_level as nat)),
    {
        self.list(indent_string(indent_level).as_str())
    }
}

impl RuleDef {
    /// Whether the rule can be listed: the empty expression stands nowhere
    /// in its condition.
    pub open spec fn showable(&self) -> bool {
        match self.condition {
            Some(c) => complete(c.cond_expr),
            None => true,
        }
    }

    /// The lines that show the rule, behind `margin`: the rule, and below
    /// it its target and its condition.
    pub open spec fn listing(&self, margin: Seq<char>, slots: Seq<Option<Seq<char>>>) -> Seq<
        char,
    > {
        line(margin, self.display_text(slots)) + target_listing(self.target, inner(margin)) + (
        match self.condition {
            Some(c) => c.listing(inner(margin)),
            None => Seq::empty(),
        })
    }

    /// The lines that show the rule, behind `margin`.
    pub fn list(&self, margin: &str, slots: &NameSlots) -> (r: String)
        requires
            self.showable(),
        ensures
            r@ == self.listing(margin@, slots@),
    {
        let mut out = line_of(margin, self.to_string(slots).as_str());
        let deeper = inner_margin(margin);
        if let Some(t) = &self.target {
            out.append(t.list(deeper.as_str()).as_str());
        }
        if let Some(c) = &self.condition {
            out.append(c.list(deeper.as_str()).as_str());
        }
        out
    }

    /// The lines that show the rule at nesting depth `indent_level`.
    pub fn pretty_print(&self, indent_level: usize, slots: &NameSlots) -> (r: String)
        requires
            self.showable(),
        ensures
            r@ == self.listing(indent(indent_level as nat), slots@),
    {
        self.list(indent_string(indent_level).as_str(), slots)
    }
}

impl RuleEntry {
    /// Whether the rule can be listed.
    pub open spec fn showable(&self) -> bool {
        match self {
            RuleEntry::Ref(_) => true,
            RuleEntry::Def(r) => r.showable(),
        }
    }

    /// The lines that show the rule, behind `margin`.
    pub open spec fn listing(&self, margin: Seq<char>, slots: Seq<Option<Seq<char>>>) -> Seq<
        char,
    > {
        match self {
            RuleEntry::Ref(r) => r.listing(margin),
            RuleEntry::Def(r) => r.listing(margin, slots),
        }
    }

    /// The lines that show the rule, behind `margin`.
    pub fn list(&self, margin: &str, slots: &NameSlots) -> (r: String)
        requires
            self.showable(),
        ensures
            r@ == self.listing(margin@, slots@),
    {
        match self {
            RuleEntry::Ref(r) => r.list(margin),
            RuleEntry::Def(r) => r.list(margin, slots),
        }
    }

    /// The lines that show the rule at nesting depth `indent_level`.
    pub fn pretty_print(&self, indent_level: usize, slots: &NameSlots) -> (r: String)
        requires
            self.showable(),
        ensures
            r@ == self.listing(indent(indent_level as nat), slots@),
    {
        self.list(indent_string(indent_level).as_str(), slots)
    }
}

/// The listings of the first `n` of `rules`, one after another.
pub open spec fn rules_listing(
    rules: Seq<RuleEntry>,
    margin: Seq<char>,
    slots: Seq<Option<Seq<char>>>,
    n: nat,
) -> Seq<char>
    decreases n,
{
    if n == 0 || n > rules.len() {
        Seq::empty()
    } else {
        rules_listing(rules, margin, slots, (n - 1) as nat) + rules[n - 1].listing(margin, slots)
    }
}

impl Policy {
    /// Whether the policy can be listed: each of its rules can.
    pub open spec fn showable(&self) -> bool {
        forall|i: int| 0 <= i < self.rules@.len() ==> (#[trigger] self.rules@[i]).showable()
    }

    /// The lines that show the policy, behind `margin`: the policy, and
    /// below it its target and its rules.
    pub open spec fn listing(&self, margin: Seq<char>, slots: Seq<Option<Seq<char>>>) -> Seq<
        char,
    > {
        line(margin, self.display_text()) + target_listing(self.target, inner(margin))
            + rules_listing(self.rules@, inner(margin), slots, self.rules@.len())
    }

    /// The lines that show the policy, behind `margin`.
    pub fn list(&self, margin: &str, slots: &NameSlots) -> (r: String)
        requires
            self.showable(),
        ensures
            r@ == self.listing(margin@, slots@),
    {
        let mut out = line_of(margin, self.to_string().as_str());
        let deeper = inner_margin(margin);
        if let Some(t) = &self.target {
            out.append(t.list(deeper.as_str()).as_str());
        }
        let ghost head = out@;
        let mut i: usize = 0;
        while i < self.rules.len()
            invariant
                i <= self.rules.len(),
                self.showable(),
                deeper@ == inner(margin@),
                out@ == head + rules_listing(self.rules@, deeper@, slots@, i as nat),
            decreases self.rules.len() - i,
        {
            out.append(self.rules[i].list(deeper.as_str(), slots).as_str());
            proof {
                assert(out@ =~= head + rules_listing(self.rules@, deeper@, slots@, (i + 1) as nat));
            }
            i = i + 1;
        }
        out
    }

    /// The lines that show the policy at nesting depth `indent_level`.
    pub fn pretty_print(&self, indent_level: usize, slots: &NameSlots) -> (r: String)
        requires
            self.showable(),
        ensures
            r@ == self.listing(indent(indent_level as nat), slots@),
    {
        self.list(indent_string(indent_level).as_str(), slots)
    }
}

impl PolicyEntry {
    /// Whether the member can be listed.
    pub open spec fn showable(&self) -> bool {
        match self {
            PolicyEntry::Policy(p) => p.showable(),
            _ => true,
        }
    }

    /// The lines that show the member, behind `margin`: those of the
    /// policy, or the one line of a policy set or a reference.
    pub open spec fn listing(&self, margin: Seq<char>, slots: Seq<Option<Seq<char>>>) -> Seq<
        char,
    > {
        match self {
            PolicyEntry::Ref(p) => p.listing(margin),
            PolicyEntry::Policy(p) => p.listing(margin, slots),
            PolicyEntry::PolicySet(p) => p.listing(margin),
        }
    }

    /// The lines that show the member, behind `margin`.
    pub fn list(&self, margin: &str, slots: &NameSlots) -> (r: String)
        requires
            self.showable(),
        ensures
            r@ == self.listing(margin@, slots@),
    {
        match self {
            PolicyEntry::Ref(p) => p.list(margin),
            PolicyEntry::Policy(p) => p.list(margin, slots),
            PolicyEntry::PolicySet(p) => p.list(margin),
        }
    }

    /// The lines that show the member at nesting depth `indent_level`.
    pub fn pretty_print(&self, indent_level: usize, slots: &NameSlots) -> (r: String)
        requires
            self.showable(),
        ensures
            r@ == self.listing(indent(indent_level as nat), slots@),
    {
        self.list(indent_string(indent_level).as_str(), slots)
    }
}

/// The listing of the declaration that `m` holds under the name `name` in
/// the namespace `path`; no line where it holds none.
pub open spec fn named_listing<T: PrettyPrint>(
    m: Map<Seq<char>, T>,
    path: Seq<Seq<char>>,
    name: Seq<char>,
    margin: Seq<char>,
) -> Seq<char> {
    let key = dotted(join(path, "."@), name);
    if m.contains_key(key) {
        m[key].listing(margin)
    } else {
        Seq::empty()
    }
}

/// The listings of the declarations that `m` holds under the first `n` of
/// `names` in the namespace `path`.
pub open spec fn names_listing<T: PrettyPrint>(
    m: Map<Seq<char>, T>,
    path: Seq<Seq<char>>,
    names: Seq<String>,
    margin: Seq<char>,
    n: nat,
) -> Seq<char>
    decreases n,
{
    if n == 0 || n > names.len() {
        Seq::empty()
    } else {
        names_listing(m, path, names, margin, (n - 1) as nat) + named_listing(
            m,
            path,
            names[n - 1]@,
            margin,
        )
    }
}

/// Appends to `out` the listings of the declarations that `known` holds
/// under `names` in the namespace `path`.
fn list_named<T: PrettyPrint>(
    out: &mut String,
    known: &Resolver<T>,
    path: &[String],
    names: &Vec<String>,
    margin: &str,
)
    ensures
        final(out)@ == old(out)@ + names_listing(
            known@,
            path_view(path@),
            names@,
            margin@,
            names@.len(),
        ),
{
    let ghost head = out@;
    let prefix = join_strings(path, ".");
    let mut i: usize = 0;
    while i < names.len()
        invariant
            i <= names.len(),
            prefix@ == join(path_view(path@), "."@),
            out@ == head + names_listing(known@, path_view(path@), names@, margin@, i as nat),
        decreases names.len() - i,
    {
        let key = dotted_name(prefix.as_str(), names[i].as_str());
        if let Some(d) = known.elements.get(key.as_str()) {
            out.append(d.list(margin).as_str());
        }
        proof {
            assert(out@ =~= head + names_listing(
                known@,
                path_view(path@),
                names@,
                margin@,
                (i + 1) as nat,
            ));
        }
        i = i + 1;
    }
}

/// The listings of the first `n` of `policies`, one after another.
pub open spec fn policies_listing(
    policies: Seq<Policy>,
    margin: Seq<char>,
    slots: Seq<Option<Seq<char>>>,
    n: nat,
) -> Seq<char>
    decreases n,
{
    if n == 0 || n > policies.len() {
        Seq::empty()
    } else {
        policies_listing(policies, margin, slots, (n - 1) as nat) + policies[n - 1].listing(
            margin,
            slots,
        )
    }
}

/// Whether the namespace `ns` can be listed: each policy in it can, at
/// every depth.
pub open spec fn namespace_showable(ns: Namespace) -> bool
    decreases ns,
{
    &&& forall|i: int| 0 <= i < ns.policies@.len() ==> (#[trigger] ns.policies@[i]).showable()
    &&& forall|i: int|
        0 <= i < ns.namespaces@.len() ==> namespace_showable(#[trigger] ns.namespaces@[i])
}

/// The listings of the first `n` namespaces declared in `ns`.
pub open spec fn nested_listing(ns: Namespace, margin: Seq<char>, ctx: Context, n: nat) -> Seq<
    char,
>
    decreases ns, n,
{
    if n == 0 || n > ns.namespaces@.len() {
        Seq::empty()
    } else {
        nested_listing(ns, margin, ctx, (n - 1) as nat) + namespace_listing(
            ns.namespaces@[n - 1],
            margin,
            ctx,
        )
    }
}

/// The lines that show the namespace `ns`, behind `margin`: its name, and
/// below it the import statements, the combining algorithms of policies
/// and of rules, the types, categories, attributes, advice and
/// obligations, the functions and infix operators that `ctx` knows under
/// the names declared here, the policies, and the namespaces declared in
/// `ns`, each with all that it holds.
pub open spec fn namespace_listing(ns: Namespace, margin: Seq<char>, ctx: Context) -> Seq<char>
    decreases ns, ns.namespaces@.len() + 1,
{
    let deeper = inner(margin);
    let path = path_view(ns.path@);
    line(margin, "Namespace: "@ + debug_quoted(join(path, "."@))) + listing_of(
        ns.imports@,
        deeper,
    ) + listing_of(ns.policycombinators@, deeper) + listing_of(ns.rulecombinators@, deeper)
        + listing_of(ns.types@, deeper) + listing_of(ns.categories@, deeper) + listing_of(
        ns.attributes@,
        deeper,
    ) + listing_of(ns.advice@, deeper) + listing_of(ns.obligations@, deeper) + names_listing(
        ctx.decls.function_resolver@,
        path,
        ns.functions@,
        deeper,
        ns.functions@.len(),
    ) + names_listing(
        ctx.decls.infix_resolver@,
        path,
        ns.infix_fns@,
        deeper,
        ns.infix_fns@.len(),
    ) + policies_listing(ns.policies@, deeper, ctx.slots@, ns.policies@.len()) + nested_listing(
        ns,
        deeper,
        ctx,
        ns.namespaces@.len(),
    )
}

impl Namespace {
    /// The lines that show the namespace, behind `margin`, as
    /// `namespace_listing` states them.
    pub fn list(&self, margin: &str, ctx: &Context) -> (r: String)
        requires
            namespace_showable(*self),
        ensures
            r@ == namespace_listing(*self, margin@, *ctx),
        decreases self,
    {
        let mut header = "Namespace: ".to_owned();
        header.append(debug_quote(self.dotted_name().as_str()).as_str());
        let mut out = line_of(margin, header.as_str());
        let deeper = inner_margin(margin);
        list_each(&mut out, &self.imports, deeper.as_str());
        list_each(&mut out, &self.policycombinators, deeper.as_str());
        list_each(&mut out, &self.rulecombinators, deeper.as_str());
        list_each(&mut out, &self.types, deeper.as_str());
        list_each(&mut out, &self.categories, deeper.as_str());
        list_each(&mut out, &self.attributes, deeper.as_str());
        list_each(&mut out, &self.advice, deeper.as_str());
        list_each(&mut out, &self.obligations, deeper.as_str());
        list_named(
            &mut out,
            &ctx.decls.function_resolver,
            self.path.as_slice(),
            &self.functions,
            deeper.as_str(),
        );
        list_named(
            &mut out,
            &ctx.decls.infix_resolver,
            self.path.as_slice(),
            &self.infix_fns,
            deeper.as_str(),
        );
        let ghost head = out@;
        let mut i: usize = 0;
        while i < self.policies.len()
            invariant
                i <= self.policies.len(),
                namespace_showable(*self),
                out@ == head + policies_listing(self.policies@, deeper@, ctx.slots@, i as nat),
            decreases self.policies.len() - i,
        {
            out.append(self.policies[i].list(deeper.as_str(), &ctx.slots).as_str());
            proof {
                assert(out@ =~= head + policies_listing(
                    self.policies@,
                    deeper@,
                    ctx.slots@,
                    (i + 1) as nat,
                ));
            }
            i = i + 1;
        }
        let ghost head = out@;
        let mut i: usize = 0;
        while i < self.namespaces.len()
            invariant
                i <= self.namespaces.len(),
                namespace_showable(*self),
                out@ == head + nested_listing(*self, deeper@, *ctx, i as nat),
            decreases self.namespaces.len() - i,
        {
            out.append(self.namespaces[i].list(deeper.as_str(), ctx).as_str());
            proof {
                assert(out@ =~= head + nested_listing(*self, deeper@, *ctx, (i + 1) as nat));
            }
            i = i + 1;
        }
        proof {
            assert(out@ =~= namespace_listing(*self, margin@, *ctx));
        }
        out
    }

    /// The lines that show the namespace at nesting depth `indent_level`.
    pub fn pretty_print(&self, indent_level: usize, ctx: &Context) -> (r: String)
        requires
            namespace_showable(*self),
        ensures
            r@ == namespace_listing(*self, indent(indent_level as nat), *ctx),
    {
        self.list(indent_string(indent_level).as_str(), ctx)
    }
}

} // verus!
