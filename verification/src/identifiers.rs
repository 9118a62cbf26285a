//! Identifiers for XACML: how the name of a policy without a name is
//! settled, and how the identifier of a policy, a policy set or a rule is
//! put together.

use crate::ast::naming::{filled, resolvable, resolved_parts, GenName, NameSlot, NameSlots};
use crate::ast::policy::{Policy, PolicyId, PolicyIdView};
use crate::ast::policyset::PolicySet;
use crate::ast::rule::RuleDef;
use crate::context::{upcoming, Config, Context, PolicyHandle};
use crate::resolver::{resolve, Resolution};
use crate::strmap::StringMap;
use crate::text::{
    append_decimal, decimal, join, join_strings, lemma_numbered_injective, numbered_name, opt_view,
    path_view,
};
use vstd::prelude::*;
use vstd::string::*;

verus! {

/// A fresh version-7 UUID in its hyphenated lower-case form, from
/// `uuid::Uuid::now_v7`. It is made from the time and from random bits, so
/// nothing is claimed of what comes back.
#[verifier::external_body]
fn fresh_uuid() -> (r: String) {
    uuid::Uuid::now_v7().to_string()
}

/// The start of the names that are generated for policies or, where
/// `for_set` holds, for policy sets.
pub open spec fn generated_prefix(for_set: bool) -> Seq<char> {
    if for_set {
        "policyset_"@
    } else {
        "policy_"@
    }
}

/// The name that is generated from the number `n`.
pub open spec fn generated_name(for_set: bool, n: nat) -> Seq<char> {
    generated_prefix(for_set) + decimal(n)
}

/// The counters from which names are generated for policies or, where
/// `for_set` holds, for policy sets.
pub open spec fn name_counters(ctx: Context, for_set: bool) -> Map<Seq<char>, usize> {
    if for_set {
        ctx.policyset_id_mapping@
    } else {
        ctx.policy_id_mapping@
    }
}

/// Whether `name`, looked up from the namespace `ns`, stands for a
/// registered policy or policy set: such a name is not given to another
/// element, since policies and policy sets share their names.
pub open spec fn taken(ctx: Context, name: Seq<char>, ns: Seq<Seq<char>>) -> bool {
    ||| resolve(ctx.decls.policy_resolver@.dom(), name, ns, ctx.decls.imports_for(ns)) is Found
    ||| resolve(ctx.decls.policyset_resolver@.dom(), name, ns, ctx.decls.imports_for(ns)) is Found
}

/// Whether `after` is `before` with the number `n` drawn for the namespace
/// `ns` and the name of that number put into the empty slot `slot`: every
/// number from the counter's next one up to `n` was drawn, each before `n`
/// gave a name that is taken, and `n` gives one that is not.
pub open spec fn settled_with(
    before: Context,
    after: Context,
    ns: Seq<Seq<char>>,
    slot: NameSlot,
    for_set: bool,
    n: nat,
) -> bool {
    let from = upcoming(name_counters(before, for_set), join(ns, "."@));
    &&& from <= n <= usize::MAX
    &&& forall|k: nat| from <= k < n ==> taken(before, #[trigger] generated_name(for_set, k), ns)
    &&& !taken(before, generated_name(for_set, n), ns)
    &&& name_counters(after, for_set) == name_counters(before, for_set).insert(
        join(ns, "."@),
        n as usize,
    )
    &&& after.slots@ == before.slots@.update(slot as int, Some(generated_name(for_set, n)))
}

/// Whether `after` is `before` with every number drawn that the counter of
/// the namespace `ns` had left, none of which gave a free name.
pub open spec fn exhausted(before: Context, after: Context, ns: Seq<Seq<char>>, for_set: bool) -> bool {
    let from = upcoming(name_counters(before, for_set), join(ns, "."@));
    &&& forall|k: nat|
        from <= k <= usize::MAX ==> taken(before, #[trigger] generated_name(for_set, k), ns)
    &&& upcoming(name_counters(after, for_set), join(ns, "."@)) == usize::MAX + 1
    &&& after.slots@ == before.slots@
}

/// Whether `after` is what settling the name in `slot` makes of `before`.
///
/// A slot that holds a name, or that does not exist, leaves the context as
/// it was. An empty slot gets the first generated name that is not taken,
/// counted on from the counter of the namespace; only where the counter
/// runs out before such a name is found the slot stays empty.
pub open spec fn settled(
    before: Context,
    after: Context,
    ns: Seq<Seq<char>>,
    slot: NameSlot,
    for_set: bool,
) -> bool {
    &&& after == (Context {
        slots: after.slots,
        policy_id_mapping: after.policy_id_mapping,
        policyset_id_mapping: after.policyset_id_mapping,
        ..before
    })
    &&& name_counters(after, !for_set) == name_counters(before, !for_set)
    &&& if slot < before.slots@.len() && before.slots@[slot as int] is None {
        ||| exists|n: nat| settled_with(before, after, ns, slot, for_set, n)
        ||| exhausted(before, after, ns, for_set)
    } else {
        after.slots@ == before.slots@ && name_counters(after, for_set) == name_counters(
            before,
            for_set,
        )
    }
}

/// Whether the counter of the namespace `ns` has numbers left.
pub fn can_draw(counters: &StringMap<usize>, ns: &str) -> (r: bool)
    ensures
        r == (upcoming(counters@, ns@) <= usize::MAX),
{
    match counters.get(ns) {
        Some(last) => *last < usize::MAX,
        None => true,
    }
}

/// Settles the name in `slot` for an element of the namespace `ns`: a
/// policy, or a policy set where `for_set` holds.
pub fn settle_name(ctx: &mut Context, ns: &[String], slot: NameSlot, for_set: bool)
    ensures
        settled(*old(ctx), *final(ctx), path_view(ns@), slot, for_set),
{
    if slot >= ctx.slots.len() || ctx.slots.is_filled(slot) {
        return ;
    }
    let nsd = join_strings(ns, ".");
    let ghost nsv = path_view(ns@);
    let ghost from = upcoming(name_counters(*old(ctx), for_set), nsd@);
    loop
        invariant_except_break
            nsd@ == join(nsv, "."@),
            nsv == path_view(ns@),
            slot < old(ctx).slots@.len(),
            old(ctx).slots@[slot as int] is None,
            from == upcoming(name_counters(*old(ctx), for_set), nsd@),
            *ctx == (Context {
                policy_id_mapping: ctx.policy_id_mapping,
                policyset_id_mapping: ctx.policyset_id_mapping,
                ..*old(ctx)
            }),
            name_counters(*ctx, !for_set) == name_counters(*old(ctx), !for_set),
            from <= upcoming(name_counters(*ctx, for_set), nsd@) <= usize::MAX + 1,
            upcoming(name_counters(*ctx, for_set), nsd@) == from ==> name_counters(*ctx, for_set)
                == name_counters(*old(ctx), for_set),
            upcoming(name_counters(*ctx, for_set), nsd@) > from ==> name_counters(*ctx, for_set)
                == name_counters(*old(ctx), for_set).insert(
                nsd@,
                (upcoming(name_counters(*ctx, for_set), nsd@) - 1) as usize,
            ),
            forall|k: nat|
                from <= k < upcoming(name_counters(*ctx, for_set), nsd@) ==> taken(
                    *old(ctx),
                    #[trigger] generated_name(for_set, k),
                    nsv,
                ),
        ensures
            settled(*old(ctx), *ctx, nsv, slot, for_set),
        decreases usize::MAX + 1 - upcoming(name_counters(*ctx, for_set), nsd@),
    {
        let more = if for_set {
            can_draw(&ctx.policyset_id_mapping, nsd.as_str())
        } else {
            can_draw(&ctx.policy_id_mapping, nsd.as_str())
        };
        if !more {
            proof {
                assert(exhausted(*old(ctx), *ctx, nsv, for_set));
            }
            break ;
        }
        let ghost counters_before = name_counters(*ctx, for_set);
        let n = if for_set {
            ctx.get_next_policyset_id(nsd.as_str())
        } else {
            ctx.get_next_policy_id(nsd.as_str())
        };
        proof {
            assert(name_counters(*ctx, for_set) =~= name_counters(*old(ctx), for_set).insert(
                nsd@,
                n,
            ));
        }
        let proposed = if for_set {
            numbered_name("policyset_", n)
        } else {
            numbered_name("policy_", n)
        };
        assert(proposed@ == generated_name(for_set, n as nat));
        let conflict = ctx.lookup_policy(proposed.as_str(), ns).is_ok() || ctx.lookup_policyset(
            proposed.as_str(),
            ns,
        ).is_ok();
        assert(conflict == taken(*old(ctx), generated_name(for_set, n as nat), nsv));
        if !conflict {
            let ghost name = proposed@;
            let done = ctx.slots.fill(slot, proposed);
            proof {
                assert(settled_with(*old(ctx), *ctx, nsv, slot, for_set, n as nat));
            }
            break ;
        }
    }
}

/// The identifier that is generated for an element: the prefix `base`, the
/// namespace joined by slashes, a slash, and the names of the path joined
/// by slashes.
pub open spec fn generated_uri(
    base: Seq<char>,
    ns: Seq<Seq<char>>,
    path: Seq<NameSlot>,
    slots: Seq<Option<Seq<char>>>,
) -> Seq<char> {
    base + join(ns, "/"@) + "/"@ + join(resolved_parts(path, slots), "/"@)
}

/// The identifier of a policy or policy set: the one that the source gives
/// it, or else the generated one. There is none while a name on the path of
/// the element is not settled.
pub open spec fn policy_uri(
    base: Seq<char>,
    id: PolicyIdView,
    ns: Seq<Seq<char>>,
    path: Seq<NameSlot>,
    slots: Seq<Option<Seq<char>>>,
) -> Option<Seq<char>> {
    if !resolvable(path, slots) {
        None
    } else {
        match id {
            PolicyIdView::PolicyNameAndId(_, i) => Some(i),
            _ => Some(generated_uri(base, ns, path, slots)),
        }
    }
}

/// Whether `r` is the identifier that `expected` names, or, where there is
/// none, a UUID written as a URN.
pub open spec fn is_identifier(r: Seq<char>, expected: Option<Seq<char>>) -> bool {
    match expected {
        Some(u) => r == u,
        None => "urn:uuid:"@.is_prefix_of(r),
    }
}

/// The identifier of a policy or policy set, as `policy_uri` states it.
/// Where a name on the path is not settled, the identifier is a fresh UUID
/// written as a URN.
pub fn element_id(
    config: &Config,
    id: &PolicyId,
    ns: &[String],
    policy_ns: &GenName,
    slots: &NameSlots,
) -> (r: String)
    ensures
        is_identifier(r@, policy_uri(config.base(), id@, path_view(ns@), policy_ns@, slots@)),
{
    match policy_ns.build_path(slots, "/") {
        Some(path) => match id {
            PolicyId::PolicyNameAndId(_, i) => i.clone(),
            _ => {
                let mut pn = config.get_base_namespace();
                pn.append(join_strings(ns, "/").as_str());
                pn.append("/");
                pn.append(path.as_str());
                pn
            },
        },
        None => {
            let mut id_str = "urn:uuid:".to_owned();
            id_str.append(fresh_uuid().as_str());
            id_str
        },
    }
}

impl Policy {
    /// Settles the name of the policy: a policy without a name gets the
    /// first name `policy_<n>` that stands for no registered policy or
    /// policy set, with `n` counted on from the counter of the policy's
    /// namespace. A policy that has its name keeps it.
    ///
    /// This runs before the name, the identifier or the file name of the
    /// policy is read.
    pub fn finalize_id(&self, ctx: &mut Context)
        requires
            self.well_formed(),
        ensures
            settled(*old(ctx), *final(ctx), path_view(self.ns@), self.policy_ns@.last(), false),
    {
        match self.policy_ns.last_elem() {
            Some(slot) => settle_name(ctx, self.ns.as_slice(), slot, false),
            None => {},
        }
    }

    /// The identifier of the policy for XACML: the one that the source
    /// gives it, or else the configured prefix, the namespace and the names
    /// on the policy's path, joined by slashes. Where a name on the path is
    /// not settled, the identifier is a fresh UUID written as a URN.
    pub fn get_id(&self, ctx: &Context) -> (r: String)
        ensures
            is_identifier(
                r@,
                policy_uri(
                    ctx.config.base(),
                    self.id@,
                    path_view(self.ns@),
                    self.policy_ns@,
                    ctx.slots@,
                ),
            ),
    {
        element_id(&ctx.config, &self.id, self.ns.as_slice(), &self.policy_ns, &ctx.slots)
    }
}

impl PolicySet {
    /// Settles the name of the policy set: a policy set without a name gets
    /// the first name `policyset_<n>` that stands for no registered policy
    /// or policy set, with `n` counted on from the counter of the policy
    /// set's namespace. A policy set that has its name keeps it.
    ///
    /// This runs before the name, the identifier or the file name of the
    /// policy set is read.
    pub fn finalize_id(&self, ctx: &mut Context)
        requires
            self.policy_ns@.len() > 0,
        ensures
            settled(*old(ctx), *final(ctx), path_view(self.ns@), self.policy_ns@.last(), true),
    {
        match self.policy_ns.last_elem() {
            Some(slot) => settle_name(ctx, self.ns.as_slice(), slot, true),
            None => {},
        }
    }

    /// The identifier of the policy set for XACML: the one that the source
    /// gives it, or else the configured prefix, the namespace and the names
    /// on the policy set's path, joined by slashes. Where a name on the path
    /// is not settled, the identifier is a fresh UUID written as a URN.
    pub fn get_id(&self, ctx: &Context) -> (r: String)
        ensures
            is_identifier(
                r@,
                policy_uri(
                    ctx.config.base(),
                    self.id@,
                    path_view(self.ns@),
                    self.policy_ns@,
                    ctx.slots@,
                ),
            ),
    {
        element_id(&ctx.config, &self.id, self.ns.as_slice(), &self.policy_ns, &ctx.slots)
    }
}

impl PolicyHandle {
    /// The identifier of the registered element for XACML, put together as
    /// for the element itself.
    pub fn get_id(&self, ctx: &Context) -> (r: String)
        ensures
            is_identifier(
                r@,
                policy_uri(
                    ctx.config.base(),
                    self@.id,
                    self@.ns,
                    self@.policy_ns,
                    ctx.slots@,
                ),
            ),
    {
        element_id(&ctx.config, &self.id, self.ns.as_slice(), &self.policy_ns, &ctx.slots)
    }
}

/// The identifier of a rule: the configured prefix, the namespace joined by
/// slashes, the names of the enclosing policies joined by slashes, and then
/// a slash and the rule's name, or `#rule_` and the number `n` for a rule
/// without a name.
pub open spec fn rule_uri(
    base: Seq<char>,
    id: Option<Seq<char>>,
    ns: Seq<Seq<char>>,
    path: Seq<NameSlot>,
    slots: Seq<Option<Seq<char>>>,
    n: nat,
) -> Seq<char> {
    let policies = join(resolved_parts(path, slots), "/"@);
    let head = base + join(ns, "/"@) + (if policies.len() == 0 {
        Seq::empty()
    } else {
        "/"@ + policies
    });
    match id {
        Some(name) => head + "/"@ + name,
        None => head + "#rule_"@ + decimal(n),
    }
}

/// Whether the identifier of a rule can be put together: every name on the
/// path of the rule is settled, and for a rule without a name the counter
/// of its namespace has numbers left.
pub open spec fn can_name_rule(
    ctx: Context,
    id: Option<Seq<char>>,
    ns: Seq<Seq<char>>,
    path: Seq<NameSlot>,
) -> bool {
    &&& resolvable(path, ctx.slots@)
    &&& id is None ==> upcoming(ctx.rule_id_mapping@, join(ns, "."@)) <= usize::MAX
}

/// Whether `after` is `before` with the next rule number of the namespace
/// `ns` drawn where `drawn` holds, and unchanged where it does not.
pub open spec fn rule_number_drawn(
    before: Context,
    after: Context,
    ns: Seq<Seq<char>>,
    drawn: bool,
) -> bool {
    if drawn {
        &&& after.rule_id_mapping@ == before.rule_id_mapping@.insert(
            join(ns, "."@),
            upcoming(before.rule_id_mapping@, join(ns, "."@)) as usize,
        )
        &&& after == (Context { rule_id_mapping: after.rule_id_mapping, ..before })
    } else {
        after == before
    }
}

/// The identifier of a rule named `id` in the namespace `ns` with the name
/// path `policy_ns`, as `rule_uri` states it. A rule without a name draws
/// the next rule number of its namespace.
pub fn draw_rule_id(ctx: &mut Context, id: &Option<String>, ns: &[String], policy_ns: &GenName) -> (r:
    String)
    requires
        can_name_rule(*old(ctx), opt_view(*id), path_view(ns@), policy_ns@),
    ensures
        r@ == rule_uri(
            old(ctx).config.base(),
            opt_view(*id),
            path_view(ns@),
            policy_ns@,
            old(ctx).slots@,
            upcoming(old(ctx).rule_id_mapping@, join(path_view(ns@), "."@)),
        ),
        rule_number_drawn(*old(ctx), *final(ctx), path_view(ns@), id is None),
{
    let mut pn = ctx.config.get_base_namespace();
    pn.append(join_strings(ns, "/").as_str());
    let ppath = policy_ns.build_path(&ctx.slots, "/");
    match ppath {
        Some(path) => {
            if path.as_str().unicode_len() != 0 {
                pn.append("/");
                pn.append(path.as_str());
            }
        },
        None => {},
    }
    match id {
        Some(n) => {
            pn.append("/");
            pn.append(n.as_str());
        },
        None => {
            let nsd = join_strings(ns, ".");
            let next = ctx.get_next_rule_id(nsd.as_str());
            pn.append("#rule_");
            append_decimal(&mut pn, next);
        },
    }
    proof {
        assert(pn@ =~= rule_uri(
            old(ctx).config.base(),
            opt_view(*id),
            path_view(ns@),
            policy_ns@,
            old(ctx).slots@,
            upcoming(old(ctx).rule_id_mapping@, join(path_view(ns@), "."@)),
        ));
    }
    pn
}

/// Whether the identifier of a rule can be put together, as
/// `can_name_rule` states it.
pub fn rule_can_be_named(ctx: &Context, id: &Option<String>, ns: &[String], policy_ns: &GenName)
    -> (r: bool)
    ensures
        r == can_name_rule(*ctx, opt_view(*id), path_view(ns@), policy_ns@),
{
    if !policy_ns.is_resolvable(&ctx.slots) {
        return false;
    }
    match id {
        Some(_) => true,
        None => {
            let nsd = join_strings(ns, ".");
            can_draw(&ctx.rule_id_mapping, nsd.as_str())
        },
    }
}

impl RuleDef {
    /// The identifier of the rule for XACML, as `rule_uri` states it. A
    /// rule without a name draws the next rule number of its namespace.
    ///
    /// Every name on the path of the rule is settled when this runs.
    pub fn get_id(&self, ctx: &mut Context) -> (r: String)
        requires
            can_name_rule(
                *old(ctx),
                opt_view(self.id),
                path_view(self.ns@),
                self.policy_ns@,
            ),
        ensures
            r@ == rule_uri(
                old(ctx).config.base(),
                opt_view(self.id),
                path_view(self.ns@),
                self.policy_ns@,
                old(ctx).slots@,
                upcoming(old(ctx).rule_id_mapping@, join(path_view(self.ns@), "."@)),
            ),
            rule_number_drawn(*old(ctx), *final(ctx), path_view(self.ns@), self.id is None),
    {
        draw_rule_id(ctx, &self.id, self.ns.as_slice(), &self.policy_ns)
    }
}

/// Two elements without names, settled one after the other in one
/// namespace, get different names.
pub proof fn lemma_generated_names_differ(
    start: Context,
    between: Context,
    end: Context,
    ns: Seq<Seq<char>>,
    first: NameSlot,
    second: NameSlot,
    for_set: bool,
)
    requires
        first != second,
        first < start.slots@.len(),
        second < start.slots@.len(),
        start.slots@[first as int] is None,
        start.slots@[second as int] is None,
        settled(start, between, ns, first, for_set),
        settled(between, end, ns, second, for_set),
        end.slots@[first as int] is Some,
        end.slots@[second as int] is Some,
    ensures
        end.slots@[first as int] != end.slots@[second as int],
{
    assert(between.slots@[second as int] is None);
    assert(!exhausted(between, end, ns, for_set));
    let m = choose|m: nat| settled_with(between, end, ns, second, for_set, m);
    assert(end.slots@[first as int] == between.slots@[first as int]);
    assert(!exhausted(start, between, ns, for_set));
    let n = choose|n: nat| settled_with(start, between, ns, first, for_set, n);
    assert(upcoming(name_counters(between, for_set), join(ns, "."@)) == n + 1);
    assert(n < m);
    if generated_name(for_set, n) == generated_name(for_set, m) {
        lemma_numbered_injective(generated_prefix(for_set), n, m);
    }
}

/// A generated name never stands for a registered policy or policy set:
/// one that is registered under a name of the generated form forces the
/// next element without a name past that name.
pub proof fn lemma_generated_name_is_free(
    before: Context,
    after: Context,
    ns: Seq<Seq<char>>,
    slot: NameSlot,
    for_set: bool,
)
    requires
        slot < before.slots@.len(),
        before.slots@[slot as int] is None,
        settled(before, after, ns, slot, for_set),
        after.slots@[slot as int] is Some,
    ensures
        !taken(before, after.slots@[slot as int]->Some_0, ns),
{
    assert(!exhausted(before, after, ns, for_set));
    let n = choose|n: nat| settled_with(before, after, ns, slot, for_set, n);
}

} // verus!
