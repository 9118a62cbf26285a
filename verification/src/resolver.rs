//! Name resolution: which declaration a symbol stands for.
//!
//! A symbol is looked up from the namespace in which it is written, with the
//! import statements that are in effect there. Six rules are tried in order,
//! and the first rule that finds anything decides.

use crate::ast::import::{imports_view, Import, ImportView};
use crate::ast::QualifiedName;
use crate::errors::{ErrorKind, ParseError, SrcError, SrcLoc, SrcLocView};
use crate::strmap::StringMap;
use crate::text::{
    dotted, dotted_name, join, join_strings, lemma_less_asymmetric, less, opt_view, path_view,
    same_text, text_less,
};
use vstd::prelude::*;
use vstd::string::*;

verus! {

/// The four rules that go through the import statements.
#[derive(Debug, Clone, Copy, PartialEq, Eq, Structural)]
pub enum ImportRule {
    /// An import of one symbol, read relative to the source namespace.
    StaticChild,
    /// An import of one symbol, read from the root.
    StaticQualified,
    /// A wildcard import, read relative to the source namespace.
    WildcardChild,
    /// A wildcard import, read from the root.
    WildcardQualified,
}

/// What a lookup comes to.
pub ghost enum Resolution {
    /// The symbol stands for the declaration of this fully-qualified name.
    Found(Seq<char>),
    /// Import statements lead to more than one declaration.
    Ambiguous,
    /// No rule finds a declaration.
    NotFound,
}

/// The name that a child match tries: the symbol inside the source namespace.
pub open spec fn child_candidate(ns: Seq<Seq<char>>, symbol: Seq<char>) -> Seq<char> {
    dotted(join(ns, "."@), symbol)
}

/// Whether `rule` takes the import statement `imp` into account for `symbol`.
/// An import of one symbol counts where its last component is the symbol; a
/// wildcard import always counts.
pub open spec fn applies(rule: ImportRule, imp: ImportView, symbol: Seq<char>) -> bool {
    match rule {
        ImportRule::StaticChild | ImportRule::StaticQualified => !imp.is_wildcard
            && imp.components.len() > 0 && imp.components.last() == symbol,
        ImportRule::WildcardChild | ImportRule::WildcardQualified => imp.is_wildcard,
    }
}

/// The fully-qualified name that `rule` forms from the import statement `imp`.
pub open spec fn candidate(
    rule: ImportRule,
    imp: ImportView,
    ns: Seq<Seq<char>>,
    symbol: Seq<char>,
) -> Seq<char> {
    match rule {
        ImportRule::StaticChild => dotted(join(ns, "."@), join(imp.components, "."@)),
        ImportRule::StaticQualified => join(imp.components, "."@),
        ImportRule::WildcardChild => dotted(
            dotted(join(ns, "."@), join(imp.components, "."@)),
            symbol,
        ),
        ImportRule::WildcardQualified => dotted(join(imp.components, "."@), symbol),
    }
}

/// Whether `rule` finds a declaration through the import statement `imp`.
pub open spec fn hit(
    rule: ImportRule,
    names: Set<Seq<char>>,
    imp: ImportView,
    ns: Seq<Seq<char>>,
    symbol: Seq<char>,
) -> bool {
    applies(rule, imp, symbol) && names.contains(candidate(rule, imp, ns, symbol))
}

/// Whether `rule` finds two different declarations.
pub open spec fn rule_ambiguous(
    rule: ImportRule,
    names: Set<Seq<char>>,
    imports: Seq<ImportView>,
    ns: Seq<Seq<char>>,
    symbol: Seq<char>,
) -> bool {
    exists|i: int, j: int|
        0 <= i < imports.len() && 0 <= j < imports.len() && #[trigger] hit(
            rule,
            names,
            imports[i],
            ns,
            symbol,
        ) && #[trigger] hit(rule, names, imports[j], ns, symbol) && candidate(
            rule,
            imports[i],
            ns,
            symbol,
        ) != candidate(rule, imports[j], ns, symbol)
}

/// Whether `rule` finds a declaration at all.
pub open spec fn rule_hits(
    rule: ImportRule,
    names: Set<Seq<char>>,
    imports: Seq<ImportView>,
    ns: Seq<Seq<char>>,
    symbol: Seq<char>,
) -> bool {
    exists|i: int| 0 <= i < imports.len() && #[trigger] hit(rule, names, imports[i], ns, symbol)
}

/// What one rule comes to: more than one distinct match is an ambiguity,
/// exactly one is the answer, none leaves the symbol to the next rule.
pub open spec fn rule_outcome(
    rule: ImportRule,
    names: Set<Seq<char>>,
    imports: Seq<ImportView>,
    ns: Seq<Seq<char>>,
    symbol: Seq<char>,
) -> Resolution {
    if rule_ambiguous(rule, names, imports, ns, symbol) {
        Resolution::Ambiguous
    } else if rule_hits(rule, names, imports, ns, symbol) {
        let i = choose|i: int|
            0 <= i < imports.len() && #[trigger] hit(rule, names, imports[i], ns, symbol);
        Resolution::Found(candidate(rule, imports[i], ns, symbol))
    } else {
        Resolution::NotFound
    }
}

/// What the import rules come to, tried in their order.
pub open spec fn resolve_imports(
    names: Set<Seq<char>>,
    imports: Seq<ImportView>,
    ns: Seq<Seq<char>>,
    symbol: Seq<char>,
) -> Resolution {
    let r3 = rule_outcome(ImportRule::StaticChild, names, imports, ns, symbol);
    let r4 = rule_outcome(ImportRule::StaticQualified, names, imports, ns, symbol);
    let r5 = rule_outcome(ImportRule::WildcardChild, names, imports, ns, symbol);
    let r6 = rule_outcome(ImportRule::WildcardQualified, names, imports, ns, symbol);
    if r3 != Resolution::NotFound {
        r3
    } else if r4 != Resolution::NotFound {
        r4
    } else if r5 != Resolution::NotFound {
        r5
    } else {
        r6
    }
}

/// The declaration that `symbol` stands for, written in the namespace `ns`
/// with the import statements `imports` in effect, among the declarations
/// with the fully-qualified names `names`.
#[verifier::opaque]
pub open spec fn resolve(
    names: Set<Seq<char>>,
    symbol: Seq<char>,
    ns: Seq<Seq<char>>,
    imports: Option<Seq<ImportView>>,
) -> Resolution {
    if names.contains(child_candidate(ns, symbol)) {
        Resolution::Found(child_candidate(ns, symbol))
    } else if names.contains(symbol) {
        Resolution::Found(symbol)
    } else {
        match imports {
            Some(imps) => resolve_imports(names, imps, ns, symbol),
            None => Resolution::NotFound,
        }
    }
}

/// The views of an optional list of import statements.
pub open spec fn opt_imports_view(imports: Option<&Vec<Import>>) -> Option<Seq<ImportView>> {
    match imports {
        Some(v) => Some(imports_view(v@)),
        None => None,
    }
}

/// Whether the result `r` of a lookup in `map` is what `res` asks for: the
/// declaration found, or the error of the right kind.
pub open spec fn answers<T>(
    r: Result<&T, ParseError>,
    res: Resolution,
    map: Map<Seq<char>, T>,
    symbol: Seq<char>,
    src_loc: SrcLocView,
) -> bool {
    match res {
        Resolution::Found(name) => r is Ok && map.contains_key(name) && *r->Ok_0 == map[name],
        Resolution::Ambiguous => r matches Err(ParseError::AmbiguousImport(s)) && s@ == symbol,
        Resolution::NotFound => r matches Err(ParseError::SymbolNotFound(e)) && e.src_loc@
            == src_loc,
    }
}

/// The declarations of one kind, under their fully-qualified names.
///
/// A name, once registered, stays registered with its declaration.
pub struct Resolver<T> {
    /// The declarations by fully-qualified name.
    pub elements: StringMap<T>,
}

impl<T> View for Resolver<T> {
    type V = Map<Seq<char>, T>;

    open spec fn view(&self) -> Map<Seq<char>, T> {
        self.elements@
    }
}

impl<T> Resolver<T> {
    /// A resolver without declarations.
    pub fn new() -> (r: Self)
        ensures
            r@ == Map::<Seq<char>, T>::empty(),
    {
        Resolver { elements: StringMap::new() }
    }

    /// The fully-qualified names of all declarations, in no particular order.
    pub fn names(&self) -> (r: Vec<String>)
        ensures
            forall|k: Seq<char>| #[trigger] self@.contains_key(k) <==> path_view(r@).contains(k),
    {
        let mut out: Vec<String> = Vec::new();
        let mut i: usize = 0;
        while i < self.elements.len()
            invariant
                i <= self.elements.key_seq().len(),
                out.len() == i,
                forall|j: int| 0 <= j < i ==> out[j]@ == self.elements.key_seq()[j],
            decreases self.elements.key_seq().len() - i,
        {
            out.push(self.elements.key_at(i).clone());
            i = i + 1;
        }
        proof {
            self.elements.lemma_keys();
            assert(path_view(out@) =~= self.elements.key_seq());
        }
        out
    }

    /// Whether `order` lists every place of the resolver once, by rising
    /// name.
    pub open spec fn sorted_order(&self, order: Seq<usize>) -> bool {
        let keys = self.elements.key_seq();
        &&& order.len() == keys.len()
        &&& forall|i: int| 0 <= i < order.len() ==> (#[trigger] order[i]) < keys.len()
        &&& forall|i: int, j: int| 0 <= i < j < order.len() ==> order[i] != order[j]
        &&& forall|i: int|
            0 <= i && i + 1 < order.len() ==> !less(
                keys[order[i + 1] as int],
                #[trigger] keys[order[i] as int],
            )
    }

    /// Whether `names` are the names of all declarations, each once and
    /// by rising name, and `found` the declarations under these names.
    pub open spec fn lists(&self, names: Seq<Seq<char>>, found: Seq<&T>) -> bool {
        &&& found.len() == names.len()
        &&& forall|i: int|
            0 <= i < names.len() ==> self@.contains_key(#[trigger] names[i]) && self@[names[i]]
                == *found[i]
        &&& forall|i: int, j: int|
            0 <= i < j < names.len() ==> #[trigger] names[i] != #[trigger] names[j]
        &&& forall|i: int| 0 <= i && i + 1 < names.len() ==> less(#[trigger] names[i], names[i + 1])
        &&& forall|k: Seq<char>| #[trigger] self@.contains_key(k) ==> names.contains(k)
    }

    /// Whether every place of the resolver is in `order`.
    pub open spec fn covers(&self, order: Seq<usize>, upto: int) -> bool {
        forall|p: int| 0 <= p < upto ==> order.contains(#[trigger] (p as usize))
    }

    /// The places of the declarations, ordered by their names.
    pub fn order_by_name(&self) -> (r: Vec<usize>)
        ensures
            self.sorted_order(r@),
            self.covers(r@, r@.len() as int),
            self.elements.each_key_once(),
    {
        let n = self.elements.len();
        let ghost keys = self.elements.key_seq();
        let mut order: Vec<usize> = Vec::new();
        let mut k: usize = 0;
        while k < n
            invariant
                k <= n,
                n == keys.len(),
                keys == self.elements.key_seq(),
                order@.len() == k,
                forall|i: int| 0 <= i < order@.len() ==> (#[trigger] order@[i]) < k,
                forall|i: int, j: int| 0 <= i < j < order@.len() ==> order@[i] != order@[j],
                forall|i: int|
                    0 <= i && i + 1 < order@.len() ==> !less(
                        keys[order@[i + 1] as int],
                        #[trigger] keys[order@[i] as int],
                    ),
                self.covers(order@, k as int),
            decreases n - k,
        {
            let name = self.elements.key_at(k);
            let mut pos: usize = 0;
            while pos < order.len() && !text_less(
                name.as_str(),
                self.elements.key_at(order[pos]).as_str(),
            )
                invariant
                    pos <= order@.len(),
                    order@.len() == k,
                    k < n,
                    n == keys.len(),
                    keys == self.elements.key_seq(),
                    name@ == keys[k as int],
                    forall|i: int| 0 <= i < order@.len() ==> (#[trigger] order@[i]) < k,
                    forall|i: int| 0 <= i < pos ==> !less(name@, #[trigger] keys[order@[i] as int]),
                decreases order@.len() - pos,
            {
                pos = pos + 1;
            }
            let ghost before = order@;
            order.insert(pos, k);
            proof {
                let after = order@;
                assert forall|i: int| 0 <= i && i + 1 < after.len() implies !less(
                    keys[after[i + 1] as int],
                    #[trigger] keys[after[i] as int],
                ) by {
                    if i + 1 < pos {
                        assert(after[i] == before[i] && after[i + 1] == before[i + 1]);
                    } else if i + 1 == pos {
                        assert(after[i] == before[i]);
                        assert(!less(name@, keys[before[i] as int]));
                    } else if i == pos {
                        assert(after[i + 1] == before[i]);
                        assert(less(name@, keys[before[pos as int] as int]));
                        lemma_less_asymmetric(name@, keys[before[pos as int] as int], 0);
                    } else {
                        assert(after[i] == before[i - 1] && after[i + 1] == before[i]);
                        assert(!less(keys[before[(i - 1) + 1] as int], keys[before[i - 1] as int]));
                    }
                }
                assert forall|i: int, j: int| 0 <= i < j < after.len() implies after[i]
                    != after[j] by {
                    let bi = if i < pos {
                        i
                    } else {
                        i - 1
                    };
                    let bj = if j < pos {
                        j
                    } else {
                        j - 1
                    };
                    if i != pos && j != pos {
                        assert(after[i] == before[bi] && after[j] == before[bj]);
                    } else if i == pos {
                        assert(after[j] == before[bj]);
                    } else {
                        assert(after[i] == before[bi]);
                    }
                }
                assert forall|i: int| 0 <= i < after.len() implies (#[trigger] after[i]) < k
                    + 1 by {
                    if i < pos {
                        assert(after[i] == before[i]);
                    } else if i > pos {
                        assert(after[i] == before[i - 1]);
                    }
                }
                assert forall|p: int| 0 <= p < k + 1 implies after.contains(
                    #[trigger] (p as usize),
                ) by {
                    if p < k {
                        assert(before.contains(p as usize));
                        let i = choose|i: int| 0 <= i < before.len() && before[i] == p as usize;
                        if i < pos {
                            assert(after[i] == before[i]);
                        } else {
                            assert(after[i + 1] == before[i]);
                        }
                    } else {
                        assert(after[pos as int] == k);
                    }
                }
            }
            k = k + 1;
        }
        order
    }

    /// All declarations, each once, ordered by their fully-qualified names,
    /// which rise from each to the next.
    pub fn elements(&self) -> (r: Vec<&T>)
        ensures
            exists|names: Seq<Seq<char>>| #[trigger] self.lists(names, r@),
            exists|order: Seq<usize>|
                self.sorted_order(order) && r@.len() == order.len() && forall|i: int|
                    0 <= i < r@.len() ==> *(#[trigger] r@[i]) == self.elements.value_seq()[order[i] as int],
    {
        let order = self.order_by_name();
        let ghost keys = self.elements.key_seq();
        let ghost names = Seq::new(order@.len(), |i: int| keys[order@[i] as int]);
        let mut out: Vec<&T> = Vec::new();
        let mut i: usize = 0;
        while i < order.len()
            invariant
                i <= order@.len(),
                self.sorted_order(order@),
                out@.len() == i,
                forall|j: int|
                    0 <= j < i ==> *(#[trigger] out@[j]) == self.elements.value_seq()[order@[j] as int],
            decreases order@.len() - i,
        {
            out.push(self.elements.value_at(order[i]));
            i = i + 1;
        }
        proof {
            self.elements.lemma_keys();
            assert forall|i: int| 0 <= i && i + 1 < names.len() implies less(
                #[trigger] names[i],
                names[i + 1],
            ) by {
                assert(!less(keys[order@[i + 1] as int], keys[order@[i] as int]));
                assert(order@[i] != order@[i + 1]);
                if !less(names[i], names[i + 1]) {
                    crate::text::lemma_less_total(names[i], names[i + 1], 0);
                    if order@[i] < order@[i + 1] {
                        assert(keys[order@[i] as int] != keys[order@[i + 1] as int]);
                    } else {
                        assert(keys[order@[i + 1] as int] != keys[order@[i] as int]);
                    }
                }
            }
            assert forall|i: int, j: int| 0 <= i < j < names.len() implies #[trigger] names[i]
                != #[trigger] names[j] by {
                assert(order@[i] != order@[j]);
                if order@[i] < order@[j] {
                    assert(keys[order@[i] as int] != keys[order@[j] as int]);
                } else {
                    assert(keys[order@[j] as int] != keys[order@[i] as int]);
                }
            }
            assert forall|k: Seq<char>| #[trigger] self@.contains_key(k) implies names.contains(
                k,
            ) by {
                let p = choose|p: int| 0 <= p < keys.len() && keys[p] == k;
                assert(order@.contains(p as usize));
                let i = choose|i: int| 0 <= i < order@.len() && order@[i] == p as usize;
                assert(names[i] == k);
            }
            assert(self.lists(names, out@));
        }
        out
    }

    /// Registers `elem` under the name `name`, or under no name at all.
    ///
    /// A declaration without a name is not registered, and that is no error:
    /// what has no name can not be looked up. A name that is taken is
    /// refused, and the resolver stays as it was.
    pub fn register_as(&mut self, name: Option<String>, elem: T) -> (r: Result<(), ParseError>)
        ensures
            match opt_view(name) {
                None => r is Ok && final(self)@ == old(self)@,
                Some(n) => if old(self)@.contains_key(n) {
                    &&& r matches Err(ParseError::DuplicateSymbol(s))
                    &&& s@ == n
                    &&& final(self)@ == old(self)@
                } else {
                    r is Ok && final(self)@ == old(self)@.insert(n, elem)
                },
            },
            old(self)@.submap_of(final(self)@),
    {
        match name {
            None => Ok(()),
            Some(n) => {
                let shown = n.clone();
                if self.elements.insert_new(n, elem) {
                    Ok(())
                } else {
                    Err(ParseError::DuplicateSymbol(shown))
                }
            },
        }
    }

    /// Whether a declaration is registered under exactly this name.
    pub fn exists_fq(&self, fq_name: &str) -> (r: bool)
        ensures
            r == self@.contains_key(fq_name@),
    {
        self.elements.contains_key(fq_name)
    }

    /// The first rule: the symbol as a child of the source namespace.
    pub fn lookup_source_namespace(&self, symbol: &str, source_ns: &[String]) -> (r: Option<&T>)
        ensures
            match r {
                Some(e) => self@.contains_key(child_candidate(path_view(source_ns@), symbol@))
                    && *e == self@[child_candidate(path_view(source_ns@), symbol@)],
                None => !self@.contains_key(child_candidate(path_view(source_ns@), symbol@)),
            },
    {
        let ns = join_strings(source_ns, ".");
        let name = dotted_name(ns.as_str(), symbol);
        self.elements.get(name.as_str())
    }

    /// The second rule: the symbol taken as a fully-qualified name.
    pub fn lookup_root(&self, symbol: &str) -> (r: Option<&T>)
        ensures
            match r {
                Some(e) => self@.contains_key(symbol@) && *e == self@[symbol@],
                None => !self@.contains_key(symbol@),
            },
    {
        self.elements.get(symbol)
    }

    /// One of the four import rules: goes through the import statements and
    /// collects the declarations that the rule finds.
    pub fn lookup_imports(
        &self,
        rule: ImportRule,
        symbol: &str,
        source_ns: &[String],
        imports: &Vec<Import>,
    ) -> (r: Result<Option<&T>, ParseError>)
        ensures
            match rule_outcome(
                rule,
                self@.dom(),
                imports_view(imports@),
                path_view(source_ns@),
                symbol@,
            ) {
                Resolution::Found(name) => r matches Ok(Some(e)) && self@.contains_key(name) && *e
                    == self@[name],
                Resolution::Ambiguous => r matches Err(ParseError::AmbiguousImport(s)) && s@
                    == symbol@,
                Resolution::NotFound => r matches Ok(None),
            },
    {
        let ghost names = self@.dom();
        let ghost imps = imports_view(imports@);
        let ghost nsv = path_view(source_ns@);
        let mut found: Option<String> = None;
        let mut i: usize = 0;
        while i < imports.len()
            invariant
                i <= imports.len(),
                names == self@.dom(),
                imps == imports_view(imports@),
                nsv == path_view(source_ns@),
                found is None ==> forall|j: int|
                    0 <= j < i ==> !#[trigger] hit(rule, names, imps[j], nsv, symbol@),
                found matches Some(f) ==> {
                    &&& names.contains(f@)
                    &&& exists|j: int|
                        0 <= j < i && #[trigger] hit(rule, names, imps[j], nsv, symbol@)
                            && candidate(rule, imps[j], nsv, symbol@) == f@
                    &&& forall|j: int|
                        0 <= j < i && #[trigger] hit(rule, names, imps[j], nsv, symbol@)
                            ==> candidate(rule, imps[j], nsv, symbol@) == f@
                },
            decreases imports.len() - i,
        {
            let imp = &imports[i];
            assert(imps[i as int] == imp@);
            if import_applies(rule, imp, symbol) {
                let name = candidate_name(rule, imp, source_ns, symbol);
                if self.elements.contains_key(name.as_str()) {
                    assert(hit(rule, names, imps[i as int], nsv, symbol@));
                    match &found {
                        None => {
                            found = Some(name);
                        },
                        Some(f) => {
                            if !same_text(f.as_str(), name.as_str()) {
                                proof {
                                    let j = choose|j: int|
                                        0 <= j < i && #[trigger] hit(
                                            rule,
                                            names,
                                            imps[j],
                                            nsv,
                                            symbol@,
                                        ) && candidate(rule, imps[j], nsv, symbol@) == f@;
                                    assert(hit(rule, names, imps[j], nsv, symbol@));
                                }
                                return Err(ParseError::AmbiguousImport(symbol.to_owned()));
                            }
                        },
                    }
                }
            }
            i = i + 1;
        }
        match found {
            None => Ok(None),
            Some(f) => {
                let e = self.elements.get(f.as_str());
                Ok(e)
            },
        }
    }

    /// The third rule: imports of the symbol, read relative to the source
    /// namespace.
    pub fn lookup_static_import_child(
        &self,
        symbol: &str,
        source_ns: &[String],
        imports: &Vec<Import>,
    ) -> (r: Result<Option<&T>, ParseError>)
        ensures
            match rule_outcome(
                ImportRule::StaticChild,
                self@.dom(),
                imports_view(imports@),
                path_view(source_ns@),
                symbol@,
            ) {
                Resolution::Found(name) => r matches Ok(Some(e)) && self@.contains_key(name) && *e
                    == self@[name],
                Resolution::Ambiguous => r matches Err(ParseError::AmbiguousImport(s)) && s@
                    == symbol@,
                Resolution::NotFound => r matches Ok(None),
            },
    {
        self.lookup_imports(ImportRule::StaticChild, symbol, source_ns, imports)
    }

    /// The fourth rule: imports of the symbol, read from the root.
    pub fn lookup_static_import_qualified(&self, symbol: &str, imports: &Vec<Import>) -> (r:
        Result<Option<&T>, ParseError>)
        ensures
            forall|ns: Seq<Seq<char>>|
                match #[trigger] rule_outcome(
                    ImportRule::StaticQualified,
                    self@.dom(),
                    imports_view(imports@),
                    ns,
                    symbol@,
                ) {
                    Resolution::Found(name) => r matches Ok(Some(e)) && self@.contains_key(name)
                        && *e == self@[name],
                    Resolution::Ambiguous => r matches Err(ParseError::AmbiguousImport(s)) && s@
                        == symbol@,
                    Resolution::NotFound => r matches Ok(None),
                },
    {
        let none: Vec<String> = Vec::new();
        let r = self.lookup_imports(ImportRule::StaticQualified, symbol, none.as_slice(), imports);
        proof {
            assert forall|ns: Seq<Seq<char>>|
                #[trigger] rule_outcome(
                    ImportRule::StaticQualified,
                    self@.dom(),
                    imports_view(imports@),
                    ns,
                    symbol@,
                ) == rule_outcome(
                    ImportRule::StaticQualified,
                    self@.dom(),
                    imports_view(imports@),
                    path_view(none@),
                    symbol@,
                ) by {
                lemma_rule_ignores_namespace(
                    ImportRule::StaticQualified,
                    self@.dom(),
                    imports_view(imports@),
                    ns,
                    path_view(none@),
                    symbol@,
                );
            }
        }
        r
    }

    /// The fifth rule: wildcard imports, read relative to the source
    /// namespace.
    pub fn lookup_wildcard_child(
        &self,
        symbol: &str,
        source_ns: &[String],
        imports: &Vec<Import>,
    ) -> (r: Result<Option<&T>, ParseError>)
        ensures
            match rule_outcome(
                ImportRule::WildcardChild,
                self@.dom(),
                imports_view(imports@),
                path_view(source_ns@),
                symbol@,
            ) {
                Resolution::Found(name) => r matches Ok(Some(e)) && self@.contains_key(name) && *e
                    == self@[name],
                Resolution::Ambiguous => r matches Err(ParseError::AmbiguousImport(s)) && s@
                    == symbol@,
                Resolution::NotFound => r matches Ok(None),
            },
    {
        self.lookup_imports(ImportRule::WildcardChild, symbol, source_ns, imports)
    }

    /// The sixth rule: wildcard imports, read from the root.
    pub fn lookup_wildcard_qualified(&self, symbol: &str, imports: &Vec<Import>) -> (r: Result<
        Option<&T>,
        ParseError,
    >)
        ensures
            forall|ns: Seq<Seq<char>>|
                match #[trigger] rule_outcome(
                    ImportRule::WildcardQualified,
                    self@.dom(),
                    imports_view(imports@),
                    ns,
                    symbol@,
                ) {
                    Resolution::Found(name) => r matches Ok(Some(e)) && self@.contains_key(name)
                        && *e == self@[name],
                    Resolution::Ambiguous => r matches Err(ParseError::AmbiguousImport(s)) && s@
                        == symbol@,
                    Resolution::NotFound => r matches Ok(None),
                },
    {
        let none: Vec<String> = Vec::new();
        let r = self.lookup_imports(
            ImportRule::WildcardQualified,
            symbol,
            none.as_slice(),
            imports,
        );
        proof {
            assert forall|ns: Seq<Seq<char>>|
                #[trigger] rule_outcome(
                    ImportRule::WildcardQualified,
                    self@.dom(),
                    imports_view(imports@),
                    ns,
                    symbol@,
                ) == rule_outcome(
                    ImportRule::WildcardQualified,
                    self@.dom(),
                    imports_view(imports@),
                    path_view(none@),
                    symbol@,
                ) by {
                lemma_rule_ignores_namespace(
                    ImportRule::WildcardQualified,
                    self@.dom(),
                    imports_view(imports@),
                    ns,
                    path_view(none@),
                    symbol@,
                );
            }
        }
        r
    }

    /// Looks up `symbol`, written in the namespace `source_ns` with the
    /// import statements `imports` in effect.
    ///
    /// `symbol` is the name as it stands in the source, dots included;
    /// `src_loc` is where it stands, for the error.
    ///
    /// Six rules are tried in order, and the first that finds anything
    /// decides: the symbol as a child of the source namespace; the symbol as
    /// a fully-qualified name; imports of the symbol, read relative to the
    /// source namespace; the same, read from the root; wildcard imports,
    /// relative; wildcard imports, from the root. Where an import rule finds
    /// more than one declaration the lookup fails with `AmbiguousImport`;
    /// where no rule finds one it fails with `SymbolNotFound`, which points
    /// at `src_loc`.
    pub fn lookup(
        &self,
        symbol: &str,
        source_ns: &[String],
        src_loc: &SrcLoc,
        imports: Option<&Vec<Import>>,
    ) -> (r: Result<&T, ParseError>)
        ensures
            answers(
                r,
                resolve(self@.dom(), symbol@, path_view(source_ns@), opt_imports_view(imports)),
                self@,
                symbol@,
                src_loc@,
            ),
    {
        reveal(resolve);
        if let Some(m) = self.lookup_source_namespace(symbol, source_ns) {
            return Ok(m);
        }
        if let Some(m) = self.lookup_root(symbol) {
            return Ok(m);
        }
        if let Some(imports) = imports {
            if let Some(m) = self.lookup_static_import_child(symbol, source_ns, imports)? {
                return Ok(m);
            }
            if let Some(m) = self.lookup_static_import_qualified(symbol, imports)? {
                return Ok(m);
            }
            if let Some(m) = self.lookup_wildcard_child(symbol, source_ns, imports)? {
                return Ok(m);
            }
            if let Some(m) = self.lookup_wildcard_qualified(symbol, imports)? {
                return Ok(m);
            }
        }
        Err(
            ParseError::SymbolNotFound(
                SrcError::new(
                    "All referenced symbols must be defined",
                    "this symbol could not be resolved",
                    src_loc.clone(),
                ),
            ),
        )
    }
}

/// Whether `after` and `r` are what the registration of `elem` makes of a
/// resolver that holds `before`: a declaration without a name is not
/// registered, one whose name is taken is refused with `DuplicateSymbol`
/// and leaves the resolver as it was, and any other is added under its
/// name.
pub open spec fn declared<T: QualifiedName>(
    before: Map<Seq<char>, T>,
    after: Map<Seq<char>, T>,
    elem: T,
    r: Result<(), ParseError>,
) -> bool {
    match elem.qualified() {
        None => r is Ok && after == before,
        Some(n) => if before.contains_key(n) {
            &&& r matches Err(ParseError::DuplicateSymbol(s))
            &&& s@ == n
            &&& after == before
        } else {
            r is Ok && after == before.insert(n, elem)
        },
    }
}

/// Whether the declarations `items` can be registered in their order in a
/// resolver that holds `m`: no name of theirs is in `m`, and none occurs
/// twice among them.
pub open spec fn registrable<T: QualifiedName>(m: Map<Seq<char>, T>, items: Seq<T>) -> bool {
    forall|i: int|
        0 <= i < items.len() ==> match (#[trigger] items[i]).qualified() {
            Some(n) => !m.contains_key(n) && forall|j: int|
                0 <= j < i ==> (#[trigger] items[j]).qualified() != Some(n),
            None => true,
        }
}

/// Registers the declarations `items` in their order, and stops at the
/// first that is refused: one whose name is taken, by what the resolver
/// held or by a declaration before it.
pub fn register_all<T: QualifiedName>(resolver: &mut Resolver<T>, items: Vec<T>) -> (r: Result<
    (),
    ParseError,
>)
    ensures
        r is Ok <==> registrable(old(resolver)@, items@),
        old(resolver)@.submap_of(final(resolver)@),
        r is Ok ==> forall|i: int|
            0 <= i < items@.len() ==> match (#[trigger] items@[i]).qualified() {
                Some(n) => final(resolver)@.contains_key(n) && final(resolver)@[n] == items@[i]
                    && !old(resolver)@.contains_key(n),
                None => true,
            },
        r is Ok ==> forall|k: Seq<char>| #[trigger]
            final(resolver)@.contains_key(k) ==> old(resolver)@.contains_key(k) || exists|i: int|
                0 <= i < items@.len() && (#[trigger] items@[i]).qualified() == Some(k),
        r is Err ==> r->Err_0.spec_kind() == ErrorKind::DuplicateSymbol,
{
    let mut rest = items;
    let ghost mut done: int = 0;
    while rest.len() > 0
        invariant
            0 <= done <= items@.len(),
            rest@ == items@.subrange(done, items@.len() as int),
            old(resolver)@.submap_of(resolver@),
            forall|i: int|
                0 <= i < done ==> match (#[trigger] items@[i]).qualified() {
                    Some(n) => resolver@.contains_key(n) && resolver@[n] == items@[i]
                        && !old(resolver)@.contains_key(n),
                    None => true,
                },
            forall|k: Seq<char>| #[trigger]
                resolver@.contains_key(k) ==> old(resolver)@.contains_key(k) || exists|i: int|
                    0 <= i < done && (#[trigger] items@[i]).qualified() == Some(k),
            registrable(old(resolver)@, items@.take(done)),
        decreases rest@.len(),
    {
        let ghost before = resolver@;
        let item = rest.remove(0);
        proof {
            assert(item == items@[done]);
            assert(rest@ =~= items@.subrange(done + 1, items@.len() as int));
        }
        match resolver.register(item) {
            Ok(()) => {},
            Err(e) => {
                proof {
                    let n = items@[done].qualified()->Some_0;
                    assert(before.contains_key(n));
                    if registrable(old(resolver)@, items@) {
                        assert(!old(resolver)@.contains_key(n));
                        let i = choose|i: int|
                            0 <= i < done && (#[trigger] items@[i]).qualified() == Some(n);
                        assert(false);
                    }
                }
                return Err(e);
            },
        }
        proof {
            assert forall|i: int| 0 <= i < done + 1 implies match (#[trigger] items@.take(
                done + 1,
            )[i]).qualified() {
                Some(n) => !old(resolver)@.contains_key(n) && forall|j: int|
                    0 <= j < i ==> (#[trigger] items@.take(done + 1)[j]).qualified() != Some(n),
                None => true,
            } by {
                if i < done {
                    assert(items@.take(done + 1)[i] == items@.take(done)[i]);
                    if items@.take(done)[i].qualified() is Some {
                        let n = items@.take(done)[i].qualified()->Some_0;
                        assert forall|j: int| 0 <= j < i implies (#[trigger] items@.take(
                            done + 1,
                        )[j]).qualified() != Some(n) by {
                            assert(items@.take(done + 1)[j] == items@.take(done)[j]);
                        }
                    }
                } else if items@[done].qualified() is Some {
                    let n = items@[done].qualified()->Some_0;
                    assert(!before.contains_key(n));
                    assert forall|j: int| 0 <= j < i implies (#[trigger] items@.take(
                        done + 1,
                    )[j]).qualified() != Some(n) by {
                        assert(items@.take(done + 1)[j] == items@[j]);
                        if items@[j].qualified() == Some(n) {
                            assert(before.contains_key(n));
                        }
                    }
                }
            }
        }
        proof {
            assert forall|k: Seq<char>| #[trigger] resolver@.contains_key(k) implies old(
                resolver,
            )@.contains_key(k) || exists|i: int|
                0 <= i < done + 1 && (#[trigger] items@[i]).qualified() == Some(k) by {
                if !before.contains_key(k) {
                    assert(items@[done].qualified() == Some(k));
                }
            }
            done = done + 1;
        }
    }
    proof {
        assert(items@.take(done) =~= items@);
    }
    Ok(())
}

impl<T: QualifiedName> Resolver<T> {
    /// Registers `elem` under its fully-qualified name.
    ///
    /// A declaration without a name is not registered, and that is no error.
    /// A name that is taken is refused with `DuplicateSymbol`, and the
    /// resolver stays as it was.
    pub fn register(&mut self, elem: T) -> (r: Result<(), ParseError>)
        ensures
            match elem.qualified() {
                None => r is Ok && final(self)@ == old(self)@,
                Some(n) => if old(self)@.contains_key(n) {
                    &&& r matches Err(ParseError::DuplicateSymbol(s))
                    &&& s@ == n
                    &&& final(self)@ == old(self)@
                } else {
                    r is Ok && final(self)@ == old(self)@.insert(n, elem)
                },
            },
            old(self)@.submap_of(final(self)@),
    {
        let name = elem.fully_qualified_name();
        self.register_as(name, elem)
    }
}

/// Lookup is a function of the declarations, the symbol, the namespace and
/// the imports: two lookups with the same of all four give the same
/// declaration, or fail in the same way.
pub proof fn lemma_lookup_deterministic<T>(
    map: Map<Seq<char>, T>,
    symbol: Seq<char>,
    ns: Seq<Seq<char>>,
    imports: Option<Seq<ImportView>>,
    src_loc: SrcLocView,
    first: Result<&T, ParseError>,
    second: Result<&T, ParseError>,
)
    requires
        answers(first, resolve(map.dom(), symbol, ns, imports), map, symbol, src_loc),
        answers(second, resolve(map.dom(), symbol, ns, imports), map, symbol, src_loc),
    ensures
        first is Ok <==> second is Ok,
        first is Ok ==> *first->Ok_0 == *second->Ok_0,
        first is Err ==> first->Err_0.spec_kind() == second->Err_0.spec_kind(),
{
}

/// A symbol that the first or the second rule finds is found in the same
/// way whatever the import statements are: adding imports changes nothing.
pub proof fn lemma_direct_match_ignores_imports(
    names: Set<Seq<char>>,
    symbol: Seq<char>,
    ns: Seq<Seq<char>>,
    imports: Option<Seq<ImportView>>,
    other_imports: Option<Seq<ImportView>>,
)
    requires
        names.contains(child_candidate(ns, symbol)) || names.contains(symbol),
    ensures
        resolve(names, symbol, ns, imports) == resolve(names, symbol, ns, other_imports),
        resolve(names, symbol, ns, imports) is Found,
{
    reveal(resolve);
}

/// A symbol that is declared in the source namespace stands for that
/// declaration, whatever the import statements say: the child match comes
/// before every import rule.
pub proof fn lemma_child_match_first(
    names: Set<Seq<char>>,
    symbol: Seq<char>,
    ns: Seq<Seq<char>>,
    imports: Option<Seq<ImportView>>,
)
    requires
        names.contains(child_candidate(ns, symbol)),
    ensures
        resolve(names, symbol, ns, imports) == Resolution::Found(child_candidate(ns, symbol)),
{
    reveal(resolve);
}

/// Where no earlier rule finds the symbol and two import statements lead
/// the rule `rule` to two different declarations, the lookup is ambiguous.
pub proof fn lemma_two_matches_ambiguous(
    rule: ImportRule,
    names: Set<Seq<char>>,
    symbol: Seq<char>,
    ns: Seq<Seq<char>>,
    imports: Seq<ImportView>,
    i: int,
    j: int,
)
    requires
        !names.contains(child_candidate(ns, symbol)),
        !names.contains(symbol),
        0 <= i < imports.len(),
        0 <= j < imports.len(),
        hit(rule, names, imports[i], ns, symbol),
        hit(rule, names, imports[j], ns, symbol),
        candidate(rule, imports[i], ns, symbol) != candidate(rule, imports[j], ns, symbol),
        earlier_rules_silent(rule, names, imports, ns, symbol),
    ensures
        resolve(names, symbol, ns, Some(imports)) == Resolution::Ambiguous,
{
    reveal(resolve);
    assert(rule_ambiguous(rule, names, imports, ns, symbol));
}

/// Where no earlier rule finds the symbol and every import statement that
/// leads the rule `rule` to a declaration leads it to the same one, the
/// lookup finds that declaration.
pub proof fn lemma_single_match_found(
    rule: ImportRule,
    names: Set<Seq<char>>,
    symbol: Seq<char>,
    ns: Seq<Seq<char>>,
    imports: Seq<ImportView>,
    i: int,
)
    requires
        !names.contains(child_candidate(ns, symbol)),
        !names.contains(symbol),
        0 <= i < imports.len(),
        hit(rule, names, imports[i], ns, symbol),
        forall|j: int|
            0 <= j < imports.len() && #[trigger] hit(rule, names, imports[j], ns, symbol)
                ==> candidate(rule, imports[j], ns, symbol) == candidate(
                rule,
                imports[i],
                ns,
                symbol,
            ),
        earlier_rules_silent(rule, names, imports, ns, symbol),
    ensures
        resolve(names, symbol, ns, Some(imports)) == Resolution::Found(
            candidate(rule, imports[i], ns, symbol),
        ),
{
    reveal(resolve);
    assert(rule_hits(rule, names, imports, ns, symbol));
    let k = choose|k: int|
        0 <= k < imports.len() && #[trigger] hit(rule, names, imports[k], ns, symbol);
    assert(hit(rule, names, imports[k], ns, symbol));
}

/// Whether the import rules that come before `rule` find nothing.
pub open spec fn earlier_rules_silent(
    rule: ImportRule,
    names: Set<Seq<char>>,
    imports: Seq<ImportView>,
    ns: Seq<Seq<char>>,
    symbol: Seq<char>,
) -> bool {
    let r3 = rule_outcome(ImportRule::StaticChild, names, imports, ns, symbol);
    let r4 = rule_outcome(ImportRule::StaticQualified, names, imports, ns, symbol);
    let r5 = rule_outcome(ImportRule::WildcardChild, names, imports, ns, symbol);
    match rule {
        ImportRule::StaticChild => true,
        ImportRule::StaticQualified => r3 == Resolution::NotFound,
        ImportRule::WildcardChild => r3 == Resolution::NotFound && r4 == Resolution::NotFound,
        ImportRule::WildcardQualified => r3 == Resolution::NotFound && r4 == Resolution::NotFound
            && r5 == Resolution::NotFound,
    }
}

/// The rules that read an import from the root do not depend on the source
/// namespace.
pub proof fn lemma_rule_ignores_namespace(
    rule: ImportRule,
    names: Set<Seq<char>>,
    imports: Seq<ImportView>,
    ns1: Seq<Seq<char>>,
    ns2: Seq<Seq<char>>,
    symbol: Seq<char>,
)
    requires
        rule == ImportRule::StaticQualified || rule == ImportRule::WildcardQualified,
    ensures
        rule_outcome(rule, names, imports, ns1, symbol) == rule_outcome(
            rule,
            names,
            imports,
            ns2,
            symbol,
        ),
{
    lemma_rule_one_way(rule, names, imports, ns1, ns2, symbol);
    lemma_rule_one_way(rule, names, imports, ns2, ns1, symbol);
    if rule_hits(rule, names, imports, ns1, symbol) && !rule_ambiguous(
        rule,
        names,
        imports,
        ns1,
        symbol,
    ) {
        let i1 = choose|i: int|
            0 <= i < imports.len() && #[trigger] hit(rule, names, imports[i], ns1, symbol);
        let i2 = choose|i: int|
            0 <= i < imports.len() && #[trigger] hit(rule, names, imports[i], ns2, symbol);
        assert(hit(rule, names, imports[i1], ns1, symbol));
        assert(hit(rule, names, imports[i2], ns1, symbol));
    }
}

proof fn lemma_rule_one_way(
    rule: ImportRule,
    names: Set<Seq<char>>,
    imports: Seq<ImportView>,
    ns1: Seq<Seq<char>>,
    ns2: Seq<Seq<char>>,
    symbol: Seq<char>,
)
    requires
        rule == ImportRule::StaticQualified || rule == ImportRule::WildcardQualified,
    ensures
        rule_hits(rule, names, imports, ns1, symbol) ==> rule_hits(
            rule,
            names,
            imports,
            ns2,
            symbol,
        ),
        rule_ambiguous(rule, names, imports, ns1, symbol) ==> rule_ambiguous(
            rule,
            names,
            imports,
            ns2,
            symbol,
        ),
{
    if rule_hits(rule, names, imports, ns1, symbol) {
        let i = choose|i: int|
            0 <= i < imports.len() && #[trigger] hit(rule, names, imports[i], ns1, symbol);
        assert(hit(rule, names, imports[i], ns2, symbol));
    }
    if rule_ambiguous(rule, names, imports, ns1, symbol) {
        let (i, j) = choose|i: int, j: int|
            0 <= i < imports.len() && 0 <= j < imports.len() && #[trigger] hit(
                rule,
                names,
                imports[i],
                ns1,
                symbol,
            ) && #[trigger] hit(rule, names, imports[j], ns1, symbol) && candidate(
                rule,
                imports[i],
                ns1,
                symbol,
            ) != candidate(rule, imports[j], ns1, symbol);
        assert(hit(rule, names, imports[i], ns2, symbol));
        assert(hit(rule, names, imports[j], ns2, symbol));
    }
}

/// Whether `rule` takes the import statement into account for `symbol`.
pub fn import_applies(rule: ImportRule, imp: &Import, symbol: &str) -> (r: bool)
    ensures
        r == applies(rule, imp@, symbol@),
{
    match rule {
        ImportRule::StaticChild | ImportRule::StaticQualified => {
            if imp.is_wildcard || imp.components.len() == 0 {
                false
            } else {
                let last = &imp.components[imp.components.len() - 1];
                assert(imp@.components.last() == last@);
                same_text(last.as_str(), symbol)
            }
        },
        ImportRule::WildcardChild | ImportRule::WildcardQualified => imp.is_wildcard,
    }
}

/// The fully-qualified name that `rule` forms from the import statement for
/// a symbol written in the namespace `source_ns`.
pub fn candidate_name(rule: ImportRule, imp: &Import, source_ns: &[String], symbol: &str) -> (r:
    String)
    ensures
        r@ == candidate(rule, imp@, path_view(source_ns@), symbol@),
{
    let path = join_strings(imp.components.as_slice(), ".");
    match rule {
        ImportRule::StaticChild => {
            let ns = join_strings(source_ns, ".");
            dotted_name(ns.as_str(), path.as_str())
        },
        ImportRule::StaticQualified => path,
        ImportRule::WildcardChild => {
            let ns = join_strings(source_ns, ".");
            let inner = dotted_name(ns.as_str(), path.as_str());
            dotted_name(inner.as_str(), symbol)
        },
        ImportRule::WildcardQualified => dotted_name(path.as_str(), symbol),
    }
}

} // verus!
