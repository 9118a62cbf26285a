//! Parsing expressions, and how a text is parsed by them.
//!
//! A grammar gives each rule a parsing expression and a kind. An
//! expression takes a part of the text from a position on, or fails; where
//! one alternative fails the next is tried from the same position. Each
//! rule that takes a part of the text leaves a node in the parse tree,
//! with the nodes of the rules that it called below it.
//!
//! Blanks, which are white space and comments, may stand wherever two
//! expressions follow each other in a rule of the normal kind; a comment
//! leaves a node. An atomic rule takes no blanks and its inner rules leave
//! no nodes; a compound rule takes no blanks but keeps the inner nodes. A
//! silent rule leaves no node of its own.

use crate::grammar::{body, kind, rule_body, rule_kind, Rule};
use vstd::prelude::*;

verus! {

/// A parsing expression.
#[derive(Debug)]
pub enum Peg {
    /// The given text.
    Text(&'static str),
    /// The given text as a word: no letter, digit or underscore follows it.
    Word(&'static str),
    /// One character from the first to the second, both included.
    Range(char, char),
    /// One character out of the given ones.
    Among(&'static str),
    /// Any one character.
    Any,
    /// The end of the text.
    End,
    /// The first expression and then the second, with blanks between them
    /// where the rule is of the normal kind.
    Then(Box<Peg>, Box<Peg>),
    /// The first expression or, where it fails, the second.
    Or(Box<Peg>, Box<Peg>),
    /// The expression as often as it can be taken, which may be never.
    Many(Box<Peg>),
    /// The expression once or more often.
    More(Box<Peg>),
    /// The expression, or nothing where it fails.
    Maybe(Box<Peg>),
    /// Nothing, where the expression fails; a failure where it does not.
    Not(Box<Peg>),
    /// The expression of a rule.
    Call(Rule),
}

/// The kinds of rules.
#[derive(Debug, Clone, Copy, PartialEq, Eq, Structural)]
pub enum Kind {
    /// A rule that takes blanks between its parts.
    Normal,
    /// A rule that leaves no node of its own.
    Silent,
    /// A rule that takes no blanks and keeps no inner nodes.
    Atomic,
    /// A rule that takes no blanks and keeps the inner nodes.
    Compound,
}

/// How the expression at hand is parsed: as the innermost rule around it
/// that is atomic or compound asks, and normally where there is none.
#[derive(Debug, Clone, Copy, PartialEq, Eq, Structural)]
pub enum Mode {
    Normal,
    Atomic,
    Compound,
}

/// A node of the parse tree: the rule, the part of the text that it took,
/// from `start` up to `end` in characters, and the nodes of the rules
/// that it called.
#[derive(Debug, PartialEq, Eq)]
pub struct Node {
    pub rule: Rule,
    pub start: usize,
    pub end: usize,
    pub children: Vec<Node>,
}

/// What a node holds.
pub ghost struct NodeView {
    pub rule: Rule,
    pub start: int,
    pub end: int,
    pub children: Seq<NodeView>,
}

/// What the node `n` holds.
pub open spec fn node_view(n: Node) -> NodeView
    decreases n,
{
    NodeView {
        rule: n.rule,
        start: n.start as int,
        end: n.end as int,
        children: Seq::new(
            n.children@.len(),
            |i: int|
                if 0 <= i < n.children@.len() {
                    node_view(n.children@[i])
                } else {
                    NodeView { rule: n.rule, start: 0, end: 0, children: Seq::empty() }
                },
        ),
    }
}

impl View for Node {
    type V = NodeView;

    open spec fn view(&self) -> NodeView {
        node_view(*self)
    }
}

/// What each of the nodes `v` holds.
pub open spec fn nodes_view(v: Seq<Node>) -> Seq<NodeView> {
    Seq::new(v.len(), |i: int| v[i]@)
}

/// The view of a node is made of the views of its parts.
pub proof fn lemma_node_view(n: Node)
    ensures
        n@.rule == n.rule,
        n@.start == n.start,
        n@.end == n.end,
        n@.children == nodes_view(n.children@),
{
    assert(node_view(n).children =~= nodes_view(n.children@));
}

/// A character that a name is made of: a letter, a digit or an underscore.
pub open spec fn is_name_char(c: char) -> bool {
    ('a' <= c && c <= 'z') || ('A' <= c && c <= 'Z') || ('0' <= c && c <= '9') || c == '_'
}

fn name_char(c: char) -> (r: bool)
    ensures
        r == is_name_char(c),
{
    ('a' <= c && c <= 'z') || ('A' <= c && c <= 'Z') || ('0' <= c && c <= '9') || c == '_'
}

/// The characters of a string.
pub fn to_chars(s: &str) -> (v: Vec<char>)
    ensures
        v@ == s@,
{
    let mut v: Vec<char> = Vec::new();
    for c in it: s.chars()
        invariant
            v@ == it.seq().take(it.index() as int),
            it.seq() == s@,
    {
        v.push(c);
    }
    v
}

fn one_of(c: char, among: &str) -> (r: bool)
    ensures
        r == among@.contains(c),
{
    let w = to_chars(among);
    let mut i: usize = 0;
    while i < w.len()
        invariant
            i <= w.len(),
            w@ == among@,
            forall|j: int| 0 <= j < i ==> w@[j] != c,
        decreases w.len() - i,
    {
        if w[i] == c {
            return true;
        }
        i = i + 1;
    }
    false
}

/// Whether `w` stands in `s` at `pos`.
pub open spec fn text_at(s: Seq<char>, pos: int, w: Seq<char>) -> bool {
    0 <= pos && pos + w.len() <= s.len() && s.subrange(pos, pos + w.len()) == w
}

/// The mode in which the expression of a rule of the kind `k` is parsed
/// that is called in the mode `mode`.
pub open spec fn inner_mode(k: Kind, mode: Mode) -> Mode {
    if mode == Mode::Atomic {
        Mode::Atomic
    } else {
        match k {
            Kind::Atomic => Mode::Atomic,
            Kind::Compound => Mode::Compound,
            _ => mode,
        }
    }
}

/// The nodes that a call of the rule `r` leaves in the mode `mode`, where
/// its expression took the text from `start` to `end` and left `inner`:
/// nothing in the atomic mode, the inner nodes for a silent rule, and
/// else a node of the rule above the inner nodes.
pub open spec fn left_by(r: Rule, mode: Mode, start: int, end: int, inner: Seq<NodeView>) -> Seq<
    NodeView,
> {
    if mode == Mode::Atomic {
        Seq::empty()
    } else if kind(r) == Kind::Silent {
        inner
    } else {
        seq![NodeView { rule: r, start, end, children: inner }]
    }
}

/// The expression of blanks: white space or a comment.
pub open spec fn blank() -> Peg {
    Peg::Or(Box::new(Peg::Call(Rule::WHITESPACE)), Box::new(Peg::Call(Rule::COMMENT)))
}

/// Where the blanks end that start at `pos`, and the nodes of the
/// comments among them.
pub open spec fn blanks(s: Seq<char>, pos: int, fuel: nat) -> (int, Seq<NodeView>)
    decreases fuel, Peg::Any, 1 + s.len() - pos,
{
    if fuel == 0 || pos < 0 || pos > s.len() {
        (pos, Seq::empty())
    } else {
        match parsed(blank(), s, pos, Mode::Compound, (fuel - 1) as nat) {
            None => (pos, Seq::empty()),
            Some((p, n)) => if p <= pos || p > s.len() {
                (pos, Seq::empty())
            } else {
                let (q, m) = blanks(s, p, fuel);
                (q, n + m)
            },
        }
    }
}

/// What `a` takes from `pos` on when it is taken again and again, each
/// time behind the blanks that may stand there in the normal mode, until it fails or takes
/// nothing: where that ends, and the nodes that are left.
pub open spec fn repeated(a: Peg, s: Seq<char>, pos: int, mode: Mode, fuel: nat) -> (
    int,
    Seq<NodeView>,
)
    decreases fuel, a, 1 + s.len() - pos,
{
    if pos < 0 || pos > s.len() {
        (pos, Seq::empty())
    } else {
        let (next_start, n2) = if mode == Mode::Normal && fuel > 0 {
            blanks(s, pos, (fuel - 1) as nat)
        } else {
            (pos, Seq::empty())
        };
        match parsed(a, s, next_start, mode, fuel) {
            None => (pos, Seq::empty()),
            Some((next_end, n3)) => if next_end <= pos || next_end > s.len() {
                (pos, Seq::empty())
            } else {
                let (last_end, n4) = repeated(a, s, next_end, mode, fuel);
                (last_end, n2 + n3 + n4)
            },
        }
    }
}

/// What the expression `e` takes of `s` at the position `pos` in the mode
/// `mode`: where the text that it takes ends, and the nodes that it
/// leaves; `None` where it fails.
///
/// A rule may call rules to the depth `fuel`; a call beyond that fails.
pub open spec fn parsed(e: Peg, s: Seq<char>, pos: int, mode: Mode, fuel: nat) -> Option<
    (int, Seq<NodeView>),
>
    decreases fuel, e, 0nat,
{
    if pos < 0 || pos > s.len() {
        None
    } else {
        match e {
            Peg::Text(w) => if text_at(s, pos, w@) {
                Some((pos + w@.len(), Seq::empty()))
            } else {
                None
            },
            Peg::Word(w) => if text_at(s, pos, w@) && !(pos + w@.len() < s.len() && is_name_char(
                s[pos + w@.len()],
            )) {
                Some((pos + w@.len(), Seq::empty()))
            } else {
                None
            },
            Peg::Range(a, b) => if pos < s.len() && a <= s[pos] && s[pos] <= b {
                Some((pos + 1, Seq::empty()))
            } else {
                None
            },
            Peg::Among(w) => if pos < s.len() && w@.contains(s[pos]) {
                Some((pos + 1, Seq::empty()))
            } else {
                None
            },
            Peg::Any => if pos < s.len() {
                Some((pos + 1, Seq::empty()))
            } else {
                None
            },
            Peg::End => if pos == s.len() {
                Some((pos, Seq::empty()))
            } else {
                None
            },
            Peg::Then(a, b) => match parsed(*a, s, pos, mode, fuel) {
                None => None,
                Some((first_end, n1)) => {
                    let (next_start, n2) = if mode == Mode::Normal && fuel > 0 {
                        blanks(s, first_end, (fuel - 1) as nat)
                    } else {
                        (first_end, Seq::empty())
                    };
                    match parsed(*b, s, next_start, mode, fuel) {
                        None => None,
                        Some((next_end, n3)) => Some((next_end, n1 + n2 + n3)),
                    }
                },
            },
            Peg::Or(a, b) => match parsed(*a, s, pos, mode, fuel) {
                Some(r) => Some(r),
                None => parsed(*b, s, pos, mode, fuel),
            },
            Peg::Many(a) => match parsed(*a, s, pos, mode, fuel) {
                None => Some((pos, Seq::empty())),
                Some((first_end, n1)) => if first_end <= pos || first_end > s.len() {
                    Some((pos, Seq::empty()))
                } else {
                    let (next_start, n2) = repeated(*a, s, first_end, mode, fuel);
                    Some((next_start, n1 + n2))
                },
            },
            Peg::More(a) => match parsed(*a, s, pos, mode, fuel) {
                None => None,
                Some((first_end, n1)) => if first_end <= pos || first_end > s.len() {
                    Some((first_end, n1))
                } else {
                    let (next_start, n2) = repeated(*a, s, first_end, mode, fuel);
                    Some((next_start, n1 + n2))
                },
            },
            Peg::Maybe(a) => match parsed(*a, s, pos, mode, fuel) {
                Some(r) => Some(r),
                None => Some((pos, Seq::empty())),
            },
            Peg::Not(a) => match parsed(*a, s, pos, mode, fuel) {
                Some(_) => None,
                None => Some((pos, Seq::empty())),
            },
            Peg::Call(r) => if fuel == 0 {
                None
            } else {
                match parsed(body(r), s, pos, inner_mode(kind(r), mode), (fuel - 1) as nat) {
                    None => None,
                    Some((p, inner)) => Some((p, left_by(r, mode, pos, p, inner))),
                }
            },
        }
    }
}

/// Whether `r` is what the parse `p` asks for: the same end, and nodes
/// that hold the same.
pub open spec fn same_parse(r: Option<(usize, Vec<Node>)>, p: Option<(int, Seq<NodeView>)>) -> bool {
    match p {
        None => r is None,
        Some((end, nodes)) => r matches Some((e, v)) && e == end && nodes_view(v@) == nodes,
    }
}

fn text_here(s: &Vec<char>, pos: usize, word: &str) -> (r: Option<usize>)
    requires
        pos <= s@.len(),
    ensures
        match r {
            Some(e) => text_at(s@, pos as int, word@) && e == pos + word@.len(),
            None => !text_at(s@, pos as int, word@),
        },
{
    let w = to_chars(word);
    if w.len() > s.len() - pos {
        return None;
    }
    let mut i: usize = 0;
    while i < w.len()
        invariant
            i <= w.len(),
            pos + w.len() <= s.len(),
            w@ == word@,
            forall|j: int| 0 <= j < i ==> s@[pos + j] == w@[j],
        decreases w.len() - i,
    {
        if s[pos + i] != w[i] {
            proof {
                let sub = s@.subrange(pos as int, pos + w@.len());
                assert(sub[i as int] == s@[pos + i]);
            }
            return None;
        }
        i = i + 1;
    }
    proof {
        assert(s@.subrange(pos as int, pos + w@.len()) =~= w@);
    }
    Some(pos + w.len())
}

fn no_nodes() -> (r: Vec<Node>)
    ensures
        nodes_view(r@) == Seq::<NodeView>::empty(),
{
    let r: Vec<Node> = Vec::new();
    proof {
        assert(nodes_view(r@) =~= Seq::empty());
    }
    r
}

fn join_nodes(a: Vec<Node>, b: Vec<Node>) -> (r: Vec<Node>)
    ensures
        nodes_view(r@) == nodes_view(a@) + nodes_view(b@),
{
    let mut r = a;
    let mut rest = b;
    r.append(&mut rest);
    proof {
        assert(nodes_view(r@) =~= nodes_view(a@) + nodes_view(b@));
    }
    r
}

/// The blanks at `pos`, as `blanks` states them.
pub fn skip_blanks(s: &Vec<char>, pos: usize, fuel: usize) -> (r: (usize, Vec<Node>))
    requires
        pos <= s@.len(),
    ensures
        pos <= r.0 <= s@.len(),
        blanks(s@, pos as int, fuel as nat) == (r.0 as int, nodes_view(r.1@)),
    decreases fuel, Peg::Any, 1 + s@.len(),
{
    let mut nodes = no_nodes();
    let mut at: usize = pos;
    if fuel == 0 {
        return (pos, nodes);
    }
    let blank = Peg::Or(Box::new(Peg::Call(Rule::WHITESPACE)), Box::new(Peg::Call(Rule::COMMENT)));
    loop
        invariant_except_break
            pos <= at <= s@.len(),
            fuel > 0,
            blank == self::blank(),
            blanks(s@, pos as int, fuel as nat) == (
                blanks(s@, at as int, fuel as nat).0,
                nodes_view(nodes@) + blanks(s@, at as int, fuel as nat).1,
            ),
        ensures
            pos <= at <= s@.len(),
            blanks(s@, pos as int, fuel as nat) == (at as int, nodes_view(nodes@)),
        decreases s@.len() - at,
    {
        match parse_expr(&blank, s, at, Mode::Compound, fuel - 1) {
            None => {
                proof {
                    assert(nodes_view(nodes@) + Seq::<NodeView>::empty() =~= nodes_view(nodes@));
                }
                break ;
            },
            Some((p, n)) => {
                if p <= at {
                    proof {
                        assert(nodes_view(nodes@) + Seq::<NodeView>::empty() =~= nodes_view(
                            nodes@,
                        ));
                    }
                    break ;
                }
                let ghost before = nodes_view(nodes@);
                let ghost rest = blanks(s@, p as int, fuel as nat);
                nodes = join_nodes(nodes, n);
                proof {
                    assert(before + (nodes_view(n@) + rest.1) =~= nodes_view(nodes@) + rest.1);
                }
                at = p;
            },
        }
    }
    (at, nodes)
}

fn parse_repeated(a: &Peg, s: &Vec<char>, pos: usize, mode: Mode, fuel: usize) -> (r: (
    usize,
    Vec<Node>,
))
    requires
        pos <= s@.len(),
    ensures
        pos <= r.0 <= s@.len(),
        repeated(*a, s@, pos as int, mode, fuel as nat) == (r.0 as int, nodes_view(r.1@)),
    decreases fuel, a, 1 + s@.len(),
{
    let mut nodes = no_nodes();
    let mut at: usize = pos;
    loop
        invariant_except_break
            pos <= at <= s@.len(),
            repeated(*a, s@, pos as int, mode, fuel as nat) == (
                repeated(*a, s@, at as int, mode, fuel as nat).0,
                nodes_view(nodes@) + repeated(*a, s@, at as int, mode, fuel as nat).1,
            ),
        ensures
            pos <= at <= s@.len(),
            repeated(*a, s@, pos as int, mode, fuel as nat) == (at as int, nodes_view(nodes@)),
        decreases s@.len() - at,
    {
        let (next_start, n2) = match mode {
            Mode::Normal => if fuel > 0 {
                skip_blanks(s, at, fuel - 1)
            } else {
                (at, no_nodes())
            },
            _ => (at, no_nodes()),
        };
        match parse_expr(a, s, next_start, mode, fuel) {
            None => {
                proof {
                    assert(nodes_view(nodes@) + Seq::<NodeView>::empty() =~= nodes_view(nodes@));
                }
                break ;
            },
            Some((next_end, n3)) => {
                if next_end <= at {
                    proof {
                        assert(nodes_view(nodes@) + Seq::<NodeView>::empty() =~= nodes_view(
                            nodes@,
                        ));
                    }
                    break ;
                }
                let ghost before = nodes_view(nodes@);
                let ghost rest = repeated(*a, s@, next_end as int, mode, fuel as nat);
                nodes = join_nodes(join_nodes(nodes, n2), n3);
                proof {
                    assert(before + (nodes_view(n2@) + nodes_view(n3@) + rest.1) =~= nodes_view(
                        nodes@,
                    ) + rest.1);
                }
                at = next_end;
            },
        }
    }
    (at, nodes)
}

fn mode_within(k: Kind, mode: Mode) -> (r: Mode)
    ensures
        r == inner_mode(k, mode),
{
    match mode {
        Mode::Atomic => Mode::Atomic,
        _ => match k {
            Kind::Atomic => Mode::Atomic,
            Kind::Compound => Mode::Compound,
            _ => mode,
        },
    }
}

fn leave(r: Rule, mode: Mode, start: usize, end: usize, inner: Vec<Node>) -> (out: Vec<Node>)
    ensures
        nodes_view(out@) == left_by(r, mode, start as int, end as int, nodes_view(inner@)),
{
    match mode {
        Mode::Atomic => no_nodes(),
        _ => match rule_kind(r) {
            Kind::Silent => inner,
            _ => {
                let node = Node { rule: r, start, end, children: inner };
                let mut out: Vec<Node> = Vec::new();
                out.push(node);
                proof {
                    lemma_node_view(node);
                    assert(nodes_view(out@) =~= seq![node@]);
                }
                out
            },
        },
    }
}

/// Parses `e` at the position `pos` of `s`, as `parsed` states it.
pub fn parse_expr(e: &Peg, s: &Vec<char>, pos: usize, mode: Mode, fuel: usize) -> (r: Option<
    (usize, Vec<Node>),
>)
    requires
        pos <= s@.len(),
    ensures
        same_parse(r, parsed(*e, s@, pos as int, mode, fuel as nat)),
        r matches Some((end, _)) ==> pos <= end <= s@.len(),
    decreases fuel, e, 0nat,
{
    match e {
        Peg::Text(w) => match text_here(s, pos, w) {
            Some(end) => Some((end, no_nodes())),
            None => None,
        },
        Peg::Word(w) => match text_here(s, pos, w) {
            Some(end) => {
                if end < s.len() && name_char(s[end]) {
                    None
                } else {
                    Some((end, no_nodes()))
                }
            },
            None => None,
        },
        Peg::Range(a, b) => {
            if pos < s.len() && *a <= s[pos] && s[pos] <= *b {
                Some((pos + 1, no_nodes()))
            } else {
                None
            }
        },
        Peg::Among(w) => {
            if pos < s.len() && one_of(s[pos], w) {
                Some((pos + 1, no_nodes()))
            } else {
                None
            }
        },
        Peg::Any => {
            if pos < s.len() {
                Some((pos + 1, no_nodes()))
            } else {
                None
            }
        },
        Peg::End => {
            if pos == s.len() {
                Some((pos, no_nodes()))
            } else {
                None
            }
        },
        Peg::Then(a, b) => match parse_expr(a, s, pos, mode, fuel) {
            None => None,
            Some((first_end, n1)) => {
                let (next_start, n2) = match mode {
                    Mode::Normal => if fuel > 0 {
                        skip_blanks(s, first_end, fuel - 1)
                    } else {
                        (first_end, no_nodes())
                    },
                    _ => (first_end, no_nodes()),
                };
                match parse_expr(b, s, next_start, mode, fuel) {
                    None => None,
                    Some((next_end, n3)) => Some((next_end, join_nodes(join_nodes(n1, n2), n3))),
                }
            },
        },
        Peg::Or(a, b) => match parse_expr(a, s, pos, mode, fuel) {
            Some(r) => Some(r),
            None => parse_expr(b, s, pos, mode, fuel),
        },
        Peg::Many(a) => match parse_expr(a, s, pos, mode, fuel) {
            None => Some((pos, no_nodes())),
            Some((first_end, n1)) => {
                if first_end <= pos {
                    Some((pos, no_nodes()))
                } else {
                    let (next_start, n2) = parse_repeated(a, s, first_end, mode, fuel);
                    Some((next_start, join_nodes(n1, n2)))
                }
            },
        },
        Peg::More(a) => match parse_expr(a, s, pos, mode, fuel) {
            None => None,
            Some((first_end, n1)) => {
                if first_end <= pos {
                    Some((first_end, n1))
                } else {
                    let (next_start, n2) = parse_repeated(a, s, first_end, mode, fuel);
                    Some((next_start, join_nodes(n1, n2)))
                }
            },
        },
        Peg::Maybe(a) => match parse_expr(a, s, pos, mode, fuel) {
            Some(r) => Some(r),
            None => Some((pos, no_nodes())),
        },
        Peg::Not(a) => match parse_expr(a, s, pos, mode, fuel) {
            Some(_) => None,
            None => Some((pos, no_nodes())),
        },
        Peg::Call(r) => {
            if fuel == 0 {
                None
            } else {
                let expression = rule_body(*r);
                match parse_expr(&expression, s, pos, mode_within(rule_kind(*r), mode), fuel - 1) {
                    None => None,
                    Some((p, inner)) => Some((p, leave(*r, mode, pos, p, inner))),
                }
            }
        },
    }
}

/// The text `w`.
pub open spec fn spec_text(w: &'static str) -> Peg {
    Peg::Text(w)
}

/// The text `w`.
#[verifier::when_used_as_spec(spec_text)]
pub fn text(w: &'static str) -> (r: Peg)
    ensures
        r == spec_text(w),
{
    Peg::Text(w)
}

/// The word `w`.
pub open spec fn spec_word(w: &'static str) -> Peg {
    Peg::Word(w)
}

/// The word `w`.
#[verifier::when_used_as_spec(spec_word)]
pub fn word(w: &'static str) -> (r: Peg)
    ensures
        r == spec_word(w),
{
    Peg::Word(w)
}

/// One character out of `w`.
pub open spec fn spec_among(w: &'static str) -> Peg {
    Peg::Among(w)
}

/// One character out of `w`.
#[verifier::when_used_as_spec(spec_among)]
pub fn among(w: &'static str) -> (r: Peg)
    ensures
        r == spec_among(w),
{
    Peg::Among(w)
}

/// One character from `a` to `b`.
pub open spec fn spec_range(a: char, b: char) -> Peg {
    Peg::Range(a, b)
}

/// One character from `a` to `b`.
#[verifier::when_used_as_spec(spec_range)]
pub fn range(a: char, b: char) -> (r: Peg)
    ensures
        r == spec_range(a, b),
{
    Peg::Range(a, b)
}

/// Any one character.
pub open spec fn spec_any() -> Peg {
    Peg::Any
}

/// Any one character.
#[verifier::when_used_as_spec(spec_any)]
pub fn any() -> (r: Peg)
    ensures
        r == spec_any(),
{
    Peg::Any
}

/// The end of the text.
pub open spec fn spec_end() -> Peg {
    Peg::End
}

/// The end of the text.
#[verifier::when_used_as_spec(spec_end)]
pub fn end() -> (r: Peg)
    ensures
        r == spec_end(),
{
    Peg::End
}

/// `a` as often as it can be taken.
pub open spec fn spec_many(a: Peg) -> Peg {
    Peg::Many(Box::new(a))
}

/// `a` as often as it can be taken.
#[verifier::when_used_as_spec(spec_many)]
pub fn many(a: Peg) -> (r: Peg)
    ensures
        r == spec_many(a),
{
    Peg::Many(Box::new(a))
}

/// `a` once or more often.
pub open spec fn spec_more(a: Peg) -> Peg {
    Peg::More(Box::new(a))
}

/// `a` once or more often.
#[verifier::when_used_as_spec(spec_more)]
pub fn more(a: Peg) -> (r: Peg)
    ensures
        r == spec_more(a),
{
    Peg::More(Box::new(a))
}

/// `a`, or nothing.
pub open spec fn spec_maybe(a: Peg) -> Peg {
    Peg::Maybe(Box::new(a))
}

/// `a`, or nothing.
#[verifier::when_used_as_spec(spec_maybe)]
pub fn maybe(a: Peg) -> (r: Peg)
    ensures
        r == spec_maybe(a),
{
    Peg::Maybe(Box::new(a))
}

/// Nothing, where `a` fails.
pub open spec fn spec_not(a: Peg) -> Peg {
    Peg::Not(Box::new(a))
}

/// Nothing, where `a` fails.
#[verifier::when_used_as_spec(spec_not)]
pub fn not(a: Peg) -> (r: Peg)
    ensures
        r == spec_not(a),
{
    Peg::Not(Box::new(a))
}

/// The expression of the rule `rule`.
pub open spec fn spec_call(rule: Rule) -> Peg {
    Peg::Call(rule)
}

/// The expression of the rule `rule`.
#[verifier::when_used_as_spec(spec_call)]
pub fn call(rule: Rule) -> (r: Peg)
    ensures
        r == spec_call(rule),
{
    Peg::Call(rule)
}

/// The expressions one after another.
pub open spec fn spec_chain2(a: Peg, b: Peg) -> Peg {
    Peg::Then(Box::new(a), Box::new(b))
}

/// The expressions one after another.
#[verifier::when_used_as_spec(spec_chain2)]
pub fn chain2(a: Peg, b: Peg) -> (r: Peg)
    ensures
        r == spec_chain2(a, b),
{
    Peg::Then(Box::new(a), Box::new(b))
}

/// The expressions one after another.
pub open spec fn spec_chain3(a: Peg, b: Peg, c: Peg) -> Peg {
    Peg::Then(Box::new(a), Box::new(chain2(b, c)))
}

/// The expressions one after another.
#[verifier::when_used_as_spec(spec_chain3)]
pub fn chain3(a: Peg, b: Peg, c: Peg) -> (r: Peg)
    ensures
        r == spec_chain3(a, b, c),
{
    Peg::Then(Box::new(a), Box::new(chain2(b, c)))
}

/// The expressions one after another.
pub open spec fn spec_chain4(a: Peg, b: Peg, c: Peg, d: Peg) -> Peg {
    Peg::Then(Box::new(a), Box::new(chain3(b, c, d)))
}

/// The expressions one after another.
#[verifier::when_used_as_spec(spec_chain4)]
pub fn chain4(a: Peg, b: Peg, c: Peg, d: Peg) -> (r: Peg)
    ensures
        r == spec_chain4(a, b, c, d),
{
    Peg::Then(Box::new(a), Box::new(chain3(b, c, d)))
}

/// The expressions one after another.
pub open spec fn spec_chain5(a: Peg, b: Peg, c: Peg, d: Peg, e: Peg) -> Peg {
    Peg::Then(Box::new(a), Box::new(chain4(b, c, d, e)))
}

/// The expressions one after another.
#[verifier::when_used_as_spec(spec_chain5)]
pub fn chain5(a: Peg, b: Peg, c: Peg, d: Peg, e: Peg) -> (r: Peg)
    ensures
        r == spec_chain5(a, b, c, d, e),
{
    Peg::Then(Box::new(a), Box::new(chain4(b, c, d, e)))
}

/// The expressions one after another.
pub open spec fn spec_chain6(a: Peg, b: Peg, c: Peg, d: Peg, e: Peg, f: Peg) -> Peg {
    Peg::Then(Box::new(a), Box::new(chain5(b, c, d, e, f)))
}

/// The expressions one after another.
#[verifier::when_used_as_spec(spec_chain6)]
pub fn chain6(a: Peg, b: Peg, c: Peg, d: Peg, e: Peg, f: Peg) -> (r: Peg)
    ensures
        r == spec_chain6(a, b, c, d, e, f),
{
    Peg::Then(Box::new(a), Box::new(chain5(b, c, d, e, f)))
}

/// The first of the expressions that takes the text.
pub open spec fn spec_either2(a: Peg, b: Peg) -> Peg {
    Peg::Or(Box::new(a), Box::new(b))
}

/// The first of the expressions that takes the text.
#[verifier::when_used_as_spec(spec_either2)]
pub fn either2(a: Peg, b: Peg) -> (r: Peg)
    ensures
        r == spec_either2(a, b),
{
    Peg::Or(Box::new(a), Box::new(b))
}

/// The first of the expressions that takes the text.
pub open spec fn spec_either3(a: Peg, b: Peg, c: Peg) -> Peg {
    Peg::Or(Box::new(a), Box::new(either2(b, c)))
}

/// The first of the expressions that takes the text.
#[verifier::when_used_as_spec(spec_either3)]
pub fn either3(a: Peg, b: Peg, c: Peg) -> (r: Peg)
    ensures
        r == spec_either3(a, b, c),
{
    Peg::Or(Box::new(a), Box::new(either2(b, c)))
}

/// The first of the expressions that takes the text.
pub open spec fn spec_either4(a: Peg, b: Peg, c: Peg, d: Peg) -> Peg {
    Peg::Or(Box::new(a), Box::new(either3(b, c, d)))
}

/// The first of the expressions that takes the text.
#[verifier::when_used_as_spec(spec_either4)]
pub fn either4(a: Peg, b: Peg, c: Peg, d: Peg) -> (r: Peg)
    ensures
        r == spec_either4(a, b, c, d),
{
    Peg::Or(Box::new(a), Box::new(either3(b, c, d)))
}

/// The first of the expressions that takes the text.
pub open spec fn spec_either5(a: Peg, b: Peg, c: Peg, d: Peg, e: Peg) -> Peg {
    Peg::Or(Box::new(a), Box::new(either4(b, c, d, e)))
}

/// The first of the expressions that takes the text.
#[verifier::when_used_as_spec(spec_either5)]
pub fn either5(a: Peg, b: Peg, c: Peg, d: Peg, e: Peg) -> (r: Peg)
    ensures
        r == spec_either5(a, b, c, d, e),
{
    Peg::Or(Box::new(a), Box::new(either4(b, c, d, e)))
}

/// The first of the expressions that takes the text.
pub open spec fn spec_either6(a: Peg, b: Peg, c: Peg, d: Peg, e: Peg, f: Peg) -> Peg {
    Peg::Or(Box::new(a), Box::new(either5(b, c, d, e, f)))
}

/// The first of the expressions that takes the text.
#[verifier::when_used_as_spec(spec_either6)]
pub fn either6(a: Peg, b: Peg, c: Peg, d: Peg, e: Peg, f: Peg) -> (r: Peg)
    ensures
        r == spec_either6(a, b, c, d, e, f),
{
    Peg::Or(Box::new(a), Box::new(either5(b, c, d, e, f)))
}

} // verus!
