//! The syntax tree of ALFA declarations, policies and expressions.

use crate::errors::SrcLoc;
use crate::peg::to_chars;
use crate::text::{indent, indent_string, path_view};
use vstd::prelude::*;
use vstd::string::*;

pub mod advice;
pub mod assemble;
pub mod attribute;
pub mod category;
pub mod condition;
pub mod constant;
pub mod designator;
pub mod function;
pub mod import;
pub mod infix;
pub mod listing;
pub mod namespace;
pub mod naming;
pub mod obligation;
pub mod operator;
pub mod policy;
pub mod policycombinator;
pub mod policyset;
pub mod prescription;
pub mod rule;
pub mod rulecombinator;
pub mod std_attributes;
pub mod std_functions;
pub mod std_infix;
pub mod target;
pub mod typedef;

verus! {

/// The namespace of the built-in declarations.
pub const SYSTEM_NS: &'static str = "_A2X";

/// The namespace of the declarations that the compiler itself relies on.
pub const PROTECTED_NS: &'static str = "_A2X.PROTECTED";

/// What a declaration of a name for a URI holds: the name, the URI and the
/// namespace of the declaration, outermost component first.
pub ghost struct DeclView {
    pub id: Seq<char>,
    pub uri: Seq<char>,
    pub ns: Seq<Seq<char>>,
}

/// A declaration that can be found under a fully-qualified name.
pub trait QualifiedName {
    /// The fully-qualified name, for a declaration that has one.
    spec fn qualified(&self) -> Option<Seq<char>>;

    /// The fully-qualified name: the namespace and the declaration's own
    /// name, joined by dots. `None` for a declaration without a name.
    fn fully_qualified_name(&self) -> (r: Option<String>)
        ensures
            crate::text::opt_view(r) == self.qualified(),
    ;
}

/// A declaration that can be written as ALFA source text.
pub trait AsAlfa {
    /// The text that `to_alfa` returns at nesting depth `indent_level`.
    spec fn alfa_text(&self, indent_level: nat) -> Seq<char>;

    /// The declaration as ALFA source, indented for nesting depth
    /// `indent_level`.
    fn to_alfa(&self, indent_level: usize) -> (r: String)
        ensures
            r@ == self.alfa_text(indent_level as nat),
    ;
}

/// An element that can be shown in a tree listing: a line for the element,
/// and below it, further from the margin, the lines of what it holds.
pub trait PrettyPrint {
    /// The lines that show this element and what it holds, each ending in a
    /// line feed and each behind `margin`; what an element holds stands two
    /// spaces further in than the element.
    spec fn listing(&self, margin: Seq<char>) -> Seq<char>;

    /// The lines that show this element, behind `margin`.
    fn list(&self, margin: &str) -> (r: String)
        ensures
            r@ == self.listing(margin@),
    ;

    /// The lines that show this element at nesting depth `indent_level`:
    /// behind a margin of two spaces for each level.
    fn pretty_print(&self, indent_level: usize) -> (r: String)
        ensures
            r@ == self.listing(indent(indent_level as nat)),
    {
        self.list(indent_string(indent_level).as_str())
    }
}

/// The listings of the elements of `v`, one after another, each behind
/// `margin`.
pub open spec fn listing_of<T: PrettyPrint>(v: Seq<T>, margin: Seq<char>) -> Seq<char>
    decreases v.len(),
{
    if v.len() == 0 {
        Seq::empty()
    } else {
        listing_of(v.drop_last(), margin) + v.last().listing(margin)
    }
}

/// Appends the listings of the elements of `v` to `out`.
pub fn list_each<T: PrettyPrint>(out: &mut String, v: &Vec<T>, margin: &str)
    ensures
        final(out)@ == old(out)@ + listing_of(v@, margin@),
{
    let ghost head = out@;
    let mut i: usize = 0;
    while i < v.len()
        invariant
            i <= v.len(),
            out@ == head + listing_of(v@.take(i as int), margin@),
        decreases v.len() - i,
    {
        proof {
            let next = v@.take(i + 1);
            assert(next.drop_last() =~= v@.take(i as int));
            assert(next.last() == v@[i as int]);
        }
        out.append(v[i].list(margin).as_str());
        proof {
            assert(out@ =~= head + listing_of(v@.take(i + 1), margin@));
        }
        i = i + 1;
    }
    proof {
        assert(v@.take(v.len() as int) =~= v@);
    }
}

/// An element that knows where in the source it was written.
pub trait Spanned {
    /// The place in the source.
    spec fn spec_span(&self) -> SrcLoc;

    /// The place in the source.
    fn span(&self) -> (r: &SrcLoc)
        ensures
            *r == self.spec_span(),
    ;
}

/// White space as `str::trim` knows it: the characters with the Unicode
/// property `White_Space`.
pub open spec fn is_white(c: char) -> bool {
    ('\u{9}' <= c && c <= '\u{d}') || c == ' ' || c == '\u{85}' || c == '\u{a0}' || c
        == '\u{1680}' || ('\u{2000}' <= c && c <= '\u{200a}') || c == '\u{2028}' || c
        == '\u{2029}' || c == '\u{202f}' || c == '\u{205f}' || c == '\u{3000}'
}

fn trimmed_char(c: char, stars: bool) -> (r: bool)
    ensures
        r == (if stars {
            c == '*'
        } else {
            is_white(c)
        }),
{
    if stars {
        c == '*'
    } else {
        white(c)
    }
}

fn white(c: char) -> (r: bool)
    ensures
        r == is_white(c),
{
    ('\u{9}' <= c && c <= '\u{d}') || c == ' ' || c == '\u{85}' || c == '\u{a0}' || c
        == '\u{1680}' || ('\u{2000}' <= c && c <= '\u{200a}') || c == '\u{2028}' || c
        == '\u{2029}' || c == '\u{202f}' || c == '\u{205f}' || c == '\u{3000}'
}

/// The first position from `lo` on, below `hi`, whose character is not to
/// be trimmed; `hi` where there is none. With `stars` the stars are
/// trimmed, else the white space.
pub open spec fn trim_front(s: Seq<char>, lo: int, hi: int, stars: bool) -> int
    decreases hi - lo,
{
    if 0 <= lo < hi <= s.len() && (if stars {
        s[lo] == '*'
    } else {
        is_white(s[lo])
    }) {
        trim_front(s, lo + 1, hi, stars)
    } else {
        lo
    }
}

/// The position behind the last character below `hi`, from `lo` on, that
/// is not to be trimmed; `lo` where there is none.
pub open spec fn trim_back(s: Seq<char>, lo: int, hi: int, stars: bool) -> int
    decreases hi - lo,
{
    if 0 <= lo < hi <= s.len() && (if stars {
        s[hi - 1] == '*'
    } else {
        is_white(s[hi - 1])
    }) {
        trim_back(s, lo, hi - 1, stars)
    } else {
        hi
    }
}

/// Whether `s` is a comment that is closed as it was opened: a line comment
/// ends in a line feed, and a block comment in `*/` behind its `/*`.
pub open spec fn closed_comment(s: Seq<char>) -> bool {
    if s.len() >= 2 && s[0] == '/' && s[1] == '/' {
        s.len() >= 3 && s.last() == '\n'
    } else if s.len() >= 2 && s[0] == '/' && s[1] == '*' {
        s.len() >= 4 && s[s.len() - 2] == '*' && s.last() == '/'
    } else {
        true
    }
}

/// The text of a comment without its markers.
///
/// Of a line comment the two slashes and the line feed at the end are
/// taken away, and then the white space at both ends. Of a block comment
/// the `/*` and the `*/` are taken away, then the stars at both ends, then
/// the white space at both ends. A text that is no comment stays as it is.
pub open spec fn cleaned(s: Seq<char>) -> Seq<char> {
    if s.len() >= 2 && s[0] == '/' && s[1] == '/' {
        let a = trim_front(s, 2, s.len() - 1, false);
        let b = trim_back(s, a, s.len() - 1, false);
        s.subrange(a, b)
    } else if s.len() >= 2 && s[0] == '/' && s[1] == '*' {
        let a = trim_front(s, 2, s.len() - 2, true);
        let b = trim_back(s, a, s.len() - 2, true);
        let c = trim_front(s, a, b, false);
        let d = trim_back(s, c, b, false);
        s.subrange(c, d)
    } else {
        s
    }
}

fn front(s: &Vec<char>, lo: usize, hi: usize, stars: bool) -> (r: usize)
    requires
        lo <= hi <= s@.len(),
    ensures
        r == trim_front(s@, lo as int, hi as int, stars),
        lo <= r <= hi,
{
    let mut i = lo;
    while i < hi && trimmed_char(s[i], stars)
        invariant
            lo <= i <= hi <= s@.len(),
            trim_front(s@, lo as int, hi as int, stars) == trim_front(
                s@,
                i as int,
                hi as int,
                stars,
            ),
        decreases hi - i,
    {
        i = i + 1;
    }
    i
}

fn back(s: &Vec<char>, lo: usize, hi: usize, stars: bool) -> (r: usize)
    requires
        lo <= hi <= s@.len(),
    ensures
        r == trim_back(s@, lo as int, hi as int, stars),
        lo <= r <= hi,
{
    let mut i = hi;
    while lo < i && trimmed_char(s[i - 1], stars)
        invariant
            lo <= i <= hi <= s@.len(),
            trim_back(s@, lo as int, hi as int, stars) == trim_back(
                s@,
                lo as int,
                i as int,
                stars,
            ),
        decreases i - lo,
    {
        i = i - 1;
    }
    i
}

/// The text of the comment `raw` without its markers, as `cleaned` states
/// it.
pub fn comment_cleanup(raw: &str) -> (r: &str)
    requires
        closed_comment(raw@),
    ensures
        r@ == cleaned(raw@),
{
    let s = to_chars(raw);
    let n = s.len();
    if n >= 2 && s[0] == '/' && s[1] == '/' {
        let a = front(&s, 2, n - 1, false);
        let b = back(&s, a, n - 1, false);
        raw.substring_char(a, b)
    } else if n >= 2 && s[0] == '/' && s[1] == '*' {
        let a = front(&s, 2, n - 2, true);
        let b = back(&s, a, n - 2, true);
        let c = front(&s, a, b, false);
        let d = back(&s, c, b, false);
        raw.substring_char(c, d)
    } else {
        raw
    }
}

/// The parts of `s` from `start` on that the dots from `pos` on part, `pos`
/// being at or behind `start` with no dot between the two.
pub open spec fn dot_parts(s: Seq<char>, start: int, pos: int) -> Seq<Seq<char>>
    decreases s.len() - pos,
{
    if pos < 0 || pos >= s.len() || start < 0 || start > pos {
        if 0 <= start <= s.len() {
            seq![s.subrange(start, s.len() as int)]
        } else {
            seq![Seq::empty()]
        }
    } else if s[pos] == '.' {
        seq![s.subrange(start, pos)] + dot_parts(s, pos + 1, pos + 1)
    } else {
        dot_parts(s, start, pos + 1)
    }
}

/// Parts a name at its dots: what stands before the last dot, part by
/// part, and what stands behind it. Together they are the parts of the
/// name; a name without a dot has nothing before it.
pub fn split_dotted_string(input: &str) -> (r: (Vec<String>, String))
    ensures
        path_view(r.0@).push(r.1@) == dot_parts(input@, 0, 0),
{
    let s = to_chars(input);
    let mut front: Vec<String> = Vec::new();
    let mut start: usize = 0;
    let mut pos: usize = 0;
    proof {
        assert(path_view(front@) + dot_parts(input@, 0, 0) =~= dot_parts(input@, 0, 0));
    }
    while pos < s.len()
        invariant
            s@ == input@,
            start <= pos <= s.len(),
            path_view(front@) + dot_parts(input@, start as int, pos as int) == dot_parts(
                input@,
                0,
                0,
            ),
        decreases s.len() - pos,
    {
        if s[pos] == '.' {
            let ghost before = path_view(front@);
            let part = input.substring_char(start, pos).to_owned();
            front.push(part);
            proof {
                assert(path_view(front@) =~= before.push(part@));
                assert(before.push(part@) + dot_parts(input@, pos + 1, pos + 1) =~= before + (
                seq![part@] + dot_parts(input@, pos + 1, pos + 1)));
            }
            start = pos + 1;
        }
        pos = pos + 1;
    }
    let last = input.substring_char(start, s.len()).to_owned();
    proof {
        assert(path_view(front@).push(last@) =~= path_view(front@) + seq![last@]);
    }
    (front, last)
}

} // verus!
