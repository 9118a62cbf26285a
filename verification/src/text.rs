//! Sequences of characters: dotted paths, comparisons and decimal numbers.

use vstd::prelude::*;
use vstd::string::*;

verus! {

/// The parts of a path, written one after another with `sep` between them.
pub open spec fn join(parts: Seq<Seq<char>>, sep: Seq<char>) -> Seq<char>
    decreases parts.len(),
{
    if parts.len() == 0 {
        Seq::empty()
    } else if parts.len() == 1 {
        parts[0]
    } else {
        join(parts.drop_last(), sep) + sep + parts.last()
    }
}

/// The characters of each string of a path.
pub open spec fn path_view(v: Seq<String>) -> Seq<Seq<char>> {
    Seq::new(v.len(), |i: int| v[i]@)
}

/// `prefix`, a dot, and `name`: the name of a child of the namespace `prefix`.
pub open spec fn dotted(prefix: Seq<char>, name: Seq<char>) -> Seq<char> {
    prefix + "."@ + name
}

/// Whether two string slices hold the same characters.
pub fn same_text(a: &str, b: &str) -> (r: bool)
    ensures
        r == (a@ == b@),
{
    let x = a.to_owned();
    let y = b.to_owned();
    x == y
}

/// Joins the strings of `parts`, with `sep` between neighbours.
pub fn join_strings(parts: &[String], sep: &str) -> (r: String)
    ensures
        r@ == join(path_view(parts@), sep@),
{
    let mut out = String::new();
    let mut i: usize = 0;
    while i < parts.len()
        invariant
            i <= parts.len(),
            out@ == join(path_view(parts@).take(i as int), sep@),
        decreases parts.len() - i,
    {
        let ghost before = path_view(parts@).take(i as int);
        let ghost after = path_view(parts@).take(i + 1);
        proof {
            assert(after.drop_last() =~= before);
            assert(after.last() == parts@[i as int]@);
        }
        if i > 0 {
            out.append(sep);
        }
        out.append(parts[i].as_str());
        proof {
            if i == 0 {
                assert(out@ =~= after[0]);
            }
        }
        i = i + 1;
    }
    proof {
        assert(path_view(parts@).take(parts.len() as int) =~= path_view(parts@));
    }
    out
}

/// `prefix`, a dot, then `name`.
pub fn dotted_name(prefix: &str, name: &str) -> (r: String)
    ensures
        r@ == dotted(prefix@, name@),
{
    let mut out = prefix.to_owned();
    out.append(".");
    out.append(name);
    out
}

/// A copy of a list of strings.
pub fn clone_strings(v: &[String]) -> (r: Vec<String>)
    ensures
        path_view(r@) == path_view(v@),
        r@.len() == v@.len(),
{
    let mut out: Vec<String> = Vec::new();
    let mut i: usize = 0;
    while i < v.len()
        invariant
            i <= v.len(),
            out.len() == i,
            forall|j: int| 0 <= j < i ==> out[j]@ == v[j]@,
        decreases v.len() - i,
    {
        out.push(v[i].clone());
        i = i + 1;
    }
    proof {
        assert(path_view(out@) =~= path_view(v@));
    }
    out
}

/// A copy of an optional string.
pub fn clone_opt_string(s: &Option<String>) -> (r: Option<String>)
    ensures
        opt_view(r) == opt_view(*s),
{
    match s {
        Some(x) => Some(x.clone()),
        None => None,
    }
}

/// The characters of an optional string.
pub open spec fn opt_view(s: Option<String>) -> Option<Seq<char>> {
    match s {
        Some(x) => Some(x@),
        None => None,
    }
}

/// `level` times two spaces.
pub open spec fn indent(level: nat) -> Seq<char>
    decreases level,
{
    if level == 0 {
        Seq::empty()
    } else {
        indent((level - 1) as nat) + "  "@
    }
}

/// The indentation of nesting depth `level`: two spaces for each level.
pub fn indent_string(level: usize) -> (r: String)
    ensures
        r@ == indent(level as nat),
{
    let mut out = String::new();
    let mut i: usize = 0;
    while i < level
        invariant
            i <= level,
            out@ == indent(i as nat),
        decreases level - i,
    {
        out.append("  ");
        i = i + 1;
    }
    out
}

/// What `{:?}` prints for a string: the string in double quotes, with the
/// characters escaped that Rust escapes in a string literal.
pub uninterp spec fn debug_quoted(s: Seq<char>) -> Seq<char>;

/// `s` as Rust's `Debug` prints a string (`<str as core::fmt::Debug>::fmt`,
/// reached through `format!`). The result is a function of the characters of
/// `s` alone; nothing more is claimed of it.
#[verifier::external_body]
pub(crate) fn debug_quote(s: &str) -> (r: String)
    ensures
        r@ == debug_quoted(s@),
{
    format!("{:?}", s)
}

/// The one character that writes the digit `d`.
pub open spec fn digit(d: int) -> Seq<char> {
    if d == 0 {
        "0"@
    } else if d == 1 {
        "1"@
    } else if d == 2 {
        "2"@
    } else if d == 3 {
        "3"@
    } else if d == 4 {
        "4"@
    } else if d == 5 {
        "5"@
    } else if d == 6 {
        "6"@
    } else if d == 7 {
        "7"@
    } else if d == 8 {
        "8"@
    } else {
        "9"@
    }
}

/// The decimal numeral of `n`, without leading zeros.
pub open spec fn decimal(n: nat) -> Seq<char>
    decreases n,
{
    if n < 10 {
        digit(n as int)
    } else {
        decimal(n / 10) + digit((n % 10) as int)
    }
}

fn digit_str(d: usize) -> (r: &'static str)
    requires
        d < 10,
    ensures
        r@ == digit(d as int),
{
    if d == 0 {
        "0"
    } else if d == 1 {
        "1"
    } else if d == 2 {
        "2"
    } else if d == 3 {
        "3"
    } else if d == 4 {
        "4"
    } else if d == 5 {
        "5"
    } else if d == 6 {
        "6"
    } else if d == 7 {
        "7"
    } else if d == 8 {
        "8"
    } else {
        "9"
    }
}

/// Appends the decimal numeral of `n` to `out`.
pub fn append_decimal(out: &mut String, n: usize)
    ensures
        final(out)@ == old(out)@ + decimal(n as nat),
    decreases n,
{
    if n >= 10 {
        append_decimal(out, n / 10);
    }
    out.append(digit_str(n % 10));
    proof {
        assert(final(out)@ =~= old(out)@ + decimal(n as nat));
    }
}

/// `prefix` followed by the decimal numeral of `n`.
pub fn numbered_name(prefix: &str, n: usize) -> (r: String)
    ensures
        r@ == prefix@ + decimal(n as nat),
{
    let mut out = prefix.to_owned();
    append_decimal(&mut out, n);
    out
}

proof fn lemma_digits()
    ensures
        forall|d: int| 0 <= d < 10 ==> (#[trigger] digit(d)).len() == 1,
        forall|d: int, e: int| 0 <= d < 10 && 0 <= e < 10 && digit(d)[0] == digit(e)[0] ==> d == e,
{
    reveal_strlit("0");
    reveal_strlit("1");
    reveal_strlit("2");
    reveal_strlit("3");
    reveal_strlit("4");
    reveal_strlit("5");
    reveal_strlit("6");
    reveal_strlit("7");
    reveal_strlit("8");
    reveal_strlit("9");
}

proof fn lemma_decimal_len(n: nat)
    ensures
        decimal(n).len() >= 1,
        n >= 10 ==> decimal(n).len() >= 2,
    decreases n,
{
    lemma_digits();
    if n >= 10 {
        lemma_decimal_len(n / 10);
    }
}

/// Different numbers have different decimal numerals.
pub proof fn lemma_decimal_injective(a: nat, b: nat)
    requires
        decimal(a) == decimal(b),
    ensures
        a == b,
    decreases a,
{
    lemma_digits();
    lemma_decimal_len(a);
    lemma_decimal_len(b);
    if a < 10 || b < 10 {
        assert(a < 10 && b < 10);
        assert(digit(a as int)[0] == digit(b as int)[0]);
    } else {
        let x = decimal(a / 10);
        let y = decimal(b / 10);
        let da = digit((a % 10) as int);
        let db = digit((b % 10) as int);
        assert((x + da).len() == (y + db).len());
        assert((x + da).last() == da[0]);
        assert((y + db).last() == db[0]);
        assert((x + da).drop_last() =~= x);
        assert((y + db).drop_last() =~= y);
        lemma_decimal_injective(a / 10, b / 10);
    }
}

/// A numbered name determines its number.
pub proof fn lemma_numbered_injective(prefix: Seq<char>, a: nat, b: nat)
    requires
        prefix + decimal(a) == prefix + decimal(b),
    ensures
        a == b,
{
    let x = prefix + decimal(a);
    let y = prefix + decimal(b);
    assert(x.subrange(prefix.len() as int, x.len() as int) =~= decimal(a));
    assert(y.subrange(prefix.len() as int, y.len() as int) =~= decimal(b));
    lemma_decimal_injective(a, b);
}

/// Whether `a` comes before `b` from position `i` on, the characters before
/// `i` being the same: at the first place where the two differ `a` has the
/// smaller character, or `a` ends there and `b` goes on.
pub open spec fn less_from(a: Seq<char>, b: Seq<char>, i: int) -> bool
    decreases b.len() - i,
{
    if i < 0 || i >= b.len() {
        false
    } else if i >= a.len() {
        true
    } else if a[i] < b[i] {
        true
    } else if b[i] < a[i] {
        false
    } else {
        less_from(a, b, i + 1)
    }
}

/// Whether `a` comes before `b` in the order of strings: character by
/// character, a shorter string before its extensions.
pub open spec fn less(a: Seq<char>, b: Seq<char>) -> bool {
    less_from(a, b, 0)
}

/// Of two strings at most one comes before the other.
pub proof fn lemma_less_asymmetric(a: Seq<char>, b: Seq<char>, i: int)
    requires
        0 <= i,
        less_from(a, b, i),
    ensures
        !less_from(b, a, i),
    decreases b.len() - i,
{
    if i < a.len() && i < b.len() && a[i] == b[i] {
        lemma_less_asymmetric(a, b, i + 1);
    }
}

/// Of two different strings one comes before the other.
pub proof fn lemma_less_total(a: Seq<char>, b: Seq<char>, i: int)
    requires
        0 <= i <= a.len(),
        i <= b.len(),
        forall|j: int| 0 <= j < i ==> a[j] == b[j],
        !less_from(a, b, i),
        !less_from(b, a, i),
    ensures
        a == b,
    decreases a.len() - i,
{
    if i < a.len() && i < b.len() {
        lemma_less_total(a, b, i + 1);
    } else {
        assert(a =~= b);
    }
}

/// Whether `a` comes before `b` in the order of strings.
pub fn text_less(a: &str, b: &str) -> (r: bool)
    ensures
        r == less(a@, b@),
{
    let x = crate::peg::to_chars(a);
    let y = crate::peg::to_chars(b);
    let mut i: usize = 0;
    while i < y.len()
        invariant
            i <= y.len(),
            x@ == a@,
            y@ == b@,
            less(a@, b@) == less_from(a@, b@, i as int),
        decreases y.len() - i,
    {
        if i >= x.len() {
            return true;
        }
        if x[i] < y[i] {
            return true;
        }
        if y[i] < x[i] {
            return false;
        }
        i = i + 1;
    }
    false
}

/// What `{:?}` prints for an optional string: `None`, or the string as
/// `{:?}` prints it, inside `Some(` and `)`.
pub open spec fn debug_quoted_option(s: Option<Seq<char>>) -> Seq<char> {
    match s {
        Some(x) => "Some("@ + debug_quoted(x) + ")"@,
        None => "None"@,
    }
}

/// An optional string as `{:?}` prints it.
pub fn debug_quote_option(s: &Option<String>) -> (r: String)
    ensures
        r@ == debug_quoted_option(opt_view(*s)),
{
    match s {
        Some(x) => {
            let mut out = "Some(".to_owned();
            out.append(debug_quote(x.as_str()).as_str());
            out.append(")");
            out
        },
        None => "None".to_owned(),
    }
}

/// `true` or `false`.
pub open spec fn truth_text(b: bool) -> Seq<char> {
    if b {
        "true"@
    } else {
        "false"@
    }
}

/// `true` or `false`.
pub fn truth(b: bool) -> (r: &'static str)
    ensures
        r@ == truth_text(b),
{
    if b {
        "true"
    } else {
        "false"
    }
}

} // verus!
