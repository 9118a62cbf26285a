//! Function declarations.

use crate::ast::{AsAlfa, PrettyPrint, QualifiedName};
use crate::text::{clone_strings, dotted, indent, indent_string, join, join_strings, path_view};
use vstd::prelude::*;
use vstd::string::*;

verus! {

/// The type of an argument of a function.
#[derive(Debug, PartialEq, Eq)]
pub enum FunctionInputArg {
    /// A named atomic type (`string`, `ipAddress`, ...).
    Atomic(String),
    /// A bag of a named atomic type (`bag[boolean]`).
    AtomicBag(String),
    /// A bag of any atomic type (`bag[anyAtomic]`).
    AnyAtomicBag,
    /// Any atomic type (`anyAtomic`).
    AnyAtomic,
    /// Any atomic type or any bag.
    AnyAtomicOrBag,
    /// A function.
    Function,
}

/// The type of the result of a function.
///
/// A function returns neither a function nor a value that may be either
/// atomic or a bag.
#[derive(Debug, PartialEq, Eq)]
pub enum FunctionOutputArg {
    /// A named atomic type (`string`, `ipAddress`, ...).
    Atomic(String),
    /// A bag of a named atomic type (`bag[boolean]`).
    AtomicBag(String),
    /// A bag of any atomic type (`bag[anyAtomic]`).
    AnyAtomicBag,
    /// Any atomic type (`anyAtomic`).
    AnyAtomic,
}

/// The arguments that a function is declared with.
#[derive(Debug, PartialEq, Eq)]
pub struct FunctionInputs {
    /// The argument types in order.
    pub args: Vec<FunctionInputArg>,
    /// Whether the last argument may be repeated.
    pub wildcard: bool,
}

/// A function declaration.
#[derive(Debug, PartialEq, Eq)]
pub struct Function {
    /// The name of the function.
    pub id: String,
    /// The namespace from general to most specific.
    pub ns: Vec<String>,
    /// The XACML identifier of the function.
    pub function_uri: String,
    /// The declared arguments.
    pub input_args: FunctionInputs,
    /// The declared result.
    pub output_arg: FunctionOutputArg,
}

impl FunctionInputArg {
    /// The text that `to_string` returns.
    pub open spec fn display_text(&self) -> Seq<char> {
        match self {
            FunctionInputArg::AnyAtomic => "anyAtomic"@,
            FunctionInputArg::AnyAtomicBag => "bag[anyAtomic]"@,
            FunctionInputArg::AnyAtomicOrBag => "anyAtomicOrBag"@,
            FunctionInputArg::Atomic(s) => s@,
            FunctionInputArg::AtomicBag(s) => "bag["@ + s@ + "]"@,
            FunctionInputArg::Function => "function"@,
        }
    }

    /// The argument type as it is written in ALFA.
    pub fn to_string(&self) -> (r: String)
        ensures
            r@ == self.display_text(),
    {
        match self {
            FunctionInputArg::AnyAtomic => "anyAtomic".to_owned(),
            FunctionInputArg::AnyAtomicBag => "bag[anyAtomic]".to_owned(),
            FunctionInputArg::AnyAtomicOrBag => "anyAtomicOrBag".to_owned(),
            FunctionInputArg::Atomic(s) => s.clone(),
            FunctionInputArg::AtomicBag(s) => {
                let mut out = "bag[".to_owned();
                out.append(s.as_str());
                out.append("]");
                out
            },
            FunctionInputArg::Function => "function".to_owned(),
        }
    }
}

/// What the type of an argument holds.
pub ghost enum InputView {
    Atomic(Seq<char>),
    AtomicBag(Seq<char>),
    AnyAtomicBag,
    AnyAtomic,
    AnyAtomicOrBag,
    Function,
}

impl View for FunctionInputArg {
    type V = InputView;

    open spec fn view(&self) -> InputView {
        match self {
            FunctionInputArg::Atomic(s) => InputView::Atomic(s@),
            FunctionInputArg::AtomicBag(s) => InputView::AtomicBag(s@),
            FunctionInputArg::AnyAtomicBag => InputView::AnyAtomicBag,
            FunctionInputArg::AnyAtomic => InputView::AnyAtomic,
            FunctionInputArg::AnyAtomicOrBag => InputView::AnyAtomicOrBag,
            FunctionInputArg::Function => InputView::Function,
        }
    }
}

/// What the argument types `args` hold, in order.
pub open spec fn inputs_view(args: Seq<FunctionInputArg>) -> Seq<InputView> {
    Seq::new(args.len(), |i: int| args[i]@)
}

impl Clone for FunctionInputArg {
    fn clone(&self) -> (r: Self)
        ensures
            r.display_text() == self.display_text(),
            r is Atomic <==> self is Atomic,
            r is AtomicBag <==> self is AtomicBag,
            r is AnyAtomicBag <==> self is AnyAtomicBag,
            r is AnyAtomic <==> self is AnyAtomic,
            r is AnyAtomicOrBag <==> self is AnyAtomicOrBag,
            r is Function <==> self is Function,
    {
        match self {
            FunctionInputArg::AnyAtomic => FunctionInputArg::AnyAtomic,
            FunctionInputArg::AnyAtomicBag => FunctionInputArg::AnyAtomicBag,
            FunctionInputArg::AnyAtomicOrBag => FunctionInputArg::AnyAtomicOrBag,
            FunctionInputArg::Atomic(s) => FunctionInputArg::Atomic(s.clone()),
            FunctionInputArg::AtomicBag(s) => FunctionInputArg::AtomicBag(s.clone()),
            FunctionInputArg::Function => FunctionInputArg::Function,
        }
    }
}

/// What the type of a result holds.
pub ghost enum OutputView {
    Atomic(Seq<char>),
    AtomicBag(Seq<char>),
    AnyAtomicBag,
    AnyAtomic,
}

impl View for FunctionOutputArg {
    type V = OutputView;

    open spec fn view(&self) -> OutputView {
        match self {
            FunctionOutputArg::Atomic(s) => OutputView::Atomic(s@),
            FunctionOutputArg::AtomicBag(s) => OutputView::AtomicBag(s@),
            FunctionOutputArg::AnyAtomicBag => OutputView::AnyAtomicBag,
            FunctionOutputArg::AnyAtomic => OutputView::AnyAtomic,
        }
    }
}

impl Clone for FunctionOutputArg {
    fn clone(&self) -> (r: Self)
        ensures
            r@ == self@,
    {
        match self {
            FunctionOutputArg::AnyAtomic => FunctionOutputArg::AnyAtomic,
            FunctionOutputArg::AnyAtomicBag => FunctionOutputArg::AnyAtomicBag,
            FunctionOutputArg::Atomic(s) => FunctionOutputArg::Atomic(s.clone()),
            FunctionOutputArg::AtomicBag(s) => FunctionOutputArg::AtomicBag(s.clone()),
        }
    }
}

impl FunctionOutputArg {
    /// The text that `to_string` returns.
    pub open spec fn display_text(&self) -> Seq<char> {
        match self {
            FunctionOutputArg::AnyAtomic => "anyAtomic"@,
            FunctionOutputArg::AnyAtomicBag => "bag[anyAtomic]"@,
            FunctionOutputArg::Atomic(s) => s@,
            FunctionOutputArg::AtomicBag(s) => "bag["@ + s@ + "]"@,
        }
    }

    /// The result type as it is written in ALFA.
    pub fn to_string(&self) -> (r: String)
        ensures
            r@ == self.display_text(),
    {
        match self {
            FunctionOutputArg::AnyAtomic => "anyAtomic".to_owned(),
            FunctionOutputArg::AnyAtomicBag => "bag[anyAtomic]".to_owned(),
            FunctionOutputArg::Atomic(s) => s.clone(),
            FunctionOutputArg::AtomicBag(s) => {
                let mut out = "bag[".to_owned();
                out.append(s.as_str());
                out.append("]");
                out
            },
        }
    }
}

/// The argument types, each followed by `sep`.
pub open spec fn args_text(args: Seq<FunctionInputArg>, sep: Seq<char>) -> Seq<char>
    decreases args.len(),
{
    if args.len() == 0 {
        Seq::empty()
    } else {
        args_text(args.drop_last(), sep) + args.last().display_text() + sep
    }
}

/// The argument types with `sep` between neighbours.
pub open spec fn args_list_text(args: Seq<FunctionInputArg>, sep: Seq<char>) -> Seq<char>
    decreases args.len(),
{
    if args.len() == 0 {
        Seq::empty()
    } else if args.len() == 1 {
        args[0].display_text()
    } else {
        args_list_text(args.drop_last(), sep) + sep + args.last().display_text()
    }
}

/// What a function declaration holds.
pub ghost struct FunctionView {
    pub id: Seq<char>,
    pub uri: Seq<char>,
    pub ns: Seq<Seq<char>>,
    pub args: Seq<InputView>,
    pub wildcard: bool,
    pub output: OutputView,
}

impl View for Function {
    type V = FunctionView;

    open spec fn view(&self) -> FunctionView {
        FunctionView {
            id: self.id@,
            uri: self.function_uri@,
            ns: path_view(self.ns@),
            args: inputs_view(self.input_args.args@),
            wildcard: self.input_args.wildcard,
            output: self.output_arg@,
        }
    }
}

impl QualifiedName for Function {
    open spec fn qualified(&self) -> Option<Seq<char>> {
        if self.ns@.len() == 0 {
            Some(self.id@)
        } else {
            Some(dotted(join(path_view(self.ns@), "."@), self.id@))
        }
    }

    fn fully_qualified_name(&self) -> (r: Option<String>) {
        let mut qn = join_strings(self.ns.as_slice(), ".");
        if self.ns.len() != 0 {
            qn.append(".");
        }
        qn.append(self.id.as_str());
        proof {
            if self.ns@.len() == 0 {
                assert(qn@ =~= self.id@);
            }
        }
        Some(qn)
    }
}

impl AsAlfa for Function {
    open spec fn alfa_text(&self, indent_level: nat) -> Seq<char> {
        indent(indent_level) + "function "@ + self.id@ + " = \""@ + self.function_uri@ + "\" : "@
            + args_text(self.input_args.args@, " "@) + (if self.input_args.wildcard {
            "* "@
        } else {
            Seq::empty()
        }) + "-> "@ + self.output_arg.display_text() + "\n"@
    }

    fn to_alfa(&self, indent_level: usize) -> (r: String) {
        let mut out = indent_string(indent_level);
        out.append("function ");
        out.append(self.id.as_str());
        out.append(" = \"");
        out.append(self.function_uri.as_str());
        out.append("\" : ");
        let ghost head = out@;
        let mut i: usize = 0;
        while i < self.input_args.args.len()
            invariant
                i <= self.input_args.args.len(),
                out@ == head + args_text(self.input_args.args@.take(i as int), " "@),
            decreases self.input_args.args.len() - i,
        {
            proof {
                let next = self.input_args.args@.take(i + 1);
                assert(next.drop_last() =~= self.input_args.args@.take(i as int));
                assert(next.last() == self.input_args.args@[i as int]);
            }
            out.append(self.input_args.args[i].to_string().as_str());
            out.append(" ");
            proof {
                assert(out@ =~= head + args_text(self.input_args.args@.take(i + 1), " "@));
            }
            i = i + 1;
        }
        proof {
            assert(self.input_args.args@.take(self.input_args.args.len() as int)
                =~= self.input_args.args@);
        }
        if self.input_args.wildcard {
            out.append("* ");
        }
        out.append("-> ");
        out.append(self.output_arg.to_string().as_str());
        out.append("\n");
        proof {
            assert(out@ =~= self.alfa_text(indent_level as nat));
        }
        out
    }
}

impl Function {
    /// The line that `to_string` returns.
    pub open spec fn display_text(&self) -> Seq<char> {
        "fn "@ + self.id@ + " <"@ + self.function_uri@ + "> ("@ + args_list_text(
            self.input_args.args@,
            ", "@,
        ) + (if self.input_args.wildcard {
            "*"@
        } else {
            Seq::empty()
        }) + ") ==> "@ + self.output_arg.display_text()
    }

    /// One line with the function's name, identifier, arguments and result.
    pub fn to_string(&self) -> (r: String)
        ensures
            r@ == self.display_text(),
    {
        let mut out = "fn ".to_owned();
        out.append(self.id.as_str());
        out.append(" <");
        out.append(self.function_uri.as_str());
        out.append("> (");
        let ghost head = out@;
        let mut i: usize = 0;
        while i < self.input_args.args.len()
            invariant
                i <= self.input_args.args.len(),
                out@ == head + args_list_text(self.input_args.args@.take(i as int), ", "@),
            decreases self.input_args.args.len() - i,
        {
            proof {
                let next = self.input_args.args@.take(i + 1);
                assert(next.drop_last() =~= self.input_args.args@.take(i as int));
                assert(next.last() == self.input_args.args@[i as int]);
            }
            if i > 0 {
                out.append(", ");
            }
            out.append(self.input_args.args[i].to_string().as_str());
            proof {
                assert(out@ =~= head + args_list_text(self.input_args.args@.take(i + 1), ", "@));
            }
            i = i + 1;
        }
        proof {
            assert(self.input_args.args@.take(self.input_args.args.len() as int)
                =~= self.input_args.args@);
        }
        if self.input_args.wildcard {
            out.append("*");
        }
        out.append(") ==> ");
        out.append(self.output_arg.to_string().as_str());
        proof {
            assert(out@ =~= self.display_text());
        }
        out
    }
}

impl PrettyPrint for Function {
    open spec fn listing(&self, margin: Seq<char>) -> Seq<char> {
        margin + self.display_text() + "\n"@
    }

    fn list(&self, margin: &str) -> (r: String) {
        let mut out = margin.to_owned();
        out.append(self.to_string().as_str());
        out.append("\n");
        out
    }
}

} // verus!
