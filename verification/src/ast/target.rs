//! Target statements.

use crate::ast::condition::{operator_view, OperatorView};
use crate::ast::constant::{Constant, ConstantView};
use crate::ast::operator::Operator;
use crate::text::{
    append_decimal, clone_opt_string, clone_strings, decimal, opt_view, path_view,
};
use vstd::prelude::*;
use vstd::string::*;

verus! {

/// A target statement: its clauses must all hold.
#[derive(Debug, Default, PartialEq, Eq)]
pub struct Target {
    /// The clauses of the target.
    pub clauses: Vec<DisjunctiveSeq>,
    /// The namespace in which the target is written.
    pub ns: Vec<String>,
}

/// A clause: one of its statements must hold.
#[derive(Debug, Default, PartialEq, Eq)]
pub struct DisjunctiveSeq {
    pub statements: Vec<ConjunctiveSeq>,
}

/// A statement of a clause: all of its matches must hold.
#[derive(Debug, Default, PartialEq, Eq)]
pub struct ConjunctiveSeq {
    pub matches: Vec<Match>,
}

/// One comparison of an attribute with a literal.
#[derive(Debug, PartialEq, Eq)]
pub enum Match {
    MatchFunc(MatchFunction),
    MatchOp(MatchOperation),
}

/// A comparison written as the application of a function.
#[derive(Debug, Default, PartialEq, Eq)]
pub struct MatchFunction {
    /// The function's name as written, split at the dots.
    pub function_id: Vec<String>,
    /// The literal operand.
    pub literal: Constant,
    /// The attribute's name as written, split at the dots.
    pub attribute: Vec<String>,
    /// The issuer that the attribute must come from, if one is named.
    pub issuer: Option<String>,
    /// Whether the attribute must be present in the request.
    pub mustbepresent: bool,
}

/// A comparison written with an infix operator.
#[derive(Debug, Default, PartialEq, Eq)]
pub struct MatchOperation {
    /// The attribute's name as written, split at the dots.
    pub attribute: Vec<String>,
    /// The operator.
    pub operator: Operator,
    /// The literal operand.
    pub literal: Constant,
    /// Whether the literal was written first and the attribute second: the
    /// reverse of `attribute op literal`, the common way to write a match.
    /// A reversed match takes the inverse of an operator that is not
    /// commutative.
    pub reversed: bool,
    /// The issuer that the attribute must come from, if one is named.
    pub issuer: Option<String>,
    /// Whether the attribute must be present in the request.
    pub mustbepresent: bool,
}

/// What a comparison written as the application of a function holds.
pub ghost struct MatchFunctionView {
    pub function_id: Seq<Seq<char>>,
    pub literal: ConstantView,
    pub attribute: Seq<Seq<char>>,
    pub issuer: Option<Seq<char>>,
    pub mustbepresent: bool,
}

/// What a comparison written with an infix operator holds.
pub ghost struct MatchOperationView {
    pub attribute: Seq<Seq<char>>,
    pub operator: OperatorView,
    pub literal: ConstantView,
    pub reversed: bool,
    pub issuer: Option<Seq<char>>,
    pub mustbepresent: bool,
}

/// What a comparison holds.
pub ghost enum MatchView {
    Func(MatchFunctionView),
    Op(MatchOperationView),
}

/// What a target holds.
pub ghost struct TargetView {
    pub clauses: Seq<Seq<Seq<MatchView>>>,
    pub ns: Seq<Seq<char>>,
}

impl View for MatchFunction {
    type V = MatchFunctionView;

    open spec fn view(&self) -> MatchFunctionView {
        MatchFunctionView {
            function_id: path_view(self.function_id@),
            literal: self.literal@,
            attribute: path_view(self.attribute@),
            issuer: opt_view(self.issuer),
            mustbepresent: self.mustbepresent,
        }
    }
}

impl View for MatchOperation {
    type V = MatchOperationView;

    open spec fn view(&self) -> MatchOperationView {
        MatchOperationView {
            attribute: path_view(self.attribute@),
            operator: operator_view(self.operator),
            literal: self.literal@,
            reversed: self.reversed,
            issuer: opt_view(self.issuer),
            mustbepresent: self.mustbepresent,
        }
    }
}

impl View for Match {
    type V = MatchView;

    open spec fn view(&self) -> MatchView {
        match self {
            Match::MatchFunc(f) => MatchView::Func(f@),
            Match::MatchOp(o) => MatchView::Op(o@),
        }
    }
}

impl View for ConjunctiveSeq {
    type V = Seq<MatchView>;

    open spec fn view(&self) -> Seq<MatchView> {
        Seq::new(self.matches@.len(), |i: int| self.matches@[i]@)
    }
}

impl View for DisjunctiveSeq {
    type V = Seq<Seq<MatchView>>;

    open spec fn view(&self) -> Seq<Seq<MatchView>> {
        Seq::new(self.statements@.len(), |i: int| self.statements@[i]@)
    }
}

impl View for Target {
    type V = TargetView;

    open spec fn view(&self) -> TargetView {
        TargetView {
            clauses: Seq::new(self.clauses@.len(), |i: int| self.clauses@[i]@),
            ns: path_view(self.ns@),
        }
    }
}

impl Clone for MatchFunction {
    fn clone(&self) -> (r: Self)
        ensures
            r@ == self@,
    {
        MatchFunction {
            function_id: clone_strings(self.function_id.as_slice()),
            literal: self.literal.clone(),
            attribute: clone_strings(self.attribute.as_slice()),
            issuer: clone_opt_string(&self.issuer),
            mustbepresent: self.mustbepresent,
        }
    }
}

impl Clone for MatchOperation {
    fn clone(&self) -> (r: Self)
        ensures
            r@ == self@,
    {
        MatchOperation {
            attribute: clone_strings(self.attribute.as_slice()),
            operator: self.operator.clone(),
            literal: self.literal.clone(),
            reversed: self.reversed,
            issuer: clone_opt_string(&self.issuer),
            mustbepresent: self.mustbepresent,
        }
    }
}

impl Clone for Match {
    fn clone(&self) -> (r: Self)
        ensures
            r@ == self@,
    {
        match self {
            Match::MatchFunc(f) => Match::MatchFunc(f.clone()),
            Match::MatchOp(o) => Match::MatchOp(o.clone()),
        }
    }
}

impl Clone for ConjunctiveSeq {
    fn clone(&self) -> (r: Self)
        ensures
            r@ == self@,
    {
        let mut matches: Vec<Match> = Vec::new();
        let mut i: usize = 0;
        while i < self.matches.len()
            invariant
                i <= self.matches.len(),
                matches@.len() == i,
                forall|j: int| 0 <= j < i ==> (#[trigger] matches@[j])@ == self.matches@[j]@,
            decreases self.matches.len() - i,
        {
            matches.push(self.matches[i].clone());
            i = i + 1;
        }
        let r = ConjunctiveSeq { matches };
        proof {
            assert(r@ =~= self@);
        }
        r
    }
}

impl Clone for DisjunctiveSeq {
    fn clone(&self) -> (r: Self)
        ensures
            r@ == self@,
    {
        let mut statements: Vec<ConjunctiveSeq> = Vec::new();
        let mut i: usize = 0;
        while i < self.statements.len()
            invariant
                i <= self.statements.len(),
                statements@.len() == i,
                forall|j: int|
                    0 <= j < i ==> (#[trigger] statements@[j])@ == self.statements@[j]@,
            decreases self.statements.len() - i,
        {
            statements.push(self.statements[i].clone());
            i = i + 1;
        }
        let r = DisjunctiveSeq { statements };
        proof {
            assert(r@ =~= self@);
        }
        r
    }
}

impl Clone for Target {
    fn clone(&self) -> (r: Self)
        ensures
            r@ == self@,
    {
        let mut clauses: Vec<DisjunctiveSeq> = Vec::new();
        let mut i: usize = 0;
        while i < self.clauses.len()
            invariant
                i <= self.clauses.len(),
                clauses@.len() == i,
                forall|j: int| 0 <= j < i ==> (#[trigger] clauses@[j])@ == self.clauses@[j]@,
            decreases self.clauses.len() - i,
        {
            clauses.push(self.clauses[i].clone());
            i = i + 1;
        }
        let r = Target { clauses, ns: clone_strings(self.ns.as_slice()) };
        proof {
            assert(r@.clauses =~= self@.clauses);
        }
        r
    }
}

impl Target {
    /// The line that `to_string` returns.
    pub open spec fn display_text(&self) -> Seq<char> {
        "Target: "@ + decimal(self.clauses@.len()) + " AnyOf"@
    }

    /// One line with the number of clauses.
    pub fn to_string(&self) -> (r: String)
        ensures
            r@ == self.display_text(),
    {
        let mut out = "Target: ".to_owned();
        append_decimal(&mut out, self.clauses.len());
        out.append(" AnyOf");
        out
    }
}

impl DisjunctiveSeq {
    /// The line that `to_string` returns.
    pub open spec fn display_text(&self) -> Seq<char> {
        "AnyOf: "@ + decimal(self.statements@.len()) + " stmts"@
    }

    /// One line with the number of statements.
    pub fn to_string(&self) -> (r: String)
        ensures
            r@ == self.display_text(),
    {
        let mut out = "AnyOf: ".to_owned();
        append_decimal(&mut out, self.statements.len());
        out.append(" stmts");
        out
    }
}

impl ConjunctiveSeq {
    /// The line that `to_string` returns.
    pub open spec fn display_text(&self) -> Seq<char> {
        "AllOf: "@ + decimal(self.matches@.len()) + " matches"@
    }

    /// One line with the number of matches.
    pub fn to_string(&self) -> (r: String)
        ensures
            r@ == self.display_text(),
    {
        let mut out = "AllOf: ".to_owned();
        append_decimal(&mut out, self.matches.len());
        out.append(" matches");
        out
    }
}

} // verus!
