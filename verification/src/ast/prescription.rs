//! Obligations and advice.
//!
//! A prescription is the block of obligation and advice statements that
//! belongs to one effect of a rule, a policy or a policy set.

use crate::ast::condition::{attribute_view, AttributeView};
use crate::ast::constant::{Constant, ConstantView};
use crate::ast::designator::AttributeDesignator;
use crate::ast::rule::Effect;
use crate::text::{clone_strings, path_view};
use vstd::prelude::*;
use vstd::string::*;

verus! {

/// The obligation and advice statements for one effect.
#[derive(Debug, PartialEq, Eq)]
pub struct Prescription {
    /// The effect on which the statements apply.
    pub effect: Effect,
    /// The namespace in which the block is written.
    pub ns: Vec<String>,
    /// The statements.
    pub expressions: Vec<PrescriptionExpr>,
}

/// One obligation or advice statement.
#[derive(Debug, PartialEq, Eq)]
pub struct PrescriptionExpr {
    /// Whether this is an obligation or an advice.
    pub ptype: PrescriptionType,
    /// The name of the obligation or advice.
    pub id: String,
    /// The attributes that are handed over with it.
    pub assignments: Vec<AttributeAssignment>,
}

/// The assignment of a value to an attribute of an obligation or advice.
#[derive(Debug, PartialEq, Eq)]
pub struct AttributeAssignment {
    /// The name of the attribute that receives the value.
    pub destination_id: String,
    /// Where the value comes from.
    pub source: AttrAssignmentSource,
}

/// The right-hand side of an assignment.
#[derive(Debug, PartialEq, Eq)]
pub enum AttrAssignmentSource {
    /// The value of an attribute of the request.
    Attribute(AttributeDesignator),
    /// A constant.
    Value(Constant),
}

/// Whether a statement is an obligation or an advice.
#[derive(Debug, PartialEq, Eq, Clone, Copy, Structural)]
pub enum PrescriptionType {
    Obligation,
    Advice,
}

/// What the right-hand side of an assignment holds.
pub ghost enum SourceView {
    Attribute(AttributeView),
    Value(ConstantView),
}

/// What an assignment holds.
pub ghost struct AssignmentView {
    pub destination_id: Seq<char>,
    pub source: SourceView,
}

/// What an obligation or advice statement holds.
pub ghost struct StatementView {
    pub ptype: PrescriptionType,
    pub id: Seq<char>,
    pub assignments: Seq<AssignmentView>,
}

/// What a block of obligation and advice statements holds.
pub ghost struct BlockView {
    pub effect: Effect,
    pub ns: Seq<Seq<char>>,
    pub expressions: Seq<StatementView>,
}

impl View for AttrAssignmentSource {
    type V = SourceView;

    open spec fn view(&self) -> SourceView {
        match self {
            AttrAssignmentSource::Attribute(a) => SourceView::Attribute(attribute_view(*a)),
            AttrAssignmentSource::Value(c) => SourceView::Value(c@),
        }
    }
}

impl View for AttributeAssignment {
    type V = AssignmentView;

    open spec fn view(&self) -> AssignmentView {
        AssignmentView { destination_id: self.destination_id@, source: self.source@ }
    }
}

impl View for PrescriptionExpr {
    type V = StatementView;

    open spec fn view(&self) -> StatementView {
        StatementView {
            ptype: self.ptype,
            id: self.id@,
            assignments: Seq::new(self.assignments@.len(), |i: int| self.assignments@[i]@),
        }
    }
}

impl View for Prescription {
    type V = BlockView;

    open spec fn view(&self) -> BlockView {
        BlockView {
            effect: self.effect,
            ns: path_view(self.ns@),
            expressions: Seq::new(self.expressions@.len(), |i: int| self.expressions@[i]@),
        }
    }
}

/// What each of the blocks `v` holds, in order.
pub open spec fn blocks_view(v: Seq<Prescription>) -> Seq<BlockView> {
    Seq::new(v.len(), |i: int| v[i]@)
}

impl Clone for AttrAssignmentSource {
    fn clone(&self) -> (r: Self)
        ensures
            r@ == self@,
    {
        match self {
            AttrAssignmentSource::Attribute(a) => AttrAssignmentSource::Attribute(a.clone()),
            AttrAssignmentSource::Value(c) => AttrAssignmentSource::Value(c.clone()),
        }
    }
}

impl Clone for AttributeAssignment {
    fn clone(&self) -> (r: Self)
        ensures
            r@ == self@,
    {
        AttributeAssignment {
            destination_id: self.destination_id.clone(),
            source: self.source.clone(),
        }
    }
}

impl Clone for PrescriptionExpr {
    fn clone(&self) -> (r: Self)
        ensures
            r@ == self@,
    {
        let mut assignments: Vec<AttributeAssignment> = Vec::new();
        let mut i: usize = 0;
        while i < self.assignments.len()
            invariant
                i <= self.assignments.len(),
                assignments@.len() == i,
                forall|j: int|
                    0 <= j < i ==> (#[trigger] assignments@[j])@ == self.assignments@[j]@,
            decreases self.assignments.len() - i,
        {
            assignments.push(self.assignments[i].clone());
            i = i + 1;
        }
        let r = PrescriptionExpr { ptype: self.ptype, id: self.id.clone(), assignments };
        proof {
            assert(r@.assignments =~= self@.assignments);
        }
        r
    }
}

impl Clone for Prescription {
    fn clone(&self) -> (r: Self)
        ensures
            r@ == self@,
    {
        let mut expressions: Vec<PrescriptionExpr> = Vec::new();
        let mut i: usize = 0;
        while i < self.expressions.len()
            invariant
                i <= self.expressions.len(),
                expressions@.len() == i,
                forall|j: int|
                    0 <= j < i ==> (#[trigger] expressions@[j])@ == self.expressions@[j]@,
            decreases self.expressions.len() - i,
        {
            expressions.push(self.expressions[i].clone());
            i = i + 1;
        }
        let r = Prescription {
            effect: self.effect,
            ns: clone_strings(self.ns.as_slice()),
            expressions,
        };
        proof {
            assert(r@.expressions =~= self@.expressions);
        }
        r
    }
}

/// A copy of each of the blocks `v`, in order.
pub fn clone_blocks(v: &Vec<Prescription>) -> (r: Vec<Prescription>)
    ensures
        blocks_view(r@) == blocks_view(v@),
{
    let mut out: Vec<Prescription> = Vec::new();
    let mut i: usize = 0;
    while i < v.len()
        invariant
            i <= v.len(),
            out@.len() == i,
            forall|j: int| 0 <= j < i ==> (#[trigger] out@[j])@ == v@[j]@,
        decreases v.len() - i,
    {
        out.push(v[i].clone());
        i = i + 1;
    }
    proof {
        assert(blocks_view(out@) =~= blocks_view(v@));
    }
    out
}

impl PrescriptionType {
    /// The text that `to_string` returns.
    pub open spec fn display_text(&self) -> Seq<char> {
        match self {
            PrescriptionType::Obligation => "Obligation"@,
            PrescriptionType::Advice => "Advice"@,
        }
    }

    /// `Obligation` or `Advice`.
    pub fn to_string(&self) -> (r: String)
        ensures
            r@ == self.display_text(),
    {
        match self {
            PrescriptionType::Obligation => "Obligation".to_owned(),
            PrescriptionType::Advice => "Advice".to_owned(),
        }
    }
}

} // verus!
