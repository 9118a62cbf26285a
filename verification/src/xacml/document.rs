//! XACML as an XML document.
//!
//! A policy or policy set of XACML is turned into the pieces of an XML
//! document: start tags with their attributes, text, and end tags. The
//! pieces are then written out as bytes.

use crate::ast::prescription::PrescriptionType;
use crate::errors::ParseError;
use crate::text::{opt_view, truth, truth_text};
use crate::xacml::xapply::XApply;
use crate::xacml::xattr_designator::XAttrDesignator;
use crate::xacml::xcondition::XCondition;
use crate::xacml::xexpression::XExpression;
use crate::xacml::xfunction::XFunction;
use crate::xacml::xpolicy::XPolicy;
use crate::xacml::xpolicyentry::XPolicyEntry;
use crate::xacml::xpolicyset::XPolicySet;
use crate::xacml::xprescription::{
    XAttrValue, XAttributeAssignment, XAttributeAssignmentArgument, XPrescriptionExpr,
    XPrescriptions,
};
use crate::xacml::xrule::XRule;
use crate::xacml::xtarget::{AllOf, AnyOf, XMatch, XTarget};
use crate::xacml::XTopPolicy;
use vstd::prelude::*;
use vstd::string::*;

verus! {

/// The prefix of the XACML namespace.
pub const XACML_PREFIX: &'static str = "xacml3";

/// The XACML namespace.
pub const XACML_NS: &'static str = "urn:oasis:names:tc:xacml:3.0:core:schema:wd-17";

/// The version that every policy and policy set is given.
pub const POLICY_VERSION: &'static str = "1.0";

/// One piece of an XML document.
#[derive(Debug, PartialEq, Eq)]
pub enum XmlPiece {
    /// A start tag: the name of the element with its prefix, the
    /// attributes as names and values, in order, and the namespaces that
    /// the element declares, as prefixes and URIs.
    Start { name: String, attributes: Vec<(String, String)>, namespaces: Vec<(String, String)> },
    /// Text between tags.
    Text(String),
    /// The end tag of the element that is open.
    End,
}

/// What a piece holds.
pub ghost enum PieceView {
    Start {
        name: Seq<char>,
        attributes: Seq<(Seq<char>, Seq<char>)>,
        namespaces: Seq<(Seq<char>, Seq<char>)>,
    },
    Text(Seq<char>),
    End,
}

/// What each pair of `v` holds.
pub open spec fn pairs_view(v: Seq<(String, String)>) -> Seq<(Seq<char>, Seq<char>)> {
    Seq::new(v.len(), |i: int| (v[i].0@, v[i].1@))
}

impl View for XmlPiece {
    type V = PieceView;

    open spec fn view(&self) -> PieceView {
        match self {
            XmlPiece::Start { name, attributes, namespaces } => PieceView::Start {
                name: name@,
                attributes: pairs_view(attributes@),
                namespaces: pairs_view(namespaces@),
            },
            XmlPiece::Text(t) => PieceView::Text(t@),
            XmlPiece::End => PieceView::End,
        }
    }
}

/// What each piece of `v` holds.
pub open spec fn pieces_view(v: Seq<XmlPiece>) -> Seq<PieceView> {
    Seq::new(v.len(), |i: int| v[i]@)
}

/// The start tag of the element `name` with `attributes`, which declares
/// no namespace.
pub open spec fn open_tag(name: Seq<char>, attributes: Seq<(Seq<char>, Seq<char>)>) -> PieceView {
    PieceView::Start { name, attributes, namespaces: Seq::empty() }
}

/// The start tag of the element `name` with `attributes`, which declares
/// the XACML namespace.
pub open spec fn root_tag(name: Seq<char>, attributes: Seq<(Seq<char>, Seq<char>)>) -> PieceView {
    PieceView::Start { name, attributes, namespaces: seq![(XACML_PREFIX@, XACML_NS@)] }
}

/// The element `name` with `attributes` around the pieces `inner`.
pub open spec fn element(
    name: Seq<char>,
    attributes: Seq<(Seq<char>, Seq<char>)>,
    inner: Seq<PieceView>,
) -> Seq<PieceView> {
    seq![open_tag(name, attributes)] + inner + seq![PieceView::End]
}

/// The element `name` with `attributes` around the text `text`.
pub open spec fn text_element(
    name: Seq<char>,
    attributes: Seq<(Seq<char>, Seq<char>)>,
    text: Seq<char>,
) -> Seq<PieceView> {
    element(name, attributes, seq![PieceView::Text(text)])
}

/// The `Description` element, for an element that has a description.
pub open spec fn description_pieces(d: Option<Seq<char>>) -> Seq<PieceView> {
    match d {
        Some(t) => text_element("xacml3:Description"@, Seq::empty(), t),
        None => Seq::empty(),
    }
}

/// The `AttributeValue` element of a literal: its type as the attribute
/// `DataType`, its value as text.
pub open spec fn value_pieces(type_uri: Seq<char>, value: Seq<char>) -> Seq<PieceView> {
    text_element("xacml3:AttributeValue"@, seq![("DataType"@, type_uri)], value)
}

/// The attribute `Issuer`, where an issuer is named.
pub open spec fn issuer_attribute(issuer: Option<Seq<char>>) -> Seq<(Seq<char>, Seq<char>)> {
    match issuer {
        Some(i) => seq![("Issuer"@, i)],
        None => Seq::empty(),
    }
}

/// The `AttributeDesignator` element of an expression: the attributes
/// `AttributeId`, `Category` and `DataType`, `Issuer` where an issuer is
/// named, and `MustBePresent`.
pub open spec fn designator_pieces(d: XAttrDesignator) -> Seq<PieceView> {
    let head = seq![("AttributeId"@, d.uri@), ("Category"@, d.category@), ("DataType"@, d.type_uri@)];
    element(
        "xacml3:AttributeDesignator"@,
        head + issuer_attribute(opt_view(d.issuer)) + seq![
            ("MustBePresent"@, truth_text(d.must_be_present)),
        ],
        Seq::empty(),
    )
}

/// The `Match` element: the literal, and then the attribute that it is
/// compared with; here `MustBePresent` stands before `Issuer`.
pub open spec fn match_pieces(m: XMatch) -> Seq<PieceView> {
    let head = seq![
        ("AttributeId"@, m.designator_id@),
        ("Category"@, m.designator_category@),
        ("DataType"@, m.designator_type@),
        ("MustBePresent"@, truth_text(m.must_be_present)),
    ];
    element(
        "xacml3:Match"@,
        seq![("MatchId"@, m.matchid@)],
        value_pieces(m.value_type@, m.value@) + element(
            "xacml3:AttributeDesignator"@,
            head + issuer_attribute(opt_view(m.issuer)),
            Seq::empty(),
        ),
    )
}

/// The pieces of the first `n` of `ms`.
pub open spec fn matches_pieces(ms: Seq<XMatch>, n: nat) -> Seq<PieceView>
    decreases n,
{
    if n == 0 || n > ms.len() {
        Seq::empty()
    } else {
        matches_pieces(ms, (n - 1) as nat) + match_pieces(ms[n - 1])
    }
}

/// The `AllOf` elements of the first `n` of `v`.
pub open spec fn allofs_pieces(v: Seq<AllOf>, n: nat) -> Seq<PieceView>
    decreases n,
{
    if n == 0 || n > v.len() {
        Seq::empty()
    } else {
        allofs_pieces(v, (n - 1) as nat) + element(
            "xacml3:AllOf"@,
            Seq::empty(),
            matches_pieces(v[n - 1].matches@, v[n - 1].matches@.len()),
        )
    }
}

/// The `AnyOf` elements of the first `n` of `v`.
pub open spec fn anyofs_pieces(v: Seq<AnyOf>, n: nat) -> Seq<PieceView>
    decreases n,
{
    if n == 0 || n > v.len() {
        Seq::empty()
    } else {
        anyofs_pieces(v, (n - 1) as nat) + element(
            "xacml3:AnyOf"@,
            Seq::empty(),
            allofs_pieces(v[n - 1].allofs@, v[n - 1].allofs@.len()),
        )
    }
}

/// The `Target` element, which is written for an empty target too.
pub open spec fn target_pieces(t: XTarget) -> Seq<PieceView> {
    element("xacml3:Target"@, Seq::empty(), anyofs_pieces(t.anyofs@, t.anyofs@.len()))
}

/// The pieces of the first `n` arguments of `a`.
pub open spec fn arguments_pieces(a: XApply, n: nat) -> Seq<PieceView>
    decreases a, n,
{
    if n == 0 || n > a.arguments@.len() {
        Seq::empty()
    } else {
        arguments_pieces(a, (n - 1) as nat) + expression_pieces(a.arguments@[n - 1])
    }
}

/// The element of an expression: `Apply` around the arguments, `Function`,
/// `AttributeValue` or `AttributeDesignator`.
pub open spec fn expression_pieces(e: XExpression) -> Seq<PieceView>
    decreases e, 0nat,
{
    match e {
        XExpression::Apply(a) => element(
            "xacml3:Apply"@,
            seq![("FunctionId"@, a.function_uri@)],
            arguments_pieces(a, a.arguments@.len()),
        ),
        XExpression::Function(f) => element(
            "xacml3:Function"@,
            seq![("FunctionId"@, f.function_uri@)],
            Seq::empty(),
        ),
        XExpression::Value(v) => value_pieces(v.v.type_uri@, v.v.value@),
        XExpression::Attrib(d) => designator_pieces(d),
    }
}

/// The `Condition` element around the expression.
pub open spec fn condition_pieces(c: Option<XCondition>) -> Seq<PieceView> {
    match c {
        Some(c) => element("xacml3:Condition"@, Seq::empty(), expression_pieces(c.expr)),
        None => Seq::empty(),
    }
}

/// The `AttributeAssignmentExpression` element around its value.
pub open spec fn assignment_pieces(a: XAttributeAssignment) -> Seq<PieceView> {
    element(
        "xacml3:AttributeAssignmentExpression"@,
        seq![("AttributeId"@, a.id@), ("Category"@, a.category@)],
        match a.arg {
            XAttributeAssignmentArgument::Value(v) => value_pieces(v.v.type_uri@, v.v.value@),
            XAttributeAssignmentArgument::Attrib(d) => designator_pieces(d),
        },
    )
}

/// The pieces of the first `n` of `v`.
pub open spec fn assignments_pieces(v: Seq<XAttributeAssignment>, n: nat) -> Seq<PieceView>
    decreases n,
{
    if n == 0 || n > v.len() {
        Seq::empty()
    } else {
        assignments_pieces(v, (n - 1) as nat) + assignment_pieces(v[n - 1])
    }
}

/// The element of an obligation or advice, with the effect on which it
/// applies, around its assignments.
pub open spec fn prescription_pieces(p: XPrescriptionExpr) -> Seq<PieceView> {
    let inner = assignments_pieces(p.assignments@, p.assignments@.len());
    match p.ptype {
        PrescriptionType::Advice => element(
            "xacml3:AdviceExpression"@,
            seq![("AdviceId"@, p.id@), ("AppliesTo"@, p.fulfill_on.display_text())],
            inner,
        ),
        PrescriptionType::Obligation => element(
            "xacml3:ObligationExpression"@,
            seq![("ObligationId"@, p.id@), ("FulfillOn"@, p.fulfill_on.display_text())],
            inner,
        ),
    }
}

/// The pieces of those of the first `n` of `v` that are of the kind
/// `kind`.
pub open spec fn kind_pieces(v: Seq<XPrescriptionExpr>, kind: PrescriptionType, n: nat) -> Seq<
    PieceView,
>
    decreases n,
{
    if n == 0 || n > v.len() {
        Seq::empty()
    } else if v[n - 1].ptype == kind {
        kind_pieces(v, kind, (n - 1) as nat) + prescription_pieces(v[n - 1])
    } else {
        kind_pieces(v, kind, (n - 1) as nat)
    }
}

/// Whether one of the first `n` of `v` is of the kind `kind`.
pub open spec fn has_kind(v: Seq<XPrescriptionExpr>, kind: PrescriptionType, n: nat) -> bool {
    exists|i: int| 0 <= i < n && i < v.len() && (#[trigger] v[i]).ptype == kind
}

/// The element `name` around those of `v` that are of the kind `kind`;
/// nothing where there are none.
pub open spec fn group_pieces(v: Seq<XPrescriptionExpr>, kind: PrescriptionType, name: Seq<char>) -> Seq<
    PieceView,
> {
    if has_kind(v, kind, v.len()) {
        element(name, Seq::empty(), kind_pieces(v, kind, v.len()))
    } else {
        Seq::empty()
    }
}

/// The obligations in `ObligationExpressions`, and then the advice in
/// `AdviceExpressions`.
pub open spec fn prescriptions_pieces(p: XPrescriptions) -> Seq<PieceView> {
    group_pieces(p.exprs@, PrescriptionType::Obligation, "xacml3:ObligationExpressions"@)
        + group_pieces(p.exprs@, PrescriptionType::Advice, "xacml3:AdviceExpressions"@)
}

/// The `Rule` element: description, target, condition, obligations and
/// advice.
pub open spec fn rule_pieces(r: XRule) -> Seq<PieceView> {
    element(
        "xacml3:Rule"@,
        seq![("Effect"@, r.effect@), ("RuleId"@, r.id@)],
        description_pieces(opt_view(r.description)) + target_pieces(r.target) + condition_pieces(
            r.condition,
        ) + prescriptions_pieces(r.prescriptions),
    )
}

/// The pieces of the first `n` of `v`.
pub open spec fn rules_pieces(v: Seq<XRule>, n: nat) -> Seq<PieceView>
    decreases n,
{
    if n == 0 || n > v.len() {
        Seq::empty()
    } else {
        rules_pieces(v, (n - 1) as nat) + rule_pieces(v[n - 1])
    }
}

/// The `Policy` element: description, target, rules, obligations and
/// advice.
pub open spec fn policy_pieces(p: XPolicy) -> Seq<PieceView> {
    seq![
        root_tag(
            "xacml3:Policy"@,
            seq![
                ("PolicyId"@, p.id@),
                ("RuleCombiningAlgId"@, p.combining_alg@),
                ("Version"@, POLICY_VERSION@),
            ],
        ),
    ] + (description_pieces(opt_view(p.description)) + target_pieces(p.target) + rules_pieces(
        p.rules@,
        p.rules@.len(),
    ) + prescriptions_pieces(p.prescriptions)) + seq![PieceView::End]
}

/// The pieces of a member of a policy set: a reference by identifier, or
/// the member itself.
pub open spec fn entry_pieces(e: XPolicyEntry) -> Seq<PieceView>
    decreases e, 0nat,
{
    match e {
        XPolicyEntry::PolicyIdRef(i) => text_element(
            "xacml3:PolicyIdReference"@,
            Seq::empty(),
            i@,
        ),
        XPolicyEntry::PolicySetIdRef(i) => text_element(
            "xacml3:PolicySetIdReference"@,
            Seq::empty(),
            i@,
        ),
        XPolicyEntry::Policy(p) => policy_pieces(p),
        XPolicyEntry::PolicySet(p) => policyset_pieces(p),
    }
}

/// The pieces of the first `n` members of `ps`.
pub open spec fn members_pieces(ps: XPolicySet, n: nat) -> Seq<PieceView>
    decreases ps, n,
{
    if n == 0 || n > ps.children@.len() {
        Seq::empty()
    } else {
        members_pieces(ps, (n - 1) as nat) + entry_pieces(ps.children@[n - 1])
    }
}

/// The `PolicySet` element: description, target, members, obligations and
/// advice.
pub open spec fn policyset_pieces(ps: XPolicySet) -> Seq<PieceView>
    decreases ps, ps.children@.len() + 1,
{
    seq![
        root_tag(
            "xacml3:PolicySet"@,
            seq![
                ("PolicySetId"@, ps.id@),
                ("PolicyCombiningAlgId"@, ps.combining_alg@),
                ("Version"@, POLICY_VERSION@),
            ],
        ),
    ] + (description_pieces(opt_view(ps.description)) + target_pieces(ps.target) + members_pieces(
        ps,
        ps.children@.len(),
    ) + prescriptions_pieces(ps.prescriptions)) + seq![PieceView::End]
}

/// The pieces of the document of a policy or policy set.
pub open spec fn document_pieces(top: XTopPolicy) -> Seq<PieceView> {
    match top {
        XTopPolicy::Policy(p) => policy_pieces(p),
        XTopPolicy::PolicySet(p) => policyset_pieces(p),
    }
}

fn pair(name: &str, value: &str) -> (r: (String, String))
    ensures
        r.0@ == name@,
        r.1@ == value@,
{
    (name.to_owned(), value.to_owned())
}

fn push_start(out: &mut Vec<XmlPiece>, name: &str, attributes: Vec<(String, String)>)
    ensures
        pieces_view(final(out)@) == pieces_view(old(out)@).push(
            open_tag(name@, pairs_view(attributes@)),
        ),
{
    let namespaces: Vec<(String, String)> = Vec::new();
    let piece = XmlPiece::Start { name: name.to_owned(), attributes, namespaces };
    proof {
        assert(pairs_view(namespaces@) =~= Seq::empty());
    }
    out.push(piece);
    proof {
        assert(pieces_view(out@) =~= pieces_view(old(out)@).push(piece@));
    }
}

fn push_root(out: &mut Vec<XmlPiece>, name: &str, attributes: Vec<(String, String)>)
    ensures
        pieces_view(final(out)@) == pieces_view(old(out)@).push(
            root_tag(name@, pairs_view(attributes@)),
        ),
{
    let mut namespaces: Vec<(String, String)> = Vec::new();
    namespaces.push(pair(XACML_PREFIX, XACML_NS));
    let piece = XmlPiece::Start { name: name.to_owned(), attributes, namespaces };
    proof {
        assert(pairs_view(namespaces@) =~= seq![(XACML_PREFIX@, XACML_NS@)]);
    }
    out.push(piece);
    proof {
        assert(pieces_view(out@) =~= pieces_view(old(out)@).push(piece@));
    }
}

fn push_text(out: &mut Vec<XmlPiece>, text: &str)
    ensures
        pieces_view(final(out)@) == pieces_view(old(out)@).push(PieceView::Text(text@)),
{
    let piece = XmlPiece::Text(text.to_owned());
    out.push(piece);
    proof {
        assert(pieces_view(out@) =~= pieces_view(old(out)@).push(piece@));
    }
}

fn push_end(out: &mut Vec<XmlPiece>)
    ensures
        pieces_view(final(out)@) == pieces_view(old(out)@).push(PieceView::End),
{
    out.push(XmlPiece::End);
    proof {
        assert(pieces_view(out@) =~= pieces_view(old(out)@).push(PieceView::End));
    }
}

fn no_attributes() -> (r: Vec<(String, String)>)
    ensures
        pairs_view(r@) == Seq::<(Seq<char>, Seq<char>)>::empty(),
{
    let r: Vec<(String, String)> = Vec::new();
    proof {
        assert(pairs_view(r@) =~= Seq::empty());
    }
    r
}

fn one_attribute(name: &str, value: &str) -> (r: Vec<(String, String)>)
    ensures
        pairs_view(r@) == seq![(name@, value@)],
{
    let mut r: Vec<(String, String)> = Vec::new();
    r.push(pair(name, value));
    proof {
        assert(pairs_view(r@) =~= seq![(name@, value@)]);
    }
    r
}

fn two_attributes(name: &str, value: &str, second: &str, second_value: &str) -> (r: Vec<
    (String, String),
>)
    ensures
        pairs_view(r@) == seq![(name@, value@), (second@, second_value@)],
{
    let mut r: Vec<(String, String)> = Vec::new();
    r.push(pair(name, value));
    r.push(pair(second, second_value));
    proof {
        assert(pairs_view(r@) =~= seq![(name@, value@), (second@, second_value@)]);
    }
    r
}

fn text_element_into(
    out: &mut Vec<XmlPiece>,
    name: &str,
    attributes: Vec<(String, String)>,
    text: &str,
)
    ensures
        pieces_view(final(out)@) == pieces_view(old(out)@) + text_element(
            name@,
            pairs_view(attributes@),
            text@,
        ),
{
    let ghost base = pieces_view(out@);
    let ghost attrs = pairs_view(attributes@);
    push_start(out, name, attributes);
    push_text(out, text);
    push_end(out);
    proof {
        assert(pieces_view(out@) =~= base + text_element(name@, attrs, text@));
    }
}

fn description_into(out: &mut Vec<XmlPiece>, d: &Option<String>)
    ensures
        pieces_view(final(out)@) == pieces_view(old(out)@) + description_pieces(opt_view(*d)),
{
    let ghost base = pieces_view(out@);
    match d {
        Some(t) => {
            text_element_into(out, "xacml3:Description", no_attributes(), t.as_str());
        },
        None => {
            proof {
                assert(pieces_view(out@) =~= base + Seq::<PieceView>::empty());
            }
        },
    }
}

fn value_into(out: &mut Vec<XmlPiece>, type_uri: &str, value: &str)
    ensures
        pieces_view(final(out)@) == pieces_view(old(out)@) + value_pieces(type_uri@, value@),
{
    text_element_into(out, "xacml3:AttributeValue", one_attribute("DataType", type_uri), value);
}

impl XAttrValue {
    /// Appends the `AttributeValue` element of the literal to `out`.
    pub fn write_xml(&self, out: &mut Vec<XmlPiece>)
        ensures
            pieces_view(final(out)@) == pieces_view(old(out)@) + value_pieces(
                self.v.type_uri@,
                self.v.value@,
            ),
    {
        value_into(out, self.v.type_uri.as_str(), self.v.value.as_str());
    }
}

impl XAttrDesignator {
    /// Appends the `AttributeDesignator` element to `out`.
    pub fn write_xml(&self, out: &mut Vec<XmlPiece>)
        ensures
            pieces_view(final(out)@) == pieces_view(old(out)@) + designator_pieces(*self),
    {
        let ghost base = pieces_view(out@);
        let mut attributes: Vec<(String, String)> = Vec::new();
        attributes.push(pair("AttributeId", self.uri.as_str()));
        attributes.push(pair("Category", self.category.as_str()));
        attributes.push(pair("DataType", self.type_uri.as_str()));
        if let Some(i) = &self.issuer {
            attributes.push(pair("Issuer", i.as_str()));
        }
        attributes.push(pair("MustBePresent", truth(self.must_be_present)));
        let ghost attrs = pairs_view(attributes@);
        proof {
            let head = seq![
                ("AttributeId"@, self.uri@),
                ("Category"@, self.category@),
                ("DataType"@, self.type_uri@),
            ];
            assert(attrs =~= head + issuer_attribute(opt_view(self.issuer)) + seq![
                ("MustBePresent"@, truth_text(self.must_be_present)),
            ]);
        }
        push_start(out, "xacml3:AttributeDesignator", attributes);
        push_end(out);
        proof {
            assert(pieces_view(out@) =~= base + designator_pieces(*self));
        }
    }
}

impl XMatch {
    /// Appends the `Match` element to `out`.
    pub fn write_xml(&self, out: &mut Vec<XmlPiece>)
        ensures
            pieces_view(final(out)@) == pieces_view(old(out)@) + match_pieces(*self),
    {
        let ghost base = pieces_view(out@);
        push_start(out, "xacml3:Match", one_attribute("MatchId", self.matchid.as_str()));
        value_into(out, self.value_type.as_str(), self.value.as_str());
        let mut attributes: Vec<(String, String)> = Vec::new();
        attributes.push(pair("AttributeId", self.designator_id.as_str()));
        attributes.push(pair("Category", self.designator_category.as_str()));
        attributes.push(pair("DataType", self.designator_type.as_str()));
        attributes.push(pair("MustBePresent", truth(self.must_be_present)));
        if let Some(i) = &self.issuer {
            attributes.push(pair("Issuer", i.as_str()));
        }
        let ghost attrs = pairs_view(attributes@);
        proof {
            let head = seq![
                ("AttributeId"@, self.designator_id@),
                ("Category"@, self.designator_category@),
                ("DataType"@, self.designator_type@),
                ("MustBePresent"@, truth_text(self.must_be_present)),
            ];
            assert(attrs =~= head + issuer_attribute(opt_view(self.issuer)));
        }
        push_start(out, "xacml3:AttributeDesignator", attributes);
        push_end(out);
        push_end(out);
        proof {
            assert(pieces_view(out@) =~= base + match_pieces(*self));
        }
    }
}

impl XTarget {
    /// Appends the `Target` element to `out`.
    pub fn write_xml(&self, out: &mut Vec<XmlPiece>)
        ensures
            pieces_view(final(out)@) == pieces_view(old(out)@) + target_pieces(*self),
    {
        let ghost base = pieces_view(out@);
        push_start(out, "xacml3:Target", no_attributes());
        let ghost after_target = pieces_view(out@);
        let mut i: usize = 0;
        while i < self.anyofs.len()
            invariant
                i <= self.anyofs.len(),
                pieces_view(out@) == after_target + anyofs_pieces(self.anyofs@, i as nat),
            decreases self.anyofs.len() - i,
        {
            let any = &self.anyofs[i];
            let ghost before_any = pieces_view(out@);
            push_start(out, "xacml3:AnyOf", no_attributes());
            let ghost after_any = pieces_view(out@);
            let mut j: usize = 0;
            while j < any.allofs.len()
                invariant
                    j <= any.allofs.len(),
                    pieces_view(out@) == after_any + allofs_pieces(any.allofs@, j as nat),
                decreases any.allofs.len() - j,
            {
                let all = &any.allofs[j];
                let ghost before_all = pieces_view(out@);
                push_start(out, "xacml3:AllOf", no_attributes());
                let ghost after_all = pieces_view(out@);
                let mut k: usize = 0;
                while k < all.matches.len()
                    invariant
                        k <= all.matches.len(),
                        pieces_view(out@) == after_all + matches_pieces(all.matches@, k as nat),
                    decreases all.matches.len() - k,
                {
                    all.matches[k].write_xml(out);
                    proof {
                        assert(pieces_view(out@) =~= after_all + matches_pieces(
                            all.matches@,
                            (k + 1) as nat,
                        ));
                    }
                    k = k + 1;
                }
                push_end(out);
                proof {
                    assert(pieces_view(out@) =~= after_any + allofs_pieces(
                        any.allofs@,
                        (j + 1) as nat,
                    ));
                }
                j = j + 1;
            }
            push_end(out);
            proof {
                assert(pieces_view(out@) =~= after_target + anyofs_pieces(
                    self.anyofs@,
                    (i + 1) as nat,
                ));
            }
            i = i + 1;
        }
        push_end(out);
        proof {
            assert(pieces_view(out@) =~= base + target_pieces(*self));
        }
    }
}

impl XFunction {
    /// Appends the `Function` element to `out`.
    pub fn write_xml(&self, out: &mut Vec<XmlPiece>)
        ensures
            pieces_view(final(out)@) == pieces_view(old(out)@) + expression_pieces(
                XExpression::Function(*self),
            ),
    {
        let ghost base = pieces_view(out@);
        push_start(out, "xacml3:Function", one_attribute("FunctionId", self.function_uri.as_str()));
        push_end(out);
        proof {
            assert(pieces_view(out@) =~= base + expression_pieces(XExpression::Function(*self)));
        }
    }
}

impl XExpression {
    /// Appends the element of the expression to `out`.
    #[verifier::loop_isolation(false)]
    pub fn write_xml(&self, out: &mut Vec<XmlPiece>)
        ensures
            pieces_view(final(out)@) == pieces_view(old(out)@) + expression_pieces(*self),
        decreases self,
    {
        let ghost base = pieces_view(out@);
        match self {
            XExpression::Value(v) => v.write_xml(out),
            XExpression::Attrib(a) => a.write_xml(out),
            XExpression::Function(f) => f.write_xml(out),
            XExpression::Apply(a) => {
                push_start(
                    out,
                    "xacml3:Apply",
                    one_attribute("FunctionId", a.function_uri.as_str()),
                );
                let ghost after_start = pieces_view(out@);
                let mut i: usize = 0;
                while i < a.arguments.len()
                    invariant
                        i <= a.arguments.len(),
                        pieces_view(out@) == after_start + arguments_pieces(*a, i as nat),
                    decreases a.arguments.len() - i,
                {
                    proof {
                        assert(decreases_to!(self => a.arguments@[i as int]));
                    }
                    a.arguments[i].write_xml(out);
                    proof {
                        assert(pieces_view(out@) =~= after_start + arguments_pieces(
                            *a,
                            (i + 1) as nat,
                        ));
                    }
                    i = i + 1;
                }
                push_end(out);
                proof {
                    assert(pieces_view(out@) =~= base + expression_pieces(*self));
                }
            },
        }
    }
}

impl XApply {
    /// Appends the `Apply` element, with the arguments in it, to `out`.
    pub fn write_xml(&self, out: &mut Vec<XmlPiece>)
        ensures
            pieces_view(final(out)@) == pieces_view(old(out)@) + element(
                "xacml3:Apply"@,
                seq![("FunctionId"@, self.function_uri@)],
                arguments_pieces(*self, self.arguments@.len()),
            ),
    {
        let ghost base = pieces_view(out@);
        push_start(out, "xacml3:Apply", one_attribute("FunctionId", self.function_uri.as_str()));
        let ghost after_start = pieces_view(out@);
        let mut i: usize = 0;
        while i < self.arguments.len()
            invariant
                i <= self.arguments.len(),
                pieces_view(out@) == after_start + arguments_pieces(*self, i as nat),
            decreases self.arguments.len() - i,
        {
            self.arguments[i].write_xml(out);
            proof {
                assert(pieces_view(out@) =~= after_start + arguments_pieces(*self, (i + 1) as nat));
            }
            i = i + 1;
        }
        push_end(out);
        proof {
            assert(pieces_view(out@) =~= base + element(
                "xacml3:Apply"@,
                seq![("FunctionId"@, self.function_uri@)],
                arguments_pieces(*self, self.arguments@.len()),
            ));
        }
    }
}

impl XCondition {
    /// Appends the `Condition` element to `out`.
    pub fn write_xml(&self, out: &mut Vec<XmlPiece>)
        ensures
            pieces_view(final(out)@) == pieces_view(old(out)@) + condition_pieces(Some(*self)),
    {
        let ghost base = pieces_view(out@);
        push_start(out, "xacml3:Condition", no_attributes());
        self.expr.write_xml(out);
        push_end(out);
        proof {
            assert(pieces_view(out@) =~= base + condition_pieces(Some(*self)));
        }
    }
}

impl XAttributeAssignment {
    /// Appends the `AttributeAssignmentExpression` element to `out`.
    pub fn write_xml(&self, out: &mut Vec<XmlPiece>)
        ensures
            pieces_view(final(out)@) == pieces_view(old(out)@) + assignment_pieces(*self),
    {
        let ghost base = pieces_view(out@);
        push_start(
            out,
            "xacml3:AttributeAssignmentExpression",
            two_attributes("AttributeId", self.id.as_str(), "Category", self.category.as_str()),
        );
        match &self.arg {
            XAttributeAssignmentArgument::Value(v) => v.write_xml(out),
            XAttributeAssignmentArgument::Attrib(d) => d.write_xml(out),
        }
        push_end(out);
        proof {
            assert(pieces_view(out@) =~= base + assignment_pieces(*self));
        }
    }
}

impl XPrescriptionExpr {
    /// Appends the element of the obligation or advice to `out`.
    pub fn write_xml(&self, out: &mut Vec<XmlPiece>)
        ensures
            pieces_view(final(out)@) == pieces_view(old(out)@) + prescription_pieces(*self),
    {
        let ghost base = pieces_view(out@);
        let effect = self.fulfill_on.to_string();
        match self.ptype {
            PrescriptionType::Advice => {
                push_start(
                    out,
                    "xacml3:AdviceExpression",
                    two_attributes("AdviceId", self.id.as_str(), "AppliesTo", effect.as_str()),
                );
            },
            PrescriptionType::Obligation => {
                push_start(
                    out,
                    "xacml3:ObligationExpression",
                    two_attributes("ObligationId", self.id.as_str(), "FulfillOn", effect.as_str()),
                );
            },
        }
        let ghost after_start = pieces_view(out@);
        let mut i: usize = 0;
        while i < self.assignments.len()
            invariant
                i <= self.assignments.len(),
                pieces_view(out@) == after_start + assignments_pieces(self.assignments@, i as nat),
            decreases self.assignments.len() - i,
        {
            self.assignments[i].write_xml(out);
            proof {
                assert(pieces_view(out@) =~= after_start + assignments_pieces(
                    self.assignments@,
                    (i + 1) as nat,
                ));
            }
            i = i + 1;
        }
        push_end(out);
        proof {
            assert(pieces_view(out@) =~= base + prescription_pieces(*self));
        }
    }
}

fn group_into(out: &mut Vec<XmlPiece>, v: &Vec<XPrescriptionExpr>, kind: PrescriptionType, name: &str)
    ensures
        pieces_view(final(out)@) == pieces_view(old(out)@) + group_pieces(v@, kind, name@),
{
    let ghost base = pieces_view(out@);
    let mut found = false;
    let mut i: usize = 0;
    while i < v.len()
        invariant
            i <= v.len(),
            found == has_kind(v@, kind, i as nat),
            pieces_view(out@) == base + (if found {
                seq![open_tag(name@, Seq::empty())] + kind_pieces(v@, kind, i as nat)
            } else {
                Seq::empty()
            }),
            !found ==> kind_pieces(v@, kind, i as nat) == Seq::<PieceView>::empty(),
        decreases v.len() - i,
    {
        if v[i].ptype == kind {
            if !found {
                push_start(out, name, no_attributes());
                found = true;
            }
            v[i].write_xml(out);
        }
        proof {
            assert(has_kind(v@, kind, (i + 1) as nat) == (has_kind(v@, kind, i as nat) || v@[i as int].ptype == kind)) by {
                if has_kind(v@, kind, (i + 1) as nat) {
                    let w = choose|w: int| 0 <= w < i + 1 && w < v@.len() && (#[trigger] v@[w]).ptype == kind;
                    if w < i {
                        assert(has_kind(v@, kind, i as nat));
                    }
                }
                if v@[i as int].ptype == kind {
                    assert(has_kind(v@, kind, (i + 1) as nat));
                }
                if has_kind(v@, kind, i as nat) {
                    let w = choose|w: int| 0 <= w < i && w < v@.len() && (#[trigger] v@[w]).ptype == kind;
                    assert(0 <= w < i + 1 && v@[w].ptype == kind);
                }
            }
            assert(pieces_view(out@) =~= base + (if found {
                seq![open_tag(name@, Seq::empty())] + kind_pieces(v@, kind, (i + 1) as nat)
            } else {
                Seq::empty()
            }));
        }
        i = i + 1;
    }
    if found {
        push_end(out);
    }
    proof {
        assert(pieces_view(out@) =~= base + group_pieces(v@, kind, name@));
    }
}

impl XPrescriptions {
    /// Appends the obligations, in `ObligationExpressions`, and the
    /// advice, in `AdviceExpressions`, to `out`; neither element is
    /// written empty.
    pub fn write_xml(&self, out: &mut Vec<XmlPiece>)
        ensures
            pieces_view(final(out)@) == pieces_view(old(out)@) + prescriptions_pieces(*self),
    {
        let ghost base = pieces_view(out@);
        group_into(out, &self.exprs, PrescriptionType::Obligation, "xacml3:ObligationExpressions");
        group_into(out, &self.exprs, PrescriptionType::Advice, "xacml3:AdviceExpressions");
        proof {
            assert(pieces_view(out@) =~= base + prescriptions_pieces(*self));
        }
    }
}

impl XRule {
    /// Appends the `Rule` element to `out`.
    pub fn write_xml(&self, out: &mut Vec<XmlPiece>)
        ensures
            pieces_view(final(out)@) == pieces_view(old(out)@) + rule_pieces(*self),
    {
        let ghost base = pieces_view(out@);
        push_start(
            out,
            "xacml3:Rule",
            two_attributes("Effect", self.effect.as_str(), "RuleId", self.id.as_str()),
        );
        description_into(out, &self.description);
        self.target.write_xml(out);
        let ghost before_condition = pieces_view(out@);
        match &self.condition {
            Some(c) => c.write_xml(out),
            None => {
                proof {
                    assert(pieces_view(out@) =~= before_condition + condition_pieces(None));
                }
            },
        }
        self.prescriptions.write_xml(out);
        push_end(out);
        proof {
            assert(pieces_view(out@) =~= base + rule_pieces(*self));
        }
    }
}

fn policy_attributes(id_name: &str, id: &str, alg_name: &str, alg: &str) -> (r: Vec<(String, String)>)
    ensures
        pairs_view(r@) == seq![(id_name@, id@), (alg_name@, alg@), ("Version"@, POLICY_VERSION@)],
{
    let mut r: Vec<(String, String)> = Vec::new();
    r.push(pair(id_name, id));
    r.push(pair(alg_name, alg));
    r.push(pair("Version", POLICY_VERSION));
    proof {
        assert(pairs_view(r@) =~= seq![
            (id_name@, id@),
            (alg_name@, alg@),
            ("Version"@, POLICY_VERSION@),
        ]);
    }
    r
}

impl XPolicy {
    /// Appends the `Policy` element to `out`.
    pub fn write_xml(&self, out: &mut Vec<XmlPiece>)
        ensures
            pieces_view(final(out)@) == pieces_view(old(out)@) + policy_pieces(*self),
    {
        let ghost base = pieces_view(out@);
        push_root(
            out,
            "xacml3:Policy",
            policy_attributes(
                "PolicyId",
                self.id.as_str(),
                "RuleCombiningAlgId",
                self.combining_alg.as_str(),
            ),
        );
        description_into(out, &self.description);
        self.target.write_xml(out);
        let ghost before_rules = pieces_view(out@);
        let mut i: usize = 0;
        while i < self.rules.len()
            invariant
                i <= self.rules.len(),
                pieces_view(out@) == before_rules + rules_pieces(self.rules@, i as nat),
            decreases self.rules.len() - i,
        {
            self.rules[i].write_xml(out);
            proof {
                assert(pieces_view(out@) =~= before_rules + rules_pieces(
                    self.rules@,
                    (i + 1) as nat,
                ));
            }
            i = i + 1;
        }
        self.prescriptions.write_xml(out);
        push_end(out);
        proof {
            assert(pieces_view(out@) =~= base + policy_pieces(*self));
        }
    }
}

impl XPolicyEntry {
    /// Appends the pieces of the member to `out`.
    pub fn write_xml(&self, out: &mut Vec<XmlPiece>)
        ensures
            pieces_view(final(out)@) == pieces_view(old(out)@) + entry_pieces(*self),
        decreases self, 0nat,
    {
        match self {
            XPolicyEntry::PolicyIdRef(i) => {
                text_element_into(out, "xacml3:PolicyIdReference", no_attributes(), i.as_str());
            },
            XPolicyEntry::PolicySetIdRef(i) => {
                text_element_into(out, "xacml3:PolicySetIdReference", no_attributes(), i.as_str());
            },
            XPolicyEntry::Policy(p) => p.write_xml(out),
            XPolicyEntry::PolicySet(p) => p.write_xml(out),
        }
    }
}

impl XPolicySet {
    /// Appends the `PolicySet` element, with all that the policy set
    /// holds, to `out`.
    #[verifier::loop_isolation(false)]
    pub fn write_xml(&self, out: &mut Vec<XmlPiece>)
        ensures
            pieces_view(final(out)@) == pieces_view(old(out)@) + policyset_pieces(*self),
        decreases self, 1nat,
    {
        let ghost base = pieces_view(out@);
        push_root(
            out,
            "xacml3:PolicySet",
            policy_attributes(
                "PolicySetId",
                self.id.as_str(),
                "PolicyCombiningAlgId",
                self.combining_alg.as_str(),
            ),
        );
        description_into(out, &self.description);
        self.target.write_xml(out);
        let ghost before_members = pieces_view(out@);
        let mut i: usize = 0;
        while i < self.children.len()
            invariant
                i <= self.children.len(),
                pieces_view(out@) == before_members + members_pieces(*self, i as nat),
            decreases self.children.len() - i,
        {
            proof {
                assert(decreases_to!(self => self.children@[i as int]));
            }
            self.children[i].write_xml(out);
            proof {
                assert(pieces_view(out@) =~= before_members + members_pieces(*self, (i + 1) as nat));
            }
            i = i + 1;
        }
        self.prescriptions.write_xml(out);
        push_end(out);
        proof {
            assert(pieces_view(out@) =~= base + policyset_pieces(*self));
        }
    }
}

/// An element of XACML that is the document of a file: it can be written
/// as XML.
pub trait XacmlWriter {
    /// The pieces of the element.
    spec fn pieces(&self) -> Seq<PieceView>;

    /// Appends the pieces of the element to `out`.
    fn write_xml(&self, out: &mut Vec<XmlPiece>)
        ensures
            pieces_view(final(out)@) == pieces_view(old(out)@) + self.pieces(),
    ;
}

impl XacmlWriter for XPolicy {
    open spec fn pieces(&self) -> Seq<PieceView> {
        policy_pieces(*self)
    }

    fn write_xml(&self, out: &mut Vec<XmlPiece>) {
        XPolicy::write_xml(self, out)
    }
}

impl XacmlWriter for XPolicySet {
    open spec fn pieces(&self) -> Seq<PieceView> {
        policyset_pieces(*self)
    }

    fn write_xml(&self, out: &mut Vec<XmlPiece>) {
        XPolicySet::write_xml(self, out)
    }
}

impl XTopPolicy {
    /// The pieces of the document of the policy or policy set, in order.
    pub fn xml_pieces(&self) -> (r: Vec<XmlPiece>)
        ensures
            pieces_view(r@) == document_pieces(*self),
    {
        let mut out: Vec<XmlPiece> = Vec::new();
        proof {
            assert(pieces_view(out@) =~= Seq::empty());
        }
        match self {
            XTopPolicy::Policy(p) => p.write_xml(&mut out),
            XTopPolicy::PolicySet(p) => p.write_xml(&mut out),
        }
        proof {
            assert(pieces_view(out@) =~= document_pieces(*self));
        }
        out
    }
}

/// The writer of the `xml` crate that turns pieces into text.
#[verifier::external_type_specification]
#[verifier::external_body]
#[verifier::reject_recursive_types(W)]
pub struct ExEventWriter<W>(xml::writer::EventWriter<W>);

/// The error of the writer of the `xml` crate.
#[verifier::external_type_specification]
#[verifier::external_body]
pub struct ExEmitterError(xml::writer::Error);

/// The pieces that were written to `w` since it was made, in order, where
/// every one of them was taken; `None` once a piece was refused.
pub uninterp spec fn written(w: xml::writer::EventWriter<Vec<u8>>) -> Option<Seq<PieceView>>;

/// The bytes that the writer of the `xml` crate, set to indent, gives for
/// the pieces `pieces`.
pub uninterp spec fn rendered(pieces: Seq<PieceView>) -> Seq<u8>;

/// Makes a writer into memory with `xml::writer::EmitterConfig::new`, set
/// to indent with `perform_indent`, and `create_writer`. Nothing is
/// written to it yet.
#[verifier::external_body]
fn new_writer() -> (w: xml::writer::EventWriter<Vec<u8>>)
    ensures
        written(w) == Some(Seq::<PieceView>::empty()),
{
    xml::writer::EmitterConfig::new().perform_indent(true).create_writer(Vec::new())
}

/// Writes a start tag with `xml::writer::EventWriter::write`: the event is
/// built with `XmlEvent::start_element`, the attributes are given to it in
/// order with `attr`, the namespaces with `ns`. Where the writer takes
/// the event, it is the next of the written pieces.
#[verifier::external_body]
fn write_start(
    w: &mut xml::writer::EventWriter<Vec<u8>>,
    name: &str,
    attributes: &Vec<(String, String)>,
    namespaces: &Vec<(String, String)>,
) -> (r: Result<(), xml::writer::Error>)
    ensures
        r is Ok ==> (written(*old(w)) matches Some(s) ==> written(*final(w)) == Some(
            s.push(
                PieceView::Start {
                    name: name@,
                    attributes: pairs_view(attributes@),
                    namespaces: pairs_view(namespaces@),
                },
            ),
        )),
{
    let mut event = xml::writer::XmlEvent::start_element(name);
    for (key, value) in attributes {
        event = event.attr(key.as_str(), value.as_str());
    }
    for (prefix, uri) in namespaces {
        event = event.ns(prefix.as_str(), uri.as_str());
    }
    w.write(event)
}

/// Writes text with `xml::writer::EventWriter::write`, as the event
/// `XmlEvent::characters`. Where the writer takes the event, it is the
/// next of the written pieces.
#[verifier::external_body]
fn write_text(w: &mut xml::writer::EventWriter<Vec<u8>>, text: &str) -> (r: Result<
    (),
    xml::writer::Error,
>)
    ensures
        r is Ok ==> (written(*old(w)) matches Some(s) ==> written(*final(w)) == Some(
            s.push(PieceView::Text(text@)),
        )),
{
    w.write(xml::writer::XmlEvent::characters(text))
}

/// Writes an end tag with `xml::writer::EventWriter::write`, as the event
/// `XmlEvent::end_element` without a name: the writer closes the element
/// that is open. Where the writer takes the event, it is the next of the
/// written pieces.
#[verifier::external_body]
fn write_end(w: &mut xml::writer::EventWriter<Vec<u8>>) -> (r: Result<(), xml::writer::Error>)
    ensures
        r is Ok ==> (written(*old(w)) matches Some(s) ==> written(*final(w)) == Some(
            s.push(PieceView::End),
        )),
{
    w.write(xml::writer::XmlEvent::end_element())
}

/// Takes the bytes out of the writer with
/// `xml::writer::EventWriter::into_inner`: what the writer gives for the
/// pieces that were written.
#[verifier::external_body]
fn finish(w: xml::writer::EventWriter<Vec<u8>>) -> (r: Vec<u8>)
    ensures
        written(w) matches Some(s) ==> r@ == rendered(s),
{
    w.into_inner()
}

/// What becomes of an answer of the writer: a piece that was taken is
/// passed over, and a refusal is reported as `XacmlWriteIoError`.
pub fn written_or_failed(answer: Result<(), xml::writer::Error>) -> (r: Result<(), ParseError>)
    ensures
        answer is Ok ==> r is Ok,
        answer is Err ==> r == Err::<(), ParseError>(ParseError::XacmlWriteIoError),
{
    match answer {
        Ok(_) => Ok(()),
        Err(_) => Err(ParseError::XacmlWriteIoError),
    }
}

/// The XML text of `pieces`, indented, as bytes. Fails with
/// `XacmlWriteIoError` where the writer refuses a piece.
pub fn render(pieces: &Vec<XmlPiece>) -> (r: Result<Vec<u8>, ParseError>)
    ensures
        match r {
            Ok(bytes) => bytes@ == rendered(pieces_view(pieces@)),
            Err(e) => e == ParseError::XacmlWriteIoError,
        },
{
    let mut w = new_writer();
    let mut i: usize = 0;
    proof {
        assert(pieces_view(pieces@).take(0) =~= Seq::empty());
    }
    while i < pieces.len()
        invariant
            i <= pieces.len(),
            written(w) == Some(pieces_view(pieces@).take(i as int)),
        decreases pieces.len() - i,
    {
        let answer = match &pieces[i] {
            XmlPiece::Start { name, attributes, namespaces } => write_start(
                &mut w,
                name.as_str(),
                attributes,
                namespaces,
            ),
            XmlPiece::Text(t) => write_text(&mut w, t.as_str()),
            XmlPiece::End => write_end(&mut w),
        };
        written_or_failed(answer)?;
        proof {
            assert(pieces_view(pieces@).take(i + 1) =~= pieces_view(pieces@).take(i as int).push(
                pieces@[i as int]@,
            ));
        }
        i = i + 1;
    }
    proof {
        assert(pieces_view(pieces@).take(pieces.len() as int) =~= pieces_view(pieces@));
    }
    Ok(finish(w))
}

impl XTopPolicy {
    /// The document of the policy or policy set as XML text: the pieces
    /// of `document_pieces`, written out. Fails with `XacmlWriteIoError`
    /// where the writer refuses a piece.
    pub fn to_xml(&self) -> (r: Result<Vec<u8>, ParseError>)
        ensures
            match r {
                Ok(bytes) => bytes@ == rendered(document_pieces(*self)),
                Err(e) => e == ParseError::XacmlWriteIoError,
            },
    {
        let pieces = self.xml_pieces();
        render(&pieces)
    }
}

} // verus!
