//! Errors of a compilation, and the places in the source that they point at.

use vstd::prelude::*;
use vstd::string::*;

verus! {

/// A place in a named source text: a byte offset and a length.
#[derive(Debug, PartialEq, Eq)]
pub struct SrcLoc {
    /// The name of the source, most often a file name.
    pub src_name: String,
    /// Where the span starts, in bytes from the start of the source.
    pub offset: usize,
    /// How many bytes the span covers.
    pub length: usize,
}

/// What a `SrcLoc` holds, as plain values.
pub ghost struct SrcLocView {
    pub src_name: Seq<char>,
    pub offset: nat,
    pub length: nat,
}

impl View for SrcLoc {
    type V = SrcLocView;

    open spec fn view(&self) -> SrcLocView {
        SrcLocView {
            src_name: self.src_name@,
            offset: self.offset as nat,
            length: self.length as nat,
        }
    }
}

impl Clone for SrcLoc {
    fn clone(&self) -> (r: Self)
        ensures
            r@ == self@,
    {
        SrcLoc { src_name: self.src_name.clone(), offset: self.offset, length: self.length }
    }
}

impl Default for SrcLoc {
    /// An empty span at the start of a source named `<default>`.
    fn default() -> (r: Self)
        ensures
            r@ == (SrcLocView { src_name: "<default>"@, offset: 0, length: 0 }),
    {
        SrcLoc { src_name: "<default>".to_owned(), offset: 0, length: 0 }
    }
}

impl SrcLoc {
    /// The span of `length` bytes at `offset` in the source `src_name`.
    pub fn new(src_name: &str, offset: usize, length: usize) -> (r: Self)
        ensures
            r@ == (SrcLocView { src_name: src_name@, offset: offset as nat, length: length as nat }),
    {
        SrcLoc { src_name: src_name.to_owned(), offset, length }
    }

    /// The name of the source.
    pub fn get_src(&self) -> (r: &String)
        ensures
            r@ == self@.src_name,
    {
        &self.src_name
    }

    /// The span, as offset and length.
    pub fn get_span(&self) -> (r: (usize, usize))
        ensures
            r.0 == self.offset,
            r.1 == self.length,
    {
        (self.offset, self.length)
    }

    /// The span from `start_pos` up to `end_pos` in the same source.
    pub fn with_start_end(&self, start_pos: usize, end_pos: usize) -> (r: Self)
        requires
            start_pos <= end_pos,
        ensures
            r@ == (SrcLocView {
                src_name: self@.src_name,
                offset: start_pos as nat,
                length: (end_pos - start_pos) as nat,
            }),
    {
        SrcLoc { src_name: self.src_name.clone(), offset: start_pos, length: end_pos - start_pos }
    }

    /// The given span in the same source.
    pub fn with_new_span(&self, offset: usize, length: usize) -> (r: Self)
        ensures
            r@ == (SrcLocView {
                src_name: self@.src_name,
                offset: offset as nat,
                length: length as nat,
            }),
    {
        SrcLoc { src_name: self.src_name.clone(), offset, length }
    }
}

/// The bytes that `miette` reads from `source` for the span of `length`
/// bytes at `offset`, without lines of context around it; `None` where it
/// finds that the span does not lie in the source.
pub uninterp spec fn span_contents(source: Seq<u8>, offset: nat, length: nat) -> Option<Seq<u8>>;

/// Reads a span with `miette::SourceCode::read_span` on a byte slice, with
/// no lines of context before or after, and copies the bytes that it
/// returns. The result is a function of the bytes and the span; nothing
/// more is claimed of it. A span that starts behind the end of the source,
/// or whose end is no `usize`, is not read.
#[verifier::external_body]
fn read_span(source: &[u8], offset: usize, length: usize) -> (r: Option<Vec<u8>>)
    requires
        offset <= source@.len(),
        offset + length <= usize::MAX,
    ensures
        match r {
            Some(v) => span_contents(source@, offset as nat, length as nat) == Some(v@),
            None => span_contents(source@, offset as nat, length as nat) is None,
        },
{
    let span = miette::SourceSpan::from((offset, length));
    match miette::SourceCode::read_span(source, &span, 0, 0) {
        Ok(contents) => Some(contents.data().to_vec()),
        Err(_) => None,
    }
}

/// White space of ASCII: tab, line feed, form feed, carriage return and
/// space.
pub open spec fn ascii_white(b: u8) -> bool {
    b == 9 || b == 10 || b == 12 || b == 13 || b == 32
}

/// The number of bytes of `b` up to the last that is no white space.
pub open spec fn trimmed_len(b: Seq<u8>) -> nat
    decreases b.len(),
{
    if b.len() > 0 && ascii_white(b.last()) {
        trimmed_len(b.drop_last())
    } else {
        b.len()
    }
}

/// The number of bytes of `b` up to the last that is no white space.
pub fn trimmed_length(b: &[u8]) -> (r: usize)
    ensures
        r == trimmed_len(b@),
{
    let mut n: usize = b.len();
    proof {
        assert(b@.take(n as int) =~= b@);
    }
    while n > 0 && (b[n - 1] == 9 || b[n - 1] == 10 || b[n - 1] == 12 || b[n - 1] == 13 || b[n - 1]
        == 32)
        invariant
            n <= b.len(),
            trimmed_len(b@) == trimmed_len(b@.take(n as int)),
        decreases n,
    {
        proof {
            assert(b@.take(n as int).drop_last() =~= b@.take(n - 1));
        }
        n = n - 1;
    }
    n
}

impl SrcLoc {
    /// The place `self` with the white space at the end of `contents` left
    /// out of its span; the place itself where there are no contents.
    pub open spec fn trimmed_to(&self, contents: Option<Seq<u8>>) -> SrcLocView {
        match contents {
            Some(b) => SrcLocView { length: trimmed_len(b), ..self@ },
            None => self@,
        }
    }

    /// Shortens the span to the bytes of `contents`, what was read for it,
    /// without the white space at their end. Without contents the span
    /// stays.
    pub fn trim_to(&mut self, contents: &Option<Vec<u8>>)
        ensures
            final(self)@ == old(self).trimmed_to(
                match *contents {
                    Some(v) => Some(v@),
                    None => None,
                },
            ),
    {
        if let Some(b) = contents {
            self.length = trimmed_length(b.as_slice());
        }
    }

    /// Leaves the white space at the end of the span out of it: the span
    /// is read from `source`, the text that the place lies in, and
    /// shortened to what was read without the white space at its end. A
    /// span that cannot be read stays.
    pub fn trim_trailing_whitespace(&mut self, source: &[u8])
        requires
            old(self).offset <= source@.len(),
            old(self).offset + old(self).length <= usize::MAX,
        ensures
            final(self)@ == old(self).trimmed_to(
                span_contents(source@, old(self).offset as nat, old(self).length as nat),
            ),
    {
        let contents = read_span(source, self.offset, self.length);
        self.trim_to(&contents);
    }
}

/// An error that points at a place in the source.
#[derive(Debug, PartialEq, Eq)]
pub struct SrcError {
    /// What went wrong.
    pub msg: String,
    /// A short label for the place.
    pub label: String,
    /// The place.
    pub src_loc: SrcLoc,
}

impl SrcError {
    /// An error with message `msg` that labels `src_loc` with `label`.
    pub fn new(msg: &str, label: &str, src_loc: SrcLoc) -> (r: Self)
        ensures
            r.msg@ == msg@,
            r.label@ == label@,
            r.src_loc == src_loc,
    {
        SrcError { msg: msg.to_owned(), label: label.to_owned(), src_loc }
    }
}

impl Clone for SrcError {
    fn clone(&self) -> (r: Self)
        ensures
            r.msg@ == self.msg@,
            r.label@ == self.label@,
            r.src_loc@ == self.src_loc@,
    {
        SrcError {
            msg: self.msg.clone(),
            label: self.label.clone(),
            src_loc: self.src_loc.clone(),
        }
    }
}

/// The kinds of failure, without what they carry.
#[derive(Debug, Clone, Copy, PartialEq, Eq, Structural)]
pub enum ErrorKind {
    SyntaxError,
    AstConvertError,
    UnexpectedRuleError,
    DuplicateSymbol,
    SymbolNotFound,
    AmbiguousImport,
    DuplicateInfixModifier,
    DuplicateRuleEffect,
    DuplicateTarget,
    DuplicateCondition,
    MissingApplyStatement,
    CommutativeWithInverseError,
    ReversedInfixArgsNotCommutativeError,
    InverseInfixNotFound,
    InfixBagsDisallowed,
    InfixBagsBooleanRequired,
    InfixNoMatchingSignature,
    ConditionBooleanRequired,
    XacmlWriteIoError,
    XacmlMissingFilename,
    DuplicateURI,
    PolicySetNoCondition,
    PolicyNoCondition,
    PolicyHasCondition,
    DuplicatePolicyEntity,
}

/// A failure of parsing, of resolving a name, of typing or of rewriting.
#[derive(Debug, PartialEq, Eq)]
pub enum ParseError {
    /// The text does not follow the grammar; the string says where.
    SyntaxError(String),
    /// A tree could not be turned into the next form.
    AstConvertError,
    /// A statement stands where it is not allowed.
    UnexpectedRuleError(String),
    /// A name was declared twice for one kind of declaration.
    DuplicateSymbol(String),
    /// No rule of name resolution found the symbol.
    SymbolNotFound(SrcError),
    /// Import statements lead to more than one declaration.
    AmbiguousImport(String),
    /// An infix declaration repeats a modifier.
    DuplicateInfixModifier,
    /// A rule states its effect twice.
    DuplicateRuleEffect,
    /// A second target statement.
    DuplicateTarget,
    /// A second condition statement.
    DuplicateCondition,
    /// A policy or policy set without a combining algorithm.
    MissingApplyStatement(SrcError),
    /// A commutative operator that also names an inverse.
    CommutativeWithInverseError,
    /// Operands in reverse order for an operator that can not be turned round.
    ReversedInfixArgsNotCommutativeError,
    /// The operator names no inverse.
    InverseInfixNotFound,
    /// A bag operand for an operator that does not take bags.
    InfixBagsDisallowed,
    /// A bag operand for an operator whose result is not a boolean.
    InfixBagsBooleanRequired,
    /// No signature of the operator fits the operand types.
    InfixNoMatchingSignature,
    /// A condition whose type is not the atomic boolean.
    ConditionBooleanRequired(SrcError),
    /// The XML text of a policy could not be written.
    XacmlWriteIoError,
    /// A policy without a file name.
    XacmlMissingFilename,
    /// An identifier given to two policies or policy sets.
    DuplicateURI(String),
    /// A policy set without a condition can not be deconditioned.
    PolicySetNoCondition,
    /// A policy without a condition can not be deconditioned.
    PolicyNoCondition,
    /// A policy with a condition is no XACML policy.
    PolicyHasCondition,
    /// A policy and a policy set share one name.
    DuplicatePolicyEntity(String),
}

impl ParseError {
    /// The kind of this error.
    pub open spec fn spec_kind(&self) -> ErrorKind {
        match self {
            ParseError::SyntaxError(_) => ErrorKind::SyntaxError,
            ParseError::AstConvertError => ErrorKind::AstConvertError,
            ParseError::UnexpectedRuleError(_) => ErrorKind::UnexpectedRuleError,
            ParseError::DuplicateSymbol(_) => ErrorKind::DuplicateSymbol,
            ParseError::SymbolNotFound(_) => ErrorKind::SymbolNotFound,
            ParseError::AmbiguousImport(_) => ErrorKind::AmbiguousImport,
            ParseError::DuplicateInfixModifier => ErrorKind::DuplicateInfixModifier,
            ParseError::DuplicateRuleEffect => ErrorKind::DuplicateRuleEffect,
            ParseError::DuplicateTarget => ErrorKind::DuplicateTarget,
            ParseError::DuplicateCondition => ErrorKind::DuplicateCondition,
            ParseError::MissingApplyStatement(_) => ErrorKind::MissingApplyStatement,
            ParseError::CommutativeWithInverseError => ErrorKind::CommutativeWithInverseError,
            ParseError::ReversedInfixArgsNotCommutativeError => {
                ErrorKind::ReversedInfixArgsNotCommutativeError
            },
            ParseError::InverseInfixNotFound => ErrorKind::InverseInfixNotFound,
            ParseError::InfixBagsDisallowed => ErrorKind::InfixBagsDisallowed,
            ParseError::InfixBagsBooleanRequired => ErrorKind::InfixBagsBooleanRequired,
            ParseError::InfixNoMatchingSignature => ErrorKind::InfixNoMatchingSignature,
            ParseError::ConditionBooleanRequired(_) => ErrorKind::ConditionBooleanRequired,
            ParseError::XacmlWriteIoError => ErrorKind::XacmlWriteIoError,
            ParseError::XacmlMissingFilename => ErrorKind::XacmlMissingFilename,
            ParseError::DuplicateURI(_) => ErrorKind::DuplicateURI,
            ParseError::PolicySetNoCondition => ErrorKind::PolicySetNoCondition,
            ParseError::PolicyNoCondition => ErrorKind::PolicyNoCondition,
            ParseError::PolicyHasCondition => ErrorKind::PolicyHasCondition,
            ParseError::DuplicatePolicyEntity(_) => ErrorKind::DuplicatePolicyEntity,
        }
    }

    /// The place in the source that this error points at, if it carries one.
    pub open spec fn spec_location(&self) -> Option<SrcLocView> {
        match self {
            ParseError::SymbolNotFound(e) => Some(e.src_loc@),
            ParseError::MissingApplyStatement(e) => Some(e.src_loc@),
            ParseError::ConditionBooleanRequired(e) => Some(e.src_loc@),
            _ => None,
        }
    }

    /// The kind of this error.
    #[verifier::when_used_as_spec(spec_kind)]
    pub fn kind(&self) -> (r: ErrorKind)
        ensures
            r == self.spec_kind(),
    {
        match self {
            ParseError::SyntaxError(_) => ErrorKind::SyntaxError,
            ParseError::AstConvertError => ErrorKind::AstConvertError,
            ParseError::UnexpectedRuleError(_) => ErrorKind::UnexpectedRuleError,
            ParseError::DuplicateSymbol(_) => ErrorKind::DuplicateSymbol,
            ParseError::SymbolNotFound(_) => ErrorKind::SymbolNotFound,
            ParseError::AmbiguousImport(_) => ErrorKind::AmbiguousImport,
            ParseError::DuplicateInfixModifier => ErrorKind::DuplicateInfixModifier,
            ParseError::DuplicateRuleEffect => ErrorKind::DuplicateRuleEffect,
            ParseError::DuplicateTarget => ErrorKind::DuplicateTarget,
            ParseError::DuplicateCondition => ErrorKind::DuplicateCondition,
            ParseError::MissingApplyStatement(_) => ErrorKind::MissingApplyStatement,
            ParseError::CommutativeWithInverseError => ErrorKind::CommutativeWithInverseError,
            ParseError::ReversedInfixArgsNotCommutativeError => {
                ErrorKind::ReversedInfixArgsNotCommutativeError
            },
            ParseError::InverseInfixNotFound => ErrorKind::InverseInfixNotFound,
            ParseError::InfixBagsDisallowed => ErrorKind::InfixBagsDisallowed,
            ParseError::InfixBagsBooleanRequired => ErrorKind::InfixBagsBooleanRequired,
            ParseError::InfixNoMatchingSignature => ErrorKind::InfixNoMatchingSignature,
            ParseError::ConditionBooleanRequired(_) => ErrorKind::ConditionBooleanRequired,
            ParseError::XacmlWriteIoError => ErrorKind::XacmlWriteIoError,
            ParseError::XacmlMissingFilename => ErrorKind::XacmlMissingFilename,
            ParseError::DuplicateURI(_) => ErrorKind::DuplicateURI,
            ParseError::PolicySetNoCondition => ErrorKind::PolicySetNoCondition,
            ParseError::PolicyNoCondition => ErrorKind::PolicyNoCondition,
            ParseError::PolicyHasCondition => ErrorKind::PolicyHasCondition,
            ParseError::DuplicatePolicyEntity(_) => ErrorKind::DuplicatePolicyEntity,
        }
    }

    /// The text that `message` returns.
    pub open spec fn message_text(&self) -> Seq<char> {
        match self {
            ParseError::SyntaxError(s) => "Parse error: "@ + s@,
            ParseError::UnexpectedRuleError(s) => "Rule not expected at this location: "@ + s@,
            ParseError::DuplicateSymbol(s) => "Duplicate symbol: "@ + s@,
            ParseError::DuplicateURI(s) => "Duplicate URI for Policy/PolicySet: "@ + s@,
            ParseError::DuplicatePolicyEntity(s) => "A PolicySet and Policy have the same name in the same policy: "@ + s@,
            ParseError::SymbolNotFound(e) => e.msg@,
            ParseError::MissingApplyStatement(e) => e.msg@,
            ParseError::ConditionBooleanRequired(e) => e.msg@,
            ParseError::AstConvertError => "Conversion into AST error"@,
            ParseError::AmbiguousImport(_) => "Ambiguous Import"@,
            ParseError::DuplicateInfixModifier => "Duplicate definition of infix function modifier"@,
            ParseError::DuplicateRuleEffect => "Duplicate definition of an effect in a rule"@,
            ParseError::DuplicateTarget => "Duplicate definition of a target"@,
            ParseError::DuplicateCondition => "Duplicate definition of a condition"@,
            ParseError::CommutativeWithInverseError => "Commutative infix functions cannot have inverses"@,
            ParseError::ReversedInfixArgsNotCommutativeError => "Attempt to use non-commutative infix function with arguments reversed"@,
            ParseError::InverseInfixNotFound => "Could not find inverse infix definition"@,
            ParseError::InfixBagsDisallowed => "Infix operator does not allow bags"@,
            ParseError::InfixBagsBooleanRequired => "Infix operators on bags must return booleans"@,
            ParseError::InfixNoMatchingSignature => "Infix operators had no matching signature for argument types"@,
            ParseError::XacmlWriteIoError => "Could not write to XACML file"@,
            ParseError::XacmlMissingFilename => "Could not determine policy filename"@,
            ParseError::PolicySetNoCondition => "PolicySet has no condition, cannot convert to condition structure"@,
            ParseError::PolicyNoCondition => "Policy has no condition, cannot convert to XACML PolicySet"@,
            ParseError::PolicyHasCondition => "Policy has condition, cannot convert to XACML Policy"@,
        }
    }

    /// What to say of this error: the text of its kind, with the name or
    /// the place that the error carries; an error that points at the
    /// source says what it was made with.
    pub fn message(&self) -> (r: String)
        ensures
            r@ == self.message_text(),
    {
        match self {
            ParseError::SyntaxError(s) => {
                let mut out = "Parse error: ".to_owned();
                out.append(s.as_str());
                out
            },
            ParseError::UnexpectedRuleError(s) => {
                let mut out = "Rule not expected at this location: ".to_owned();
                out.append(s.as_str());
                out
            },
            ParseError::DuplicateSymbol(s) => {
                let mut out = "Duplicate symbol: ".to_owned();
                out.append(s.as_str());
                out
            },
            ParseError::DuplicateURI(s) => {
                let mut out = "Duplicate URI for Policy/PolicySet: ".to_owned();
                out.append(s.as_str());
                out
            },
            ParseError::DuplicatePolicyEntity(s) => {
                let mut out = "A PolicySet and Policy have the same name in the same policy: ".to_owned();
                out.append(s.as_str());
                out
            },
            ParseError::SymbolNotFound(e) => e.msg.clone(),
            ParseError::MissingApplyStatement(e) => e.msg.clone(),
            ParseError::ConditionBooleanRequired(e) => e.msg.clone(),
            ParseError::AstConvertError => "Conversion into AST error".to_owned(),
            ParseError::AmbiguousImport(_) => "Ambiguous Import".to_owned(),
            ParseError::DuplicateInfixModifier => "Duplicate definition of infix function modifier".to_owned(),
            ParseError::DuplicateRuleEffect => "Duplicate definition of an effect in a rule".to_owned(),
            ParseError::DuplicateTarget => "Duplicate definition of a target".to_owned(),
            ParseError::DuplicateCondition => "Duplicate definition of a condition".to_owned(),
            ParseError::CommutativeWithInverseError => "Commutative infix functions cannot have inverses".to_owned(),
            ParseError::ReversedInfixArgsNotCommutativeError => "Attempt to use non-commutative infix function with arguments reversed".to_owned(),
            ParseError::InverseInfixNotFound => "Could not find inverse infix definition".to_owned(),
            ParseError::InfixBagsDisallowed => "Infix operator does not allow bags".to_owned(),
            ParseError::InfixBagsBooleanRequired => "Infix operators on bags must return booleans".to_owned(),
            ParseError::InfixNoMatchingSignature => "Infix operators had no matching signature for argument types".to_owned(),
            ParseError::XacmlWriteIoError => "Could not write to XACML file".to_owned(),
            ParseError::XacmlMissingFilename => "Could not determine policy filename".to_owned(),
            ParseError::PolicySetNoCondition => "PolicySet has no condition, cannot convert to condition structure".to_owned(),
            ParseError::PolicyNoCondition => "Policy has no condition, cannot convert to XACML PolicySet".to_owned(),
            ParseError::PolicyHasCondition => "Policy has condition, cannot convert to XACML Policy".to_owned(),
        }
    }

    /// The label for the place that this error points at, where it
    /// carries one.
    pub fn label(&self) -> (r: Option<String>)
        ensures
            match self {
                ParseError::SymbolNotFound(e) => crate::text::opt_view(r) == Some(e.label@),
                ParseError::MissingApplyStatement(e) => crate::text::opt_view(r) == Some(e.label@),
                ParseError::ConditionBooleanRequired(e) => crate::text::opt_view(r) == Some(e.label@),
                _ => r is None,
            },
    {
        match self {
            ParseError::SymbolNotFound(e) => Some(e.label.clone()),
            ParseError::MissingApplyStatement(e) => Some(e.label.clone()),
            ParseError::ConditionBooleanRequired(e) => Some(e.label.clone()),
            _ => None,
        }
    }

    /// The place in the source that this error points at, if it carries one.
    pub fn location(&self) -> (r: Option<&SrcLoc>)
        ensures
            match r {
                Some(l) => self.spec_location() == Some(l@),
                None => self.spec_location() is None,
            },
    {
        match self {
            ParseError::SymbolNotFound(e) => Some(&e.src_loc),
            ParseError::MissingApplyStatement(e) => Some(&e.src_loc),
            ParseError::ConditionBooleanRequired(e) => Some(&e.src_loc),
            _ => None,
        }
    }

    /// A copy of this error of the same kind, pointing at the same place.
    pub fn duplicate(&self) -> (r: Self)
        ensures
            r.spec_kind() == self.spec_kind(),
            r.spec_location() == self.spec_location(),
    {
        match self {
            ParseError::SyntaxError(s) => ParseError::SyntaxError(s.clone()),
            ParseError::AstConvertError => ParseError::AstConvertError,
            ParseError::UnexpectedRuleError(s) => ParseError::UnexpectedRuleError(s.clone()),
            ParseError::DuplicateSymbol(s) => ParseError::DuplicateSymbol(s.clone()),
            ParseError::SymbolNotFound(e) => ParseError::SymbolNotFound(e.clone()),
            ParseError::AmbiguousImport(s) => ParseError::AmbiguousImport(s.clone()),
            ParseError::DuplicateInfixModifier => ParseError::DuplicateInfixModifier,
            ParseError::DuplicateRuleEffect => ParseError::DuplicateRuleEffect,
            ParseError::DuplicateTarget => ParseError::DuplicateTarget,
            ParseError::DuplicateCondition => ParseError::DuplicateCondition,
            ParseError::MissingApplyStatement(e) => ParseError::MissingApplyStatement(e.clone()),
            ParseError::CommutativeWithInverseError => ParseError::CommutativeWithInverseError,
            ParseError::ReversedInfixArgsNotCommutativeError => {
                ParseError::ReversedInfixArgsNotCommutativeError
            },
            ParseError::InverseInfixNotFound => ParseError::InverseInfixNotFound,
            ParseError::InfixBagsDisallowed => ParseError::InfixBagsDisallowed,
            ParseError::InfixBagsBooleanRequired => ParseError::InfixBagsBooleanRequired,
            ParseError::InfixNoMatchingSignature => ParseError::InfixNoMatchingSignature,
            ParseError::ConditionBooleanRequired(e) => {
                ParseError::ConditionBooleanRequired(e.clone())
            },
            ParseError::XacmlWriteIoError => ParseError::XacmlWriteIoError,
            ParseError::XacmlMissingFilename => ParseError::XacmlMissingFilename,
            ParseError::DuplicateURI(s) => ParseError::DuplicateURI(s.clone()),
            ParseError::PolicySetNoCondition => ParseError::PolicySetNoCondition,
            ParseError::PolicyNoCondition => ParseError::PolicyNoCondition,
            ParseError::PolicyHasCondition => ParseError::PolicyHasCondition,
            ParseError::DuplicatePolicyEntity(s) => ParseError::DuplicatePolicyEntity(s.clone()),
        }
    }
}

} // verus!
