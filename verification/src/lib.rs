//! A compiler from ALFA, the Abbreviated Language for Authorization, to
//! XACML 3.0.
//!
//! A source text is parsed by the grammar of ALFA into a parse tree, and
//! the parse tree is read into a syntax tree of namespaces, declarations,
//! policy sets, policies and rules. What is declared is registered in a
//! context, where names are looked up by the rules of namespaces and
//! imports. Policies and policy sets are then converted into the elements
//! of XACML: names are settled, types are resolved, operators are matched
//! with the functions that they stand for, and a condition on a policy or
//! policy set is replaced by a guard. The elements are written out as XML.

use vstd::prelude::*;

pub mod args;
pub mod ast;
pub mod collection;
pub mod context;
pub mod errors;
pub mod grammar;
pub mod identifiers;
pub mod peg;
pub mod resolver;
pub mod strmap;
pub mod syntax;
pub mod text;
pub mod tree;
pub mod xacml;

verus! {

} // verus!
