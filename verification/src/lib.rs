//! Analysis and code-generation core of a declarative template compiler.
//!
//! The library decides, for every attribute of a template element, whether its
//! value is static (computed once) or reactive (re-evaluated when watched
//! state changes), extracts list-diffing key functions from loop callables,
//! and builds the output expression fragments that register nodes, set
//! attributes and assign DOM properties.

use vstd::prelude::*;

pub mod ast;
pub mod attrs;
pub mod common;
pub mod expr;
pub mod map_key;
pub mod nameset;
pub mod text;
pub mod tpl;

verus! {

/// A half-open range of byte offsets into the compiled source, used to point
/// diagnostics at the offending attribute or expression.
#[derive(Clone, Copy, PartialEq, Eq, Structural, Debug)]
pub struct Span {
    pub lo: u32,
    pub hi: u32,
}

} // verus!
