//! Conditional removal of marker trait bounds (`Send`, `Sync`) from a
//! declaration, together with emission of two `cfg`-gated variants of it: a
//! filtered copy active when a caller-supplied condition holds, and the
//! original copy active when it does not.
//!
//! The transformation is purely syntactic. A declaration is modelled as a
//! tree ([`ast::Declaration`]); the filter walks every position where a trait
//! bound may occur (generic parameter bounds, where-clause predicates, opaque
//! return types, supertrait lists) and drops the bounds whose path is a
//! single segment naming a marker, leaving everything else verbatim.
//! Parsing source text into the tree and rendering the tree back to text are
//! left to the surrounding tooling; this crate works on the tree and on the
//! already-rendered texts.

pub mod ast;
pub mod emit;
pub mod filter;
pub mod laws;
pub mod subjects;
