//! A documentation-coverage linter: it walks the syntax tree of a source file
//! and reports every declaration that needs a documentation comment and lacks
//! one, in the order in which a depth-first, pre-order walk meets them.
//!
//! The tree is a plain model of a parsed file (`syntax`); the decision of which
//! nodes need documentation lives in `classify`; the walk and its diagnostics
//! in `report`; the laws that the report obeys in `laws`.

pub mod classify;
pub mod syntax;
pub mod report;
pub mod laws;
