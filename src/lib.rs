//! Lowering of a parsed organism-description syntax tree into an
//! intermediate representation.
//!
//! The input side (`ast`) is a tree of declarations: entities ("bugs") with
//! fields ("genes") and behavior tags ("ethics"). The output side (`ir`) is a
//! module of IR entities ("larvies") with attributes ("casts") and behavior
//! instructions ("instincts"). `lowering` holds the conversions, stated
//! against the spec functions of `ir`, and `laws` the properties that follow.
pub mod ast;
pub mod ir;
pub mod laws;
pub mod lowering;
pub mod traits;

pub use traits::{CastsFromGene, FloraFromSpecie, IRFromSC, InstinctFromEthics, LarvieFromBug};
