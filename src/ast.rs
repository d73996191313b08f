//! The parsed source tree that the lowering pass reads.
use vstd::prelude::*;

verus! {

/// A type-name reference: a primitive name (`Int`, `Bool`, `Str`) or the
/// name of another entity type.
#[derive(Clone, Debug, PartialEq, Eq)]
pub struct Specie {
    pub raw: String,
}

/// A plain identifier as written in the source.
#[derive(Clone, Debug, PartialEq, Eq)]
pub struct Tag {
    pub raw: String,
}

/// A field declaration: a field name and the name of its type.
#[derive(Clone, Debug, PartialEq, Eq)]
pub struct Gene {
    pub tag: Tag,
    pub specie: Specie,
}

/// A behavior tag attached to an entity.
#[derive(Clone, Debug, PartialEq, Eq)]
pub struct Ethics {
    pub tag: Tag,
}

/// An entity declaration: its type name, its fields and its behavior tags,
/// each in source order.
#[derive(Clone, Debug, PartialEq, Eq)]
pub struct Bug {
    pub specie: Specie,
    pub genes: Vec<Gene>,
    pub ethics: Vec<Ethics>,
}

/// The kinds of structural declaration.
#[derive(Clone, Debug, PartialEq, Eq)]
pub enum Anatomy {
    Bug(Bug),
}

/// A behavior declaration standing at the top level of a tree. Lowering
/// rejects it before reading anything of it, so it carries nothing.
#[derive(Clone, Debug, PartialEq, Eq)]
pub struct Behavior;

/// One top-level declaration.
#[derive(Clone, Debug, PartialEq, Eq)]
pub enum Genome {
    Anatomy(Anatomy),
    Behavior(Behavior),
}

/// A whole source tree: its top-level declarations in order.
#[derive(Clone, Debug, PartialEq, Eq)]
pub struct Tree {
    pub genome: Vec<Genome>,
}

} // verus!
