//! The conversion traits, one per node kind of the source tree. Each names
//! in a spec function what a correct conversion returns, and its method
//! promises exactly that.
use crate::ast::{Bug, Ethics, Gene, Specie, Tree};
use crate::ir::LoweringError;
use vstd::prelude::*;

verus! {

/// Lowers a whole source tree into an IR module.
pub trait IRFromSC: Sized {
    /// Whether `r` is the outcome of lowering `tree`.
    spec fn lowers_tree(tree: Tree, r: Result<Self, LoweringError>) -> bool;

    /// Lowers every declaration of `tree`, or reports the first one that
    /// cannot be lowered.
    fn from_sc(tree: Tree) -> (r: Result<Self, LoweringError>)
        ensures
            Self::lowers_tree(tree, r),
    ;
}

/// Lowers an entity declaration into an IR entity.
pub trait LarvieFromBug: Sized {
    /// Whether `r` is the lowering of `bug`.
    spec fn lowers_bug(bug: Bug, r: Self) -> bool;

    fn from_bug(bug: Bug) -> (r: Self)
        ensures
            Self::lowers_bug(bug, r),
    ;
}

/// Lowers a field declaration into an IR attribute.
pub trait CastsFromGene: Sized {
    /// Whether `r` is the lowering of `gene`.
    spec fn lowers_gene(gene: Gene, r: Self) -> bool;

    fn from_gene(gene: Gene) -> (r: Self)
        ensures
            Self::lowers_gene(gene, r),
    ;
}

/// Maps a type-name reference to an IR type tag.
pub trait FloraFromSpecie: Sized {
    /// Whether `r` is the type tag of `specie`.
    spec fn lowers_specie(specie: Specie, r: Self) -> bool;

    fn from_specie(specie: Specie) -> (r: Self)
        ensures
            Self::lowers_specie(specie, r),
    ;
}

/// Lowers a behavior tag into an IR behavior instruction.
pub trait InstinctFromEthics: Sized {
    /// Whether `r` is the lowering of `ethics`.
    spec fn lowers_ethics(ethics: Ethics, r: Self) -> bool;

    fn from_ethics(ethics: Ethics) -> (r: Self)
        ensures
            Self::lowers_ethics(ethics, r),
    ;
}

} // verus!
