//! Properties of the lowering pass, proved from the contracts of the
//! conversion traits.
use crate::ast::{Bug, Gene, Specie};
use crate::ir::{casts_of, larvie_of, Casts, Flora, Larvie, Seal};
use crate::traits::{CastsFromGene, FloraFromSpecie, LarvieFromBug};
use vstd::prelude::*;

verus! {

/// An entity keeps the declaration's type name, verbatim, as its identifier.
pub proof fn lemma_identifier_kept(bug: Bug, r: Larvie)
    requires
        Larvie::lowers_bug(bug, r),
    ensures
        r.primor == bug.specie.raw,
{
}

/// An entity has one attribute per field and one behavior instruction per
/// behavior tag of its declaration.
pub proof fn lemma_cardinality_kept(bug: Bug, r: Larvie)
    requires
        Larvie::lowers_bug(bug, r),
    ensures
        r.casts@.len() == bug.genes@.len(),
        r.instincts@.len() == bug.ethics@.len(),
{
    assert(r@.casts.len() == r.casts@.len());
}

/// The i-th attribute of an entity is named after the i-th field, and the
/// i-th behavior instruction carries the name of the i-th behavior tag.
pub proof fn lemma_order_kept(bug: Bug, r: Larvie)
    requires
        Larvie::lowers_bug(bug, r),
    ensures
        forall|i: int| 0 <= i < bug.genes@.len() ==> (#[trigger] r.casts@[i]).primor == bug.genes@[i].tag.raw,
        forall|i: int| 0 <= i < bug.ethics@.len() ==> (#[trigger] r.instincts@[i]).echo == bug.ethics@[i].tag.raw,
{
    lemma_cardinality_kept(bug, r);
    assert forall|i: int| 0 <= i < bug.genes@.len() implies (#[trigger] r.casts@[i]).primor == bug.genes@[i].tag.raw by {
        assert(r@.casts[i] == r.casts@[i]@);
    }
}

/// The type mapping is total: `Int`, `Bool` and `Str` map to their
/// primitives, and every other name to a reference to the entity type of
/// that name.
pub proof fn lemma_type_mapping(specie: Specie, r: Flora)
    requires
        Flora::lowers_specie(specie, r),
    ensures
        specie.raw@ == "Int"@ ==> r == Flora::Int,
        specie.raw@ == "Bool"@ ==> r == Flora::Bool,
        specie.raw@ == "Str"@ ==> r == Flora::Str,
        specie.raw@ != "Int"@ && specie.raw@ != "Bool"@ && specie.raw@ != "Str"@ ==> r == Flora::Bug(specie.raw),
{
    reveal_strlit("Int");
    reveal_strlit("Bool");
    reveal_strlit("Str");
    assert("Int"@[0] != "Bool"@[0]);
    assert("Int"@[0] != "Str"@[0]);
    assert("Bool"@[0] != "Str"@[0]);
}

/// Every attribute carries at least one qualifier, and `Vital` among them.
pub proof fn lemma_qualifiers_nonempty(bug: Bug, r: Larvie)
    requires
        Larvie::lowers_bug(bug, r),
    ensures
        forall|i: int| 0 <= i < r.casts@.len() ==> (#[trigger] r.casts@[i]).seals@.len() >= 1 && r.casts@[i].seals@.contains(Seal::Vital),
{
    assert forall|i: int| 0 <= i < r.casts@.len() implies (#[trigger] r.casts@[i]).seals@.len() >= 1 && r.casts@[i].seals@.contains(Seal::Vital) by {
        assert(r@.casts.len() == r.casts@.len());
        assert(r@.casts[i] == r.casts@[i]@);
        assert(r@.casts[i] == casts_of(bug.genes@[i]));
        assert(r.casts@[i].seals@[0] == Seal::Vital);
    }
}

/// A single attribute carries at least one qualifier, and `Vital` among them.
pub proof fn lemma_attribute_qualified(gene: Gene, r: Casts)
    requires
        Casts::lowers_gene(gene, r),
    ensures
        r.seals@.len() >= 1,
        r.seals@.contains(Seal::Vital),
{
    assert(r.seals@[0] == Seal::Vital);
}

/// Lowering is deterministic: declarations with the same name, fields and
/// behavior tags lower to entities with the same value.
pub proof fn lemma_deterministic(b1: Bug, r1: Larvie, b2: Bug, r2: Larvie)
    requires
        Larvie::lowers_bug(b1, r1),
        Larvie::lowers_bug(b2, r2),
        b1.specie == b2.specie,
        b1.genes@ == b2.genes@,
        b1.ethics@ == b2.ethics@,
    ensures
        r1@ == r2@,
{
    assert(larvie_of(b1) == larvie_of(b2));
}

} // verus!
