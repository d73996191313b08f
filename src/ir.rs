//! The intermediate representation produced by lowering, with the views
//! and spec functions that the lowering contracts are stated over.
use crate::ast::{Bug, Ethics, Gene, Genome, Anatomy};
use vstd::prelude::*;

verus! {

/// A qualifier attached to an attribute.
#[derive(Clone, Copy, Debug, PartialEq, Eq, Structural)]
pub enum Seal {
    Vital,
}

/// The type tag of an attribute: a primitive, or a reference to an entity
/// type by name.
#[derive(Clone, Debug, PartialEq, Eq)]
pub enum Flora {
    Int,
    Bool,
    Str,
    Bug(String),
}

/// An IR attribute.
#[derive(Clone, Debug, PartialEq, Eq)]
pub struct Casts {
    pub primor: String,
    pub flora: Flora,
    pub seals: Vec<Seal>,
}

/// An IR behavior instruction.
#[derive(Clone, Debug, PartialEq, Eq)]
pub struct Instinct {
    pub echo: String,
}

/// An IR entity.
#[derive(Clone, Debug, PartialEq, Eq)]
pub struct Larvie {
    pub primor: String,
    pub casts: Vec<Casts>,
    pub instincts: Vec<Instinct>,
}

/// One item of an IR module.
#[derive(Clone, Debug, PartialEq, Eq)]
pub enum Alveolus {
    Larvie(Larvie),
}

/// An IR module: its items in order.
#[derive(Clone, Debug, PartialEq, Eq)]
pub struct IR {
    pub alveolus: Vec<Alveolus>,
}

/// Why a tree could not be lowered.
#[derive(Clone, Copy, Debug, PartialEq, Eq, Structural)]
pub enum LoweringError {
    /// The declaration at `position` is a top-level behavior declaration,
    /// which this pass does not lower.
    UnsupportedBehavior { position: usize },
}

/// The mathematical value of a `Casts`.
pub struct CastsView {
    pub primor: String,
    pub flora: Flora,
    pub seals: Seq<Seal>,
}

/// The mathematical value of a `Larvie`.
pub struct LarvieView {
    pub primor: String,
    pub casts: Seq<CastsView>,
    pub instincts: Seq<Instinct>,
}

/// The mathematical value of an `Alveolus`.
pub enum AlveolusView {
    Larvie(LarvieView),
}

impl View for Casts {
    type V = CastsView;

    open spec fn view(&self) -> CastsView {
        CastsView { primor: self.primor, flora: self.flora, seals: self.seals@ }
    }
}

impl View for Larvie {
    type V = LarvieView;

    open spec fn view(&self) -> LarvieView {
        LarvieView {
            primor: self.primor,
            casts: self.casts@.map_values(|c: Casts| c@),
            instincts: self.instincts@,
        }
    }
}

impl View for Alveolus {
    type V = AlveolusView;

    open spec fn view(&self) -> AlveolusView {
        match self {
            Alveolus::Larvie(l) => AlveolusView::Larvie(l@),
        }
    }
}

impl View for IR {
    type V = Seq<AlveolusView>;

    open spec fn view(&self) -> Seq<AlveolusView> {
        self.alveolus@.map_values(|a: Alveolus| a@)
    }
}

/// The type tag that a type name stands for: the three primitive names map
/// to their primitives, any other name to a reference to that entity type.
pub open spec fn flora_of(raw: String) -> Flora {
    if raw@ == "Int"@ {
        Flora::Int
    } else if raw@ == "Bool"@ {
        Flora::Bool
    } else if raw@ == "Str"@ {
        Flora::Str
    } else {
        Flora::Bug(raw)
    }
}

/// The qualifiers that a field receives: `Vital` alone, whatever the field.
pub open spec fn seals_of(gene: Gene) -> Seq<Seal> {
    seq![Seal::Vital]
}

/// The attribute that a field declaration lowers to.
pub open spec fn casts_of(gene: Gene) -> CastsView {
    CastsView {
        primor: gene.tag.raw,
        flora: flora_of(gene.specie.raw),
        seals: seals_of(gene),
    }
}

/// The behavior instruction that a behavior tag lowers to.
pub open spec fn instinct_of(ethics: Ethics) -> Instinct {
    Instinct { echo: ethics.tag.raw }
}

/// The entity that an entity declaration lowers to: same name, fields and
/// behavior tags lowered one by one, in order.
pub open spec fn larvie_of(bug: Bug) -> LarvieView {
    LarvieView {
        primor: bug.specie.raw,
        casts: bug.genes@.map_values(|g: Gene| casts_of(g)),
        instincts: bug.ethics@.map_values(|e: Ethics| instinct_of(e)),
    }
}

/// Whether a top-level declaration is a behavior declaration.
pub open spec fn is_behavior(decl: Genome) -> bool {
    decl is Behavior
}

/// Whether `item` is what the entity declaration `decl` lowers to; never
/// true of a behavior declaration.
pub open spec fn lowers_to(decl: Genome, item: AlveolusView) -> bool {
    match decl {
        Genome::Anatomy(Anatomy::Bug(bug)) => item == AlveolusView::Larvie(larvie_of(bug)),
        Genome::Behavior(_) => false,
    }
}

/// Whether `items` is the lowering of `decls`, item by item and in order.
pub open spec fn module_of(decls: Seq<Genome>, items: Seq<AlveolusView>) -> bool {
    &&& items.len() == decls.len()
    &&& forall|i: int| 0 <= i < decls.len() ==> lowers_to(#[trigger] decls[i], items[i])
}

} // verus!
