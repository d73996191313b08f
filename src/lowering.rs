//! The lowering pass: the conversion traits implemented for the IR types.
use crate::ast::{Anatomy, Bug, Ethics, Gene, Genome, Specie, Tree};
use crate::ir::{
    casts_of, flora_of, instinct_of, is_behavior, larvie_of, lowers_to, module_of, seals_of,
    Alveolus, Casts, Flora, Instinct, Larvie, LoweringError, Seal, IR,
};
use crate::traits::{CastsFromGene, FloraFromSpecie, IRFromSC, InstinctFromEthics, LarvieFromBug};
use vstd::prelude::*;
use vstd::string::StringExecFns;

verus! {

/// The type tag of the type name `raw`.
fn flora_from_raw(raw: &String) -> (r: Flora)
    ensures
        r == flora_of(*raw),
{
    if *raw == String::from_str("Int") {
        Flora::Int
    } else if *raw == String::from_str("Bool") {
        Flora::Bool
    } else if *raw == String::from_str("Str") {
        Flora::Str
    } else {
        Flora::Bug(raw.clone())
    }
}

/// The qualifiers given to the attribute lowered from `gene`. This is the
/// one place where qualifiers are chosen; today every field is `Vital`.
pub fn seals_for(gene: &Gene) -> (r: Vec<Seal>)
    ensures
        r@ == seals_of(*gene),
{
    vec![Seal::Vital]
}

fn lower_gene(gene: &Gene) -> (r: Casts)
    ensures
        r@ == casts_of(*gene),
{
    Casts { primor: gene.tag.raw.clone(), flora: flora_from_raw(&gene.specie.raw), seals: seals_for(gene) }
}

fn lower_ethics(ethics: &Ethics) -> (r: Instinct)
    ensures
        r == instinct_of(*ethics),
{
    Instinct { echo: ethics.tag.raw.clone() }
}

fn lower_bug(bug: &Bug) -> (r: Larvie)
    ensures
        r@ == larvie_of(*bug),
{
    let primor = bug.specie.raw.clone();
    let mut casts: Vec<Casts> = Vec::new();
    let mut i: usize = 0;
    while i < bug.genes.len()
        invariant
            i <= bug.genes@.len(),
            casts@.len() == i,
            forall|k: int| 0 <= k < i ==> (#[trigger] casts@[k])@ == casts_of(bug.genes@[k]),
        decreases bug.genes@.len() - i,
    {
        casts.push(lower_gene(&bug.genes[i]));
        i = i + 1;
    }
    let mut instincts: Vec<Instinct> = Vec::new();
    let mut j: usize = 0;
    while j < bug.ethics.len()
        invariant
            j <= bug.ethics@.len(),
            instincts@.len() == j,
            forall|k: int| 0 <= k < j ==> #[trigger] instincts@[k] == instinct_of(bug.ethics@[k]),
        decreases bug.ethics@.len() - j,
    {
        instincts.push(lower_ethics(&bug.ethics[j]));
        j = j + 1;
    }
    let r = Larvie { primor, casts, instincts };
    assert(r@.casts =~= larvie_of(*bug).casts);
    assert(r@.instincts =~= larvie_of(*bug).instincts);
    r
}

impl FloraFromSpecie for Flora {
    open spec fn lowers_specie(specie: Specie, r: Flora) -> bool {
        r == flora_of(specie.raw)
    }

    fn from_specie(specie: Specie) -> (r: Flora) {
        flora_from_raw(&specie.raw)
    }
}

impl CastsFromGene for Casts {
    open spec fn lowers_gene(gene: Gene, r: Casts) -> bool {
        r@ == casts_of(gene)
    }

    fn from_gene(gene: Gene) -> (r: Casts) {
        lower_gene(&gene)
    }
}

impl InstinctFromEthics for Instinct {
    open spec fn lowers_ethics(ethics: Ethics, r: Instinct) -> bool {
        r == instinct_of(ethics)
    }

    fn from_ethics(ethics: Ethics) -> (r: Instinct) {
        lower_ethics(&ethics)
    }
}

impl LarvieFromBug for Larvie {
    open spec fn lowers_bug(bug: Bug, r: Larvie) -> bool {
        r@ == larvie_of(bug)
    }

    fn from_bug(bug: Bug) -> (r: Larvie) {
        lower_bug(&bug)
    }
}

impl IRFromSC for IR {
    /// Lowering succeeds exactly when no top-level declaration is a behavior
    /// declaration; it then holds every declaration lowered, in order.
    /// Otherwise the error names the first behavior declaration.
    open spec fn lowers_tree(tree: Tree, r: Result<IR, LoweringError>) -> bool {
        match r {
            Ok(ir) => {
                &&& forall|i: int| 0 <= i < tree.genome@.len() ==> !is_behavior(#[trigger] tree.genome@[i])
                &&& module_of(tree.genome@, ir@)
            },
            Err(LoweringError::UnsupportedBehavior { position }) => {
                &&& position < tree.genome@.len()
                &&& is_behavior(tree.genome@[position as int])
                &&& forall|i: int| 0 <= i < position ==> !is_behavior(#[trigger] tree.genome@[i])
            },
        }
    }

    fn from_sc(tree: Tree) -> (r: Result<IR, LoweringError>) {
        let mut alveolus: Vec<Alveolus> = Vec::new();
        let mut i: usize = 0;
        while i < tree.genome.len()
            invariant
                i <= tree.genome@.len(),
                alveolus@.len() == i,
                forall|k: int| 0 <= k < i ==> !is_behavior(#[trigger] tree.genome@[k]),
                forall|k: int| 0 <= k < i ==> lowers_to(#[trigger] tree.genome@[k], alveolus@[k]@),
            decreases tree.genome@.len() - i,
        {
            match &tree.genome[i] {
                Genome::Anatomy(Anatomy::Bug(bug)) => {
                    alveolus.push(Alveolus::Larvie(lower_bug(bug)));
                },
                Genome::Behavior(_) => {
                    return Err(LoweringError::UnsupportedBehavior { position: i });
                },
            }
            i = i + 1;
        }
        let ir = IR { alveolus };
        assert(module_of(tree.genome@, ir@));
        Ok(ir)
    }
}

} // verus!
