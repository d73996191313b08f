use sc2ir::ast::{Anatomy, Behavior, Bug, Ethics, Gene, Genome, Specie, Tag, Tree};
use sc2ir::ir::{Alveolus, Casts, Flora, Instinct, Larvie, LoweringError, Seal, IR};
use sc2ir::lowering::seals_for;
use sc2ir::{CastsFromGene, FloraFromSpecie, IRFromSC, InstinctFromEthics, LarvieFromBug};

fn gene(tag: &str, specie: &str) -> Gene {
    Gene {
        tag: Tag { raw: tag.to_string() },
        specie: Specie { raw: specie.to_string() },
    }
}

fn ethics(tag: &str) -> Ethics {
    Ethics { tag: Tag { raw: tag.to_string() } }
}

fn bug(name: &str, genes: Vec<Gene>, ethics: Vec<Ethics>) -> Bug {
    Bug {
        specie: Specie { raw: name.to_string() },
        genes,
        ethics,
    }
}

fn entity(b: Bug) -> Genome {
    Genome::Anatomy(Anatomy::Bug(b))
}

fn behavior() -> Genome {
    Genome::Behavior(Behavior)
}

// bug Cat
//   gene energy Int
//   gene breath Int
//   ethics move
// end
fn cat() -> Bug {
    bug(
        "Cat",
        vec![gene("energy", "Int"), gene("breath", "Int")],
        vec![ethics("move")],
    )
}

#[test]
fn converte_codigo_sc_para_ir() {
    let tree = Tree { genome: vec![entity(cat())] };
    let ir = IR::from_sc(tree.clone()).unwrap();
    let bug = match tree.genome[0].clone() {
        Genome::Anatomy(anatomy) => match anatomy {
            Anatomy::Bug(bug) => bug,
        },
        Genome::Behavior(_) => panic!("unexpected behavior declaration"),
    };
    let larvie = match ir.alveolus[0].clone() {
        Alveolus::Larvie(larvie) => larvie,
    };
    assert_eq!(larvie.primor, bug.specie.raw);
    assert_eq!(larvie.casts.len(), bug.genes.len());
    assert_eq!(larvie.instincts.len(), bug.ethics.len());
    for (cast, gene) in larvie.casts.iter().zip(bug.genes.iter()) {
        assert_eq!(cast.primor, gene.tag.raw);
        assert_eq!(cast.flora, Flora::from_specie(gene.specie.clone()));
        assert!(!cast.seals.is_empty());
    }
    for (instinct, ethics) in larvie.instincts.iter().zip(bug.ethics.iter()) {
        assert_eq!(instinct.echo, ethics.tag.raw);
    }
}

#[test]
fn valida_conversao_tipos_flora() {
    let test_cases = vec![
        ("Int", Flora::Int),
        ("Bool", Flora::Bool),
        ("Str", Flora::Str),
        ("CustomType", Flora::Bug("CustomType".to_string())),
    ];
    for (input_str, expected_flora) in test_cases {
        let specie = Specie { raw: input_str.to_string() };
        let converted_flora = Flora::from_specie(specie);
        assert_eq!(converted_flora, expected_flora, "failed for: {}", input_str);
    }
}

#[test]
fn valida_estrutura_completa_ir() {
    let ir = IR::from_sc(Tree { genome: vec![entity(cat())] }).unwrap();
    assert!(!ir.alveolus.is_empty());
    match &ir.alveolus[0] {
        Alveolus::Larvie(larvie) => {
            assert!(!larvie.casts.is_empty());
            assert!(!larvie.instincts.is_empty());
            for cast in &larvie.casts {
                assert!(!cast.seals.is_empty());
            }
            for instinct in &larvie.instincts {
                assert!(!instinct.echo.is_empty());
            }
        }
    }
}

#[test]
fn cat_entity_lowers_to_expected_larvie() {
    let larvie = Larvie::from_bug(cat());
    let expected = Larvie {
        primor: "Cat".to_string(),
        casts: vec![
            Casts { primor: "energy".to_string(), flora: Flora::Int, seals: vec![Seal::Vital] },
            Casts { primor: "breath".to_string(), flora: Flora::Int, seals: vec![Seal::Vital] },
        ],
        instincts: vec![Instinct { echo: "move".to_string() }],
    };
    assert_eq!(larvie, expected);
}

#[test]
fn non_primitive_field_type_is_entity_reference() {
    let casts = Casts::from_gene(gene("owner", "Dog"));
    assert_eq!(casts.flora, Flora::Bug("Dog".to_string()));
    assert_eq!(casts.primor, "owner");
}

#[test]
fn type_names_are_matched_exactly() {
    for name in ["int", "INT", " Int", "Int ", "", "Boolean", "str"] {
        let flora = Flora::from_specie(Specie { raw: name.to_string() });
        assert_eq!(flora, Flora::Bug(name.to_string()));
    }
}

#[test]
fn empty_entity_lowers_to_empty_larvie() {
    let larvie = Larvie::from_bug(bug("Stone", vec![], vec![]));
    assert_eq!(larvie.primor, "Stone");
    assert!(larvie.casts.is_empty());
    assert!(larvie.instincts.is_empty());
}

#[test]
fn two_entities_lower_in_order() {
    let tree = Tree {
        genome: vec![
            entity(cat()),
            entity(bug("Dog", vec![gene("owner", "Cat")], vec![])),
        ],
    };
    let ir = IR::from_sc(tree).unwrap();
    assert_eq!(ir.alveolus.len(), 2);
    match (&ir.alveolus[0], &ir.alveolus[1]) {
        (Alveolus::Larvie(first), Alveolus::Larvie(second)) => {
            assert_eq!(first.primor, "Cat");
            assert_eq!(second.primor, "Dog");
            assert_eq!(second.casts[0].flora, Flora::Bug("Cat".to_string()));
        }
    }
}

#[test]
fn empty_tree_lowers_to_empty_module() {
    let ir = IR::from_sc(Tree { genome: vec![] }).unwrap();
    assert!(ir.alveolus.is_empty());
}

#[test]
fn top_level_behavior_is_rejected() {
    let tree = Tree { genome: vec![behavior()] };
    assert_eq!(
        IR::from_sc(tree),
        Err(LoweringError::UnsupportedBehavior { position: 0 })
    );
}

#[test]
fn first_top_level_behavior_is_reported() {
    let tree = Tree {
        genome: vec![
            entity(cat()),
            behavior(),
            entity(bug("Dog", vec![], vec![])),
            behavior(),
        ],
    };
    assert_eq!(
        IR::from_sc(tree),
        Err(LoweringError::UnsupportedBehavior { position: 1 })
    );
}

#[test]
fn identifier_is_copied_verbatim() {
    let larvie = Larvie::from_bug(bug("lower_Case Name", vec![], vec![]));
    assert_eq!(larvie.primor, "lower_Case Name");
}

#[test]
fn fields_and_behaviors_keep_count_and_order() {
    let b = bug(
        "Bird",
        vec![gene("wings", "Int"), gene("alive", "Bool"), gene("song", "Str"), gene("nest", "Tree")],
        vec![ethics("fly"), ethics("sing")],
    );
    let larvie = Larvie::from_bug(b.clone());
    assert_eq!(larvie.casts.len(), 4);
    assert_eq!(larvie.instincts.len(), 2);
    let names: Vec<&str> = larvie.casts.iter().map(|c| c.primor.as_str()).collect();
    assert_eq!(names, vec!["wings", "alive", "song", "nest"]);
    let floras: Vec<Flora> = larvie.casts.iter().map(|c| c.flora.clone()).collect();
    assert_eq!(
        floras,
        vec![Flora::Int, Flora::Bool, Flora::Str, Flora::Bug("Tree".to_string())]
    );
    let echoes: Vec<&str> = larvie.instincts.iter().map(|i| i.echo.as_str()).collect();
    assert_eq!(echoes, vec!["fly", "sing"]);
}

#[test]
fn every_attribute_is_vital() {
    let larvie = Larvie::from_bug(cat());
    for cast in &larvie.casts {
        assert_eq!(cast.seals, vec![Seal::Vital]);
    }
    assert_eq!(seals_for(&gene("x", "Int")), vec![Seal::Vital]);
}

#[test]
fn lowering_twice_gives_equal_results() {
    let first = Larvie::from_bug(cat());
    let second = Larvie::from_bug(cat());
    assert_eq!(first, second);
    let tree = Tree { genome: vec![entity(cat()), entity(bug("Dog", vec![], vec![]))] };
    assert_eq!(IR::from_sc(tree.clone()), IR::from_sc(tree));
}

#[test]
fn behavior_tag_becomes_instinct() {
    let instinct = Instinct::from_ethics(ethics("purr"));
    assert_eq!(instinct, Instinct { echo: "purr".to_string() });
}
