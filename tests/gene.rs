use weasel_rs::charset::in_char_set;
use weasel_rs::gene::{Gene, GeneCreationExt, GeneExt, MutableGene, MutableGeneExt, MR_SCALE};

#[test]
fn mutate_gene() {
    let mut g = MutableGene::new('a');
    g.mutate_data(800_000);
    let c: char = (&g).into();
    assert!(c != 'a' || g.get() == 'a');
}

#[test]
fn test_gene_deref() {
    let g = Gene::new('a');
    let c: char = *g;

    assert_eq!(c, 'a');
}

#[test]
fn test_gene_derefmut() {
    let mut g = Gene::new('a');
    *g = 'z';
    let c: char = *g;

    assert_eq!(c, 'z');
}

#[test]
fn gene_set_and_get() {
    let mut g = MutableGene::new('x');
    assert_eq!(g.get(), 'x');
    g.set('y');
    assert_eq!(g.get(), 'y');
    let c: char = (&Gene::new('q')).into();
    assert_eq!(c, 'q');
}

#[test]
fn random_genes_are_in_alphabet() {
    for _ in 0..1000 {
        assert!(in_char_set(Gene::new_from_random().get()));
        assert!(in_char_set(MutableGene::new_from_random().get()));
        let mut g = Gene::new('@');
        g.set_random_data();
        assert!(in_char_set(g.get()));
    }
}

#[test]
fn zero_rate_never_mutates() {
    let mut g = MutableGene::new('@');
    for _ in 0..10000 {
        g.mutate_data(0);
        assert_eq!(g.get(), '@');
    }
}

#[test]
fn full_rate_always_redraws() {
    // '@' is outside the alphabet, so a redraw always shows.
    for _ in 0..10000 {
        let mut g = MutableGene::new('@');
        g.mutate_data(MR_SCALE);
        assert!(in_char_set(g.get()));
    }
    let mut g = MutableGene::new('@');
    g.mutate_data(u32::MAX);
    assert!(in_char_set(g.get()));
}

#[test]
fn half_rate_mutates_sometimes() {
    let mut changed = 0;
    for _ in 0..2000 {
        let mut g = MutableGene::new('@');
        g.mutate_data(MR_SCALE / 2);
        if g.get() != '@' {
            changed += 1;
        }
    }
    assert!(changed > 0 && changed < 2000);
}

#[test]
fn mutate_with_uses_the_draw() {
    let mut g = MutableGene::new('a');
    g.mutate_with(10, 11, 'b');
    assert_eq!(g.get(), 'b');
    g.mutate_with(11, 11, 'c');
    assert_eq!(g.get(), 'b');
    g.mutate_with(0, 0, 'd');
    assert_eq!(g.get(), 'b');
}
