use std::cell::RefCell;

use weasel_rs::charset::in_char_set;
use weasel_rs::chromosome::{ChromosomeError, EvolvingChromosome, StandardChromosome};
use weasel_rs::gene::{Gene, GeneCreationExt, GeneExt, MutableGene, MR_SCALE};

fn genes(s: &str) -> Vec<Box<Gene>> {
    s.chars().map(|c| Box::new(Gene::new(c))).collect()
}

#[test]
fn test_get_genes() {
    let c = StandardChromosome::new("hola".into(), 4);
    let gstr = c.get_genes();

    // Genes may hold 'ñ' or 'Ñ', so count symbols, not bytes.
    assert_eq!(gstr.chars().count(), "hola".chars().count());
}

#[test]
fn test_evolvingchromosome1() {
    let mut c = EvolvingChromosome::new("hola".into(), 4);
    c.create_genes_from_target();
    let gc0 = c.gene(0).get();
    let gc1 = c.gene(1).get();

    assert_eq!(gc0, 'h');
    assert_eq!(gc1, 'o');
}

#[test]
fn test_evolvingchromosome2() {
    let mut c = EvolvingChromosome::new("hola".into(), 4);
    c.create_genes_from_target();
    c.set_gene(0, MutableGene::new('l'));
    let gc0 = c.gene(0).get();

    assert_eq!(gc0, 'l');
}

#[test]
fn test_index1() {
    let mut c = StandardChromosome::new("hola".into(), 4);
    c.create_genes_from_target();
    let gc0: char = c.gene(0).into();
    let gc1 = c.gene(1).get();

    assert_eq!(gc0, 'h');
    assert_eq!(gc1, 'o');
}

#[test]
fn test_fitness1() {
    let c = StandardChromosome::new("hola".into(), 4);
    let g1 = Box::new(Gene::new('h'));
    let g2 = Box::new(Gene::new('a'));
    let g3 = Box::new(Gene::new('l'));
    let g4 = Box::new(Gene::new('a'));
    let mut v = vec![];
    v.push(g1);
    v.push(g2);
    v.push(g3);
    v.push(g4);

    assert_eq!(c.fitness(&v), 1);
}

#[test]
fn test_fitness2() {
    let c = StandardChromosome::new("hola".into(), 4);
    let g1 = Box::new(Gene::new('h'));
    let g2 = Box::new(Gene::new('a'));
    let g3 = Box::new(Gene::new('l'));
    let g4 = Box::new(Gene::new('o'));
    let mut v = vec![];
    v.push(g1);
    v.push(g2);
    v.push(g3);
    v.push(g4);

    assert_eq!(c.fitness(&v), 2);
}

#[test]
fn test_fitness3() {
    let c = StandardChromosome::new("hola".into(), 4);
    let g1 = Box::new(Gene::new('h'));
    let g2 = Box::new(Gene::new('o'));
    let g3 = Box::new(Gene::new('l'));
    let g4 = Box::new(Gene::new('a'));
    let mut v = vec![];
    v.push(g1);
    v.push(g2);
    v.push(g3);
    v.push(g4);

    assert_eq!(c.fitness(&v), 0);
}

#[test]
fn fitness_counts_differences() {
    let c = StandardChromosome::new("Me thinks".into(), 1);
    assert_eq!(c.fitness(&genes("Me thinks")), 0);
    assert_eq!(c.fitness(&genes("me Thinks")), 2);
    assert_eq!(c.fitness(&genes("_________")), 9);
    let n = StandardChromosome::new("niño".into(), 1);
    assert_eq!(n.fitness(&genes("nino")), 1);
}

#[test]
fn new_makes_random_genes_of_target_length() {
    let c = StandardChromosome::new("Me thinks it's like a weasel".into(), 100);
    assert_eq!(c.size(), 28);
    assert_eq!(c.ncopies(), 100);
    assert_eq!(c.target(), "Me thinks it's like a weasel");
    assert_eq!(c.generation(), 0);
    assert!(c.get_genes().chars().all(in_char_set));
    assert!(c.best_fitness() <= 28);
}

#[test]
fn set_target_resizes_genes() {
    let mut c = EvolvingChromosome::new("hola".into(), 4).with_mr(50_000);
    assert_eq!(c.set_target("España".into()), Ok(()));
    assert_eq!(c.size(), 6);
    assert_eq!(c.target(), "España");
    assert_eq!(c.mr(), 50_000);
    assert!(c.best_fitness() <= 6);
}

#[test]
fn set_target_refuses_empty() {
    let mut c = EvolvingChromosome::new("hola".into(), 4);
    let before = c.get_genes();
    assert_eq!(c.set_target(String::new()), Err(ChromosomeError::EmptyTarget));
    assert_eq!(c.target(), "hola");
    assert_eq!(c.get_genes(), before);
    assert_eq!(c.size(), 4);
}

#[test]
fn setters_take_effect() {
    let mut c = EvolvingChromosome::new("abc".into(), 4);
    assert_eq!(c.mr(), 0);
    c.set_mr(MR_SCALE);
    c.set_ncopies(7);
    assert_eq!(c.mr(), MR_SCALE);
    assert_eq!(c.ncopies(), 7);
}

#[test]
fn exact_genes_report_once_with_zero() {
    let mut c = EvolvingChromosome::new("hola".into(), 4);
    c.create_genes_from_target();
    let reports = RefCell::new(Vec::new());
    c.evolve(|it, bf, ch| {
        reports.borrow_mut().push((it, bf, ch.get_genes()));
        true
    });
    assert_eq!(reports.into_inner(), vec![(1, 0, "hola".to_string())]);
    assert_eq!(c.generation(), 1);
}

#[test]
fn evolution_converges_and_never_regresses() {
    let mut c = EvolvingChromosome::new("Me thinks it is like a weasel".into(), 200).with_mr(40_000);
    let start = c.best_fitness();
    let reports = RefCell::new(Vec::new());
    c.evolve(|it, bf, ch| {
        assert_eq!(bf, ch.best_fitness());
        reports.borrow_mut().push((it, bf));
        true
    });
    let reports = reports.into_inner();
    assert!(!reports.is_empty());
    for (k, (it, _)) in reports.iter().enumerate() {
        assert_eq!(*it as usize, k + 1);
    }
    assert!(reports[0].1 <= start);
    for w in reports.windows(2) {
        assert!(w[1].1 <= w[0].1);
    }
    assert_eq!(reports.last().unwrap().1, 0);
    assert_eq!(c.get_genes(), "Me thinks it is like a weasel");
}

#[test]
fn observer_can_stop_evolution() {
    // Without copies nothing improves, so only the observer ends the run.
    let mut c = EvolvingChromosome::new("weasel".into(), 0).with_mr(MR_SCALE);
    c.set_gene(0, MutableGene::new('@'));
    let before = c.get_genes();
    let count = RefCell::new(0u32);
    c.evolve(|it, _, _| {
        *count.borrow_mut() += 1;
        it < 3
    });
    assert_eq!(count.into_inner(), 3);
    assert_eq!(c.generation(), 3);
    assert_eq!(c.get_genes(), before);
}

#[test]
fn zero_rate_generation_keeps_genes() {
    let mut c = EvolvingChromosome::new("weasel".into(), 50);
    c.set_gene(0, MutableGene::new('@'));
    let before = c.get_genes();
    let f = c.best_fitness();
    assert_eq!(c.evolve_generation(), f);
    assert_eq!(c.get_genes(), before);
    assert_eq!(c.generation(), 1);
}

#[test]
fn generation_never_regresses() {
    let mut c = EvolvingChromosome::new("abcdefghij".into(), 5).with_mr(300_000);
    let mut last = c.best_fitness();
    for _ in 0..50 {
        let f = c.evolve_generation();
        assert!(f <= last);
        assert_eq!(f, c.best_fitness());
        last = f;
    }
}

#[test]
fn render_marked_replaces_differences() {
    let mut c = StandardChromosome::new("hola".into(), 1);
    c.create_genes_from_target();
    c.set_gene(1, Gene::new('a'));
    c.set_gene(3, Gene::new('o'));
    let marks: Vec<String> = ["0", "<a>", "2", "<o>"].iter().map(|s| s.to_string()).collect();
    assert_eq!(c.render_marked(&marks), "h<a>l<o>");
}

#[test]
fn colored_genes_mark_differences_in_red() {
    colored::control::set_override(true);
    let mut c = StandardChromosome::new("hola".into(), 1);
    c.create_genes_from_target();
    assert_eq!(c.get_genes_colored(), "hola");
    c.set_gene(1, Gene::new('a'));
    assert_eq!(c.get_genes_colored(), "h\u{1b}[31ma\u{1b}[0mla");
}

fn mutable(s: &str) -> Vec<Box<MutableGene>> {
    s.chars().map(|c| Box::new(MutableGene::new(c))).collect()
}

#[test]
fn mutate_genes_follows_the_draws() {
    let c = EvolvingChromosome::new("hola".into(), 1).with_mr(500_000);
    let from = mutable("hola");
    let mut v = mutable("zzzz");
    let p = vec![0, 499_999, 500_000, 999_999];
    let fresh = vec!['X', 'Y', 'Z', 'W'];
    c.mutate_genes(&from, &mut v, &p, &fresh);
    let got: String = v.iter().map(|g| g.get()).collect();
    assert_eq!(got, "XYla");
}

#[test]
fn keep_if_fitter_keeps_only_strict_improvements() {
    let c = EvolvingChromosome::new("hola".into(), 1);
    let mut best = mutable("hxxa");
    let bf = c.keep_if_fitter(&mut best, 2, &mutable("hxla"));
    assert_eq!(bf, 1);
    let got: String = best.iter().map(|g| g.get()).collect();
    assert_eq!(got, "hxla");
    // As fit is not fitter: the first improvement stays.
    let bf = c.keep_if_fitter(&mut best, 1, &mutable("hoxa"));
    assert_eq!(bf, 1);
    let got: String = best.iter().map(|g| g.get()).collect();
    assert_eq!(got, "hxla");
}

#[test]
fn full_rate_generation_redraws_every_copy() {
    // At full rate every symbol of a copy is redrawn, so the genes stay in
    // the alphabet and the fitness cannot rise.
    let mut c = EvolvingChromosome::new("Weasel".into(), 20).with_mr(MR_SCALE);
    let f0 = c.best_fitness();
    let f = c.evolve_generation();
    assert!(f <= f0);
    assert!(c.get_genes().chars().all(in_char_set));
}

#[test]
fn zero_copies_report_unchanged_fitness() {
    let mut c = EvolvingChromosome::new("weasel".into(), 0).with_mr(MR_SCALE);
    c.set_gene(0, MutableGene::new('@'));
    let f0 = c.best_fitness();
    let reports = RefCell::new(Vec::new());
    c.evolve(|it, bf, _| {
        reports.borrow_mut().push(bf);
        it < 5
    });
    assert_eq!(reports.into_inner(), vec![f0; 5]);
}
