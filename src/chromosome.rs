//! Chromosomes: a target sentence, a list of genes as long as it, and the
//! copy / mutate / select loop that drives the genes towards the target.

use crate::charset::charset;
use crate::charset::{draw_below, rand_char};
use crate::gene::{
    mutated_symbol, valid_draw, Gene, GeneCreationExt, GeneExt, GeneList, MutableGene,
    MutableGeneExt, MR_SCALE,
};
use colored::Colorize;
use vstd::prelude::*;

verus! {

/// A chromosome of plain genes.
pub type StandardChromosome = Chromosome<Gene>;

/// A chromosome of mutable genes, which can evolve.
pub type EvolvingChromosome = Chromosome<MutableGene>;

/// What a gene type needs to make up a chromosome.
pub trait ChromosomeExt: GeneCreationExt + GeneExt + Clone + 'static {}

impl ChromosomeExt for Gene {}

impl ChromosomeExt for MutableGene {}

/// The symbols of a list of genes, in order.
pub open spec fn symbols<T: GeneExt>(v: Seq<Box<T>>) -> Seq<char> {
    v.map_values(|g: Box<T>| g.symbol())
}

/// The number of positions of `v` at which `t` holds another symbol.
pub open spec fn hamming(v: Seq<char>, t: Seq<char>) -> nat
    decreases v.len(),
{
    if v.len() == 0 {
        0
    } else {
        hamming(v.drop_last(), t) + if v.last() != t[v.len() - 1] {
            1nat
        } else {
            0nat
        }
    }
}

/// The positions at which `v` and `t` hold different symbols.
pub open spec fn mismatches(v: Seq<char>, t: Seq<char>) -> Set<int> {
    Set::new(|i: int| 0 <= i < v.len() && v[i] != t[i])
}

/// For a candidate and a target of equal length, the fitness is the number
/// of positions at which they differ, and so lies between zero and the
/// length of the target.
pub proof fn lemma_fitness_counts_mismatches(v: Seq<char>, t: Seq<char>)
    requires
        v.len() == t.len(),
    ensures
        mismatches(v, t).finite(),
        hamming(v, t) == mismatches(v, t).len(),
        hamming(v, t) <= t.len(),
    decreases v.len(),
{
    if v.len() == 0 {
        assert(mismatches(v, t) =~= Set::empty());
    } else {
        let k = v.len() - 1;
        let (v0, t0) = (v.drop_last(), t.drop_last());
        lemma_fitness_counts_mismatches(v0, t0);
        lemma_hamming_prefix_of_target(v0, t);
        assert(hamming(v0, t) == hamming(v0, t0));
        if v[k] != t[k] {
            assert(mismatches(v, t) =~= mismatches(v0, t0).insert(k));
        } else {
            assert(mismatches(v, t) =~= mismatches(v0, t0));
        }
    }
}

/// Only the first `v.len()` symbols of the target count.
proof fn lemma_hamming_prefix_of_target(v: Seq<char>, t: Seq<char>)
    requires
        v.len() < t.len(),
    ensures
        hamming(v, t) == hamming(v, t.drop_last()),
    decreases v.len(),
{
    if v.len() > 0 {
        lemma_hamming_prefix_of_target(v.drop_last(), t);
    }
}

/// A candidate that spells its target exactly has fitness zero.
pub proof fn lemma_fitness_of_target(t: Seq<char>)
    ensures
        hamming(t, t) == 0,
{
    lemma_fitness_counts_mismatches(t, t);
    assert(mismatches(t, t) =~= Set::empty());
}

/// Whether every symbol of `s` belongs to the alphabet.
pub open spec fn all_in_charset(s: Seq<char>) -> bool {
    forall|i: int| 0 <= i < s.len() ==> charset().contains(#[trigger] s[i])
}

/// A target sentence and the genes that evolve towards it.
#[derive(Clone)]
pub struct Chromosome<T: ChromosomeExt> {
    /// Our target string
    target_string: String,
    /// The symbols of the target string, for access by position
    target_chars: Vec<char>,
    /// Number of copies in each evolution
    ncopies: u32,
    /// The gene list of this chromosome
    gene_list: GeneList<T>,
    /// Mutation rate, in parts per million
    mr: u32,
    /// Generations run by the last evolution
    generation: u32,
    /// The best fitness after each of those generations, in order
    history: Ghost<Seq<nat>>,
}

/// What can go wrong when configuring a chromosome.
#[derive(Clone, Copy, Debug, PartialEq, Eq)]
pub enum ChromosomeError {
    /// The target sentence has no symbols.
    EmptyTarget,
}

/// The escape codes that show `c` in red on a terminal.
pub open spec fn red_codes(c: char) -> Seq<char> {
    seq!['\u{1b}', '[', '3', '1', 'm', c, '\u{1b}', '[', '0', 'm']
}

/// Genes `genes` shown against `target`: a symbol that differs from the
/// target at its position is replaced by `marked` at that position.
pub open spec fn render_diff(genes: Seq<char>, target: Seq<char>, marked: Seq<Seq<char>>) -> Seq<
    char,
>
    decreases genes.len(),
{
    if genes.len() == 0 {
        Seq::empty()
    } else {
        let k = genes.len() - 1;
        render_diff(genes.drop_last(), target, marked) + if genes[k] != target[k] {
            marked[k]
        } else {
            seq![genes[k]]
        }
    }
}

/// Relies on `colored::Colorize::red` and the `Display` of its result: the
/// symbol alone when colouring is off, else wrapped in the codes for red.
#[verifier::external_body]
fn red(c: char) -> (r: String)
    ensures
        r@ == seq![c] || r@ == red_codes(c),
{
    format!("{}", c.to_string().red())
}

/// Relies on `String::push`: appends one character at the end.
#[verifier::external_body]
fn push_char(s: &mut String, c: char)
    ensures
        final(s)@ == old(s)@.push(c),
{
    s.push(c);
}

/// Gives each gene of `dst` the symbol of the gene of `src` at its position.
fn copy_symbols<T: GeneExt, U: GeneExt>(dst: &mut GeneList<T>, src: &GeneList<U>)
    requires
        old(dst).len() == src.len(),
    ensures
        final(dst).len() == src.len(),
        symbols(final(dst)@) == symbols(src@),
{
    let n = src.len();
    let mut i: usize = 0;
    while i < n
        invariant
            n == src.len(),
            dst.len() == n,
            i <= n,
            forall|j: int| 0 <= j < i ==> symbols(dst@)[j] == symbols(src@)[j],
        decreases n - i,
    {
        let c = src[i].get();
        dst[i].set(c);
        i += 1;
    }
    assert(symbols(dst@) =~= symbols(src@));
}

/// Mutable genes holding the symbols of `src`, in order.
fn mutable_copy<T: GeneExt>(src: &GeneList<T>) -> (v: GeneList<MutableGene>)
    ensures
        v.len() == src.len(),
        symbols(v@) == symbols(src@),
{
    let n = src.len();
    let mut v: GeneList<MutableGene> = Vec::new();
    let mut i: usize = 0;
    while i < n
        invariant
            n == src.len(),
            v.len() == i,
            i <= n,
            forall|j: int| 0 <= j < i ==> symbols(v@)[j] == symbols(src@)[j],
        decreases n - i,
    {
        let g = MutableGene::new(src[i].get());
        let ghost before = v@;
        v.push(Box::new(g));
        assert(symbols(v@) =~= symbols(before).push(g.symbol()));
        i += 1;
    }
    assert(symbols(v@) =~= symbols(src@));
    v
}

/// The symbols of `s`, one per element.
fn chars_of(s: &String) -> (v: Vec<char>)
    ensures
        v@ == s@,
{
    let s = s.as_str();
    let n = s.unicode_len();
    let mut v: Vec<char> = Vec::new();
    let mut i: usize = 0;
    while i < n
        invariant
            n == s@.len(),
            i <= n,
            v@ == s@.take(i as int),
        decreases n - i,
    {
        v.push(s.get_char(i));
        i += 1;
        assert(v@ =~= s@.take(i as int));
    }
    assert(v@ =~= s@);
    v
}

impl<T: ChromosomeExt> Chromosome<T> {
    /// The target sentence.
    pub closed spec fn target_seq(&self) -> Seq<char> {
        self.target_string@
    }

    /// The symbols of the genes, in order.
    pub closed spec fn gene_seq(&self) -> Seq<char> {
        symbols(self.gene_list@)
    }

    /// The number of mutated copies made in each generation.
    pub closed spec fn copies(&self) -> u32 {
        self.ncopies
    }

    /// The mutation rate, in parts per million.
    pub closed spec fn rate(&self) -> u32 {
        self.mr
    }

    /// The number of generations the last evolution has run.
    pub closed spec fn generations(&self) -> u32 {
        self.generation
    }

    /// The best fitness after each generation of the last evolution.
    pub closed spec fn reports(&self) -> Seq<nat> {
        self.history@
    }

    /// The genes are as many as the symbols of the target, their distance to
    /// it fits a `u32`, and one best fitness is kept per generation run.
    pub closed spec fn wf(&self) -> bool {
        &&& self.target_chars@ == self.target_string@
        &&& self.gene_list.len() == self.target_chars.len()
        &&& self.target_chars.len() <= u32::MAX
        &&& self.history@.len() == self.generation
    }

    /// The distance of the genes to the target.
    pub open spec fn spec_fitness(&self) -> nat {
        hamming(self.gene_seq(), self.target_seq())
    }

    /// A chromosome for `tstr`, with one random gene per symbol and no
    /// mutation.
    pub fn new(tstr: String, ncopies: u32) -> (c: Self)
        requires
            0 < tstr@.len() <= u32::MAX,
        ensures
            c.wf(),
            c.target_seq() == tstr@,
            c.gene_seq().len() == tstr@.len(),
            all_in_charset(c.gene_seq()),
            c.copies() == ncopies,
            c.rate() == 0,
            c.generations() == 0,
            c.reports() == Seq::<nat>::empty(),
    {
        let target_chars = chars_of(&tstr);
        let mut c = Chromosome {
            target_string: tstr,
            target_chars,
            ncopies,
            gene_list: Vec::new(),
            mr: 0,
            generation: 0,
            history: Ghost(Seq::empty()),
        };
        c.create_random_genes();
        c
    }

    pub fn ncopies(&self) -> (n: u32)
        ensures
            n == self.copies(),
    {
        self.ncopies
    }

    pub fn target(&self) -> (t: String)
        ensures
            t@ == self.target_seq(),
    {
        self.target_string.clone()
    }

    /// Replaces the genes with one random gene per symbol of the target.
    fn create_random_genes(&mut self)
        requires
            old(self).target_chars@ == old(self).target_string@,
            old(self).target_chars.len() <= u32::MAX,
            old(self).history@.len() == old(self).generation,
        ensures
            final(self).wf(),
            final(self).target_seq() == old(self).target_seq(),
            final(self).gene_seq().len() == old(self).target_seq().len(),
            all_in_charset(final(self).gene_seq()),
            final(self).copies() == old(self).copies(),
            final(self).rate() == old(self).rate(),
            final(self).generations() == old(self).generations(),
            final(self).reports() == old(self).reports(),
    {
        self.free_gene_list();
        let n = self.target_chars.len();
        let mut i: usize = 0;
        while i < n
            invariant
                n == self.target_chars.len(),
                self.target_chars@ == old(self).target_chars@,
                self.target_string == old(self).target_string,
                self.ncopies == old(self).ncopies,
                self.mr == old(self).mr,
                self.generation == old(self).generation,
                self.history == old(self).history,
                i <= n,
                self.gene_list.len() == i,
                all_in_charset(symbols(self.gene_list@)),
            decreases n - i,
        {
            let g = T::new_from_random();
            let ghost before = self.gene_list@;
            self.gene_list.push(Box::new(g));
            assert(symbols(self.gene_list@) =~= symbols(before).push(g.symbol()));
            i += 1;
        }
    }

    /// Sets every gene to the symbol of the target at its position.
    pub fn create_genes_from_target(&mut self)
        requires
            old(self).wf(),
        ensures
            final(self).wf(),
            final(self).gene_seq() == final(self).target_seq(),
            final(self).target_seq() == old(self).target_seq(),
            final(self).copies() == old(self).copies(),
            final(self).rate() == old(self).rate(),
            final(self).generations() == old(self).generations(),
            final(self).reports() == old(self).reports(),
    {
        self.free_gene_list();
        let n = self.target_chars.len();
        let mut i: usize = 0;
        while i < n
            invariant
                n == self.target_chars.len(),
                self.target_chars@ == old(self).target_chars@,
                self.target_string == old(self).target_string,
                self.ncopies == old(self).ncopies,
                self.mr == old(self).mr,
                self.generation == old(self).generation,
                self.history == old(self).history,
                i <= n,
                self.gene_list.len() == i,
                symbols(self.gene_list@) == self.target_chars@.take(i as int),
            decreases n - i,
        {
            let g = T::new(self.target_chars[i]);
            self.gene_list.push(Box::new(g));
            i += 1;
            assert(symbols(self.gene_list@) =~= self.target_chars@.take(i as int));
        }
        assert(self.target_chars@.take(n as int) =~= self.target_chars@);
    }

    fn free_gene_list(&mut self)
        ensures
            final(self).gene_list.len() == 0,
            final(self).target_string == old(self).target_string,
            final(self).target_chars == old(self).target_chars,
            final(self).ncopies == old(self).ncopies,
            final(self).mr == old(self).mr,
            final(self).generation == old(self).generation,
            final(self).history == old(self).history,
    {
        self.gene_list.clear();
    }

    /// The symbols of `gene_list`, in order.
    fn gene_list_as_string(gene_list: &GeneList<T>) -> (s: String)
        ensures
            s@ == symbols(gene_list@),
    {
        let mut gstr = String::new();
        let mut i: usize = 0;
        while i < gene_list.len()
            invariant
                i <= gene_list.len(),
                gstr@ == symbols(gene_list@).take(i as int),
            decreases gene_list.len() - i,
        {
            push_char(&mut gstr, gene_list[i].get());
            i += 1;
            assert(gstr@ =~= symbols(gene_list@).take(i as int));
        }
        assert(symbols(gene_list@).take(i as int) =~= symbols(gene_list@));
        gstr
    }

    /// The symbols of the genes, in order.
    pub fn get_genes(&self) -> (s: String)
        ensures
            s@ == self.gene_seq(),
    {
        Self::gene_list_as_string(&self.gene_list)
    }

    /// The genes with each symbol that differs from the target at its
    /// position replaced by the text of `marked` at that position.
    pub fn render_marked(&self, marked: &Vec<String>) -> (s: String)
        requires
            self.wf(),
            marked.len() == self.gene_seq().len(),
        ensures
            s@ == render_diff(
                self.gene_seq(),
                self.target_seq(),
                marked@.map_values(|m: String| m@),
            ),
    {
        let ghost ms = marked@.map_values(|m: String| m@);
        let n = self.gene_list.len();
        let mut out = String::new();
        let mut i: usize = 0;
        while i < n
            invariant
                self.wf(),
                n == self.gene_list.len(),
                marked.len() == n,
                ms == marked@.map_values(|m: String| m@),
                i <= n,
                out@ == render_diff(self.gene_seq().take(i as int), self.target_seq(), ms),
            decreases n - i,
        {
            proof {
                assert(self.gene_seq().take(i + 1).drop_last() =~= self.gene_seq().take(i as int));
            }
            let c = self.gene_list[i].get();
            if c != self.target_chars[i] {
                out.append(marked[i].as_str());
            } else {
                push_char(&mut out, c);
            }
            i += 1;
        }
        assert(self.gene_seq().take(n as int) =~= self.gene_seq());
        out
    }

    /// The genes, with each symbol that differs from the target at its
    /// position shown in red (when the terminal is coloured).
    pub fn get_genes_colored(&self) -> (s: String)
        requires
            self.wf(),
        ensures
            exists|m: Seq<Seq<char>>|
                {
                    &&& m.len() == self.gene_seq().len()
                    &&& forall|i: int|
                        0 <= i < m.len() ==> #[trigger] m[i] == seq![self.gene_seq()[i]]
                            || m[i] == red_codes(self.gene_seq()[i])
                    &&& s@ == render_diff(self.gene_seq(), self.target_seq(), m)
                },
    {
        let n = self.gene_list.len();
        let mut marked: Vec<String> = Vec::new();
        let mut i: usize = 0;
        while i < n
            invariant
                self.wf(),
                n == self.gene_list.len(),
                i <= n,
                marked.len() == i,
                forall|j: int|
                    0 <= j < i ==> #[trigger] marked@[j]@ == seq![self.gene_seq()[j]]
                        || marked@[j]@ == red_codes(self.gene_seq()[j]),
            decreases n - i,
        {
            marked.push(red(self.gene_list[i].get()));
            i += 1;
        }
        let s = self.render_marked(&marked);
        let ghost m = marked@.map_values(|m: String| m@);
        assert(m.len() == self.gene_seq().len());
        assert(forall|i: int|
            0 <= i < m.len() ==> #[trigger] m[i] == seq![self.gene_seq()[i]] || m[i] == red_codes(
                self.gene_seq()[i],
            ));
        s
    }

    /// The gene at position `idx`.
    pub fn gene(&self, idx: usize) -> (g: &T)
        requires
            idx < self.gene_seq().len(),
        ensures
            g.symbol() == self.gene_seq()[idx as int],
    {
        &*self.gene_list[idx]
    }

    /// Replaces the gene at position `idx` with `g`.
    pub fn set_gene(&mut self, idx: usize, g: T)
        requires
            old(self).wf(),
            idx < old(self).gene_seq().len(),
        ensures
            final(self).wf(),
            final(self).gene_seq() == old(self).gene_seq().update(idx as int, g.symbol()),
            final(self).target_seq() == old(self).target_seq(),
            final(self).copies() == old(self).copies(),
            final(self).rate() == old(self).rate(),
            final(self).generations() == old(self).generations(),
            final(self).reports() == old(self).reports(),
    {
        self.gene_list[idx] = Box::new(g);
        assert(self.gene_seq() =~= old(self).gene_seq().update(idx as int, g.symbol()));
    }

    /// Replaces the target with `tstr` and the genes with one random gene per
    /// symbol of it; the generation count starts again from zero. An empty
    /// target is refused, and the chromosome is then left as it was.
    pub fn set_target(&mut self, tstr: String) -> (r: Result<(), ChromosomeError>)
        requires
            old(self).wf(),
            tstr@.len() <= u32::MAX,
        ensures
            r is Err <==> tstr@.len() == 0,
            r is Err ==> r == Err::<(), ChromosomeError>(ChromosomeError::EmptyTarget) && *final(self)
                == *old(self),
            final(self).wf(),
            r is Ok ==> {
                &&& final(self).target_seq() == tstr@
                &&& final(self).gene_seq().len() == tstr@.len()
                &&& all_in_charset(final(self).gene_seq())
                &&& final(self).copies() == old(self).copies()
                &&& final(self).rate() == old(self).rate()
                &&& final(self).generations() == 0
                &&& final(self).reports() == Seq::<nat>::empty()
            },
    {
        if tstr.as_str().unicode_len() == 0 {
            return Err(ChromosomeError::EmptyTarget);
        }
        self.target_chars = chars_of(&tstr);
        self.target_string = tstr;
        self.generation = 0;
        self.history = Ghost(Seq::empty());
        self.create_random_genes();
        Ok(())
    }

    /// Sets the mutation rate, in parts per million.
    pub fn set_mr(&mut self, mr: u32)
        requires
            old(self).wf(),
        ensures
            final(self).wf(),
            final(self).rate() == mr,
            final(self).gene_seq() == old(self).gene_seq(),
            final(self).target_seq() == old(self).target_seq(),
            final(self).copies() == old(self).copies(),
            final(self).generations() == old(self).generations(),
            final(self).reports() == old(self).reports(),
    {
        self.mr = mr;
    }

    /// Sets the number of mutated copies made in each generation.
    pub fn set_ncopies(&mut self, ncopies: u32)
        requires
            old(self).wf(),
        ensures
            final(self).wf(),
            final(self).copies() == ncopies,
            final(self).gene_seq() == old(self).gene_seq(),
            final(self).target_seq() == old(self).target_seq(),
            final(self).rate() == old(self).rate(),
            final(self).generations() == old(self).generations(),
            final(self).reports() == old(self).reports(),
    {
        self.ncopies = ncopies;
    }

    /// The distance of the genes to the target.
    pub fn best_fitness(&self) -> (f: u32)
        requires
            self.wf(),
        ensures
            f == self.spec_fitness(),
    {
        self.fitness(&self.gene_list)
    }

    /// The number of generations the last evolution has run.
    pub fn generation(&self) -> (n: u32)
        ensures
            n == self.generations(),
    {
        self.generation
    }

    /// The number of genes.
    pub fn size(&self) -> (n: usize)
        ensures
            n == self.gene_seq().len(),
    {
        self.gene_list.len()
    }

    /// The number of positions at which the genes `v` differ from the target.
    pub fn fitness(&self, v: &GeneList<T>) -> (d: u32)
        requires
            self.wf(),
            v.len() == self.target_seq().len(),
        ensures
            d == hamming(symbols(v@), self.target_seq()),
    {
        let n = self.target_chars.len();
        let mut d: u32 = 0;
        let mut i: usize = 0;
        while i < n
            invariant
                self.wf(),
                n == self.target_chars.len(),
                v.len() == n,
                i <= n,
                d <= i,
                d == hamming(symbols(v@).take(i as int), self.target_chars@),
            decreases n - i,
        {
            proof {
                assert(symbols(v@).take(i + 1).drop_last() =~= symbols(v@).take(i as int));
            }
            if self.target_chars[i] != v[i].get() {
                d += 1;
            }
            i += 1;
        }
        assert(symbols(v@).take(n as int) =~= symbols(v@));
        d
    }
}

/// The symbols `from` after a mutation at rate `mr` on the draws `p` and
/// `fresh`, one of each per position.
pub open spec fn mutated(from: Seq<char>, mr: u32, p: Seq<u32>, fresh: Seq<char>) -> Seq<char> {
    Seq::new(from.len(), |i: int| mutated_symbol(from[i], p[i], mr, fresh[i]))
}

/// Whether `p` and `fresh` can be the draws that mutate `n` genes at rate `mr`.
pub open spec fn valid_draws(n: nat, mr: u32, p: Seq<u32>, fresh: Seq<char>) -> bool {
    &&& p.len() == n
    &&& fresh.len() == n
    &&& forall|i: int| 0 <= i < n ==> #[trigger] valid_draw(p[i], mr, fresh[i])
}

/// `cand` when it is strictly closer to `target` than `best`, else `best`.
pub open spec fn fitter(best: Seq<char>, cand: Seq<char>, target: Seq<char>) -> Seq<char> {
    if hamming(cand, target) < hamming(best, target) {
        cand
    } else {
        best
    }
}

/// The best symbols after one mutated copy per element of `ps` (with the
/// replacements of `fs`), each copy made from the best so far and kept only
/// when strictly fitter.
pub open spec fn after_copies(
    start: Seq<char>,
    target: Seq<char>,
    mr: u32,
    ps: Seq<Seq<u32>>,
    fs: Seq<Seq<char>>,
) -> Seq<char>
    decreases ps.len(),
{
    if ps.len() == 0 {
        start
    } else {
        let prev = after_copies(start, target, mr, ps.drop_last(), fs.drop_last());
        fitter(prev, mutated(prev, mr, ps.last(), fs[ps.len() - 1]), target)
    }
}

/// Whether `result` is what one generation from `start` gives on the draws
/// `ps` and `fs`: `copies` copies, or fewer when an exact match ended the
/// generation early.
pub open spec fn generation_outcome(
    start: Seq<char>,
    target: Seq<char>,
    mr: u32,
    copies: u32,
    ps: Seq<Seq<u32>>,
    fs: Seq<Seq<char>>,
    result: Seq<char>,
) -> bool {
    &&& ps.len() == fs.len()
    &&& ps.len() <= copies
    &&& forall|k: int| 0 <= k < ps.len() ==> valid_draws(start.len(), mr, #[trigger] ps[k], fs[k])
    &&& result == after_copies(start, target, mr, ps, fs)
    &&& ps.len() < copies ==> hamming(result, target) == 0
}

/// Whether no element of `s` is above one before it.
pub open spec fn non_increasing(s: Seq<nat>) -> bool {
    forall|i: int, j: int| 0 <= i <= j < s.len() ==> s[j] <= s[i]
}

impl Chromosome<MutableGene> {
    /// This chromosome, with mutation rate `mr` (parts per million).
    pub fn with_mr(self, mr: u32) -> (c: Self)
        requires
            self.wf(),
        ensures
            c.wf(),
            c.rate() == mr,
            c.target_seq() == self.target_seq(),
            c.gene_seq() == self.gene_seq(),
            c.copies() == self.copies(),
            c.generations() == self.generations(),
            c.reports() == self.reports(),
    {
        let mut c = self;
        c.mr = mr;
        c
    }

    /// The mutation rate, in parts per million.
    pub fn mr(&self) -> (r: u32)
        ensures
            r == self.rate(),
    {
        self.mr
    }

    /// Resets `v` to the symbols of `from`, then mutates each of its genes at
    /// the chromosome's rate on the draws `p` and `fresh`.
    pub fn mutate_genes(
        &self,
        from: &GeneList<MutableGene>,
        v: &mut GeneList<MutableGene>,
        p: &Vec<u32>,
        fresh: &Vec<char>,
    )
        requires
            old(v).len() == from.len(),
            p.len() == from.len(),
            fresh.len() == from.len(),
        ensures
            final(v).len() == from.len(),
            symbols(final(v)@) == mutated(symbols(from@), self.rate(), p@, fresh@),
    {
        let n = from.len();
        let mut i: usize = 0;
        while i < n
            invariant
                n == from.len(),
                v.len() == n,
                p.len() == n,
                fresh.len() == n,
                i <= n,
                forall|j: int|
                    0 <= j < i ==> #[trigger] symbols(v@)[j] == mutated_symbol(
                        symbols(from@)[j],
                        p@[j],
                        self.rate(),
                        fresh@[j],
                    ),
            decreases n - i,
        {
            let mut g = MutableGene::new(from[i].get());
            g.mutate_with(p[i], self.mr, fresh[i]);
            let ghost before = v@;
            v[i] = Box::new(g);
            assert(symbols(v@) =~= symbols(before).update(i as int, g.symbol()));
            i += 1;
        }
        assert(symbols(v@) =~= mutated(symbols(from@), self.rate(), p@, fresh@));
    }

    /// The draws for mutating `n` genes: for each, a value from
    /// `0..MR_SCALE` and, where that value is below the rate, a symbol from
    /// the alphabet.
    fn draw_mutations(&self, n: usize) -> (r: (Vec<u32>, Vec<char>))
        ensures
            valid_draws(n as nat, self.rate(), r.0@, r.1@),
    {
        let mut p: Vec<u32> = Vec::new();
        let mut fresh: Vec<char> = Vec::new();
        let mut i: usize = 0;
        while i < n
            invariant
                i <= n,
                valid_draws(i as nat, self.rate(), p@, fresh@),
            decreases n - i,
        {
            let d = draw_below(MR_SCALE as usize) as u32;
            let c = if d < self.mr {
                rand_char()
            } else {
                ' '
            };
            p.push(d);
            fresh.push(c);
            i += 1;
            assert(valid_draw(p@[i - 1], self.rate(), fresh@[i - 1]));
        }
        (p, fresh)
    }

    /// Puts the symbols of `candidate` into `best` when `candidate` is
    /// strictly closer to the target than `best`, whose fitness is
    /// `best_fitness`. Returns the fitness of what `best` then holds.
    pub fn keep_if_fitter(
        &self,
        best: &mut GeneList<MutableGene>,
        best_fitness: u32,
        candidate: &GeneList<MutableGene>,
    ) -> (bf: u32)
        requires
            self.wf(),
            old(best).len() == self.target_seq().len(),
            candidate.len() == self.target_seq().len(),
            best_fitness == hamming(symbols(old(best)@), self.target_seq()),
        ensures
            final(best).len() == self.target_seq().len(),
            symbols(final(best)@) == fitter(
                symbols(old(best)@),
                symbols(candidate@),
                self.target_seq(),
            ),
            bf == hamming(symbols(final(best)@), self.target_seq()),
    {
        let f = self.fitness(candidate);
        if f < best_fitness {
            copy_symbols(best, candidate);
            f
        } else {
            best_fitness
        }
    }

    /// Runs one generation: `ncopies` times, resets a working copy to the best
    /// genes so far, mutates it and keeps it when it is strictly closer to the
    /// target, stopping early on an exact match. The best genes then become
    /// the genes of the chromosome, and their fitness is returned and added
    /// to the reports.
    pub fn evolve_generation(&mut self) -> (bf: u32)
        requires
            old(self).wf(),
            old(self).generations() < u32::MAX,
        ensures
            final(self).wf(),
            final(self).target_seq() == old(self).target_seq(),
            final(self).gene_seq().len() == old(self).target_seq().len(),
            final(self).copies() == old(self).copies(),
            final(self).rate() == old(self).rate(),
            final(self).generations() == old(self).generations() + 1,
            final(self).reports() == old(self).reports().push(bf as nat),
            bf == final(self).spec_fitness(),
            bf <= old(self).spec_fitness(),
            exists|ps: Seq<Seq<u32>>, fs: Seq<Seq<char>>|
                generation_outcome(
                    old(self).gene_seq(),
                    old(self).target_seq(),
                    old(self).rate(),
                    old(self).copies(),
                    ps,
                    fs,
                    final(self).gene_seq(),
                ),
            forall|i: int|
                0 <= i < final(self).gene_seq().len() ==> #[trigger] final(self).gene_seq()[i]
                    == old(self).gene_seq()[i] || charset().contains(final(self).gene_seq()[i]),
            old(self).rate() == 0 ==> final(self).gene_seq() == old(self).gene_seq(),
            old(self).copies() == 0 ==> final(self).gene_seq() == old(self).gene_seq(),
    {
        let n = self.gene_list.len();
        let mut glc = mutable_copy(&self.gene_list);
        let mut bgl = mutable_copy(&self.gene_list);
        let mut bf = self.fitness(&bgl);
        let ghost start = self.gene_seq();
        let ghost target = self.target_seq();
        let ghost mut ps: Seq<Seq<u32>> = Seq::empty();
        let ghost mut fs: Seq<Seq<char>> = Seq::empty();
        let mut k: u32 = 0;
        while k < self.ncopies && bf != 0
            invariant
                self.wf(),
                self.gene_seq() == start,
                self.target_seq() == target,
                self.generation < u32::MAX,
                n == self.gene_list.len(),
                glc.len() == n,
                bgl.len() == n,
                start.len() == n,
                k <= self.ncopies,
                bf == hamming(symbols(bgl@), target),
                bf <= hamming(start, target),
                ps.len() == k,
                fs.len() == k,
                forall|j: int| 0 <= j < k ==> valid_draws(n as nat, self.rate(), #[trigger] ps[j], fs[j]),
                symbols(bgl@) == after_copies(start, target, self.rate(), ps, fs),
                forall|i: int|
                    0 <= i < n ==> #[trigger] symbols(bgl@)[i] == start[i]
                        || charset().contains(symbols(bgl@)[i]),
                self.rate() == 0 ==> symbols(bgl@) == start,
                self.copies() == 0 ==> symbols(bgl@) == start,
            decreases self.ncopies - k,
        {
            let (p, fresh) = self.draw_mutations(n);
            self.mutate_genes(&bgl, &mut glc, &p, &fresh);
            let ghost prev = symbols(bgl@);
            proof {
                assert forall|i: int| 0 <= i < n implies #[trigger] symbols(glc@)[i] == prev[i]
                    || charset().contains(symbols(glc@)[i]) by {
                    assert(valid_draw(p@[i], self.rate(), fresh@[i]));
                }
                if self.rate() == 0 {
                    assert(symbols(glc@) =~= prev);
                }
            }
            bf = self.keep_if_fitter(&mut bgl, bf, &glc);
            proof {
                let ps0 = ps;
                let fs0 = fs;
                ps = ps.push(p@);
                fs = fs.push(fresh@);
                assert(ps.drop_last() =~= ps0);
                assert(fs.drop_last() =~= fs0);
                assert forall|j: int| 0 <= j < ps.len() implies valid_draws(
                    n as nat,
                    self.rate(),
                    #[trigger] ps[j],
                    fs[j],
                ) by {
                    if j < ps0.len() {
                        assert(ps[j] == ps0[j]);
                        assert(fs[j] == fs0[j]);
                    }
                }
            }
            k += 1;
        }
        proof {
            assert(generation_outcome(start, target, self.rate(), self.copies(), ps, fs, symbols(bgl@)));
        }
        copy_symbols(&mut self.gene_list, &bgl);
        self.generation += 1;
        proof {
            self.history = Ghost(self.history@.push(bf as nat));
        }
        bf
    }

    /// Whether `it` and `bf` with this chromosome are what the observer of an
    /// evolution is handed after generation `it`, for an evolution that
    /// began with `target`, `copies`, `rate` and fitness `start_fitness`:
    /// the generation number, the best fitness so far, which is the
    /// chromosome's own, and the fitness of every generation up to this one,
    /// never rising and above zero but perhaps for the last.
    pub open spec fn is_report(
        &self,
        it: u32,
        bf: u32,
        target: Seq<char>,
        copies: u32,
        rate: u32,
        start_fitness: nat,
    ) -> bool {
        &&& self.wf()
        &&& self.target_seq() == target
        &&& self.gene_seq().len() == target.len()
        &&& self.copies() == copies
        &&& self.rate() == rate
        &&& 1 <= it
        &&& it == self.generations()
        &&& self.reports().len() == it
        &&& bf == self.spec_fitness()
        &&& self.reports().last() == bf
        &&& self.reports()[0] <= start_fitness
        &&& non_increasing(self.reports())
        &&& forall|k: int| 0 <= k < it - 1 ==> #[trigger] self.reports()[k] > 0
    }

    /// Evolves the chromosome one generation after another. After each, calls
    /// `on_evolve_iteration` with the generation number (counted from one),
    /// the best fitness, and the chromosome as it then is. Stops once the
    /// genes spell the target, or when the observer returns `false`; the
    /// observer must return `false` at the last generation number there is.
    pub fn evolve<F: Fn(u32, u32, &Self) -> bool>(&mut self, on_evolve_iteration: F)
        requires
            old(self).wf(),
            forall|it: u32, bf: u32, c: &Self|
                c.is_report(
                    it,
                    bf,
                    old(self).target_seq(),
                    old(self).copies(),
                    old(self).rate(),
                    old(self).spec_fitness(),
                ) ==> #[trigger] on_evolve_iteration.requires((it, bf, c)),
            forall|bf: u32, c: &Self| !#[trigger] on_evolve_iteration.ensures((u32::MAX, bf, c), true),
        ensures
            final(self).is_report(
                final(self).generations(),
                final(self).spec_fitness() as u32,
                old(self).target_seq(),
                old(self).copies(),
                old(self).rate(),
                old(self).spec_fitness(),
            ),
            final(self).spec_fitness() == 0 || on_evolve_iteration.ensures(
                (final(self).generations(), final(self).spec_fitness() as u32, &*final(self)),
                false,
            ),
            all_in_charset(old(self).gene_seq()) ==> all_in_charset(final(self).gene_seq()),
            old(self).rate() == 0 || old(self).copies() == 0 ==> {
                &&& final(self).gene_seq() == old(self).gene_seq()
                &&& forall|k: int|
                    0 <= k < final(self).reports().len() ==> #[trigger] final(self).reports()[k]
                        == old(self).spec_fitness()
            },
    {
        let ghost start = self.gene_seq();
        let ghost target = self.target_seq();
        let ghost start_fitness = self.spec_fitness();
        self.generation = 0;
        proof {
            self.history = Ghost(Seq::empty());
        }
        loop
            invariant
                self.wf(),
                self.target_seq() == target,
                target == old(self).target_seq(),
                start == old(self).gene_seq(),
                start.len() == target.len(),
                start_fitness == old(self).spec_fitness(),
                self.gene_seq().len() == target.len(),
                self.copies() == old(self).copies(),
                self.rate() == old(self).rate(),
                self.generation < u32::MAX,
                self.spec_fitness() <= start_fitness,
                self.generation > 0 ==> self.reports().last() == self.spec_fitness(),
                self.generation > 0 ==> self.reports()[0] <= start_fitness,
                non_increasing(self.reports()),
                forall|k: int| 0 <= k < self.reports().len() ==> #[trigger] self.reports()[k] > 0,
                forall|i: int|
                    0 <= i < target.len() ==> #[trigger] self.gene_seq()[i] == start[i]
                        || charset().contains(self.gene_seq()[i]),
                self.rate() == 0 || self.copies() == 0 ==> {
                    &&& self.gene_seq() == start
                    &&& forall|k: int|
                        0 <= k < self.reports().len() ==> #[trigger] self.reports()[k]
                            == start_fitness
                },
                forall|it: u32, bf: u32, c: &Self|
                    c.is_report(it, bf, target, self.copies(), self.rate(), start_fitness)
                        ==> #[trigger] on_evolve_iteration.requires((it, bf, c)),
                forall|bf: u32, c: &Self| !#[trigger] on_evolve_iteration.ensures((u32::MAX, bf, c), true),
            decreases u32::MAX - self.generation,
        {
            let ghost before = self.reports();
            let ghost genes_before = self.gene_seq();
            let bf = self.evolve_generation();
            proof {
                assert(self.reports().drop_last() =~= before);
                assert forall|i: int| 0 <= i < target.len() implies #[trigger] self.gene_seq()[i] == start[i]
                    || charset().contains(self.gene_seq()[i]) by {
                    assert(self.gene_seq()[i] == genes_before[i] || charset().contains(self.gene_seq()[i]));
                }
                assert(self.is_report(self.generation, bf, target, self.copies(), self.rate(), start_fitness));
            }
            let go_on = on_evolve_iteration(self.generation, bf, &*self);
            if bf == 0 || !go_on || self.generation == u32::MAX {
                proof {
                    if all_in_charset(start) {
                        assert forall|i: int| 0 <= i < self.gene_seq().len() implies charset().contains(
                            #[trigger] self.gene_seq()[i],
                        ) by {
                            assert(self.gene_seq()[i] == start[i] || charset().contains(self.gene_seq()[i]));
                        }
                    }
                }
                return;
            }
        }
    }
}

} // verus!
