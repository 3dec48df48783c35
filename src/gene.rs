//! Genes: one symbol each, set directly or drawn from the alphabet, and
//! (for the mutable kind) replaced at random with a given probability.

use crate::charset::{charset, draw_below, rand_char};
use vstd::prelude::*;

verus! {

/// An ordered list of genes, as a chromosome holds them.
pub type GeneList<T> = Vec<Box<T>>;

/// Mutation rates are probabilities in parts per million: a rate of
/// `MR_SCALE` (or more) always mutates, a rate of zero never does.
pub const MR_SCALE: u32 = 1_000_000;

/// A gene holding one symbol.
#[derive(Clone, Copy, Debug)]
pub struct Gene {
    data: char,
}

/// A gene that can also mutate.
#[derive(Clone, Copy, Debug)]
pub struct MutableGene(Gene);

/// Reading and writing the symbol of a gene.
pub trait GeneExt {
    /// The symbol the gene holds.
    spec fn symbol(&self) -> char;

    fn get(&self) -> (c: char)
        ensures
            c == self.symbol(),
    ;

    fn set(&mut self, c: char)
        ensures
            final(self).symbol() == c,
    ;

    /// Replaces the symbol with one drawn from the alphabet.
    fn set_random_data(&mut self)
        ensures
            charset().contains(final(self).symbol()),
    ;
}

/// The symbol a gene holding `c` has after a mutation at rate `mr` that
/// drew `p` from `0..MR_SCALE` and, for a replacement, `fresh`.
pub open spec fn mutated_symbol(c: char, p: u32, mr: u32, fresh: char) -> char {
    if p < mr {
        fresh
    } else {
        c
    }
}

/// Whether `p` and `fresh` can come out of the draws of one mutation at
/// rate `mr`: `p` from `0..MR_SCALE`, and a replacement from the alphabet
/// when one is needed.
pub open spec fn valid_draw(p: u32, mr: u32, fresh: char) -> bool {
    p < MR_SCALE && (p < mr ==> charset().contains(fresh))
}

/// Random replacement of a gene's symbol.
pub trait MutableGeneExt: GeneExt {
    /// The mutation on given draws: with `p` below the rate `mr`, the symbol
    /// becomes `fresh`; otherwise it stays.
    fn mutate_with(&mut self, p: u32, mr: u32, fresh: char)
        ensures
            final(self).symbol() == mutated_symbol(old(self).symbol(), p, mr, fresh),
    ;

    /// With probability `mr / MR_SCALE`, replaces the symbol with one drawn
    /// from the alphabet; otherwise leaves it as it is.
    fn mutate_data(&mut self, mr: u32)
        ensures
            exists|p: u32, fresh: char|
                #![trigger mutated_symbol(old(self).symbol(), p, mr, fresh)]
                valid_draw(p, mr, fresh) && final(self).symbol() == mutated_symbol(
                    old(self).symbol(),
                    p,
                    mr,
                    fresh,
                ),
    ;
}

/// Making genes.
pub trait GeneCreationExt: GeneExt + Sized {
    fn new(c: char) -> (g: Self)
        ensures
            g.symbol() == c,
    ;

    /// A gene holding a symbol drawn from the alphabet.
    fn new_from_random() -> (g: Self)
        ensures
            charset().contains(g.symbol()),
    ;
}

impl GeneCreationExt for Gene {
    fn new(c: char) -> (g: Self) {
        Gene { data: c }
    }

    fn new_from_random() -> (g: Self) {
        let data = rand_char();
        Gene { data }
    }
}

impl GeneExt for Gene {
    closed spec fn symbol(&self) -> char {
        self.data
    }

    fn get(&self) -> (c: char) {
        self.data
    }

    fn set(&mut self, c: char) {
        self.data = c;
    }

    fn set_random_data(&mut self) {
        self.data = rand_char();
    }
}

impl GeneExt for MutableGene {
    closed spec fn symbol(&self) -> char {
        self.0.data
    }

    fn get(&self) -> (c: char) {
        self.0.get()
    }

    fn set(&mut self, c: char) {
        self.0.set(c);
    }

    fn set_random_data(&mut self) {
        self.0.set_random_data();
    }
}

impl GeneCreationExt for MutableGene {
    fn new(c: char) -> (g: Self) {
        MutableGene(Gene { data: c })
    }

    fn new_from_random() -> (g: Self) {
        let data = rand_char();
        MutableGene(Gene { data })
    }
}

impl MutableGeneExt for MutableGene {
    fn mutate_with(&mut self, p: u32, mr: u32, fresh: char) {
        if p < mr {
            self.set(fresh);
        }
    }

    fn mutate_data(&mut self, mr: u32) {
        let p = draw_below(MR_SCALE as usize) as u32;
        let fresh = if p < mr {
            rand_char()
        } else {
            self.get()
        };
        let ghost before = self.symbol();
        self.mutate_with(p, mr, fresh);
        assert(valid_draw(p, mr, fresh) && self.symbol() == mutated_symbol(before, p, mr, fresh));
    }
}

impl std::ops::Deref for Gene {
    type Target = char;

    fn deref(&self) -> (r: &char)
        ensures
            *r == self.symbol(),
    {
        &self.data
    }
}

impl std::ops::DerefMut for Gene {
    fn deref_mut(&mut self) -> (r: &mut char)
        ensures
            *r == old(self).symbol(),
            final(self).symbol() == *final(r),
    {
        &mut self.data
    }
}

impl From<&Gene> for char {
    fn from(g: &Gene) -> (c: char) {
        g.get()
    }
}

impl vstd::std_specs::convert::FromSpecImpl<&Gene> for char {
    open spec fn obeys_from_spec() -> bool {
        true
    }

    open spec fn from_spec(g: &Gene) -> char {
        g.symbol()
    }
}

impl From<&MutableGene> for char {
    fn from(g: &MutableGene) -> (c: char) {
        g.get()
    }
}

impl vstd::std_specs::convert::FromSpecImpl<&MutableGene> for char {
    open spec fn obeys_from_spec() -> bool {
        true
    }

    open spec fn from_spec(g: &MutableGene) -> char {
        g.symbol()
    }
}

} // verus!
