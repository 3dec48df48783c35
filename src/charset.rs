//! The fixed alphabet that genes are drawn from.

use vstd::prelude::*;

verus! {

/// Every symbol a gene can take: punctuation, space, digits, and the
/// Spanish upper and lower case letters.
pub const CHARSET: &'static str = " ,.;:_-abcdefghijklmnñopqrstuvwxyzABCDEFGHIJKLMNÑOPQRSTUVWXYZ0123456789";

/// The alphabet as a sequence of symbols.
pub open spec fn charset() -> Seq<char> {
    CHARSET@
}

/// Relies on `rand::random_range`: a uniform draw from `0..n`, which panics
/// only on an empty range.
#[verifier::external_body]
pub(crate) fn draw_below(n: usize) -> (r: usize)
    requires
        n > 0,
    ensures
        r < n,
{
    rand::random_range(0..n)
}

/// Whether `c` belongs to the alphabet.
pub fn in_char_set(c: char) -> (r: bool)
    ensures
        r == charset().contains(c),
{
    let n = CHARSET.unicode_len();
    let mut i: usize = 0;
    while i < n
        invariant
            n == charset().len(),
            i <= n,
            forall|j: int| 0 <= j < i ==> charset()[j] != c,
        decreases n - i,
    {
        if CHARSET.get_char(i) == c {
            return true;
        }
        i += 1;
    }
    false
}

/// The number of symbols in the alphabet.
pub fn charset_len() -> (n: usize)
    ensures
        n == charset().len(),
        n > 0,
{
    proof {
        reveal_strlit(" ,.;:_-abcdefghijklmnñopqrstuvwxyzABCDEFGHIJKLMNÑOPQRSTUVWXYZ0123456789");
    }
    CHARSET.unicode_len()
}

/// The symbol at position `i` of the alphabet.
pub fn symbol_at(i: usize) -> (c: char)
    requires
        i < charset().len(),
    ensures
        c == charset()[i as int],
{
    CHARSET.get_char(i)
}

/// A symbol drawn uniformly at random from the alphabet.
pub fn rand_char() -> (c: char)
    ensures
        charset().contains(c),
{
    let i = draw_below(charset_len());
    let c = symbol_at(i);
    assert(charset()[i as int] == c);
    c
}

} // verus!
