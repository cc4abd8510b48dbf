//! The plain gag: every ASCII letter becomes one of `h`, `m` and `f`.

use vstd::prelude::*;
use vstd::string::*;
use crate::text::push_char;
use crate::weights::{sample_weighted, thread_rng, weights_error, weights_total};

verus! {

/// The number of states of the chain.
pub const OCHARS: usize = 3;

/// The weights of the first state of a word.
pub const FIRST: [u8; OCHARS] = [4, 2, 1];

/// The weights of the next state, for each state.
pub const NEXT: [[u8; OCHARS]; OCHARS] = [[2, 4, 1], [1, 4, 2], [2, 1, 4]];

/// The lower-case letter of each state.
pub const LOW: [char; OCHARS] = ['h', 'm', 'f'];

/// The upper-case letter of each state.
pub const CAP: [char; OCHARS] = ['H', 'M', 'F'];

/// Whether a character is an ASCII capital.
pub open spec fn is_ascii_upper(c: char) -> bool {
    'A' <= c && c <= 'Z'
}

/// Whether a character is an ASCII letter.
pub open spec fn is_ascii_letter(c: char) -> bool {
    is_ascii_upper(c) || ('a' <= c && c <= 'z')
}

/// Whether `out` can stand for the character `c` of a message: for a
/// capital one of `H`, `M` and `F`, for a small letter one of `h`, `m` and
/// `f`, and for anything else only itself.
pub open spec fn can_stand_for(c: char, out: char) -> bool {
    if is_ascii_upper(c) {
        out == 'H' || out == 'M' || out == 'F'
    } else if is_ascii_letter(c) {
        out == 'h' || out == 'm' || out == 'f'
    } else {
        out == c
    }
}

/// The sum of three weights, written out.
proof fn lemma_total_of_three(w: Seq<u8>)
    requires
        w.len() == 3,
    ensures
        weights_total(w) == w[0] + w[1] + w[2],
{
    reveal_with_fuel(weights_total, 4);
    let w2 = w.drop_last();
    let w1 = w2.drop_last();
    let w0 = w1.drop_last();
    assert(w0.len() == 0);
    assert(w1.last() == w[0]);
    assert(w2.last() == w[1]);
}

/// A state can be drawn from every list of weights of the chain.
proof fn lemma_chain_samples()
    ensures
        weights_error(FIRST@) is None,
        forall|state: int| 0 <= state < OCHARS ==> weights_error(#[trigger] NEXT@[state]@) is None,
{
    lemma_total_of_three(FIRST@);
    assert forall|state: int| 0 <= state < OCHARS implies weights_error(
        #[trigger] NEXT@[state]@,
    ) is None by {
        lemma_total_of_three(NEXT@[state]@);
    }
}

/// Gags a message.
///
/// Every ASCII letter is replaced by one of `h`, `m` and `f`, a capital by a
/// capital; every other character stays. Which of the three comes is up to
/// chance: within a word it depends on the letter before.
pub fn gag(s: &str) -> (r: String)
    ensures
        r@.len() == s@.len(),
        forall|i: int| 0 <= i < s@.len() ==> can_stand_for(#[trigger] s@[i], r@[i]),
{
    proof {
        lemma_chain_samples();
    }
    let mut ret = String::new();
    let mut rng = thread_rng();
    let mut ochar: usize = match sample_weighted(&FIRST, &mut rng) {
        Ok(state) => state,
        Err(_) => unreached(),
    };
    for c in it: s.chars()
        invariant
            it.seq() == s@,
            ochar < OCHARS,
            ret@.len() == it.index(),
            forall|i: int| 0 <= i < it.index() ==> can_stand_for(#[trigger] s@[i], ret@[i]),
            weights_error(FIRST@) is None,
            forall|state: int|
                0 <= state < OCHARS ==> weights_error(#[trigger] NEXT@[state]@) is None,
    {
        assert(c == s@[it.index()]);
        let upper = c >= 'A' && c <= 'Z';
        let letter = upper || (c >= 'a' && c <= 'z');
        if letter {
            let out = if upper {
                CAP[ochar]
            } else {
                LOW[ochar]
            };
            push_char(&mut ret, out);
            ochar = match sample_weighted(&NEXT[ochar], &mut rng) {
                Ok(state) => state,
                Err(_) => unreached(),
            };
        } else {
            push_char(&mut ret, c);
            ochar = match sample_weighted(&FIRST, &mut rng) {
                Ok(state) => state,
                Err(_) => unreached(),
            };
        }
    }
    ret
}

} // verus!
