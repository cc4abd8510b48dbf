//! Rewriting a message: a walk through a chain of states, each of which
//! stands for a character, with weights for where to go next.

use vstd::prelude::*;
use vstd::string::*;
use crate::text::{
    char_is_alphabetic, char_is_uppercase, char_to_lowercase, char_to_uppercase, is_alphabetic,
    is_uppercase, push_char, to_lowercase, to_uppercase,
};
use crate::weights::{can_draw, sample_weighted, thread_rng, weights_error, WeightError};

verus! {

/// The number of states of a [`GagMode`].
pub const GAGMODE_STATES: usize = 16;

/// A way to rewrite messages: a chain of [`GAGMODE_STATES`] states.
#[derive(Debug, Clone, Copy, PartialEq, Eq)]
pub struct GagMode {
    /// The character to write in each state.
    pub chars: [char; GAGMODE_STATES],
    /// The weight of each state as the first of a word.
    pub first: [u8; GAGMODE_STATES],
    /// For each state, the weight of each state as the next one.
    pub next: [[u8; GAGMODE_STATES]; GAGMODE_STATES],
}

/// Why a message could not be rewritten.
#[derive(Debug, Clone, Copy, PartialEq, Eq, Structural)]
pub enum GagModeError {
    /// A state was to be drawn from weights from which none can be.
    WeightError(WeightError),
}

impl GagModeError {
    /// What went wrong, in words: what is wrong with the weights.
    pub open spec fn spec_message(self) -> Seq<char> {
        match self {
            GagModeError::WeightError(e) => e.spec_message(),
        }
    }

    /// What went wrong, in words.
    pub fn to_string(&self) -> (r: String)
        ensures
            r@ == self.spec_message(),
    {
        match self {
            GagModeError::WeightError(e) => e.to_string(),
        }
    }
}

impl GagMode {
    /// What is written for the character `c` of the message in `state`: `c`
    /// itself if it is not alphabetic, and else the state's character, in
    /// upper case if `c` is upper case and in lower case if not.
    pub open spec fn written(self, c: char, state: int) -> Seq<char> {
        if char_is_alphabetic(c) {
            if char_is_uppercase(c) {
                char_to_uppercase(self.chars@[state])
            } else {
                char_to_lowercase(self.chars@[state])
            }
        } else {
            seq![c]
        }
    }

    /// The weights from which the state after the character `c` in `state`
    /// is drawn: those for the state after `state` within a word, those for
    /// the start of a word after anything that is not alphabetic.
    pub open spec fn weights_after(self, c: char, state: int) -> Seq<u8> {
        if char_is_alphabetic(c) {
            self.next@[state]@
        } else {
            self.first@
        }
    }

    /// Whether `states` can be the states in which the characters of `text`
    /// are written, with the one after the last: each could be drawn.
    pub open spec fn is_walk(self, text: Seq<char>, states: Seq<int>) -> bool {
        &&& states.len() == text.len() + 1
        &&& can_draw(self.first@, states[0])
        &&& forall|i: int|
            0 <= i < text.len() ==> can_draw(
                self.weights_after(#[trigger] text[i], states[i]),
                states[i + 1],
            )
    }

    /// What is written for `text` when its characters are written in
    /// `states`.
    pub open spec fn rendering(self, text: Seq<char>, states: Seq<int>) -> Seq<char>
        decreases text.len(),
    {
        if text.len() == 0 {
            Seq::<char>::empty()
        } else {
            self.rendering(text.drop_last(), states.drop_last()) + self.written(
                text.last(),
                states[text.len() - 1],
            )
        }
    }

    /// Whether a walk can come to `state`: it has a weight above zero as a
    /// first state or as the next of some state.
    pub open spec fn has_way_in(self, state: int) -> bool {
        ||| self.first@[state] > 0
        ||| exists|from: int|
            0 <= from < GAGMODE_STATES && (#[trigger] self.next@[from])@[state] > 0
    }

    /// Whether every walk can go on: a first state can be drawn, and a next
    /// one from every state that a walk can come to.
    pub open spec fn always_samples(self) -> bool {
        &&& weights_error(self.first@) is None
        &&& forall|state: int|
            0 <= state < GAGMODE_STATES && #[trigger] self.has_way_in(state) ==> weights_error(
                self.next@[state]@,
            ) is None
    }

    /// Whether rewriting `text` can stop with the error `e`: the weights of
    /// first states give it, or the weights from which the state after some
    /// character is drawn do, at the end of a walk up to that character.
    pub open spec fn stops_with(self, text: Seq<char>, e: WeightError) -> bool {
        ||| weights_error(self.first@) == Some(e)
        ||| exists|k: int, states: Seq<int>|
            0 <= k < text.len() && #[trigger] self.is_walk(text.take(k), states) && weights_error(
                self.weights_after(text[k], states[k]),
            ) == Some(e)
    }

    /// Writes what stands for the character `c` of a message in `state` at
    /// the end of `out`.
    pub fn write_char(&self, c: char, state: usize, out: &mut String)
        requires
            state < GAGMODE_STATES,
        ensures
            final(out)@ == old(out)@ + self.written(c, state as int),
    {
        if is_alphabetic(c) {
            let letter = self.chars[state];
            let piece = if is_uppercase(c) {
                to_uppercase(letter)
            } else {
                to_lowercase(letter)
            };
            out.append(piece.as_str());
        } else {
            push_char(out, c);
        }
    }

    /// Rewrites a message.
    ///
    /// A first state is drawn. Then for each character of `text`: what stands
    /// for it in the current state is written, and the next state is drawn,
    /// from the weights after the current state if the character is
    /// alphabetic and from the weights of first states if not. Which states
    /// come is up to chance; what is written for given states is
    /// [`GagMode::rendering`].
    ///
    /// The error is that of the first weights from which a state was to be
    /// drawn and could not be.
    pub fn rewrite(&self, text: &str) -> (r: Result<String, GagModeError>)
        ensures
            match r {
                Ok(rewritten) => exists|states: Seq<int>|
                    self.is_walk(text@, states) && rewritten@ == self.rendering(text@, states),
                Err(GagModeError::WeightError(e)) => self.stops_with(text@, e),
            },
            self.always_samples() ==> r is Ok,
            weights_error(self.first@) matches Some(e) ==> r == Err::<String, GagModeError>(
                GagModeError::WeightError(e),
            ),
    {
        let mut ret = String::new();
        let mut rng = thread_rng();
        let mut ochar: usize = match sample_weighted(&self.first, &mut rng) {
            Ok(state) => state,
            Err(e) => {
                return Err(GagModeError::WeightError(e));
            },
        };
        let ghost mut states: Seq<int> = seq![ochar as int];
        assert(text@.take(0) =~= Seq::<char>::empty());
        for c in it: text.chars()
            invariant
                it.seq() == text@,
                states.len() == it.index() + 1,
                ochar < GAGMODE_STATES,
                ochar == states.last(),
                self.is_walk(text@.take(it.index()), states),
                ret@ == self.rendering(text@.take(it.index()), states),
                self.has_way_in(ochar as int),
                weights_error(self.first@) is None,
        {
            let ghost n = it.index();
            let ghost before = states;
            assert(c == text@[n]);
            self.write_char(c, ochar, &mut ret);
            let drawn = if is_alphabetic(c) {
                sample_weighted(&self.next[ochar], &mut rng)
            } else {
                sample_weighted(&self.first, &mut rng)
            };
            let next_state: usize = match drawn {
                Ok(state) => state,
                Err(e) => {
                    assert(self.stops_with(text@, e)) by {
                        assert(self.is_walk(text@.take(n), states));
                        assert(states[n] == ochar);
                        assert(weights_error(self.weights_after(text@[n], states[n])) == Some(e));
                    }
                    return Err(GagModeError::WeightError(e));
                },
            };
            proof {
                states = before.push(next_state as int);
                let done = text@.take(n + 1);
                assert(done.drop_last() =~= text@.take(n));
                assert(states.drop_last() =~= before);
                assert(done.last() == c);
                assert(states[done.len() - 1] == ochar);
                assert forall|i: int| 0 <= i < done.len() implies can_draw(
                    self.weights_after(#[trigger] done[i], states[i]),
                    states[i + 1],
                ) by {
                    if i < n {
                        assert(done[i] == text@.take(n)[i]);
                        assert(states[i] == before[i]);
                        assert(states[i + 1] == before[i + 1]);
                    } else {
                        assert(done[i] == c);
                        assert(states[i] == ochar);
                        assert(states[i + 1] == next_state);
                    }
                }
                assert(self.has_way_in(next_state as int)) by {
                    if char_is_alphabetic(c) {
                        assert(self.next@[ochar as int]@[next_state as int] > 0);
                    }
                }
            }
            ochar = next_state;
        }
        proof {
            assert(text@.take(text@.len() as int) =~= text@);
        }
        Ok(ret)
    }
}

} // verus!
