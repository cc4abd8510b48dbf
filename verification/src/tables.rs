//! The chains of the gag modes.

use vstd::prelude::*;
use crate::modes::GagModeName;
use crate::rewriter::{GagMode, GAGMODE_STATES};
use crate::weights::{weights_error, weights_total, WeightError};

verus! {

/// The sum of sixteen weights, written out.
pub proof fn lemma_total_of_sixteen(w: Seq<u8>)
    requires
        w.len() == 16,
    ensures
        weights_total(w) == w[0] + w[1] + w[2] + w[3] + w[4] + w[5] + w[6] + w[7] + w[8] + w[9]
            + w[10] + w[11] + w[12] + w[13] + w[14] + w[15],
{
    reveal_with_fuel(weights_total, 17);
    let w15 = w.drop_last();
    let w14 = w15.drop_last();
    let w13 = w14.drop_last();
    let w12 = w13.drop_last();
    let w11 = w12.drop_last();
    let w10 = w11.drop_last();
    let w9 = w10.drop_last();
    let w8 = w9.drop_last();
    let w7 = w8.drop_last();
    let w6 = w7.drop_last();
    let w5 = w6.drop_last();
    let w4 = w5.drop_last();
    let w3 = w4.drop_last();
    let w2 = w3.drop_last();
    let w1 = w2.drop_last();
    let w0 = w1.drop_last();
    assert(w0.len() == 0);
    assert(w1.last() == w[0]);
    assert(w2.last() == w[1]);
    assert(w3.last() == w[2]);
    assert(w4.last() == w[3]);
    assert(w5.last() == w[4]);
    assert(w6.last() == w[5]);
    assert(w7.last() == w[6]);
    assert(w8.last() == w[7]);
    assert(w9.last() == w[8]);
    assert(w10.last() == w[9]);
    assert(w11.last() == w[10]);
    assert(w12.last() == w[11]);
    assert(w13.last() == w[12]);
    assert(w14.last() == w[13]);
    assert(w15.last() == w[14]);
}

/// A chain whose states from `live` on have no way in, and whose other
/// states all have weights to draw from, always samples.
pub proof fn lemma_live_states(mode: GagMode, live: int)
    requires
        0 <= live <= GAGMODE_STATES,
        weights_error(mode.first@) is None,
        forall|state: int| 0 <= state < live ==> weights_error(#[trigger] mode.next@[state]@) is None,
        forall|state: int| live <= state < GAGMODE_STATES ==> #[trigger] mode.first@[state] == 0,
        forall|from: int, state: int|
            0 <= from < GAGMODE_STATES && live <= state < GAGMODE_STATES ==> #[trigger] mode.next@[from]@[state]
                == 0,
    ensures
        mode.always_samples(),
{
    assert forall|state: int|
        0 <= state < GAGMODE_STATES && #[trigger] mode.has_way_in(state) implies weights_error(
        mode.next@[state]@,
    ) is None by {
        if state >= live {
            assert(mode.first@[state] == 0);
            assert forall|from: int| 0 <= from < GAGMODE_STATES implies !((
            #[trigger] mode.next@[from])@[state] > 0) by {
                assert(mode.next@[from]@[state] == 0);
            }
        }
    }
}

/// The characters of the chain of [`GagModeName::Gag`] and [`GagModeName::Sock`].
pub const GAG_CHARS: [char; GAGMODE_STATES] = ['h', 'm', 'f', ' ', ' ', ' ', ' ', ' ', ' ', ' ', ' ', ' ', ' ', ' ', ' ', ' '];

/// The weights of the first states of the chain of [`GagModeName::Gag`] and [`GagModeName::Sock`].
pub const GAG_FIRST: [u8; GAGMODE_STATES] = [4, 2, 1, 0, 0, 0, 0, 0, 0, 0, 0, 0, 0, 0, 0, 0];

/// The weights of the next states of the chain of [`GagModeName::Gag`] and [`GagModeName::Sock`].
pub const GAG_NEXT: [[u8; GAGMODE_STATES]; GAGMODE_STATES] = [
    [2, 4, 1, 0, 0, 0, 0, 0, 0, 0, 0, 0, 0, 0, 0, 0],
    [1, 4, 2, 0, 0, 0, 0, 0, 0, 0, 0, 0, 0, 0, 0, 0],
    [2, 1, 4, 0, 0, 0, 0, 0, 0, 0, 0, 0, 0, 0, 0, 0],
    [0, 0, 0, 0, 0, 0, 0, 0, 0, 0, 0, 0, 0, 0, 0, 0],
    [0, 0, 0, 0, 0, 0, 0, 0, 0, 0, 0, 0, 0, 0, 0, 0],
    [0, 0, 0, 0, 0, 0, 0, 0, 0, 0, 0, 0, 0, 0, 0, 0],
    [0, 0, 0, 0, 0, 0, 0, 0, 0, 0, 0, 0, 0, 0, 0, 0],
    [0, 0, 0, 0, 0, 0, 0, 0, 0, 0, 0, 0, 0, 0, 0, 0],
    [0, 0, 0, 0, 0, 0, 0, 0, 0, 0, 0, 0, 0, 0, 0, 0],
    [0, 0, 0, 0, 0, 0, 0, 0, 0, 0, 0, 0, 0, 0, 0, 0],
    [0, 0, 0, 0, 0, 0, 0, 0, 0, 0, 0, 0, 0, 0, 0, 0],
    [0, 0, 0, 0, 0, 0, 0, 0, 0, 0, 0, 0, 0, 0, 0, 0],
    [0, 0, 0, 0, 0, 0, 0, 0, 0, 0, 0, 0, 0, 0, 0, 0],
    [0, 0, 0, 0, 0, 0, 0, 0, 0, 0, 0, 0, 0, 0, 0, 0],
    [0, 0, 0, 0, 0, 0, 0, 0, 0, 0, 0, 0, 0, 0, 0, 0],
    [0, 0, 0, 0, 0, 0, 0, 0, 0, 0, 0, 0, 0, 0, 0, 0],
];

/// The chain of [`GagModeName::Gag`] and [`GagModeName::Sock`].
pub open spec fn spec_gag_gagmode() -> GagMode {
    GagMode { chars: GAG_CHARS, first: GAG_FIRST, next: GAG_NEXT }
}

/// The chain of [`GagModeName::Gag`] and [`GagModeName::Sock`] always samples.
pub proof fn lemma_gag_always_samples()
    ensures
        spec_gag_gagmode().always_samples(),
{
    let mode = spec_gag_gagmode();
    lemma_total_of_sixteen(mode.first@);
    assert forall|state: int| 0 <= state < 3 implies weights_error(
        #[trigger] mode.next@[state]@,
    ) is None by {
        lemma_total_of_sixteen(mode.next@[state]@);
    }
    lemma_live_states(mode, 3);
}

/// The chain of [`GagModeName::Gag`] and [`GagModeName::Sock`].
pub fn gag_gagmode() -> (r: GagMode)
    ensures
        r == spec_gag_gagmode(),
        r.always_samples(),
{
    proof {
        lemma_gag_always_samples();
    }
    GagMode { chars: GAG_CHARS, first: GAG_FIRST, next: GAG_NEXT }
}

/// The characters of the chain of [`GagModeName::Dog`] and [`GagModeName::Puppy`].
pub const DOG_CHARS: [char; GAGMODE_STATES] = ['a', 'w', 'r', 'u', 'f', 'w', 'o', 'f', 'b', 'a', 'r', 'k', '!', 'a', 'w', 'o'];

/// The weights of the first states of the chain of [`GagModeName::Dog`] and [`GagModeName::Puppy`].
pub const DOG_FIRST: [u8; GAGMODE_STATES] = [4, 2, 2, 0, 0, 4, 0, 0, 1, 0, 0, 0, 0, 1, 0, 0];

/// The weights of the next states of the chain of [`GagModeName::Dog`] and [`GagModeName::Puppy`].
pub const DOG_NEXT: [[u8; GAGMODE_STATES]; GAGMODE_STATES] = [
    [1, 2, 2, 1, 0, 0, 0, 0, 0, 0, 0, 0, 0, 0, 0, 0],
    [1, 1, 2, 2, 0, 0, 0, 0, 0, 0, 0, 0, 0, 0, 0, 0],
    [1, 1, 2, 4, 4, 0, 0, 0, 0, 0, 0, 0, 0, 0, 0, 0],
    [1, 1, 1, 1, 4, 0, 0, 0, 0, 0, 0, 0, 0, 0, 0, 0],
    [1, 1, 2, 1, 2, 0, 0, 0, 0, 0, 0, 0, 0, 0, 0, 0],
    [0, 0, 0, 0, 0, 1, 4, 0, 0, 0, 0, 0, 0, 0, 0, 0],
    [0, 0, 0, 0, 0, 1, 4, 2, 0, 0, 0, 0, 0, 0, 0, 0],
    [0, 0, 0, 0, 0, 0, 0, 1, 0, 0, 0, 0, 0, 0, 0, 0],
    [0, 0, 0, 0, 0, 0, 0, 0, 0, 4, 0, 0, 0, 0, 0, 0],
    [0, 0, 0, 0, 0, 0, 0, 0, 0, 1, 2, 0, 0, 0, 0, 0],
    [0, 0, 0, 0, 0, 0, 0, 0, 0, 0, 1, 1, 0, 0, 0, 0],
    [0, 0, 0, 0, 0, 0, 0, 0, 0, 0, 1, 1, 1, 0, 0, 0],
    [0, 0, 0, 0, 0, 0, 0, 0, 0, 0, 0, 0, 1, 0, 0, 0],
    [0, 0, 0, 0, 0, 0, 0, 0, 0, 0, 0, 0, 0, 1, 1, 0],
    [0, 0, 0, 0, 0, 0, 0, 0, 0, 0, 0, 0, 0, 0, 1, 2],
    [0, 0, 0, 0, 0, 0, 0, 0, 0, 0, 0, 0, 0, 1, 1, 4],
];

/// The chain of [`GagModeName::Dog`] and [`GagModeName::Puppy`].
pub open spec fn spec_dog_gagmode() -> GagMode {
    GagMode { chars: DOG_CHARS, first: DOG_FIRST, next: DOG_NEXT }
}

/// The chain of [`GagModeName::Dog`] and [`GagModeName::Puppy`] always samples.
pub proof fn lemma_dog_always_samples()
    ensures
        spec_dog_gagmode().always_samples(),
{
    let mode = spec_dog_gagmode();
    lemma_total_of_sixteen(mode.first@);
    assert forall|state: int| 0 <= state < 16 implies weights_error(
        #[trigger] mode.next@[state]@,
    ) is None by {
        lemma_total_of_sixteen(mode.next@[state]@);
    }
    lemma_live_states(mode, 16);
}

/// The chain of [`GagModeName::Dog`] and [`GagModeName::Puppy`].
pub fn dog_gagmode() -> (r: GagMode)
    ensures
        r == spec_dog_gagmode(),
        r.always_samples(),
{
    proof {
        lemma_dog_always_samples();
    }
    GagMode { chars: DOG_CHARS, first: DOG_FIRST, next: DOG_NEXT }
}

/// The characters of the chain of [`GagModeName::Cow`].
pub const COW_CHARS: [char; GAGMODE_STATES] = ['m', 'o', ' ', ' ', ' ', ' ', ' ', ' ', ' ', ' ', ' ', ' ', ' ', ' ', ' ', ' '];

/// The weights of the first states of the chain of [`GagModeName::Cow`].
pub const COW_FIRST: [u8; GAGMODE_STATES] = [1, 0, 0, 0, 0, 0, 0, 0, 0, 0, 0, 0, 0, 0, 0, 0];

/// The weights of the next states of the chain of [`GagModeName::Cow`].
pub const COW_NEXT: [[u8; GAGMODE_STATES]; GAGMODE_STATES] = [
    [1, 1, 0, 0, 0, 0, 0, 0, 0, 0, 0, 0, 0, 0, 0, 0],
    [0, 1, 0, 0, 0, 0, 0, 0, 0, 0, 0, 0, 0, 0, 0, 0],
    [0, 0, 0, 0, 0, 0, 0, 0, 0, 0, 0, 0, 0, 0, 0, 0],
    [0, 0, 0, 0, 0, 0, 0, 0, 0, 0, 0, 0, 0, 0, 0, 0],
    [0, 0, 0, 0, 0, 0, 0, 0, 0, 0, 0, 0, 0, 0, 0, 0],
    [0, 0, 0, 0, 0, 0, 0, 0, 0, 0, 0, 0, 0, 0, 0, 0],
    [0, 0, 0, 0, 0, 0, 0, 0, 0, 0, 0, 0, 0, 0, 0, 0],
    [0, 0, 0, 0, 0, 0, 0, 0, 0, 0, 0, 0, 0, 0, 0, 0],
    [0, 0, 0, 0, 0, 0, 0, 0, 0, 0, 0, 0, 0, 0, 0, 0],
    [0, 0, 0, 0, 0, 0, 0, 0, 0, 0, 0, 0, 0, 0, 0, 0],
    [0, 0, 0, 0, 0, 0, 0, 0, 0, 0, 0, 0, 0, 0, 0, 0],
    [0, 0, 0, 0, 0, 0, 0, 0, 0, 0, 0, 0, 0, 0, 0, 0],
    [0, 0, 0, 0, 0, 0, 0, 0, 0, 0, 0, 0, 0, 0, 0, 0],
    [0, 0, 0, 0, 0, 0, 0, 0, 0, 0, 0, 0, 0, 0, 0, 0],
    [0, 0, 0, 0, 0, 0, 0, 0, 0, 0, 0, 0, 0, 0, 0, 0],
    [0, 0, 0, 0, 0, 0, 0, 0, 0, 0, 0, 0, 0, 0, 0, 0],
];

/// The chain of [`GagModeName::Cow`].
pub open spec fn spec_cow_gagmode() -> GagMode {
    GagMode { chars: COW_CHARS, first: COW_FIRST, next: COW_NEXT }
}

/// The chain of [`GagModeName::Cow`] always samples.
pub proof fn lemma_cow_always_samples()
    ensures
        spec_cow_gagmode().always_samples(),
{
    let mode = spec_cow_gagmode();
    lemma_total_of_sixteen(mode.first@);
    assert forall|state: int| 0 <= state < 2 implies weights_error(
        #[trigger] mode.next@[state]@,
    ) is None by {
        lemma_total_of_sixteen(mode.next@[state]@);
    }
    lemma_live_states(mode, 2);
}

/// The chain of [`GagModeName::Cow`].
pub fn cow_gagmode() -> (r: GagMode)
    ensures
        r == spec_cow_gagmode(),
        r.always_samples(),
{
    proof {
        lemma_cow_always_samples();
    }
    GagMode { chars: COW_CHARS, first: COW_FIRST, next: COW_NEXT }
}

/// The characters of the chain of [`GagModeName::Fox`].
pub const FOX_CHARS: [char; GAGMODE_STATES] = ['a', 'e', 'h', ' ', ' ', ' ', ' ', ' ', ' ', ' ', ' ', ' ', ' ', ' ', ' ', ' '];

/// The weights of the first states of the chain of [`GagModeName::Fox`].
pub const FOX_FIRST: [u8; GAGMODE_STATES] = [1, 1, 1, 0, 0, 0, 0, 0, 0, 0, 0, 0, 0, 0, 0, 0];

/// The weights of the next states of the chain of [`GagModeName::Fox`].
pub const FOX_NEXT: [[u8; GAGMODE_STATES]; GAGMODE_STATES] = [
    [1, 1, 1, 0, 0, 0, 0, 0, 0, 0, 0, 0, 0, 0, 0, 0],
    [1, 1, 1, 0, 0, 0, 0, 0, 0, 0, 0, 0, 0, 0, 0, 0],
    [1, 1, 1, 0, 0, 0, 0, 0, 0, 0, 0, 0, 0, 0, 0, 0],
    [0, 0, 0, 0, 0, 0, 0, 0, 0, 0, 0, 0, 0, 0, 0, 0],
    [0, 0, 0, 0, 0, 0, 0, 0, 0, 0, 0, 0, 0, 0, 0, 0],
    [0, 0, 0, 0, 0, 0, 0, 0, 0, 0, 0, 0, 0, 0, 0, 0],
    [0, 0, 0, 0, 0, 0, 0, 0, 0, 0, 0, 0, 0, 0, 0, 0],
    [0, 0, 0, 0, 0, 0, 0, 0, 0, 0, 0, 0, 0, 0, 0, 0],
    [0, 0, 0, 0, 0, 0, 0, 0, 0, 0, 0, 0, 0, 0, 0, 0],
    [0, 0, 0, 0, 0, 0, 0, 0, 0, 0, 0, 0, 0, 0, 0, 0],
    [0, 0, 0, 0, 0, 0, 0, 0, 0, 0, 0, 0, 0, 0, 0, 0],
    [0, 0, 0, 0, 0, 0, 0, 0, 0, 0, 0, 0, 0, 0, 0, 0],
    [0, 0, 0, 0, 0, 0, 0, 0, 0, 0, 0, 0, 0, 0, 0, 0],
    [0, 0, 0, 0, 0, 0, 0, 0, 0, 0, 0, 0, 0, 0, 0, 0],
    [0, 0, 0, 0, 0, 0, 0, 0, 0, 0, 0, 0, 0, 0, 0, 0],
    [0, 0, 0, 0, 0, 0, 0, 0, 0, 0, 0, 0, 0, 0, 0, 0],
];

/// The chain of [`GagModeName::Fox`].
pub open spec fn spec_fox_gagmode() -> GagMode {
    GagMode { chars: FOX_CHARS, first: FOX_FIRST, next: FOX_NEXT }
}

/// The chain of [`GagModeName::Fox`] always samples.
pub proof fn lemma_fox_always_samples()
    ensures
        spec_fox_gagmode().always_samples(),
{
    let mode = spec_fox_gagmode();
    lemma_total_of_sixteen(mode.first@);
    assert forall|state: int| 0 <= state < 3 implies weights_error(
        #[trigger] mode.next@[state]@,
    ) is None by {
        lemma_total_of_sixteen(mode.next@[state]@);
    }
    lemma_live_states(mode, 3);
}

/// The chain of [`GagModeName::Fox`].
pub fn fox_gagmode() -> (r: GagMode)
    ensures
        r == spec_fox_gagmode(),
        r.always_samples(),
{
    proof {
        lemma_fox_always_samples();
    }
    GagMode { chars: FOX_CHARS, first: FOX_FIRST, next: FOX_NEXT }
}

/// The characters of the chain of [`GagModeName::Cat`].
pub const CAT_CHARS: [char; GAGMODE_STATES] = ['m', 'r', 'e', 'o', 'a', 'u', 'w', ' ', ' ', ' ', ' ', ' ', ' ', ' ', ' ', ' '];

/// The weights of the first states of the chain of [`GagModeName::Cat`].
pub const CAT_FIRST: [u8; GAGMODE_STATES] = [4, 2, 1, 0, 1, 0, 0, 0, 0, 0, 0, 0, 0, 0, 0, 0];

/// The weights of the next states of the chain of [`GagModeName::Cat`].
pub const CAT_NEXT: [[u8; GAGMODE_STATES]; GAGMODE_STATES] = [
    [1, 2, 2, 1, 2, 1, 0, 0, 0, 0, 0, 0, 0, 0, 0, 0],
    [0, 1, 2, 2, 2, 1, 0, 0, 0, 0, 0, 0, 0, 0, 0, 0],
    [0, 0, 2, 2, 2, 2, 1, 0, 0, 0, 0, 0, 0, 0, 0, 0],
    [0, 0, 2, 2, 2, 2, 1, 0, 0, 0, 0, 0, 0, 0, 0, 0],
    [0, 0, 2, 2, 2, 2, 1, 0, 0, 0, 0, 0, 0, 0, 0, 0],
    [0, 0, 2, 2, 2, 2, 1, 0, 0, 0, 0, 0, 0, 0, 0, 0],
    [0, 0, 1, 1, 1, 1, 2, 0, 0, 0, 0, 0, 0, 0, 0, 0],
    [0, 0, 0, 0, 0, 0, 0, 0, 0, 0, 0, 0, 0, 0, 0, 0],
    [0, 0, 0, 0, 0, 0, 0, 0, 0, 0, 0, 0, 0, 0, 0, 0],
    [0, 0, 0, 0, 0, 0, 0, 0, 0, 0, 0, 0, 0, 0, 0, 0],
    [0, 0, 0, 0, 0, 0, 0, 0, 0, 0, 0, 0, 0, 0, 0, 0],
    [0, 0, 0, 0, 0, 0, 0, 0, 0, 0, 0, 0, 0, 0, 0, 0],
    [0, 0, 0, 0, 0, 0, 0, 0, 0, 0, 0, 0, 0, 0, 0, 0],
    [0, 0, 0, 0, 0, 0, 0, 0, 0, 0, 0, 0, 0, 0, 0, 0],
    [0, 0, 0, 0, 0, 0, 0, 0, 0, 0, 0, 0, 0, 0, 0, 0],
    [0, 0, 0, 0, 0, 0, 0, 0, 0, 0, 0, 0, 0, 0, 0, 0],
];

/// The chain of [`GagModeName::Cat`].
pub open spec fn spec_cat_gagmode() -> GagMode {
    GagMode { chars: CAT_CHARS, first: CAT_FIRST, next: CAT_NEXT }
}

/// The chain of [`GagModeName::Cat`] always samples.
pub proof fn lemma_cat_always_samples()
    ensures
        spec_cat_gagmode().always_samples(),
{
    let mode = spec_cat_gagmode();
    lemma_total_of_sixteen(mode.first@);
    assert forall|state: int| 0 <= state < 7 implies weights_error(
        #[trigger] mode.next@[state]@,
    ) is None by {
        lemma_total_of_sixteen(mode.next@[state]@);
    }
    lemma_live_states(mode, 7);
}

/// The chain of [`GagModeName::Cat`].
pub fn cat_gagmode() -> (r: GagMode)
    ensures
        r == spec_cat_gagmode(),
        r.always_samples(),
{
    proof {
        lemma_cat_always_samples();
    }
    GagMode { chars: CAT_CHARS, first: CAT_FIRST, next: CAT_NEXT }
}

/// The characters of the chain of [`GagModeName::Seal`].
pub const SEAL_CHARS: [char; GAGMODE_STATES] = ['g', 'i', 'h', 'p', 'b', 'e', 'a', 'f', ' ', ' ', ' ', ' ', ' ', ' ', ' ', ' '];

/// The weights of the first states of the chain of [`GagModeName::Seal`].
pub const SEAL_FIRST: [u8; GAGMODE_STATES] = [1, 1, 1, 1, 1, 1, 1, 0, 0, 0, 0, 0, 0, 0, 0, 0];

/// The weights of the next states of the chain of [`GagModeName::Seal`].
pub const SEAL_NEXT: [[u8; GAGMODE_STATES]; GAGMODE_STATES] = [
    [1, 1, 1, 0, 0, 4, 2, 0, 0, 0, 0, 0, 0, 0, 0, 0],
    [1, 2, 2, 1, 2, 1, 1, 1, 0, 0, 0, 0, 0, 0, 0, 0],
    [1, 1, 1, 2, 1, 0, 0, 2, 0, 0, 0, 0, 0, 0, 0, 0],
    [0, 1, 4, 0, 1, 0, 0, 2, 0, 0, 0, 0, 0, 0, 0, 0],
    [0, 1, 1, 0, 1, 1, 0, 2, 0, 0, 0, 0, 0, 0, 0, 0],
    [2, 1, 1, 0, 0, 0, 2, 0, 0, 0, 0, 0, 0, 0, 0, 0],
    [1, 1, 1, 1, 1, 1, 1, 1, 0, 0, 0, 0, 0, 0, 0, 0],
    [1, 2, 2, 1, 1, 1, 0, 4, 0, 0, 0, 0, 0, 0, 0, 0],
    [0, 0, 0, 0, 0, 0, 0, 0, 0, 0, 0, 0, 0, 0, 0, 0],
    [0, 0, 0, 0, 0, 0, 0, 0, 0, 0, 0, 0, 0, 0, 0, 0],
    [0, 0, 0, 0, 0, 0, 0, 0, 0, 0, 0, 0, 0, 0, 0, 0],
    [0, 0, 0, 0, 0, 0, 0, 0, 0, 0, 0, 0, 0, 0, 0, 0],
    [0, 0, 0, 0, 0, 0, 0, 0, 0, 0, 0, 0, 0, 0, 0, 0],
    [0, 0, 0, 0, 0, 0, 0, 0, 0, 0, 0, 0, 0, 0, 0, 0],
    [0, 0, 0, 0, 0, 0, 0, 0, 0, 0, 0, 0, 0, 0, 0, 0],
    [0, 0, 0, 0, 0, 0, 0, 0, 0, 0, 0, 0, 0, 0, 0, 0],
];

/// The chain of [`GagModeName::Seal`].
pub open spec fn spec_seal_gagmode() -> GagMode {
    GagMode { chars: SEAL_CHARS, first: SEAL_FIRST, next: SEAL_NEXT }
}

/// The chain of [`GagModeName::Seal`] always samples.
pub proof fn lemma_seal_always_samples()
    ensures
        spec_seal_gagmode().always_samples(),
{
    let mode = spec_seal_gagmode();
    lemma_total_of_sixteen(mode.first@);
    assert forall|state: int| 0 <= state < 8 implies weights_error(
        #[trigger] mode.next@[state]@,
    ) is None by {
        lemma_total_of_sixteen(mode.next@[state]@);
    }
    lemma_live_states(mode, 8);
}

/// The chain of [`GagModeName::Seal`].
pub fn seal_gagmode() -> (r: GagMode)
    ensures
        r == spec_seal_gagmode(),
        r.always_samples(),
{
    proof {
        lemma_seal_always_samples();
    }
    GagMode { chars: SEAL_CHARS, first: SEAL_FIRST, next: SEAL_NEXT }
}

/// The characters of the chain of [`GagModeName::Bee`].
pub const BEE_CHARS: [char; GAGMODE_STATES] = ['b', 'u', 'z', ' ', ' ', ' ', ' ', ' ', ' ', ' ', ' ', ' ', ' ', ' ', ' ', ' '];

/// The weights of the first states of the chain of [`GagModeName::Bee`].
pub const BEE_FIRST: [u8; GAGMODE_STATES] = [4, 0, 1, 0, 0, 0, 0, 0, 0, 0, 0, 0, 0, 0, 0, 0];

/// The weights of the next states of the chain of [`GagModeName::Bee`].
pub const BEE_NEXT: [[u8; GAGMODE_STATES]; GAGMODE_STATES] = [
    [0, 1, 1, 0, 0, 0, 0, 0, 0, 0, 0, 0, 0, 0, 0, 0],
    [0, 0, 1, 0, 0, 0, 0, 0, 0, 0, 0, 0, 0, 0, 0, 0],
    [0, 0, 1, 0, 0, 0, 0, 0, 0, 0, 0, 0, 0, 0, 0, 0],
    [0, 0, 0, 0, 0, 0, 0, 0, 0, 0, 0, 0, 0, 0, 0, 0],
    [0, 0, 0, 0, 0, 0, 0, 0, 0, 0, 0, 0, 0, 0, 0, 0],
    [0, 0, 0, 0, 0, 0, 0, 0, 0, 0, 0, 0, 0, 0, 0, 0],
    [0, 0, 0, 0, 0, 0, 0, 0, 0, 0, 0, 0, 0, 0, 0, 0],
    [0, 0, 0, 0, 0, 0, 0, 0, 0, 0, 0, 0, 0, 0, 0, 0],
    [0, 0, 0, 0, 0, 0, 0, 0, 0, 0, 0, 0, 0, 0, 0, 0],
    [0, 0, 0, 0, 0, 0, 0, 0, 0, 0, 0, 0, 0, 0, 0, 0],
    [0, 0, 0, 0, 0, 0, 0, 0, 0, 0, 0, 0, 0, 0, 0, 0],
    [0, 0, 0, 0, 0, 0, 0, 0, 0, 0, 0, 0, 0, 0, 0, 0],
    [0, 0, 0, 0, 0, 0, 0, 0, 0, 0, 0, 0, 0, 0, 0, 0],
    [0, 0, 0, 0, 0, 0, 0, 0, 0, 0, 0, 0, 0, 0, 0, 0],
    [0, 0, 0, 0, 0, 0, 0, 0, 0, 0, 0, 0, 0, 0, 0, 0],
    [0, 0, 0, 0, 0, 0, 0, 0, 0, 0, 0, 0, 0, 0, 0, 0],
];

/// The chain of [`GagModeName::Bee`].
pub open spec fn spec_bee_gagmode() -> GagMode {
    GagMode { chars: BEE_CHARS, first: BEE_FIRST, next: BEE_NEXT }
}

/// The chain of [`GagModeName::Bee`] always samples.
pub proof fn lemma_bee_always_samples()
    ensures
        spec_bee_gagmode().always_samples(),
{
    let mode = spec_bee_gagmode();
    lemma_total_of_sixteen(mode.first@);
    assert forall|state: int| 0 <= state < 3 implies weights_error(
        #[trigger] mode.next@[state]@,
    ) is None by {
        lemma_total_of_sixteen(mode.next@[state]@);
    }
    lemma_live_states(mode, 3);
}

/// The chain of [`GagModeName::Bee`].
pub fn bee_gagmode() -> (r: GagMode)
    ensures
        r == spec_bee_gagmode(),
        r.always_samples(),
{
    proof {
        lemma_bee_always_samples();
    }
    GagMode { chars: BEE_CHARS, first: BEE_FIRST, next: BEE_NEXT }
}

/// The characters of the chain without weights.
pub const EMPTY_CHARS: [char; GAGMODE_STATES] = [' ', ' ', ' ', ' ', ' ', ' ', ' ', ' ', ' ', ' ', ' ', ' ', ' ', ' ', ' ', ' '];

/// The weights of the first states of the chain without weights.
pub const EMPTY_FIRST: [u8; GAGMODE_STATES] = [0, 0, 0, 0, 0, 0, 0, 0, 0, 0, 0, 0, 0, 0, 0, 0];

/// The weights of the next states of the chain without weights.
pub const EMPTY_NEXT: [[u8; GAGMODE_STATES]; GAGMODE_STATES] = [
    [0, 0, 0, 0, 0, 0, 0, 0, 0, 0, 0, 0, 0, 0, 0, 0],
    [0, 0, 0, 0, 0, 0, 0, 0, 0, 0, 0, 0, 0, 0, 0, 0],
    [0, 0, 0, 0, 0, 0, 0, 0, 0, 0, 0, 0, 0, 0, 0, 0],
    [0, 0, 0, 0, 0, 0, 0, 0, 0, 0, 0, 0, 0, 0, 0, 0],
    [0, 0, 0, 0, 0, 0, 0, 0, 0, 0, 0, 0, 0, 0, 0, 0],
    [0, 0, 0, 0, 0, 0, 0, 0, 0, 0, 0, 0, 0, 0, 0, 0],
    [0, 0, 0, 0, 0, 0, 0, 0, 0, 0, 0, 0, 0, 0, 0, 0],
    [0, 0, 0, 0, 0, 0, 0, 0, 0, 0, 0, 0, 0, 0, 0, 0],
    [0, 0, 0, 0, 0, 0, 0, 0, 0, 0, 0, 0, 0, 0, 0, 0],
    [0, 0, 0, 0, 0, 0, 0, 0, 0, 0, 0, 0, 0, 0, 0, 0],
    [0, 0, 0, 0, 0, 0, 0, 0, 0, 0, 0, 0, 0, 0, 0, 0],
    [0, 0, 0, 0, 0, 0, 0, 0, 0, 0, 0, 0, 0, 0, 0, 0],
    [0, 0, 0, 0, 0, 0, 0, 0, 0, 0, 0, 0, 0, 0, 0, 0],
    [0, 0, 0, 0, 0, 0, 0, 0, 0, 0, 0, 0, 0, 0, 0, 0],
    [0, 0, 0, 0, 0, 0, 0, 0, 0, 0, 0, 0, 0, 0, 0, 0],
    [0, 0, 0, 0, 0, 0, 0, 0, 0, 0, 0, 0, 0, 0, 0, 0],
];

/// The chain without weights: a form to fill in.
pub open spec fn spec_empty_gagmode() -> GagMode {
    GagMode { chars: EMPTY_CHARS, first: EMPTY_FIRST, next: EMPTY_NEXT }
}

/// The chain without weights: a form to fill in. As it is, no state can be
/// drawn from it.
pub fn empty_gagmode() -> (r: GagMode)
    ensures
        r == spec_empty_gagmode(),
        weights_error(r.first@) == Some(WeightError::InsufficientNonZero),
{
    proof {
        lemma_total_of_sixteen(spec_empty_gagmode().first@);
    }
    GagMode { chars: EMPTY_CHARS, first: EMPTY_FIRST, next: EMPTY_NEXT }
}

impl GagModeName {
    /// The chain of the mode.
    pub open spec fn spec_get(self) -> GagMode {
        match self {
            GagModeName::Gag => spec_gag_gagmode(),
            GagModeName::Sock => spec_gag_gagmode(),
            GagModeName::Dog => spec_dog_gagmode(),
            GagModeName::Puppy => spec_dog_gagmode(),
            GagModeName::Cow => spec_cow_gagmode(),
            GagModeName::Fox => spec_fox_gagmode(),
            GagModeName::Cat => spec_cat_gagmode(),
            GagModeName::Seal => spec_seal_gagmode(),
            GagModeName::Bee => spec_bee_gagmode(),
        }
    }

    /// The chain of the mode. With it a message can always be rewritten.
    pub fn get(&self) -> (r: GagMode)
        ensures
            r == self.spec_get(),
            r.always_samples(),
    {
        match self {
            GagModeName::Gag => gag_gagmode(),
            GagModeName::Sock => gag_gagmode(),
            GagModeName::Dog => dog_gagmode(),
            GagModeName::Puppy => dog_gagmode(),
            GagModeName::Cow => cow_gagmode(),
            GagModeName::Fox => fox_gagmode(),
            GagModeName::Cat => cat_gagmode(),
            GagModeName::Seal => seal_gagmode(),
            GagModeName::Bee => bee_gagmode(),
        }
    }
}

} // verus!
