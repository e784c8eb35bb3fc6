//! Where the identifiers of spoken instructions come from.
//!
//! Fresh identifiers are random, so the source of them is a value that the
//! caller supplies: a random one for production, a counting one where the
//! output has to be reproducible.

use vstd::prelude::*;
use vstd::arithmetic::div_mod::{
    lemma_add_mod_noop_right, lemma_fundamental_div_mod, lemma_small_mod,
};

verus! {

/// A source of utterance identifiers.
#[derive(Clone, Copy, Debug, PartialEq, Eq, Hash)]
pub enum UtteranceIdSource {
    /// Every identifier is a fresh random (version 4) UUID.
    Random,
    /// The identifiers count up from `next`, wrapping round after the largest.
    Sequential { next: u128 },
}

/// The number of 128-bit values.
pub open spec fn id_space() -> int {
    0x1_0000_0000_0000_0000_0000_0000_0000_0000int
}

/// Whether a 128-bit value has the version and variant bits of a random
/// (version 4) UUID.
pub open spec fn is_random_uuid(id: u128) -> bool {
    (id >> 76u128) & 0xfu128 == 4u128 && (id >> 62u128) & 0x3u128 == 2u128
}

impl UtteranceIdSource {
    /// The source after `count` identifiers were drawn from it.
    pub open spec fn after(self, count: nat) -> Self {
        match self {
            UtteranceIdSource::Random => UtteranceIdSource::Random,
            UtteranceIdSource::Sequential { next } => UtteranceIdSource::Sequential {
                next: ((next + count) % id_space()) as u128,
            },
        }
    }

    /// Whether `ids` can be what the source hands out next, in this order.
    ///
    /// Of a random source this says only that each is a version 4 UUID; of a
    /// counting source it says which identifiers they are.
    pub open spec fn yields(self, ids: Seq<u128>) -> bool {
        match self {
            UtteranceIdSource::Random => forall|i: int|
                0 <= i < ids.len() ==> is_random_uuid(#[trigger] ids[i]),
            UtteranceIdSource::Sequential { next } => forall|i: int|
                0 <= i < ids.len() ==> #[trigger] ids[i] == ((next + i) % id_space()) as u128,
        }
    }

    /// Draws the next identifier.
    pub fn next_id(&mut self) -> (id: u128)
        ensures
            old(self).yields(seq![id]),
            *final(self) == old(self).after(1),
    {
        match *self {
            UtteranceIdSource::Random => random_uuid(),
            UtteranceIdSource::Sequential { next } => {
                let following: u128 = if next == u128::MAX {
                    0
                } else {
                    next + 1
                };
                proof {
                    lemma_small_mod(next as nat, id_space() as nat);
                    if next < u128::MAX {
                        lemma_small_mod((next + 1) as nat, id_space() as nat);
                    }
                }
                *self = UtteranceIdSource::Sequential { next: following };
                next
            },
        }
    }
}

/// Calls `uuid::Uuid::new_v4` and takes the UUID's 128-bit value.
///
/// Trusted: the value carries the version and variant bits of a version 4
/// UUID; every other bit is random, and nothing is said of it.
#[verifier::external_body]
fn random_uuid() -> (id: u128)
    ensures
        is_random_uuid(id),
{
    uuid::Uuid::new_v4().as_u128()
}

/// Drawing nothing leaves a source as it is.
pub proof fn lemma_after_nothing(source: UtteranceIdSource)
    ensures
        source.after(0) == source,
        source.yields(Seq::<u128>::empty()),
{
    match source {
        UtteranceIdSource::Random => {},
        UtteranceIdSource::Sequential { next } => {
            lemma_small_mod(next as nat, id_space() as nat);
        },
    }
}

/// Drawing `first` and then `second` identifiers is drawing them in one go.
pub proof fn lemma_after_after(source: UtteranceIdSource, first: nat, second: nat)
    ensures
        source.after(first).after(second) == source.after(first + second),
{
    match source {
        UtteranceIdSource::Random => {},
        UtteranceIdSource::Sequential { next } => {
            lemma_add_mod_noop_right(second as int, next + first, id_space());
            assert(next + first + second == second + (next + first));
        },
    }
}

/// What a source yields, followed by what it yields after that, is what it
/// yields in one go.
pub proof fn lemma_yields_concat(source: UtteranceIdSource, first: Seq<u128>, second: Seq<u128>)
    requires
        source.yields(first),
        source.after(first.len()).yields(second),
    ensures
        source.yields(first + second),
{
    let all = first + second;
    match source {
        UtteranceIdSource::Random => {
            assert forall|i: int| 0 <= i < all.len() implies is_random_uuid(#[trigger] all[i]) by {
                if i < first.len() {
                    assert(all[i] == first[i]);
                } else {
                    assert(all[i] == second[i - first.len()]);
                }
            }
        },
        UtteranceIdSource::Sequential { next } => {
            assert forall|i: int| 0 <= i < all.len() implies #[trigger] all[i] == ((next + i)
                % id_space()) as u128 by {
                if i < first.len() {
                    assert(all[i] == first[i]);
                } else {
                    let j = i - first.len();
                    assert(all[i] == second[j]);
                    lemma_add_mod_noop_right(j, next + first.len(), id_space());
                    assert(j + (next + first.len()) == next + i);
                }
            }
        },
    }
}

/// The identifiers that a counting source yields are all different, as
/// long as there are no more of them than there are 128-bit values.
pub proof fn lemma_sequential_ids_differ(next: u128, ids: Seq<u128>)
    requires
        (UtteranceIdSource::Sequential { next }).yields(ids),
        ids.len() <= id_space(),
    ensures
        forall|i: int, j: int| 0 <= i < j < ids.len() ==> ids[i] != ids[j],
{
    assert forall|i: int, j: int| 0 <= i < j < ids.len() implies ids[i] != ids[j] by {
        let m = id_space();
        let a = next + i;
        let b = next + j;
        assert(ids[i] == (a % m) as u128);
        assert(ids[j] == (b % m) as u128);
        if a % m == b % m {
            lemma_fundamental_div_mod(a, m);
            lemma_fundamental_div_mod(b, m);
            let k = b / m - a / m;
            assert(j - i == m * k) by (nonlinear_arith)
                requires
                    a == m * (a / m) + a % m,
                    b == m * (b / m) + b % m,
                    a % m == b % m,
                    b - a == j - i,
                    k == b / m - a / m,
            ;
            assert(false) by (nonlinear_arith)
                requires
                    0 < j - i < m,
                    j - i == m * k,
            ;
        }
    }
}

} // verus!
