use vstd::prelude::*;
use rand::seq::IndexedRandom;
use crate::pool::{EmojiPool, is_emoji_listing, is_unicode_emoji, lemma_pool_reads_agree, views_of};

verus! {

/// rand's thread-local generator, carried through as an opaque value.
#[verifier::external_type_specification]
#[verifier::external_body]
pub struct ExThreadRng(rand::rngs::ThreadRng);

/// Relies on `rand::rng`: a handle to the thread-local generator, seeded from
/// the operating system. Nothing is promised of the numbers it yields. It
/// panics only when the operating system cannot supply a seed.
pub assume_specification[ rand::rng ]() -> rand::rngs::ThreadRng;

/// Relies on rand's `IndexedRandom::choose`: `None` exactly when the slice is
/// empty, else one of its elements, drawn uniformly by `rng`.
#[verifier::external_body]
fn choose_one(items: &[&'static str], rng: &mut rand::rngs::ThreadRng) -> (r: Option<&'static str>)
    ensures
        r is None <==> items@.len() == 0,
        r matches Some(e) ==> items@.contains(e),
{
    items.choose(rng).copied()
}

impl EmojiPool {
    /// Draws `count` emojis from the pool, each independently and with
    /// replacement, in draw order.
    pub fn sample(&self, count: usize, rng: &mut rand::rngs::ThreadRng) -> (r: Vec<&'static str>)
        ensures
            r@.len() == count,
            forall|i: int| 0 <= i < r@.len() ==> self@.contains(#[trigger] r@[i]@),
    {
        let items = self.as_slice();
        let mut out: Vec<&'static str> = Vec::new();
        let mut n: usize = 0;
        while n < count
            invariant
                n <= count,
                out@.len() == n,
                views_of(items@) == self@,
                self@.len() > 0,
                forall|i: int| 0 <= i < out@.len() ==> self@.contains(#[trigger] out@[i]@),
            decreases count - n,
        {
            let pick = choose_one(items, rng);
            match pick {
                Some(e) => {
                    proof {
                        let j = choose|j: int| 0 <= j < items@.len() && items@[j] == e;
                        assert(self@[j] == e@);
                    }
                    out.push(e);
                    n = n + 1;
                },
                None => {
                    assert(false);
                },
            }
        }
        out
    }
}

/// Draws `count` emojis, uniformly and with replacement, from the pool of all
/// Unicode emojis. No draw is made when `count` is zero.
pub fn generate_emojis(count: usize) -> (r: Vec<&'static str>)
    ensures
        r@.len() == count,
        forall|i: int| 0 <= i < r@.len() ==> is_unicode_emoji(#[trigger] r@[i]@),
        forall|p: Seq<Seq<char>>, i: int|
            #[trigger] is_emoji_listing(p) && 0 <= i < r@.len() ==> #[trigger] p.contains(r@[i]@),
{
    if count == 0 {
        return Vec::new();
    }
    let pool = EmojiPool::new();
    let mut rng = rand::rng();
    let r = pool.sample(count, &mut rng);
    assert forall|i: int| 0 <= i < r@.len() implies is_unicode_emoji(#[trigger] r@[i]@) by {
        let j = choose|j: int| 0 <= j < pool@.len() && pool@[j] == r@[i]@;
        assert(is_emoji_listing(pool@));
        assert(crate::pool::listed_emoji(j as nat) == Some(pool@[j]));
        assert forall|k: nat| k < j as nat implies (#[trigger] crate::pool::listed_emoji(k)) is Some by {
            let kk = k as int;
            assert(crate::pool::listed_emoji(kk as nat) == Some(pool@[kk]));
        }
    }
    assert forall|p: Seq<Seq<char>>, i: int|
        #[trigger] is_emoji_listing(p) && 0 <= i < r@.len() implies #[trigger] p.contains(r@[i]@) by {
        lemma_pool_reads_agree(p, pool@);
    }
    r
}

} // verus!
