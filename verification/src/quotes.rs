//! The reward pool: a fixed list of quotes, one of which is handed out at
//! random when a proof is accepted.

use rand::Rng;
use vstd::prelude::*;

verus! {

/// Relies on rand's `Rng::gen_range` over `0..n`: it returns a value in
/// that range and panics when the range is empty, so the empty range is
/// excluded here.
#[verifier::external_body]
fn random_index(n: usize) -> (r: usize)
    requires
        n > 0,
    ensures
        r < n,
{
    rand::thread_rng().gen_range(0..n)
}

/// A non-ordered pool of reward strings.
pub struct QuotesStore {
    quotes: Vec<String>,
}

impl View for QuotesStore {
    type V = Seq<Seq<char>>;

    closed spec fn view(&self) -> Seq<Seq<char>> {
        self.quotes.deep_view()
    }
}

impl QuotesStore {
    pub fn new(quotes: Vec<String>) -> (r: QuotesStore)
        ensures
            r@ == quotes.deep_view(),
    {
        QuotesStore { quotes }
    }

    /// Pick one quote at random: some quote of the pool whenever the pool
    /// is non-empty, and nothing otherwise.
    pub fn get_random_quote(&self) -> (r: Option<&String>)
        ensures
            r is Some <==> self@.len() > 0,
            (match r {
                Some(q) => exists|i: int| 0 <= i < self@.len() && q@ == self@[i],
                None => self@.len() == 0,
            }),
    {
        if self.quotes.len() == 0 {
            None
        } else {
            let i = random_index(self.quotes.len());
            let q = &self.quotes[i];
            proof {
                // relate the element's view to the store's deep view
                assert(q@ == self@[i as int]);
            }
            Some(q)
        }
    }
}

} // verus!
