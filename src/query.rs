use vstd::prelude::*;

use crate::player::{Player, PlayerView};
use crate::store::{ids_of, lookup, opt_view, seed_records, Context};

verus! {

/// The sum of two 32-bit integers, wrapped into the 32-bit range.
pub open spec fn wrapped_sum(a: int, b: int) -> int {
    if a + b > i32::MAX {
        a + b - 0x1_0000_0000
    } else if a + b < i32::MIN {
        a + b + 0x1_0000_0000
    } else {
        a + b
    }
}

/// The root query type: its methods resolve the fields of the schema.
#[derive(Clone, Copy, Debug)]
pub struct Query;

/// The subscription root; it offers no fields.
#[derive(Clone, Copy, Debug)]
pub struct Subscription;

impl Query {
    /// Adds `a` and `b`. An out-of-range sum wraps around.
    pub fn add(a: i32, b: i32) -> (r: i32)
        ensures
            r as int == wrapped_sum(a as int, b as int),
            i32::MIN <= a + b <= i32::MAX ==> r == a + b,
    {
        a.wrapping_add(b)
    }

    /// The greeting.
    pub fn hello(&self) -> (r: &'static str)
        ensures
            r@ == "Hello, World!"@,
    {
        "Hello, World!"
    }

    /// Every player of the context.
    pub fn players(context: &Context) -> (r: Vec<&Player>)
        ensures
            r@.len() == context@.len(),
            forall|k: int| 0 <= k < r@.len() ==> (#[trigger] r@[k])@ == context@[k],
    {
        context.get_players()
    }

    /// The player with the given id, or `None` when there is none.
    pub fn player(context: &Context, id: String) -> (r: Option<&Player>)
        ensures
            opt_view(r) == lookup(context@, id@),
    {
        context.get_player(id.as_str())
    }
}

/// A seeded id finds exactly its seeded record.
pub proof fn lemma_seeded_player_found(i: int)
    requires
        0 <= i < seed_records().len(),
    ensures
        lookup(seed_records(), seed_records()[i].id) == Some(seed_records()[i]),
{
    let s = seed_records();
    crate::store::lemma_seed_ids_distinct();
    assert(exists|j: int| 0 <= j < s.len() && (#[trigger] s[j]).id == s[i].id);
    let j = choose|j: int| 0 <= j < s.len() && (#[trigger] s[j]).id == s[i].id;
    assert(ids_of(s)[j] == ids_of(s)[i]);
}

/// An id outside the seed table finds nothing; this is no error.
pub proof fn lemma_unseeded_player_absent(id: Seq<char>)
    requires
        forall|i: int| 0 <= i < seed_records().len() ==> (#[trigger] seed_records()[i]).id != id,
    ensures
        lookup(seed_records(), id) is None,
{
}

/// Listing the players of a fresh context yields as many records as the
/// seed table has (eleven), with pairwise distinct ids, whose set of ids is
/// exactly the set of seeded ids, whatever the order of the listing.
pub proof fn lemma_players_match_seed(listed: Seq<PlayerView>)
    requires
        listed.len() == seed_records().len(),
        forall|k: int| 0 <= k < listed.len() ==> #[trigger] listed[k] == seed_records()[k],
    ensures
        listed.len() == 11,
        ids_of(listed).no_duplicates(),
        ids_of(listed).to_set() == ids_of(seed_records()).to_set(),
        ids_of(listed).to_set().len() == 11,
{
    crate::store::lemma_seed_ids_distinct();
    assert(listed =~= seed_records());
    ids_of(listed).unique_seq_to_set();
}

} // verus!
