use vstd::prelude::*;

use crate::player::{Instrument, Player, PlayerView};

verus! {

/// The record that the table holds under `id`, if any.
pub open spec fn lookup(records: Seq<PlayerView>, id: Seq<char>) -> Option<PlayerView> {
    if exists|i: int| 0 <= i < records.len() && (#[trigger] records[i]).id == id {
        let i = choose|i: int| 0 <= i < records.len() && (#[trigger] records[i]).id == id;
        Some(records[i])
    } else {
        None
    }
}

/// The ids of a sequence of records, in order.
pub open spec fn ids_of(records: Seq<PlayerView>) -> Seq<Seq<char>> {
    records.map_values(|p: PlayerView| p.id)
}

/// The view of an optional borrowed record.
pub open spec fn opt_view(r: Option<&Player>) -> Option<PlayerView> {
    match r {
        Some(p) => Some(p@),
        None => None,
    }
}

/// The record of a seeded player.
pub open spec fn seed(id: &str, name: &str, instrument: Instrument) -> PlayerView {
    PlayerView { id: id@, name: name@, instrument }
}

/// The fixed table that every context is built from.
pub open spec fn seed_records() -> Seq<PlayerView> {
    seq![
        seed("1000", "Steve", Instrument::Guitar),
        seed("1001", "Stevie", Instrument::Guitar),
        seed("1002", "Jimmy", Instrument::Guitar),
        seed("1003", "Eric", Instrument::Guitar),
        seed("1004", "Jimi", Instrument::Guitar),
        seed("1005", "Chuck", Instrument::Guitar),
        seed("1006", "Eddie", Instrument::Guitar),
        seed("2000", "Jerry", Instrument::Piano),
        seed("2001", "Ray", Instrument::Piano),
        seed("2002", "Billy", Instrument::Piano),
        seed("2003", "Elton", Instrument::Piano),
    ]
}

/// The shared, read-only data of every query: the table of players.
#[derive(Debug)]
pub struct Context {
    players: Vec<Player>,
}

impl View for Context {
    type V = Seq<PlayerView>;

    closed spec fn view(&self) -> Seq<PlayerView> {
        self.players@.map_values(|p: Player| p@)
    }
}

/// Appends the seeded record `(id, name, instrument)` to `players`.
fn push_seed(players: &mut Vec<Player>, id: &str, name: &str, instrument: Instrument)
    ensures
        final(players)@.map_values(|p: Player| p@) == old(players)@.map_values(|p: Player| p@).push(
            seed(id, name, instrument),
        ),
{
    let p = Player::new(id.to_owned(), name.to_owned(), instrument);
    players.push(p);
    proof {
        assert(final(players)@.map_values(|p: Player| p@) =~= old(players)@.map_values(
            |p: Player| p@,
        ).push(seed(id, name, instrument)));
    }
}

impl Context {
    /// Each id names at most one record.
    #[verifier::type_invariant]
    spec fn inv(&self) -> bool {
        ids_of(self@).no_duplicates()
    }

    /// The context over the fixed table of players.
    pub fn new() -> (r: Context)
        ensures
            ids_of(r@).no_duplicates(),
            r@ == seed_records(),
    {
        let mut players: Vec<Player> = Vec::new();
        proof {
            assert(players@.map_values(|p: Player| p@) =~= Seq::<PlayerView>::empty());
        }
        push_seed(&mut players, "1000", "Steve", Instrument::Guitar);
        push_seed(&mut players, "1001", "Stevie", Instrument::Guitar);
        push_seed(&mut players, "1002", "Jimmy", Instrument::Guitar);
        push_seed(&mut players, "1003", "Eric", Instrument::Guitar);
        push_seed(&mut players, "1004", "Jimi", Instrument::Guitar);
        push_seed(&mut players, "1005", "Chuck", Instrument::Guitar);
        push_seed(&mut players, "1006", "Eddie", Instrument::Guitar);
        push_seed(&mut players, "2000", "Jerry", Instrument::Piano);
        push_seed(&mut players, "2001", "Ray", Instrument::Piano);
        push_seed(&mut players, "2002", "Billy", Instrument::Piano);
        push_seed(&mut players, "2003", "Elton", Instrument::Piano);
        proof {
            assert(players@.map_values(|p: Player| p@) =~= seed_records());
            lemma_seed_ids_distinct();
        }
        Context { players }
    }

    /// The record with the given id, or `None` when the table holds none.
    pub fn get_player(&self, id: &str) -> (r: Option<&Player>)
        ensures
            opt_view(r) == lookup(self@, id@),
    {
        proof {
            use_type_invariant(self);
        }
        let key = id.to_owned();
        let mut i: usize = 0;
        while i < self.players.len()
            invariant
                i <= self.players.len(),
                key@ == id@,
                ids_of(self@).no_duplicates(),
                forall|k: int| 0 <= k < i ==> (#[trigger] self@[k]).id != id@,
            decreases self.players.len() - i,
        {
            let p = &self.players[i];
            if p.has_id(&key) {
                proof {
                    assert(self@[i as int] == p@);
                    assert(self@[i as int].id == id@);
                    assert(exists|j: int| 0 <= j < self@.len() && (#[trigger] self@[j]).id == id@);
                    let j = choose|j: int| 0 <= j < self@.len() && (#[trigger] self@[j]).id == id@;
                    assert(ids_of(self@)[j] == self@[j].id);
                    assert(ids_of(self@)[i as int] == self@[i as int].id);
                    assert(ids_of(self@)[j] == ids_of(self@)[i as int]);
                }
                return Some(p);
            }
            proof {
                assert(self@[i as int] == p@);
            }
            i = i + 1;
        }
        None
    }

    /// Every record of the table, each once, in the order of the table.
    pub fn get_players(&self) -> (r: Vec<&Player>)
        ensures
            r@.len() == self@.len(),
            forall|k: int| 0 <= k < r@.len() ==> (#[trigger] r@[k])@ == self@[k],
    {
        let mut out: Vec<&Player> = Vec::new();
        let mut i: usize = 0;
        while i < self.players.len()
            invariant
                i <= self.players.len(),
                out@.len() == i,
                forall|k: int| 0 <= k < i ==> (#[trigger] out@[k])@ == self@[k],
            decreases self.players.len() - i,
        {
            out.push(&self.players[i]);
            i = i + 1;
        }
        out
    }
}

/// No two seeded records share an id.
pub proof fn lemma_seed_ids_distinct()
    ensures
        ids_of(seed_records()).no_duplicates(),
{
    reveal_strlit("1000");
    reveal_strlit("1001");
    reveal_strlit("1002");
    reveal_strlit("1003");
    reveal_strlit("1004");
    reveal_strlit("1005");
    reveal_strlit("1006");
    reveal_strlit("2000");
    reveal_strlit("2001");
    reveal_strlit("2002");
    reveal_strlit("2003");
    let ids = ids_of(seed_records());
    assert forall|i: int, j: int| 0 <= i < ids.len() && 0 <= j < ids.len() && i != j
        implies ids[i] != ids[j] by {
        if ids[i] == ids[j] {
            assert(ids[i][0] == ids[j][0]);
            assert(ids[i][3] == ids[j][3]);
        }
    }
}

} // verus!
