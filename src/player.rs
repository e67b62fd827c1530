use vstd::prelude::*;

verus! {

/// The instrument a player is known for.
#[derive(Clone, Copy, Debug, PartialEq, Eq, Structural)]
pub enum Instrument {
    Guitar,
    Piano,
}

/// The mathematical value of a player record.
pub struct PlayerView {
    pub id: Seq<char>,
    pub name: Seq<char>,
    pub instrument: Instrument,
}

/// A player record: an id, a name and an instrument.
#[derive(Clone, Debug)]
pub struct Player {
    id: String,
    name: String,
    instrument: Instrument,
}

impl View for Player {
    type V = PlayerView;

    closed spec fn view(&self) -> PlayerView {
        PlayerView { id: self.id@, name: self.name@, instrument: self.instrument }
    }
}

impl Player {
    /// Builds a record from its three fields.
    pub fn new(id: String, name: String, instrument: Instrument) -> (r: Player)
        ensures
            r@ == (PlayerView { id: id@, name: name@, instrument }),
    {
        Player { id, name, instrument }
    }

    /// The id of the player.
    pub fn id(&self) -> (r: &str)
        ensures
            r@ == self@.id,
    {
        self.id.as_str()
    }

    /// Whether the player's id is `id`.
    pub fn has_id(&self, id: &String) -> (r: bool)
        ensures
            r == (self@.id == id@),
    {
        self.id == *id
    }

    /// The name of the player.
    pub fn name(&self) -> (r: &str)
        ensures
            r@ == self@.name,
    {
        self.name.as_str()
    }

    /// The instrument of the player.
    pub fn instrument(&self) -> (r: Instrument)
        ensures
            r == self@.instrument,
    {
        self.instrument
    }
}

} // verus!
