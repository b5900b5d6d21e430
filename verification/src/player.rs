//! One entry of a server's player roster.

use vstd::prelude::*;

verus! {

/// The mathematical value of a [`Player`].
pub struct PlayerView {
    pub name: Seq<char>,
    pub score: i32,
    pub duration_bits: u32,
}

/// An immutable snapshot of one connected player, as the detail query
/// reported it. A roster is replaced wholesale on every update, so a player
/// has no identity of its own.
#[derive(Debug)]
pub struct Player {
    /// The player's name.
    pub name: String,
    /// The player's score, as a signed integer.
    pub score: i32,
    /// How long the player has been connected, carried opaquely as the bit
    /// pattern the detail query handed back; the core never interprets it.
    pub duration_bits: u32,
}

impl View for Player {
    type V = PlayerView;

    open spec fn view(&self) -> PlayerView {
        PlayerView { name: self.name@, score: self.score, duration_bits: self.duration_bits }
    }
}

impl Player {
    pub fn new(name: String, score: i32, duration_bits: u32) -> (r: Player)
        ensures
            r@ == (PlayerView { name: name@, score, duration_bits }),
    {
        Player { name, score, duration_bits }
    }

    /// An exact copy.
    pub fn duplicate(&self) -> (r: Player)
        ensures
            r@ == self@,
    {
        Player { name: self.name.clone(), score: self.score, duration_bits: self.duration_bits }
    }
}

/// The views of a roster, element by element.
pub open spec fn roster_view(players: Seq<Player>) -> Seq<PlayerView> {
    players.map_values(|p: Player| p@)
}

} // verus!
