//! The per-server record the store keeps, and its assembly from the outcome
//! of one detail query.

use vstd::prelude::*;
use crate::player::{Player, PlayerView, roster_view};

verus! {

/// The mathematical value of a [`GameServer`].
pub struct GameServerView {
    pub name: Seq<char>,
    pub map: Seq<char>,
    pub player_count: u8,
    pub max_players: u8,
    pub last_updated: u64,
    pub player_list: Seq<PlayerView>,
}

/// The latest known state of one game server. Its identity is the address
/// it is stored under; all fields are replaced together on every update,
/// never patched one by one.
#[derive(Debug)]
pub struct GameServer {
    /// The server's display name.
    pub name: String,
    /// The map the server is running.
    pub map: String,
    /// How many players are connected, 0 to 255.
    pub player_count: u8,
    /// The player capacity, 0 to 255.
    pub max_players: u8,
    /// The store's logical time of the last write to this record; zero
    /// until the record is first stored.
    pub last_updated: u64,
    /// The roster, in the order the detail query returned it; the order
    /// carries no meaning.
    pub player_list: Vec<Player>,
}

impl View for GameServer {
    type V = GameServerView;

    open spec fn view(&self) -> GameServerView {
        GameServerView {
            name: self.name@,
            map: self.map@,
            player_count: self.player_count,
            max_players: self.max_players,
            last_updated: self.last_updated,
            player_list: roster_view(self.player_list@),
        }
    }
}

/// The value a fresh record carries before its first detail query: the
/// placeholder name and map "n/a", zero counts, an empty roster.
pub open spec fn spec_is_placeholder(g: GameServerView) -> bool {
    g.name == "n/a"@ && g.map == "n/a"@ && g.player_count == 0 && g.max_players == 0
        && g.player_list.len() == 0
}

impl GameServer {
    pub fn new(name: String, map: String, player_count: u8, max_players: u8, player_list: Vec<
        Player,
    >) -> (r: GameServer)
        ensures
            r@ == (GameServerView {
                name: name@,
                map: map@,
                player_count,
                max_players,
                last_updated: 0,
                player_list: roster_view(player_list@),
            }),
    {
        GameServer { name, map, player_count, max_players, last_updated: 0, player_list }
    }

    /// The placeholder record a discovered address holds until a detail
    /// query succeeds for it.
    pub fn placeholder() -> (r: GameServer)
        ensures
            spec_is_placeholder(r@),
            r@.last_updated == 0,
    {
        let r = GameServer {
            name: "n/a".to_owned(),
            map: "n/a".to_owned(),
            player_count: 0,
            max_players: 0,
            last_updated: 0,
            player_list: Vec::new(),
        };
        r
    }

    /// Replaces every data field together with the timestamp; a record is
    /// never patched field by field.
    pub fn update(&mut self, name: String, map: String, player_count: u8, max_players: u8,
        player_list: Vec<Player>, now: u64)
        ensures
            final(self)@ == (GameServerView {
                name: name@,
                map: map@,
                player_count,
                max_players,
                last_updated: now,
                player_list: roster_view(player_list@),
            }),
    {
        self.name = name;
        self.map = map;
        self.player_count = player_count;
        self.max_players = max_players;
        self.player_list = player_list;
        self.last_updated = now;
    }

    /// An exact copy.
    pub fn duplicate(&self) -> (r: GameServer)
        ensures
            r@ == self@,
    {
        let mut players: Vec<Player> = Vec::new();
        let mut i: usize = 0;
        while i < self.player_list.len()
            invariant
                i <= self.player_list@.len(),
                players@.len() == i,
                forall|j: int| 0 <= j < i ==> players@[j]@ == self.player_list@[j]@,
            decreases self.player_list@.len() - i,
        {
            players.push(self.player_list[i].duplicate());
            i = i + 1;
        }
        let r = GameServer {
            name: self.name.clone(),
            map: self.map.clone(),
            player_count: self.player_count,
            max_players: self.max_players,
            last_updated: self.last_updated,
            player_list: players,
        };
        proof {
            assert(roster_view(r.player_list@) =~= roster_view(self.player_list@));
        }
        r
    }
}

/// What a successful info half of a detail query reports: the four scalar
/// fields of a server, as plain values.
#[derive(Debug)]
pub struct ServerInfo {
    pub name: String,
    pub map: String,
    pub players: u8,
    pub max_players: u8,
}

/// Assembles the record one detail query yields for one address.
///
/// The two halves of the query fail independently and a failure is never
/// fatal: with `info` present the four scalar fields are taken from it, else
/// they keep the placeholder values; with `players` present the roster is
/// taken from it, else it stays empty. The result is built whole — all
/// fields at once — and is ready to be stored even when both halves failed.
pub fn build_game_server(info: Option<ServerInfo>, players: Option<Vec<Player>>) -> (r: GameServer)
    ensures
        (match info {
            Some(i) => r@.name == i.name@ && r@.map == i.map@ && r@.player_count == i.players
                && r@.max_players == i.max_players,
            None => r@.name == "n/a"@ && r@.map == "n/a"@ && r@.player_count == 0
                && r@.max_players == 0,
        }),
        (match players {
            Some(p) => r@.player_list == roster_view(p@),
            None => r@.player_list.len() == 0,
        }),
        info is None && players is None ==> spec_is_placeholder(r@),
        r@.last_updated == 0,
{
    let (name, map, player_count, max_players) = match info {
        Some(i) => (i.name, i.map, i.players, i.max_players),
        None => ("n/a".to_owned(), "n/a".to_owned(), 0u8, 0u8),
    };
    let player_list = match players {
        Some(p) => p,
        None => Vec::new(),
    };
    GameServer::new(name, map, player_count, max_players, player_list)
}

} // verus!
