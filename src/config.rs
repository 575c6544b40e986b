//! The stored settings: the user's own Riot ID and an API key.

use crate::riot_id::RiotId;
use vstd::prelude::*;

verus! {

/// A Riot ID in the form it is stored in.
#[derive(Debug, Clone)]
pub struct RiotIdSerializable {
    pub game_name: String,
    pub tag_line: String,
}

impl From<RiotId> for RiotIdSerializable {
    fn from(riot_id: RiotId) -> (r: RiotIdSerializable) {
        RiotIdSerializable { game_name: riot_id.game_name, tag_line: riot_id.tag_line }
    }
}

impl vstd::std_specs::convert::FromSpecImpl<RiotId> for RiotIdSerializable {
    open spec fn obeys_from_spec() -> bool {
        true
    }

    open spec fn from_spec(riot_id: RiotId) -> RiotIdSerializable {
        RiotIdSerializable { game_name: riot_id.game_name, tag_line: riot_id.tag_line }
    }
}

impl From<RiotIdSerializable> for RiotId {
    fn from(riot_id_s: RiotIdSerializable) -> (r: RiotId) {
        RiotId { game_name: riot_id_s.game_name, tag_line: riot_id_s.tag_line }
    }
}

impl vstd::std_specs::convert::FromSpecImpl<RiotIdSerializable> for RiotId {
    open spec fn obeys_from_spec() -> bool {
        true
    }

    open spec fn from_spec(riot_id_s: RiotIdSerializable) -> RiotId {
        RiotId { game_name: riot_id_s.game_name, tag_line: riot_id_s.tag_line }
    }
}

/// The stored settings.
#[derive(Debug)]
pub struct Config {
    /// The user's own Riot ID, used when a query names only one player.
    pub self_riot_id: Option<RiotIdSerializable>,
    pub api_key: Option<String>,
}

impl Default for Config {
    fn default() -> (r: Config)
        ensures
            r.self_riot_id is None,
            r.api_key is None,
    {
        Config { self_riot_id: None, api_key: None }
    }
}

/// Who a query is about, given the Riot IDs named on the command line and
/// the stored one.
#[derive(Debug)]
pub enum PlayerSelection {
    /// No Riot ID was named: there is nothing to query.
    NoQuery,
    /// One Riot ID was named and none is stored.
    MissingSelf,
    /// More than two Riot IDs were named.
    TooMany,
    /// The two players to query; `player1`'s matches are gone through.
    Pair { player1: RiotId, player2: RiotId },
}

/// Picks the players of a query: two named Riot IDs in their order, or the
/// stored Riot ID and one named Riot ID, in that order.
pub fn select_players(riot_ids: Vec<RiotId>, stored_self: Option<RiotId>) -> (r: PlayerSelection)
    ensures
        riot_ids.len() == 0 ==> (r is NoQuery),
        riot_ids.len() == 1 ==> match stored_self {
            Some(s) => r == (PlayerSelection::Pair { player1: s, player2: riot_ids@[0] }),
            None => (r is MissingSelf),
        },
        riot_ids.len() == 2 ==> r == (PlayerSelection::Pair {
            player1: riot_ids@[0],
            player2: riot_ids@[1],
        }),
        riot_ids.len() > 2 ==> (r is TooMany),
{
    let n = riot_ids.len();
    if n == 0 {
        return PlayerSelection::NoQuery;
    }
    if n > 2 {
        return PlayerSelection::TooMany;
    }
    let mut ids = riot_ids;
    let first = ids.remove(0);
    if n == 1 {
        match stored_self {
            Some(s) => PlayerSelection::Pair { player1: s, player2: first },
            None => PlayerSelection::MissingSelf,
        }
    } else {
        let second = ids.remove(0);
        PlayerSelection::Pair { player1: first, player2: second }
    }
}

} // verus!
