//! What a query decides from the answers of the account and match-list
//! lookups.

use crate::region::{route_label, route_name};
use crate::riot_id::{riot_id_text, RiotId};
use riven::consts::RegionalRoute;
use vstd::prelude::*;

verus! {

/// Which of the two players of a query.
#[derive(Debug, Clone, Copy, PartialEq, Eq, Structural)]
pub enum PlayerSlot {
    Player1,
    Player2,
}

/// A condition that ends a query.
#[derive(Debug)]
pub enum QueryError {
    /// No account has the player's Riot ID on the route.
    PlayerNotFound { slot: PlayerSlot, riot_id: RiotId, route: RegionalRoute },
}

pub const NOT_FOUND_ADVICE: &'static str =
    "'. Please check spelling, tag line, and ensure the account exists and is active in this region.";

/// How a player is named in messages.
pub open spec fn slot_label(slot: PlayerSlot) -> Seq<char> {
    match slot {
        PlayerSlot::Player1 => "Player 1"@,
        PlayerSlot::Player2 => "Player 2"@,
    }
}

/// The message for a player whose account was not found.
pub open spec fn not_found_message(
    slot: PlayerSlot,
    game_name: Seq<char>,
    tag_line: Seq<char>,
    route: RegionalRoute,
) -> Seq<char> {
    "Error: "@ + slot_label(slot) + " Riot ID '"@ + riot_id_text(game_name, tag_line)
        + "' not found on regional route '"@ + route_name(route) + NOT_FOUND_ADVICE@
}

impl QueryError {
    /// A message for the user that names the player and the route.
    pub fn message(&self) -> (r: String)
        ensures
            match self {
                QueryError::PlayerNotFound { slot, riot_id, route } => r@ == not_found_message(
                    *slot,
                    riot_id.game_name@,
                    riot_id.tag_line@,
                    *route,
                ),
            },
    {
        match self {
            QueryError::PlayerNotFound { slot, riot_id, route } => {
                let who = match slot {
                    PlayerSlot::Player1 => "Player 1",
                    PlayerSlot::Player2 => "Player 2",
                };
                String::from_str("Error: ").concat(who).concat(" Riot ID '").concat(
                    riot_id.to_string().as_str(),
                ).concat("' not found on regional route '").concat(
                    route_label(*route).as_str(),
                ).concat(NOT_FOUND_ADVICE)
            },
        }
    }
}

/// The handle of a player, given what the account lookup returned; a player
/// with no account ends the query.
pub fn resolve_player(
    slot: PlayerSlot,
    riot_id: &RiotId,
    route: RegionalRoute,
    account: Option<String>,
) -> (r: Result<String, QueryError>)
    ensures
        match r {
            Ok(h) => account == Some(h),
            Err(QueryError::PlayerNotFound { slot: s, riot_id: id, route: rt }) => {
                &&& account is None
                &&& s == slot
                &&& id.game_name@ == riot_id.game_name@
                &&& id.tag_line@ == riot_id.tag_line@
                &&& rt == route
            },
        },
{
    match account {
        Some(h) => Ok(h),
        None => Err(
            QueryError::PlayerNotFound {
                slot,
                riot_id: RiotId {
                    game_name: riot_id.game_name.clone(),
                    tag_line: riot_id.tag_line.clone(),
                },
                route,
            },
        ),
    }
}

/// How far back the match list goes: about thirty days, in seconds.
pub const RECENT_WINDOW_SECS: u64 = 2592000;

/// The earliest start time, in seconds since the Unix epoch, of the matches
/// asked for, given the time now; none where that would fall before the
/// epoch.
pub fn recent_window_start(now_secs: u64) -> (r: Option<i64>)
    ensures
        match r {
            Some(t) => now_secs >= RECENT_WINDOW_SECS && t == now_secs - RECENT_WINDOW_SECS,
            None => now_secs < RECENT_WINDOW_SECS || now_secs - RECENT_WINDOW_SECS > i64::MAX,
        },
{
    if now_secs < RECENT_WINDOW_SECS {
        return None;
    }
    let start = now_secs - RECENT_WINDOW_SECS;
    if start > i64::MAX as u64 {
        None
    } else {
        Some(start as i64)
    }
}

} // verus!
