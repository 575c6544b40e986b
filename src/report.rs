//! What a query reports: a summary of the counts, and the detail of each
//! match the two players shared.

use vstd::prelude::*;

verus! {

/// A player as named in a report.
#[derive(Debug, Clone)]
pub struct PlayerIdentity {
    pub game_name: String,
    pub tag_line: String,
}

/// How one player did in one match.
#[derive(Debug, Clone)]
pub struct ParticipantDetails {
    pub champion: String,
    pub role: String,
    pub kills: i32,
    pub deaths: i32,
    pub assists: i32,
    pub outcome: String,
}

/// One match that both players took part in.
#[derive(Debug, Clone)]
pub struct MatchDetails {
    pub match_id: String,
    pub game_date_utc: String,
    pub game_mode: String,
    pub game_type: Option<String>,
    pub league_of_graphs_link: Option<String>,
    pub player1_details: ParticipantDetails,
    pub player2_details: ParticipantDetails,
}

/// The counts gathered over all the matches checked.
#[derive(Debug, Clone)]
pub struct QuerySummary {
    pub player1: PlayerIdentity,
    pub player2: PlayerIdentity,
    pub regional_route: String,
    pub checked_matches_count: u32,
    pub matches_played_together_count: u32,
    pub player1_wins_together_count: u32,
    pub player1_puuid_found: bool,
    pub player2_puuid_found: bool,
}

/// The whole result of a query.
#[derive(Debug, Clone)]
pub struct OverallOutput {
    pub query_summary: QuerySummary,
    pub found_matches: Vec<MatchDetails>,
}

/// `ParticipantDetails` with its text as character sequences.
pub struct ParticipantDetailsView {
    pub champion: Seq<char>,
    pub role: Seq<char>,
    pub kills: i32,
    pub deaths: i32,
    pub assists: i32,
    pub outcome: Seq<char>,
}

/// `MatchDetails` with its text as character sequences.
pub struct MatchDetailsView {
    pub match_id: Seq<char>,
    pub game_date_utc: Seq<char>,
    pub game_mode: Seq<char>,
    pub game_type: Option<Seq<char>>,
    pub league_of_graphs_link: Option<Seq<char>>,
    pub player1_details: ParticipantDetailsView,
    pub player2_details: ParticipantDetailsView,
}

impl View for ParticipantDetails {
    type V = ParticipantDetailsView;

    open spec fn view(&self) -> ParticipantDetailsView {
        ParticipantDetailsView {
            champion: self.champion@,
            role: self.role@,
            kills: self.kills,
            deaths: self.deaths,
            assists: self.assists,
            outcome: self.outcome@,
        }
    }
}

impl View for MatchDetails {
    type V = MatchDetailsView;

    open spec fn view(&self) -> MatchDetailsView {
        MatchDetailsView {
            match_id: self.match_id@,
            game_date_utc: self.game_date_utc@,
            game_mode: self.game_mode@,
            game_type: self.game_type.deep_view(),
            league_of_graphs_link: self.league_of_graphs_link.deep_view(),
            player1_details: self.player1_details@,
            player2_details: self.player2_details@,
        }
    }
}

/// The views of a list of match details, in order.
pub open spec fn details_views(ds: Seq<MatchDetails>) -> Seq<MatchDetailsView> {
    ds.map_values(|d: MatchDetails| d@)
}

} // verus!
