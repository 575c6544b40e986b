//! The correlation engine: it goes through one player's recent matches and
//! keeps those that the other player took part in.
//!
//! The remote lookups are made by the caller. The engine is a state machine:
//! it is told, match by match, what the lookup of each match returned, and
//! it keeps the counts and the details that the report is made of.

use crate::region::{log_code, route_label, route_name, UserFacingRegion};
use crate::report::{
    details_views, MatchDetails, MatchDetailsView, OverallOutput, ParticipantDetails,
    ParticipantDetailsView, PlayerIdentity, QuerySummary,
};
use crate::riot_id::RiotId;
use crate::text::{find_char, first_index_of, lemma_first_index_of};
use riven::consts::RegionalRoute;
use vstd::prelude::*;

verus! {

/// One participant of a match, as the match lookup gives it.
#[derive(Debug, Clone)]
pub struct ParticipantRecord {
    pub puuid: String,
    pub champion_name: String,
    pub team_position: String,
    pub kills: i32,
    pub deaths: i32,
    pub assists: i32,
    pub win: bool,
}

/// A match, as the match lookup gives it.
#[derive(Debug, Clone)]
pub struct MatchRecord {
    /// Milliseconds since the Unix epoch.
    pub game_start_timestamp: i64,
    pub game_mode: String,
    pub game_type: Option<String>,
    pub participants: Vec<ParticipantRecord>,
}

/// What the engine made of one match.
#[derive(Debug, Clone, Copy, PartialEq, Eq, Structural)]
pub enum MatchVerdict {
    /// The match could not be looked up.
    Unavailable,
    /// The second player did not take part.
    PlayedApart,
    /// The second player took part, but the first player's record is missing.
    IncompleteParticipants,
    /// Both players took part; the match is reported.
    PlayedTogether,
}

pub const VICTORY: &'static str = "Victory";

pub const DEFEAT: &'static str = "Defeat";

pub const UNKNOWN_DATE: &'static str = "Unknown Date";

pub const LINK_BASE: &'static str = "https://www.leagueofgraphs.com/match/";

/// The link region used when the user picked none.
pub const DEFAULT_LINK_REGION: &'static str = "eune";

/// Whether the player with handle `h` is among the match's participants.
pub open spec fn takes_part(m: MatchRecord, h: Seq<char>) -> bool {
    exists|i: int| 0 <= i < m.participants@.len() && m.participants@[i].puuid@ == h
}

/// The position of the first participant with handle `h`, if any.
pub open spec fn participant_index(ps: Seq<ParticipantRecord>, h: Seq<char>) -> Option<int>
    decreases ps.len(),
{
    if ps.len() == 0 {
        None
    } else {
        match participant_index(ps.drop_last(), h) {
            Some(i) => Some(i),
            None => if ps.last().puuid@ == h {
                Some(ps.len() - 1)
            } else {
                None
            },
        }
    }
}

/// `participant_index` finds the earliest participant with the handle, and
/// finds none only where there is none.
pub proof fn lemma_participant_index(ps: Seq<ParticipantRecord>, h: Seq<char>)
    ensures
        match participant_index(ps, h) {
            Some(i) => 0 <= i < ps.len() && ps[i].puuid@ == h && forall|j: int|
                0 <= j < i ==> ps[j].puuid@ != h,
            None => forall|j: int| 0 <= j < ps.len() ==> ps[j].puuid@ != h,
        },
    decreases ps.len(),
{
    if ps.len() > 0 {
        lemma_participant_index(ps.drop_last(), h);
        assert forall|j: int| 0 <= j < ps.len() - 1 implies ps.drop_last()[j] == ps[j] by {}
    }
}

/// The record of the first participant with handle `h`; only meaningful
/// where `takes_part` holds.
pub open spec fn participant_with(m: MatchRecord, h: Seq<char>) -> ParticipantRecord {
    m.participants@[participant_index(m.participants@, h)->0]
}

/// What the engine makes of a match, given the two players' handles.
pub open spec fn verdict_of(record: Option<MatchRecord>, h1: Seq<char>, h2: Seq<char>) -> MatchVerdict {
    match record {
        None => MatchVerdict::Unavailable,
        Some(m) => if !takes_part(m, h2) {
            MatchVerdict::PlayedApart
        } else if !takes_part(m, h1) {
            MatchVerdict::IncompleteParticipants
        } else {
            MatchVerdict::PlayedTogether
        },
    }
}

/// Whether both players took part in the match, by the second player's handle.
pub open spec fn found_together(record: Option<MatchRecord>, h2: Seq<char>) -> bool {
    record matches Some(m) && takes_part(m, h2)
}

/// Whether the match is reported and the first player won it.
pub open spec fn won_together(record: Option<MatchRecord>, h1: Seq<char>, h2: Seq<char>) -> bool {
    verdict_of(record, h1, h2) == MatchVerdict::PlayedTogether && participant_with(
        record->0,
        h1,
    ).win
}

/// The label of a match outcome.
pub open spec fn outcome_label(win: bool) -> Seq<char> {
    if win {
        VICTORY@
    } else {
        DEFEAT@
    }
}

/// How a participant's record is reported.
pub open spec fn participant_view(p: ParticipantRecord) -> ParticipantDetailsView {
    ParticipantDetailsView {
        champion: p.champion_name@,
        role: p.team_position@,
        kills: p.kills,
        deaths: p.deaths,
        assists: p.assists,
        outcome: outcome_label(p.win),
    }
}

/// The region code used in match links.
pub open spec fn link_code(region: Option<UserFacingRegion>) -> Seq<char> {
    match region {
        Some(r) => log_code(r),
        None => DEFAULT_LINK_REGION@,
    }
}

/// The part of a match id after its region prefix, if the id has one.
pub open spec fn match_suffix(match_id: Seq<char>) -> Option<Seq<char>> {
    match first_index_of(match_id, '_') {
        Some(i) => Some(match_id.skip(i + 1)),
        None => None,
    }
}

/// The link to a match, for the given region code.
pub open spec fn match_link(match_id: Seq<char>, code: Seq<char>) -> Option<Seq<char>> {
    match match_suffix(match_id) {
        Some(suffix) => Some(LINK_BASE@ + code + seq!['/'] + suffix),
        None => None,
    }
}

/// What chrono makes of a millisecond timestamp: the UTC date and time as
/// `YYYY-MM-DD hh:mm:ss UTC`, or nothing where the timestamp is out of range.
pub uninterp spec fn utc_date_of_millis(ms: int) -> Option<Seq<char>>;

/// The date shown for a match, given its formatted start time.
pub open spec fn date_label(date: Option<Seq<char>>) -> Seq<char> {
    match date {
        Some(d) => d,
        None => UNKNOWN_DATE@,
    }
}

/// How a match that both players took part in is reported.
pub open spec fn details_view(
    match_id: Seq<char>,
    m: MatchRecord,
    h1: Seq<char>,
    h2: Seq<char>,
    region: Option<UserFacingRegion>,
) -> MatchDetailsView {
    MatchDetailsView {
        match_id,
        game_date_utc: date_label(utc_date_of_millis(m.game_start_timestamp as int)),
        game_mode: m.game_mode@,
        game_type: m.game_type.deep_view(),
        league_of_graphs_link: match_link(match_id, link_code(region)),
        player1_details: participant_view(participant_with(m, h1)),
        player2_details: participant_view(participant_with(m, h2)),
    }
}

/// The number of matches of a window that both players took part in.
pub open spec fn count_together(records: Seq<Option<MatchRecord>>, h2: Seq<char>) -> nat
    decreases records.len(),
{
    if records.len() == 0 {
        0
    } else {
        count_together(records.drop_last(), h2) + if found_together(records.last(), h2) {
            1nat
        } else {
            0nat
        }
    }
}

/// The number of reported matches of a window that the first player won.
pub open spec fn count_wins(records: Seq<Option<MatchRecord>>, h1: Seq<char>, h2: Seq<char>) -> nat
    decreases records.len(),
{
    if records.len() == 0 {
        0
    } else {
        count_wins(records.drop_last(), h1, h2) + if won_together(records.last(), h1, h2) {
            1nat
        } else {
            0nat
        }
    }
}

/// The details reported for a window, in window order.
pub open spec fn window_details(
    ids: Seq<Seq<char>>,
    records: Seq<Option<MatchRecord>>,
    h1: Seq<char>,
    h2: Seq<char>,
    region: Option<UserFacingRegion>,
) -> Seq<MatchDetailsView>
    decreases records.len(),
{
    if records.len() == 0 || ids.len() != records.len() {
        Seq::empty()
    } else {
        let earlier = window_details(ids.drop_last(), records.drop_last(), h1, h2, region);
        if verdict_of(records.last(), h1, h2) == MatchVerdict::PlayedTogether {
            earlier.push(details_view(ids.last(), records.last()->0, h1, h2, region))
        } else {
            earlier
        }
    }
}

/// Relies on chrono's `DateTime::from_timestamp_millis`, which gives no
/// date for an out-of-range timestamp, and on its `format`, which writes the
/// date and time by the pattern given.
#[verifier::external_body]
fn utc_date_text(ms: i64) -> (r: Option<String>)
    ensures
        r.deep_view() == utc_date_of_millis(ms as int),
{
    match chrono::DateTime::from_timestamp_millis(ms) {
        Some(dt) => Some(dt.format("%Y-%m-%d %H:%M:%S UTC").to_string()),
        None => None,
    }
}

/// The date shown for a match, given its formatted start time if it has one.
pub fn game_date_label(date: Option<String>) -> (r: String)
    ensures
        r@ == date_label(date.deep_view()),
{
    match date {
        Some(d) => d,
        None => String::from_str(UNKNOWN_DATE),
    }
}

/// The link to a match on League of Graphs: the match id without its region
/// prefix, under the region's code. An id with no `_` gets no link.
pub fn league_of_graphs_link(match_id: &str, region: Option<UserFacingRegion>) -> (r: Option<
    String,
>)
    ensures
        r.deep_view() == match_link(match_id@, link_code(region)),
{
    match find_char(match_id, '_') {
        None => None,
        Some(i) => {
            proof {
                lemma_first_index_of(match_id@, '_');
                reveal_strlit("/");
            }
            let code = match region {
                Some(r) => r.to_log_string(),
                None => DEFAULT_LINK_REGION,
            };
            let n = match_id.unicode_len();
            let suffix = match_id.substring_char(i + 1, n);
            let link = String::from_str(LINK_BASE).concat(code).concat("/").concat(suffix);
            assert(link@ =~= LINK_BASE@ + link_code(region) + seq!['/'] + match_id@.skip(i + 1));
            Some(link)
        },
    }
}

/// The position of the first participant with handle `h`, if any.
fn participant_position(ps: &Vec<ParticipantRecord>, h: &String) -> (r: Option<usize>)
    ensures
        match r {
            Some(i) => participant_index(ps@, h@) == Some(i as int),
            None => participant_index(ps@, h@) is None,
        },
{
    let n = ps.len();
    let mut i: usize = 0;
    while i < n
        invariant
            n == ps@.len(),
            i <= n,
            participant_index(ps@.take(i as int), h@) is None,
        decreases n - i,
    {
        assert(ps@.take(i + 1).drop_last() =~= ps@.take(i as int));
        if ps[i].puuid == *h {
            proof {
                lemma_participant_index(ps@.take(i as int), h@);
                lemma_participant_index(ps@, h@);
                assert forall|j: int| 0 <= j < i implies ps@[j].puuid@ != h@ by {
                    assert(ps@.take(i as int)[j] == ps@[j]);
                }
            }
            return Some(i);
        }
        i = i + 1;
    }
    assert(ps@.take(n as int) =~= ps@);
    None
}

/// The label of a match outcome.
pub fn outcome_text(win: bool) -> (r: String)
    ensures
        r@ == outcome_label(win),
{
    if win {
        String::from_str(VICTORY)
    } else {
        String::from_str(DEFEAT)
    }
}

/// How a participant's record is reported.
fn participant_details(p: &ParticipantRecord) -> (r: ParticipantDetails)
    ensures
        r@ == participant_view(*p),
{
    ParticipantDetails {
        champion: p.champion_name.clone(),
        role: p.team_position.clone(),
        kills: p.kills,
        deaths: p.deaths,
        assists: p.assists,
        outcome: outcome_text(p.win),
    }
}

/// A copy of an optional string.
fn copy_text(s: &Option<String>) -> (r: Option<String>)
    ensures
        r.deep_view() == s.deep_view(),
{
    match s {
        Some(t) => Some(t.clone()),
        None => None,
    }
}

/// A copy of a Riot ID.
fn copy_riot_id(id: &RiotId) -> (r: RiotId)
    ensures
        r.game_name@ == id.game_name@,
        r.tag_line@ == id.tag_line@,
{
    RiotId { game_name: id.game_name.clone(), tag_line: id.tag_line.clone() }
}

/// The settings of one query.
#[derive(Debug)]
pub struct QueryConfig {
    /// The player whose match history is gone through.
    pub player1: RiotId,
    /// The player looked for in those matches.
    pub player2: RiotId,
    pub route: RegionalRoute,
    /// The region the user picked, if any; it sets the link region code.
    pub region: Option<UserFacingRegion>,
    /// How many recent matches to go through; 100 when not given.
    pub number_of_matches: Option<i32>,
    pub verbose: bool,
    pub silent: bool,
    pub json_output: bool,
}

/// The number of recent matches looked at when the user gives no count.
pub const DEFAULT_MATCH_COUNT: i32 = 100;

impl QueryConfig {
    /// How many recent matches to ask for.
    pub fn match_count(&self) -> (r: i32)
        ensures
            r == match self.number_of_matches {
                Some(n) => n,
                None => DEFAULT_MATCH_COUNT,
            },
    {
        match self.number_of_matches {
            Some(n) => n,
            None => DEFAULT_MATCH_COUNT,
        }
    }
}

/// The state of a correlation run: whom it looks for, and what it has found
/// so far.
pub struct Correlation {
    player1: RiotId,
    player2: RiotId,
    route: RegionalRoute,
    region: Option<UserFacingRegion>,
    puuid1: String,
    puuid2: String,
    checked: u32,
    together: u32,
    wins: u32,
    found: Vec<MatchDetails>,
}

/// The abstract state of a correlation run.
pub struct CorrelationView {
    pub name1: Seq<char>,
    pub tag1: Seq<char>,
    pub name2: Seq<char>,
    pub tag2: Seq<char>,
    pub route: RegionalRoute,
    pub region: Option<UserFacingRegion>,
    /// The first player's handle.
    pub handle1: Seq<char>,
    /// The second player's handle.
    pub handle2: Seq<char>,
    /// The matches gone through.
    pub checked: nat,
    /// The matches that both players took part in.
    pub together: nat,
    /// The reported matches that the first player won.
    pub wins: nat,
    /// The reported matches, in the order they were gone through.
    pub found: Seq<MatchDetailsView>,
}

impl CorrelationView {
    /// The counts never pass one another, and fit in the report's counters.
    pub open spec fn wf(self) -> bool {
        self.wins <= self.together <= self.checked <= u32::MAX
    }

    /// The state after one more match, given what its lookup returned.
    pub open spec fn after(self, match_id: Seq<char>, record: Option<MatchRecord>) -> CorrelationView {
        CorrelationView {
            checked: self.checked + 1,
            together: self.together + if found_together(record, self.handle2) {
                1nat
            } else {
                0nat
            },
            wins: self.wins + if won_together(record, self.handle1, self.handle2) {
                1nat
            } else {
                0nat
            },
            found: if verdict_of(record, self.handle1, self.handle2)
                == MatchVerdict::PlayedTogether {
                self.found.push(
                    details_view(match_id, record->0, self.handle1, self.handle2, self.region),
                )
            } else {
                self.found
            },
            ..self
        }
    }
}

impl View for Correlation {
    type V = CorrelationView;

    closed spec fn view(&self) -> CorrelationView {
        CorrelationView {
            name1: self.player1.game_name@,
            tag1: self.player1.tag_line@,
            name2: self.player2.game_name@,
            tag2: self.player2.tag_line@,
            route: self.route,
            region: self.region,
            handle1: self.puuid1@,
            handle2: self.puuid2@,
            checked: self.checked as nat,
            together: self.together as nat,
            wins: self.wins as nat,
            found: details_views(self.found@),
        }
    }
}

impl Correlation {
    /// A run for the query, once both players' handles are known; nothing is
    /// counted yet.
    pub fn new(config: &QueryConfig, puuid1: String, puuid2: String) -> (s: Correlation)
        ensures
            s@.wf(),
            s@ == (CorrelationView {
                name1: config.player1.game_name@,
                tag1: config.player1.tag_line@,
                name2: config.player2.game_name@,
                tag2: config.player2.tag_line@,
                route: config.route,
                region: config.region,
                handle1: puuid1@,
                handle2: puuid2@,
                checked: 0,
                together: 0,
                wins: 0,
                found: Seq::empty(),
            }),
    {
        let s = Correlation {
            player1: copy_riot_id(&config.player1),
            player2: copy_riot_id(&config.player2),
            route: config.route,
            region: config.region,
            puuid1,
            puuid2,
            checked: 0,
            together: 0,
            wins: 0,
            found: Vec::new(),
        };
        assert(details_views(s.found@) =~= Seq::empty());
        s
    }

    /// Takes in one match of the window, with what its lookup returned
    /// (`None`: not found or not accessible).
    pub fn observe(&mut self, match_id: &str, record: &Option<MatchRecord>) -> (v: MatchVerdict)
        requires
            old(self)@.wf(),
            old(self)@.checked < u32::MAX,
        ensures
            v == verdict_of(*record, old(self)@.handle1, old(self)@.handle2),
            final(self)@ == old(self)@.after(match_id@, *record),
            final(self)@.wf(),
    {
        self.checked = self.checked + 1;
        match record {
            None => MatchVerdict::Unavailable,
            Some(m) => {
                proof {
                    lemma_participant_index(m.participants@, self.puuid2@);
                    lemma_participant_index(m.participants@, self.puuid1@);
                }
                match participant_position(&m.participants, &self.puuid2) {
                    None => MatchVerdict::PlayedApart,
                    Some(i2) => {
                        self.together = self.together + 1;
                        match participant_position(&m.participants, &self.puuid1) {
                            None => MatchVerdict::IncompleteParticipants,
                            Some(i1) => {
                                let p1 = &m.participants[i1];
                                let p2 = &m.participants[i2];
                                if p1.win {
                                    self.wins = self.wins + 1;
                                }
                                let details = MatchDetails {
                                    match_id: String::from_str(match_id),
                                    game_date_utc: game_date_label(
                                        utc_date_text(m.game_start_timestamp),
                                    ),
                                    game_mode: m.game_mode.clone(),
                                    game_type: copy_text(&m.game_type),
                                    league_of_graphs_link: league_of_graphs_link(
                                        match_id,
                                        self.region,
                                    ),
                                    player1_details: participant_details(p1),
                                    player2_details: participant_details(p2),
                                };
                                let ghost before = self.found@;
                                self.found.push(details);
                                assert(details_views(self.found@) =~= details_views(before).push(
                                    details@,
                                ));
                                MatchVerdict::PlayedTogether
                            },
                        }
                    },
                }
            },
        }
    }

    /// The report: the counts, and the reported matches in window order.
    pub fn finish(self) -> (out: OverallOutput)
        ensures
            out.query_summary.player1.game_name@ == self@.name1,
            out.query_summary.player1.tag_line@ == self@.tag1,
            out.query_summary.player2.game_name@ == self@.name2,
            out.query_summary.player2.tag_line@ == self@.tag2,
            out.query_summary.regional_route@ == route_name(self@.route),
            out.query_summary.checked_matches_count == self@.checked,
            out.query_summary.matches_played_together_count == self@.together,
            out.query_summary.player1_wins_together_count == self@.wins,
            out.query_summary.player1_puuid_found,
            out.query_summary.player2_puuid_found,
            details_views(out.found_matches@) == self@.found,
    {
        let summary = QuerySummary {
            player1: PlayerIdentity {
                game_name: self.player1.game_name,
                tag_line: self.player1.tag_line,
            },
            player2: PlayerIdentity {
                game_name: self.player2.game_name,
                tag_line: self.player2.tag_line,
            },
            regional_route: route_label(self.route),
            checked_matches_count: self.checked,
            matches_played_together_count: self.together,
            player1_wins_together_count: self.wins,
            player1_puuid_found: true,
            player2_puuid_found: true,
        };
        OverallOutput { query_summary: summary, found_matches: self.found }
    }
}

/// Runs the engine over a fetched window: `window` holds the match ids, most
/// recent first, and `records[k]` what the lookup of `window[k]` returned.
pub fn correlate(
    config: &QueryConfig,
    puuid1: String,
    puuid2: String,
    window: &Vec<String>,
    records: &Vec<Option<MatchRecord>>,
) -> (out: OverallOutput)
    requires
        records.len() == window.len(),
        window.len() <= u32::MAX,
    ensures
        out.query_summary.player1.game_name@ == config.player1.game_name@,
        out.query_summary.player1.tag_line@ == config.player1.tag_line@,
        out.query_summary.player2.game_name@ == config.player2.game_name@,
        out.query_summary.player2.tag_line@ == config.player2.tag_line@,
        out.query_summary.regional_route@ == route_name(config.route),
        out.query_summary.checked_matches_count == window.len(),
        out.query_summary.matches_played_together_count == count_together(records@, puuid2@),
        out.query_summary.player1_wins_together_count == count_wins(records@, puuid1@, puuid2@),
        out.query_summary.player1_puuid_found,
        out.query_summary.player2_puuid_found,
        details_views(out.found_matches@) == window_details(
            window.deep_view(),
            records@,
            puuid1@,
            puuid2@,
            config.region,
        ),
{
    let ghost h1 = puuid1@;
    let ghost h2 = puuid2@;
    let ghost ids = window.deep_view();
    let mut session = Correlation::new(config, puuid1, puuid2);
    let n = window.len();
    let mut i: usize = 0;
    while i < n
        invariant
            n == window.len(),
            n == records.len(),
            n <= u32::MAX,
            ids == window.deep_view(),
            i <= n,
            session@.wf(),
            session@.name1 == config.player1.game_name@,
            session@.tag1 == config.player1.tag_line@,
            session@.name2 == config.player2.game_name@,
            session@.tag2 == config.player2.tag_line@,
            session@.route == config.route,
            session@.region == config.region,
            session@.handle1 == h1,
            session@.handle2 == h2,
            session@.checked == i,
            session@.together == count_together(records@.take(i as int), h2),
            session@.wins == count_wins(records@.take(i as int), h1, h2),
            session@.found == window_details(
                ids.take(i as int),
                records@.take(i as int),
                h1,
                h2,
                config.region,
            ),
        decreases n - i,
    {
        assert(records@.take(i + 1).drop_last() =~= records@.take(i as int));
        assert(ids.take(i + 1).drop_last() =~= ids.take(i as int));
        session.observe(window[i].as_str(), &records[i]);
        i = i + 1;
    }
    assert(records@.take(n as int) =~= records@);
    assert(ids.take(n as int) =~= ids);
    session.finish()
}

/// The number of matches of a window whose lookup gave a record.
pub open spec fn count_available(records: Seq<Option<MatchRecord>>) -> nat
    decreases records.len(),
{
    if records.len() == 0 {
        0
    } else {
        count_available(records.drop_last()) + if records.last() is Some {
            1nat
        } else {
            0nat
        }
    }
}

/// Over any window, the reported wins are among the shared matches, the
/// shared matches are among those that could be looked up, and those are
/// among the matches gone through.
pub proof fn lemma_window_counts(records: Seq<Option<MatchRecord>>, h1: Seq<char>, h2: Seq<char>)
    ensures
        count_wins(records, h1, h2) <= count_together(records, h2),
        count_together(records, h2) <= count_available(records),
        count_available(records) <= records.len(),
    decreases records.len(),
{
    if records.len() > 0 {
        lemma_window_counts(records.drop_last(), h1, h2);
        let last = records.last();
        if won_together(last, h1, h2) {
            let m = last->0;
            lemma_participant_index(m.participants@, h2);
            assert(takes_part(m, h2));
        }
    }
}

/// Over an empty window nothing is counted and nothing is reported.
pub proof fn lemma_empty_window(h1: Seq<char>, h2: Seq<char>, region: Option<UserFacingRegion>)
    ensures
        count_together(Seq::empty(), h2) == 0,
        count_wins(Seq::empty(), h1, h2) == 0,
        window_details(Seq::empty(), Seq::empty(), h1, h2, region) == Seq::<MatchDetailsView>::empty(),
{
}

/// A match that could not be looked up is counted as gone through, and
/// neither as shared nor as reported.
pub proof fn lemma_unavailable_match(s: CorrelationView, match_id: Seq<char>)
    ensures
        s.after(match_id, None).checked == s.checked + 1,
        s.after(match_id, None).together == s.together,
        s.after(match_id, None).wins == s.wins,
        s.after(match_id, None).found == s.found,
{
}

/// A shared match that the first player won adds exactly one win, and is
/// reported with the first player's outcome as a victory.
pub proof fn lemma_shared_victory(s: CorrelationView, match_id: Seq<char>, m: MatchRecord)
    requires
        takes_part(m, s.handle1),
        takes_part(m, s.handle2),
        participant_with(m, s.handle1).win,
    ensures
        s.after(match_id, Some(m)).wins == s.wins + 1,
        s.after(match_id, Some(m)).found.last().player1_details.outcome == VICTORY@,
{
}

/// Going through two windows one after the other counts what each counts, and
/// reports what each reports, in that order.
pub proof fn lemma_window_concat(
    ids_a: Seq<Seq<char>>,
    records_a: Seq<Option<MatchRecord>>,
    ids_b: Seq<Seq<char>>,
    records_b: Seq<Option<MatchRecord>>,
    h1: Seq<char>,
    h2: Seq<char>,
    region: Option<UserFacingRegion>,
)
    requires
        ids_a.len() == records_a.len(),
        ids_b.len() == records_b.len(),
    ensures
        count_available(records_a + records_b) == count_available(records_a) + count_available(
            records_b,
        ),
        count_together(records_a + records_b, h2) == count_together(records_a, h2)
            + count_together(records_b, h2),
        count_wins(records_a + records_b, h1, h2) == count_wins(records_a, h1, h2) + count_wins(
            records_b,
            h1,
            h2,
        ),
        window_details(ids_a + ids_b, records_a + records_b, h1, h2, region) == window_details(
            ids_a,
            records_a,
            h1,
            h2,
            region,
        ) + window_details(ids_b, records_b, h1, h2, region),
    decreases records_b.len(),
{
    if records_b.len() == 0 {
        assert(records_a + records_b =~= records_a);
        assert(ids_a + ids_b =~= ids_a);
        assert(window_details(ids_a, records_a, h1, h2, region) + Seq::<MatchDetailsView>::empty()
            =~= window_details(ids_a, records_a, h1, h2, region));
    } else {
        lemma_window_concat(ids_a, records_a, ids_b.drop_last(), records_b.drop_last(), h1, h2, region);
        assert((records_a + records_b).drop_last() =~= records_a + records_b.drop_last());
        assert((ids_a + ids_b).drop_last() =~= ids_a + ids_b.drop_last());
        assert((records_a + records_b).last() == records_b.last());
        assert((ids_a + ids_b).last() == ids_b.last());
        let wa = window_details(ids_a, records_a, h1, h2, region);
        let wb = window_details(ids_b.drop_last(), records_b.drop_last(), h1, h2, region);
        let d = details_view(ids_b.last(), records_b.last()->0, h1, h2, region);
        assert((wa + wb).push(d) =~= wa + wb.push(d));
    }
}

/// A window of one match.
proof fn lemma_single_match(
    id: Seq<char>,
    record: Option<MatchRecord>,
    h1: Seq<char>,
    h2: Seq<char>,
    region: Option<UserFacingRegion>,
)
    ensures
        count_together(seq![record], h2) == if found_together(record, h2) {
            1nat
        } else {
            0nat
        },
        count_wins(seq![record], h1, h2) == if won_together(record, h1, h2) {
            1nat
        } else {
            0nat
        },
        window_details(seq![id], seq![record], h1, h2, region) == if verdict_of(record, h1, h2)
            == MatchVerdict::PlayedTogether {
            seq![details_view(id, record->0, h1, h2, region)]
        } else {
            Seq::<MatchDetailsView>::empty()
        },
{
    assert(seq![record].drop_last() =~= Seq::<Option<MatchRecord>>::empty());
    assert(seq![id].drop_last() =~= Seq::<Seq<char>>::empty());
    assert(seq![record].last() == record);
    assert(count_together(Seq::<Option<MatchRecord>>::empty(), h2) == 0);
    assert(count_wins(Seq::<Option<MatchRecord>>::empty(), h1, h2) == 0);
    assert(seq![id].last() == id);
    assert(window_details(Seq::<Seq<char>>::empty(), Seq::<Option<MatchRecord>>::empty(), h1, h2, region)
        == Seq::<MatchDetailsView>::empty());
    let e = Seq::<MatchDetailsView>::empty();
    assert(e.push(details_view(id, record->0, h1, h2, region)) =~= seq![
        details_view(id, record->0, h1, h2, region),
    ]);
}

/// Over a whole window: a match whose lookup found nothing, put anywhere in
/// the window, adds one match gone through, and changes neither the counts
/// nor the reported matches.
pub proof fn lemma_unavailable_in_window(
    ids: Seq<Seq<char>>,
    records: Seq<Option<MatchRecord>>,
    k: int,
    match_id: Seq<char>,
    h1: Seq<char>,
    h2: Seq<char>,
    region: Option<UserFacingRegion>,
)
    requires
        ids.len() == records.len(),
        0 <= k <= records.len(),
    ensures
        records.insert(k, None).len() == records.len() + 1,
        count_together(records.insert(k, None), h2) == count_together(records, h2),
        count_wins(records.insert(k, None), h1, h2) == count_wins(records, h1, h2),
        window_details(ids.insert(k, match_id), records.insert(k, None), h1, h2, region)
            == window_details(ids, records, h1, h2, region),
{
    let (ia, ib) = (ids.take(k), ids.skip(k));
    let (ra, rb) = (records.take(k), records.skip(k));
    assert(ids =~= ia + ib);
    assert(records =~= ra + rb);
    assert(ids.insert(k, match_id) =~= (ia + seq![match_id]) + ib);
    assert(records.insert(k, None) =~= (ra + seq![None]) + rb);
    lemma_single_match(match_id, None, h1, h2, region);
    lemma_window_concat(ia, ra, seq![match_id], seq![None], h1, h2, region);
    lemma_window_concat(ia + seq![match_id], ra + seq![None], ib, rb, h1, h2, region);
    lemma_window_concat(ia, ra, ib, rb, h1, h2, region);
    assert(window_details(ia, ra, h1, h2, region) + Seq::<MatchDetailsView>::empty()
        =~= window_details(ia, ra, h1, h2, region));
}

/// Over a whole window: a match that both players took part in and that the
/// first player won, put anywhere in the window, adds exactly one shared match
/// and one win, and is reported in its place with the first player's outcome
/// as a victory.
pub proof fn lemma_shared_victory_in_window(
    ids: Seq<Seq<char>>,
    records: Seq<Option<MatchRecord>>,
    k: int,
    match_id: Seq<char>,
    m: MatchRecord,
    h1: Seq<char>,
    h2: Seq<char>,
    region: Option<UserFacingRegion>,
)
    requires
        ids.len() == records.len(),
        0 <= k <= records.len(),
        takes_part(m, h1),
        takes_part(m, h2),
        participant_with(m, h1).win,
    ensures
        count_together(records.insert(k, Some(m)), h2) == count_together(records, h2) + 1,
        count_wins(records.insert(k, Some(m)), h1, h2) == count_wins(records, h1, h2) + 1,
        window_details(ids, records, h1, h2, region) == window_details(
            ids.take(k),
            records.take(k),
            h1,
            h2,
            region,
        ) + window_details(ids.skip(k), records.skip(k), h1, h2, region),
        window_details(ids.insert(k, match_id), records.insert(k, Some(m)), h1, h2, region)
            == window_details(ids.take(k), records.take(k), h1, h2, region) + seq![
            details_view(match_id, m, h1, h2, region),
        ] + window_details(ids.skip(k), records.skip(k), h1, h2, region),
        details_view(match_id, m, h1, h2, region).player1_details.outcome == VICTORY@,
{
    let (ia, ib) = (ids.take(k), ids.skip(k));
    let (ra, rb) = (records.take(k), records.skip(k));
    assert(ids =~= ia + ib);
    assert(records =~= ra + rb);
    assert(ids.insert(k, match_id) =~= (ia + seq![match_id]) + ib);
    assert(records.insert(k, Some(m)) =~= (ra + seq![Some(m)]) + rb);
    lemma_single_match(match_id, Some(m), h1, h2, region);
    lemma_window_concat(ia, ra, seq![match_id], seq![Some(m)], h1, h2, region);
    lemma_window_concat(ia + seq![match_id], ra + seq![Some(m)], ib, rb, h1, h2, region);
    lemma_window_concat(ia, ra, ib, rb, h1, h2, region);
}

/// The counts do not depend on the order in which the parts of a window are
/// gone through.
pub proof fn lemma_counts_ignore_order(
    records_a: Seq<Option<MatchRecord>>,
    records_b: Seq<Option<MatchRecord>>,
    h1: Seq<char>,
    h2: Seq<char>,
)
    ensures
        (records_a + records_b).len() == (records_b + records_a).len(),
        count_together(records_a + records_b, h2) == count_together(records_b + records_a, h2),
        count_wins(records_a + records_b, h1, h2) == count_wins(records_b + records_a, h1, h2),
{
    let ids_a = Seq::new(records_a.len(), |i: int| Seq::<char>::empty());
    let ids_b = Seq::new(records_b.len(), |i: int| Seq::<char>::empty());
    lemma_window_concat(ids_a, records_a, ids_b, records_b, h1, h2, None);
    lemma_window_concat(ids_b, records_b, ids_a, records_a, h1, h2, None);
}

} // verus!
