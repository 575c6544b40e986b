use played_together::engine::{
    correlate, game_date_label, league_of_graphs_link, outcome_text, Correlation, MatchRecord,
    MatchVerdict, ParticipantRecord, QueryConfig,
};
use played_together::region::UserFacingRegion;
use played_together::riot_id::RiotId;
use riven::consts::RegionalRoute;

fn riot_id(name: &str, tag: &str) -> RiotId {
    RiotId { game_name: name.to_string(), tag_line: tag.to_string() }
}

fn config(region: Option<UserFacingRegion>) -> QueryConfig {
    QueryConfig {
        player1: riot_id("One", "111"),
        player2: riot_id("Two", "222"),
        route: RegionalRoute::EUROPE,
        region,
        number_of_matches: None,
        verbose: false,
        silent: false,
        json_output: true,
    }
}

fn participant(puuid: &str, champion: &str, win: bool) -> ParticipantRecord {
    ParticipantRecord {
        puuid: puuid.to_string(),
        champion_name: champion.to_string(),
        team_position: "MIDDLE".to_string(),
        kills: 5,
        deaths: 2,
        assists: 7,
        win,
    }
}

fn record(participants: Vec<ParticipantRecord>) -> MatchRecord {
    MatchRecord {
        game_start_timestamp: 0,
        game_mode: "CLASSIC".to_string(),
        game_type: Some("MATCHED_GAME".to_string()),
        participants,
    }
}

fn ids(list: &[&str]) -> Vec<String> {
    list.iter().map(|s| s.to_string()).collect()
}

#[test]
fn link_strips_the_region_prefix() {
    assert_eq!(
        league_of_graphs_link("EUW1_12345", Some(UserFacingRegion::EUW)).unwrap(),
        "https://www.leagueofgraphs.com/match/euw/12345"
    );
}

#[test]
fn link_uses_the_default_code_without_a_region() {
    assert_eq!(
        league_of_graphs_link("EUN1_987", None).unwrap(),
        "https://www.leagueofgraphs.com/match/eune/987"
    );
}

#[test]
fn link_splits_at_the_first_separator() {
    assert_eq!(
        league_of_graphs_link("NA1_12_34", Some(UserFacingRegion::NA)).unwrap(),
        "https://www.leagueofgraphs.com/match/na/12_34"
    );
}

#[test]
fn link_is_omitted_without_a_separator() {
    assert_eq!(league_of_graphs_link("12345", Some(UserFacingRegion::EUW)), None);
}

#[test]
fn date_label_falls_back_to_unknown() {
    assert_eq!(game_date_label(None), "Unknown Date");
    assert_eq!(game_date_label(Some("2024-01-01 00:00:00 UTC".to_string())), "2024-01-01 00:00:00 UTC");
}

#[test]
fn outcome_labels() {
    assert_eq!(outcome_text(true), "Victory");
    assert_eq!(outcome_text(false), "Defeat");
}

#[test]
fn empty_window_counts_nothing() {
    let out = correlate(&config(None), "p1".to_string(), "p2".to_string(), &Vec::new(), &Vec::new());
    let s = &out.query_summary;
    assert_eq!(s.checked_matches_count, 0);
    assert_eq!(s.matches_played_together_count, 0);
    assert_eq!(s.player1_wins_together_count, 0);
    assert!(out.found_matches.is_empty());
    assert!(s.player1_puuid_found && s.player2_puuid_found);
    assert_eq!(s.regional_route, "EUROPE");
    assert_eq!(s.player1.game_name, "One");
    assert_eq!(s.player2.tag_line, "222");
}

#[test]
fn shared_victory_is_reported() {
    let m = record(vec![
        participant("x", "Annie", false),
        participant("p1", "Ahri", true),
        participant("p2", "Lux", true),
    ]);
    let out = correlate(
        &config(Some(UserFacingRegion::EUW)),
        "p1".to_string(),
        "p2".to_string(),
        &ids(&["EUW1_12345"]),
        &vec![Some(m)],
    );
    assert_eq!(out.query_summary.checked_matches_count, 1);
    assert_eq!(out.query_summary.matches_played_together_count, 1);
    assert_eq!(out.query_summary.player1_wins_together_count, 1);
    assert_eq!(out.found_matches.len(), 1);
    let d = &out.found_matches[0];
    assert_eq!(d.match_id, "EUW1_12345");
    assert_eq!(d.game_date_utc, "1970-01-01 00:00:00 UTC");
    assert_eq!(d.game_mode, "CLASSIC");
    assert_eq!(d.game_type.as_deref(), Some("MATCHED_GAME"));
    assert_eq!(d.league_of_graphs_link.as_deref(), Some("https://www.leagueofgraphs.com/match/euw/12345"));
    assert_eq!(d.player1_details.champion, "Ahri");
    assert_eq!(d.player1_details.outcome, "Victory");
    assert_eq!(d.player2_details.champion, "Lux");
    assert_eq!(d.player2_details.outcome, "Victory");
    assert_eq!(d.player1_details.role, "MIDDLE");
    assert_eq!((d.player1_details.kills, d.player1_details.deaths, d.player1_details.assists), (5, 2, 7));
}

#[test]
fn shared_defeat_counts_no_win() {
    let m = record(vec![participant("p1", "Ahri", false), participant("p2", "Lux", true)]);
    let out = correlate(&config(None), "p1".to_string(), "p2".to_string(), &ids(&["KR_1"]), &vec![Some(m)]);
    assert_eq!(out.query_summary.matches_played_together_count, 1);
    assert_eq!(out.query_summary.player1_wins_together_count, 0);
    assert_eq!(out.found_matches[0].player1_details.outcome, "Defeat");
    assert_eq!(out.found_matches[0].player2_details.outcome, "Victory");
    assert_eq!(out.found_matches[0].league_of_graphs_link.as_deref(), Some("https://www.leagueofgraphs.com/match/eune/1"));
}

#[test]
fn unavailable_match_is_checked_but_not_reported() {
    let m = record(vec![participant("p1", "Ahri", true), participant("p2", "Lux", true)]);
    let out = correlate(
        &config(None),
        "p1".to_string(),
        "p2".to_string(),
        &ids(&["EUW1_1", "EUW1_2"]),
        &vec![None, Some(m)],
    );
    assert_eq!(out.query_summary.checked_matches_count, 2);
    assert_eq!(out.query_summary.matches_played_together_count, 1);
    assert_eq!(out.found_matches.len(), 1);
    assert_eq!(out.found_matches[0].match_id, "EUW1_2");
}

#[test]
fn window_counts_follow_the_records() {
    let together_won = record(vec![participant("p1", "A", true), participant("p2", "B", true)]);
    let together_lost = record(vec![participant("p2", "B", false), participant("p1", "A", false)]);
    let apart = record(vec![participant("p1", "A", true), participant("zz", "C", false)]);
    let incomplete = record(vec![participant("p2", "B", true), participant("zz", "C", true)]);
    let window = ids(&["EUW1_5", "EUW1_4", "EUW1_3", "EUW1_2", "EUW1_1"]);
    let records = vec![Some(together_won), None, Some(apart), Some(incomplete), Some(together_lost)];
    let out = correlate(&config(Some(UserFacingRegion::EUW)), "p1".to_string(), "p2".to_string(), &window, &records);
    let s = &out.query_summary;
    assert_eq!(s.checked_matches_count, 5);
    assert_eq!(s.matches_played_together_count, 3);
    assert_eq!(s.player1_wins_together_count, 1);
    let reported: Vec<&str> = out.found_matches.iter().map(|d| d.match_id.as_str()).collect();
    assert_eq!(reported, vec!["EUW1_5", "EUW1_1"]);
    assert!(s.player1_wins_together_count <= s.matches_played_together_count);
    assert!(s.matches_played_together_count <= s.checked_matches_count);
}

#[test]
fn reversed_window_gives_the_same_counts() {
    let make = || {
        vec![
            Some(record(vec![participant("p1", "A", true), participant("p2", "B", true)])),
            None,
            Some(record(vec![participant("p1", "A", false), participant("p2", "B", false)])),
            Some(record(vec![participant("p1", "A", true)])),
        ]
    };
    let window = ids(&["EUW1_4", "EUW1_3", "EUW1_2", "EUW1_1"]);
    let forward = correlate(&config(None), "p1".to_string(), "p2".to_string(), &window, &make());
    let mut back_ids = window.clone();
    back_ids.reverse();
    let mut back_records = make();
    back_records.reverse();
    let backward = correlate(&config(None), "p1".to_string(), "p2".to_string(), &back_ids, &back_records);
    let (f, b) = (&forward.query_summary, &backward.query_summary);
    assert_eq!(f.checked_matches_count, b.checked_matches_count);
    assert_eq!(f.matches_played_together_count, 2);
    assert_eq!(b.matches_played_together_count, 2);
    assert_eq!(f.player1_wins_together_count, 1);
    assert_eq!(b.player1_wins_together_count, 1);
}

#[test]
fn session_reports_each_verdict() {
    let cfg = config(None);
    let mut session = Correlation::new(&cfg, "p1".to_string(), "p2".to_string());
    assert_eq!(session.observe("EUW1_1", &None), MatchVerdict::Unavailable);
    let apart = record(vec![participant("p1", "A", true)]);
    assert_eq!(session.observe("EUW1_2", &Some(apart)), MatchVerdict::PlayedApart);
    let incomplete = record(vec![participant("p2", "B", true)]);
    assert_eq!(session.observe("EUW1_3", &Some(incomplete)), MatchVerdict::IncompleteParticipants);
    let together = record(vec![participant("p2", "B", true), participant("p1", "A", true)]);
    assert_eq!(session.observe("EUW1_4", &Some(together)), MatchVerdict::PlayedTogether);
    let out = session.finish();
    assert_eq!(out.query_summary.checked_matches_count, 4);
    assert_eq!(out.query_summary.matches_played_together_count, 2);
    assert_eq!(out.query_summary.player1_wins_together_count, 1);
    assert_eq!(out.found_matches.len(), 1);
    assert_eq!(out.found_matches[0].match_id, "EUW1_4");
}

#[test]
fn first_record_of_a_handle_is_used() {
    let m = record(vec![
        participant("p1", "First", true),
        participant("p2", "Lux", false),
        participant("p1", "Second", false),
    ]);
    let out = correlate(&config(None), "p1".to_string(), "p2".to_string(), &ids(&["EUW1_7"]), &vec![Some(m)]);
    assert_eq!(out.found_matches[0].player1_details.champion, "First");
    assert_eq!(out.query_summary.player1_wins_together_count, 1);
}

#[test]
fn dates_are_formatted_in_utc() {
    let mut m = record(vec![participant("p1", "A", true), participant("p2", "B", true)]);
    m.game_start_timestamp = 1_700_000_000_123;
    let out = correlate(&config(None), "p1".to_string(), "p2".to_string(), &ids(&["EUW1_9"]), &vec![Some(m)]);
    assert_eq!(out.found_matches[0].game_date_utc, "2023-11-14 22:13:20 UTC");
}

#[test]
fn out_of_range_date_is_unknown() {
    let mut m = record(vec![participant("p1", "A", true), participant("p2", "B", true)]);
    m.game_start_timestamp = i64::MAX;
    let out = correlate(&config(None), "p1".to_string(), "p2".to_string(), &ids(&["EUW1_9"]), &vec![Some(m)]);
    assert_eq!(out.found_matches[0].game_date_utc, "Unknown Date");
}

#[test]
fn match_count_defaults_to_one_hundred() {
    let mut cfg = config(None);
    assert_eq!(cfg.match_count(), 100);
    cfg.number_of_matches = Some(20);
    assert_eq!(cfg.match_count(), 20);
}
