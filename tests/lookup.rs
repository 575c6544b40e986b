use played_together::config::{select_players, Config, PlayerSelection, RiotIdSerializable};
use played_together::lookup::{recent_window_start, resolve_player, PlayerSlot, QueryError};
use played_together::riot_id::RiotId;
use riven::consts::RegionalRoute;

fn riot_id(name: &str, tag: &str) -> RiotId {
    RiotId { game_name: name.to_string(), tag_line: tag.to_string() }
}

#[test]
fn found_account_gives_its_handle() {
    let r = resolve_player(PlayerSlot::Player1, &riot_id("A", "1"), RegionalRoute::EUROPE, Some("puuid-a".to_string()));
    assert_eq!(r.unwrap(), "puuid-a");
}

#[test]
fn missing_account_names_player_and_route() {
    let r = resolve_player(PlayerSlot::Player2, &riot_id("Ghost", "000"), RegionalRoute::ASIA, None);
    let e = r.unwrap_err();
    match &e {
        QueryError::PlayerNotFound { slot, riot_id, route } => {
            assert_eq!(*slot, PlayerSlot::Player2);
            assert_eq!(riot_id.game_name, "Ghost");
            assert_eq!(*route, RegionalRoute::ASIA);
        }
    }
    assert_eq!(
        e.message(),
        "Error: Player 2 Riot ID 'Ghost#000' not found on regional route 'ASIA'. Please check spelling, tag line, and ensure the account exists and is active in this region."
    );
}

#[test]
fn window_start_is_thirty_days_back() {
    assert_eq!(recent_window_start(1_700_000_000), Some(1_700_000_000 - 2_592_000));
    assert_eq!(recent_window_start(2_592_000), Some(0));
    assert_eq!(recent_window_start(1000), None);
    assert_eq!(recent_window_start(u64::MAX), None);
}

#[test]
fn no_riot_id_means_no_query() {
    assert!(matches!(select_players(vec![], None), PlayerSelection::NoQuery));
}

#[test]
fn one_riot_id_needs_the_stored_one() {
    assert!(matches!(select_players(vec![riot_id("B", "2")], None), PlayerSelection::MissingSelf));
    match select_players(vec![riot_id("B", "2")], Some(riot_id("Me", "1"))) {
        PlayerSelection::Pair { player1, player2 } => {
            assert_eq!(player1.game_name, "Me");
            assert_eq!(player2.game_name, "B");
        }
        other => panic!("unexpected {:?}", other),
    }
}

#[test]
fn two_riot_ids_keep_their_order() {
    match select_players(vec![riot_id("A", "1"), riot_id("B", "2")], Some(riot_id("Me", "1"))) {
        PlayerSelection::Pair { player1, player2 } => {
            assert_eq!(player1.game_name, "A");
            assert_eq!(player2.game_name, "B");
        }
        other => panic!("unexpected {:?}", other),
    }
    assert!(matches!(
        select_players(vec![riot_id("A", "1"), riot_id("B", "2"), riot_id("C", "3")], None),
        PlayerSelection::TooMany
    ));
}

#[test]
fn stored_riot_id_converts_both_ways() {
    let s = RiotIdSerializable::from(riot_id("Me", "EUW"));
    assert_eq!(s.game_name, "Me");
    assert_eq!(s.tag_line, "EUW");
    let back = RiotId::from(s);
    assert_eq!(back.to_string(), "Me#EUW");
}

#[test]
fn default_config_is_empty() {
    let c = Config::default();
    assert!(c.self_riot_id.is_none());
    assert!(c.api_key.is_none());
}
