use played_together::riot_id::{RiotId, INVALID_RIOT_ID};

#[test]
fn parse_splits_name_and_tag() {
    let id = RiotId::parse("MainingYourMom#4444").unwrap();
    assert_eq!(id.game_name, "MainingYourMom");
    assert_eq!(id.tag_line, "4444");
}

#[test]
fn parse_then_format_gives_the_same_text() {
    for text in ["MainingYourMom#4444", "Piciúr#ontop", "a b#EUW", "x#y"] {
        let id = RiotId::parse(text).unwrap();
        assert_eq!(id.to_string(), text);
    }
}

#[test]
fn parse_refuses_text_without_separator() {
    assert_eq!(RiotId::parse("NoTagHere").unwrap_err(), INVALID_RIOT_ID);
    assert_eq!(RiotId::parse("").unwrap_err(), INVALID_RIOT_ID);
}

#[test]
fn parse_refuses_text_with_two_separators() {
    assert_eq!(RiotId::parse("a#b#c").unwrap_err(), INVALID_RIOT_ID);
    assert_eq!(RiotId::parse("##").unwrap_err(), INVALID_RIOT_ID);
}

#[test]
fn parse_refuses_an_empty_name_or_tag() {
    assert_eq!(RiotId::parse("#").unwrap_err(), INVALID_RIOT_ID);
    assert_eq!(RiotId::parse("name#").unwrap_err(), INVALID_RIOT_ID);
    assert_eq!(RiotId::parse("#tag").unwrap_err(), INVALID_RIOT_ID);
    assert_eq!(RiotId::parse("#4444").unwrap_err(), INVALID_RIOT_ID);
}

#[test]
fn from_str_matches_parse() {
    let id: RiotId = "Faker#KR1".parse().unwrap();
    assert_eq!(id.game_name, "Faker");
    assert_eq!(id.tag_line, "KR1");
    assert!("Faker".parse::<RiotId>().is_err());
}

#[test]
fn format_joins_with_separator() {
    let id = RiotId { game_name: "Name".to_string(), tag_line: "Tag".to_string() };
    assert_eq!(id.to_string(), "Name#Tag");
}
