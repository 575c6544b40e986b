//! Riot IDs: a player's name and tag line, written `GameName#TagLine`.

use crate::text::{find_char, first_index_of, lemma_first_index_of};
use vstd::prelude::*;

verus! {

/// A player's public identity.
#[derive(Debug, Clone)]
pub struct RiotId {
    pub game_name: String,
    pub tag_line: String,
}

/// The error given for text that is not a Riot ID.
pub const INVALID_RIOT_ID: &'static str = "Invalid Riot ID format. Expected 'GameName#TagLine'";

/// How a name and a tag line are written together.
pub open spec fn riot_id_text(game_name: Seq<char>, tag_line: Seq<char>) -> Seq<char> {
    game_name + seq!['#'] + tag_line
}

/// The name and the tag line that `s` holds, where `s` has exactly one `#`
/// and neither side of it is empty.
pub open spec fn riot_id_parts(s: Seq<char>) -> Option<(Seq<char>, Seq<char>)> {
    match first_index_of(s, '#') {
        Some(i) => if i > 0 && i + 1 < s.len() && first_index_of(s.skip(i + 1), '#') is None {
            Some((s.take(i), s.skip(i + 1)))
        } else {
            None
        },
        None => None,
    }
}

impl RiotId {
    /// Reads `GameName#TagLine`; text with no `#`, with more than one, or with
    /// an empty name or tag line, is refused.
    pub fn parse(s: &str) -> (r: Result<RiotId, &'static str>)
        ensures
            match r {
                Ok(id) => riot_id_parts(s@) == Some((id.game_name@, id.tag_line@)),
                Err(e) => riot_id_parts(s@) is None && e@ == INVALID_RIOT_ID@,
            },
    {
        let n = s.unicode_len();
        match find_char(s, '#') {
            None => Err(INVALID_RIOT_ID),
            Some(i) => {
                proof {
                    lemma_first_index_of(s@, '#');
                }
                if i == 0 || i + 1 == n {
                    return Err(INVALID_RIOT_ID);
                }
                let rest = s.substring_char(i + 1, n);
                match find_char(rest, '#') {
                    Some(_) => Err(INVALID_RIOT_ID),
                    None => {
                        let name = s.substring_char(0, i);
                        assert(name@ =~= s@.take(i as int));
                        assert(rest@ =~= s@.skip(i + 1));
                        Ok(RiotId { game_name: String::from_str(name), tag_line: String::from_str(rest) })
                    },
                }
            },
        }
    }

    /// The identity written as `GameName#TagLine`.
    pub fn to_string(&self) -> (r: String)
        ensures
            r@ == riot_id_text(self.game_name@, self.tag_line@),
    {
        proof {
            reveal_strlit("#");
        }
        let r = self.game_name.clone().concat("#").concat(self.tag_line.as_str());
        assert(r@ =~= riot_id_text(self.game_name@, self.tag_line@));
        r
    }
}

impl std::str::FromStr for RiotId {
    type Err = &'static str;

    fn from_str(s: &str) -> Result<Self, Self::Err> {
        RiotId::parse(s)
    }
}

/// Writing back what was read from a Riot ID gives the text that was read.
pub proof fn lemma_parse_then_format(s: Seq<char>)
    requires
        riot_id_parts(s) is Some,
    ensures
        riot_id_parts(s) matches Some((name, tag)) && riot_id_text(name, tag) == s,
{
    lemma_first_index_of(s, '#');
    let i = first_index_of(s, '#')->0;
    assert(s.take(i) + seq!['#'] + s.skip(i + 1) =~= s);
}

/// Reading back a written name and tag line that hold no `#` gives them back.
pub proof fn lemma_format_then_parse(game_name: Seq<char>, tag_line: Seq<char>)
    requires
        game_name.len() > 0,
        tag_line.len() > 0,
        !game_name.contains('#'),
        !tag_line.contains('#'),
    ensures
        riot_id_parts(riot_id_text(game_name, tag_line)) == Some((game_name, tag_line)),
{
    let s = riot_id_text(game_name, tag_line);
    let k = game_name.len() as int;
    assert(s[k] == '#');
    assert forall|j: int| 0 <= j < k implies s[j] != '#' by {
        assert(s[j] == game_name[j]);
    }
    lemma_first_index_of(s, '#');
    assert(s.skip(k + 1) =~= tag_line);
    assert(s.take(k) =~= game_name);
    lemma_first_index_of(tag_line, '#');
    if first_index_of(tag_line, '#') is Some {
        let i = first_index_of(tag_line, '#')->0;
        assert(tag_line.contains('#')) by {
            assert(tag_line[i] == '#');
        }
    }
}

} // verus!
