//! Detection of a known game among the running processes.
//!
//! A stateless query: it has no part in the state machine. The caller reads
//! the process list and hands over the names.

use crate::text::{chars_of, contains, find, texts};
use vstd::prelude::*;

verus! {

/// The catalogue of known games: fragments of executable names, in lower case.
pub open spec fn known_games() -> Seq<Seq<char>> {
    seq![
        "valorant"@,
        "valorant-win64-shipping"@,
        "leagueclient"@,
        "league of legends"@,
        "csgo"@,
        "cs2"@,
        "gta5"@,
        "gtav"@,
        "cyberpunk2077"@,
        "fortnite"@,
        "minecraft"@,
        "rocketleague"@,
        "overwatch"@,
        "apex_legends"@,
        "pubg"@,
        "dota2"@,
    ]
}

/// The lower-case form of a text, as `str::to_lowercase` gives it.
pub uninterp spec fn lowercase(text: Seq<char>) -> Seq<char>;

/// Whether a name in lower case holds an entry of the catalogue.
pub open spec fn names_known_game(lowered: Seq<char>) -> bool {
    exists|k: int| 0 <= k < known_games().len() && contains(lowered, #[trigger] known_games()[k])
}

/// A process name is that of a known game where its lower-case form holds an
/// entry of the catalogue.
pub open spec fn is_game_process(name: Seq<char>) -> bool {
    names_known_game(lowercase(name))
}

/// Puts a name in lower case with `str::to_lowercase`, which follows
/// Unicode's rules for every character.
#[verifier::external_body]
fn to_lowercase(name: &str) -> (lowered: String)
    ensures
        lowered@ == lowercase(name@),
{
    name.to_lowercase()
}

/// The catalogue of known games.
pub fn catalogue() -> (games: Vec<Vec<char>>)
    ensures
        texts(games@) == known_games(),
{
    let mut games: Vec<Vec<char>> = Vec::new();
    games.push(chars_of("valorant"));
    games.push(chars_of("valorant-win64-shipping"));
    games.push(chars_of("leagueclient"));
    games.push(chars_of("league of legends"));
    games.push(chars_of("csgo"));
    games.push(chars_of("cs2"));
    games.push(chars_of("gta5"));
    games.push(chars_of("gtav"));
    games.push(chars_of("cyberpunk2077"));
    games.push(chars_of("fortnite"));
    games.push(chars_of("minecraft"));
    games.push(chars_of("rocketleague"));
    games.push(chars_of("overwatch"));
    games.push(chars_of("apex_legends"));
    games.push(chars_of("pubg"));
    games.push(chars_of("dota2"));
    assert(texts(games@) =~= known_games());
    games
}

/// Whether a name that is in lower case already holds an entry of the
/// catalogue.
pub fn is_known_game(lowered: &str) -> (known: bool)
    ensures
        known == names_known_game(lowered@),
{
    let games = catalogue();
    let name = chars_of(lowered);
    let mut k: usize = 0;
    while k < games.len()
        invariant
            k <= games.len(),
            texts(games@) == known_games(),
            name@ == lowered@,
            forall|j: int| 0 <= j < k ==> !contains(lowered@, #[trigger] known_games()[j]),
        decreases games.len() - k,
    {
        assert(texts(games@)[k as int] == games@[k as int]@);
        if find(&name, &games[k]) {
            return true;
        }
        k += 1;
    }
    assert(texts(games@).len() == games.len());
    false
}

/// The first of the process names that is a known game's, in lower case;
/// `None` where none is.
pub fn detect_running_game(process_names: &Vec<String>) -> (game: Option<String>)
    ensures
        match game {
            Some(name) => exists|i: int|
                0 <= i < process_names.len() && name@ == lowercase(#[trigger] process_names[i]@)
                    && is_game_process(process_names[i]@) && forall|j: int|
                    0 <= j < i ==> !is_game_process(#[trigger] process_names[j]@),
            None => forall|i: int|
                0 <= i < process_names.len() ==> !is_game_process(#[trigger] process_names[i]@),
        },
{
    let mut i: usize = 0;
    while i < process_names.len()
        invariant
            i <= process_names.len(),
            forall|j: int| 0 <= j < i ==> !is_game_process(#[trigger] process_names[j]@),
        decreases process_names.len() - i,
    {
        let lowered = to_lowercase(process_names[i].as_str());
        if is_known_game(lowered.as_str()) {
            return Some(lowered);
        }
        i += 1;
    }
    None
}

} // verus!
