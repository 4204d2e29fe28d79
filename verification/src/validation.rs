//! The enumerated sets a new match is validated against, and the roster
//! bounds of each game variant.

use vstd::prelude::*;
use crate::record::{seq_contains_str, find_player, Match, MatchState};
use crate::utils::str_eq;

verus! {

/// The game variants a match may be created with.
pub open spec fn spec_valid_game_type(g: Seq<char>) -> bool {
    g == "soccer"@ || g == "knockout"@
}

/// The stake amounts a match may be created with.
pub open spec fn spec_valid_prize(amount: u32) -> bool {
    amount == 2 || amount == 5 || amount == 10 || amount == 25 || amount == 50
}

/// The roster capacity of a game variant; zero for unknown variants.
pub open spec fn spec_max_players(g: Seq<char>) -> usize {
    if g == "soccer"@ || g == "knockout"@ {
        2usize
    } else {
        0usize
    }
}

/// The roster size at which a match of this variant counts as started.
pub open spec fn spec_min_players(g: Seq<char>) -> usize {
    if g == "soccer"@ || g == "knockout"@ {
        2usize
    } else {
        0usize
    }
}

/// Whether the requested variant is one of the enumerated game types.
pub fn validate_game_type(game: &String) -> (r: bool)
    ensures
        r == spec_valid_game_type(game@),
{
    str_eq(game.as_str(), "soccer") || str_eq(game.as_str(), "knockout")
}

/// Whether the requested stake is one of the enumerated prize amounts.
pub fn validate_prize_amount(amount: &u32) -> (r: bool)
    ensures
        r == spec_valid_prize(*amount),
{
    *amount == 2 || *amount == 5 || *amount == 10 || *amount == 25 || *amount == 50
}

/// The roster capacity of a game variant.
pub fn match_type_to_max_players(match_type: &String) -> (r: usize)
    ensures
        r == spec_max_players(match_type@),
{
    if str_eq(match_type.as_str(), "soccer") {
        2
    } else if str_eq(match_type.as_str(), "knockout") {
        2
    } else {
        0
    }
}

/// The roster size at which a match of this variant counts as started.
pub fn match_type_to_min_players(match_type: &String) -> (r: usize)
    ensures
        r == spec_min_players(match_type@),
{
    if str_eq(match_type.as_str(), "soccer") {
        2
    } else if str_eq(match_type.as_str(), "knockout") {
        2
    } else {
        0
    }
}

/// Whether a join may proceed: the match is still accepting joiners and its
/// roster has room.
pub fn validate_can_join_match(m: &Match) -> (r: bool)
    ensures
        r == (m.state == MatchState::OPEN && m.players@.len() < spec_max_players(
            m.game_type@,
        ) as int),
{
    let max = match_type_to_max_players(&m.game_type);
    m.state == MatchState::OPEN && m.players.len() < max
}

/// Whether the named caller sits in the match's roster.
pub fn validate_user_in_game(username: &String, m: &Match) -> (r: bool)
    ensures
        r == seq_contains_str(m.players@, username@),
{
    find_player(&m.players, username).is_some()
}

/// Whether the match is still short of the roster size at which its game
/// counts as started.
pub fn validate_game_not_started(m: &Match) -> (r: bool)
    ensures
        r == (m.players@.len() != spec_min_players(m.game_type@) as int),
{
    let min = match_type_to_min_players(&m.game_type);
    m.players.len() != min
}

} // verus!
