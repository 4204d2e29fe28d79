//! Roster sizes per game variant.

use vstd::prelude::*;
use crate::utils::str_eq;
use crate::validation::spec_max_players;

verus! {

/// How many players a match of the given variant holds once full; unknown
/// variants hold nobody.
pub fn get_max_players_for_game(game_type: &String) -> (r: usize)
    ensures
        r == spec_max_players(game_type@),
{
    if str_eq(game_type.as_str(), "soccer") {
        2
    } else if str_eq(game_type.as_str(), "knockout") {
        2
    } else {
        0
    }
}

} // verus!
