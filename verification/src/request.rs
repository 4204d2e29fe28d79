//! The request shapes the transport layer hands to the registry.

use vstd::prelude::*;

verus! {

/// The body of a create request: the stake and the game variant.
pub struct MatchRequest {
    pub prize: u32,
    pub game_type: String,
}

/// The query naming an existing match.
pub struct JoinQuery {
    pub id: u64,
}

/// The match identifier a query names, if it fits the 32-bit identifier
/// space; a query outside it can name no match.
pub fn query_match_id(query: &JoinQuery) -> (r: Option<u32>)
    ensures
        match r {
            Some(id) => query.id == id as u64,
            None => query.id > u32::MAX as u64,
        },
{
    if query.id <= u32::MAX as u64 {
        Some(query.id as u32)
    } else {
        None
    }
}

} // verus!
