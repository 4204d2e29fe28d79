//! The record of one match: its roster, readiness flags, lifecycle state,
//! stake, and reserved port, together with its broadcast slot.

use vstd::prelude::*;
use crate::channel::{snap_equiv, chan_equiv, Broadcaster, StateSnapshot};
use crate::utils::str_eq;
use crate::validation::{spec_max_players, spec_valid_game_type, spec_valid_prize};

verus! {

/// The lifecycle of a match: accepting joiners, awaiting readiness of a
/// full roster, then handed off for play. The state never regresses.
#[allow(non_camel_case_types)]
#[derive(Clone, Copy, Debug, PartialEq, Eq, Structural)]
pub enum MatchState {
    OPEN,
    READYING,
    PLAYING,
}

/// Whether the sequence holds a string whose characters are `x`.
pub open spec fn seq_contains_str(s: Seq<String>, x: Seq<char>) -> bool {
    exists|i: int| 0 <= i < s.len() && s[i]@ == x
}

/// The position of the string whose characters are `x`; meaningful only
/// where `seq_contains_str` holds and the entries are distinct.
pub open spec fn str_index_of(s: Seq<String>, x: Seq<char>) -> int {
    choose|i: int| 0 <= i < s.len() && s[i]@ == x
}

/// No two entries hold the same characters.
pub open spec fn distinct_strs(s: Seq<String>) -> bool {
    forall|i: int, j: int| 0 <= i < j < s.len() ==> s[i]@ != s[j]@
}

/// Finds the first entry equal to `name`.
pub fn find_player(players: &Vec<String>, name: &String) -> (r: Option<usize>)
    ensures
        match r {
            Some(i) => {
                &&& i < players@.len()
                &&& players@[i as int]@ == name@
                &&& forall|j: int| 0 <= j < i ==> players@[j]@ != name@
            },
            None => !seq_contains_str(players@, name@),
        },
{
    let mut i: usize = 0;
    while i < players.len()
        invariant
            i <= players@.len(),
            forall|j: int| 0 <= j < i ==> players@[j]@ != name@,
        decreases players@.len() - i,
    {
        if str_eq(players[i].as_str(), name.as_str()) {
            return Some(i);
        }
        i += 1;
    }
    None
}

/// Copies a vector of strings, keeping every entry equal.
pub fn clone_strings(v: &Vec<String>) -> (r: Vec<String>)
    ensures
        r@ == v@,
{
    let mut r: Vec<String> = Vec::new();
    let mut i: usize = 0;
    while i < v.len()
        invariant
            i <= v@.len(),
            r@ == v@.subrange(0, i as int),
        decreases v@.len() - i,
    {
        r.push(v[i].clone());
        proof {
            assert(r@ =~= v@.subrange(0, i + 1));
        }
        i += 1;
    }
    proof {
        assert(r@ =~= v@);
    }
    r
}

/// Copies a vector of booleans.
pub fn clone_bools(v: &Vec<bool>) -> (r: Vec<bool>)
    ensures
        r@ == v@,
{
    let mut r: Vec<bool> = Vec::new();
    let mut i: usize = 0;
    while i < v.len()
        invariant
            i <= v@.len(),
            r@ == v@.subrange(0, i as int),
        decreases v@.len() - i,
    {
        r.push(v[i]);
        proof {
            assert(r@ =~= v@.subrange(0, i + 1));
        }
        i += 1;
    }
    proof {
        assert(r@ =~= v@);
    }
    r
}

/// The state of one match. The roster, its session credentials, and its
/// readiness flags are parallel sequences; index 0 is player one.
pub struct Match {
    pub id: u32,
    pub players: Vec<String>,
    pub player_tokens: Vec<String>,
    pub ready: Vec<bool>,
    pub prize: u32,
    pub game_type: String,
    pub expiry_time: u64,
    pub port: u32,
    pub state: MatchState,
    pub state_channel: Broadcaster,
}

/// Field-wise agreement of two match records, the broadcast slot included.
pub open spec fn match_equiv(a: Match, b: Match) -> bool {
    &&& a.id == b.id
    &&& a.players@ == b.players@
    &&& a.player_tokens@ == b.player_tokens@
    &&& a.ready@ == b.ready@
    &&& a.prize == b.prize
    &&& a.game_type@ == b.game_type@
    &&& a.expiry_time == b.expiry_time
    &&& a.port == b.port
    &&& a.state == b.state
    &&& chan_equiv(a.state_channel, b.state_channel)
}

impl Match {
    /// Well-formedness: the three parallel sequences agree in length, the
    /// roster is never empty nor over capacity, no player appears twice,
    /// and the variant and stake come from the enumerated sets.
    pub open spec fn wf(&self) -> bool {
        &&& self.players@.len() == self.ready@.len()
        &&& self.players@.len() == self.player_tokens@.len()
        &&& 1 <= self.players@.len()
        &&& self.players@.len() <= spec_max_players(self.game_type@)
        &&& distinct_strs(self.players@)
        &&& spec_valid_game_type(self.game_type@)
        &&& spec_valid_prize(self.prize)
    }

    /// Whether `name` sits in the roster.
    pub open spec fn has_player(&self, name: Seq<char>) -> bool {
        seq_contains_str(self.players@, name)
    }

    /// A point-in-time copy of the whole record.
    pub fn snapshot(&self) -> (r: Match)
        ensures
            match_equiv(r, *self),
    {
        Match {
            id: self.id,
            players: clone_strings(&self.players),
            player_tokens: clone_strings(&self.player_tokens),
            ready: clone_bools(&self.ready),
            prize: self.prize,
            game_type: self.game_type.clone(),
            expiry_time: self.expiry_time,
            port: self.port,
            state: self.state,
            state_channel: Broadcaster {
                latest: StateSnapshot {
                    state: self.state_channel.latest.state,
                    ready: clone_bools(&self.state_channel.latest.ready),
                    players: clone_strings(&self.state_channel.latest.players),
                    port: self.state_channel.latest.port,
                },
                version: self.state_channel.version,
                receivers: self.state_channel.receivers,
            },
        }
    }

    /// The tuple this record publishes: its current state, readiness flags,
    /// roster, and port.
    pub fn current_snapshot(&self) -> (r: StateSnapshot)
        ensures
            r.state == self.state,
            r.ready@ == self.ready@,
            r.players@ == self.players@,
            r.port == self.port,
    {
        StateSnapshot {
            state: self.state,
            ready: clone_bools(&self.ready),
            players: clone_strings(&self.players),
            port: self.port,
        }
    }
}

} // verus!
