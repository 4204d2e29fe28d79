//! The concurrent match registry's core: the identifier-to-record mapping,
//! the lifecycle operations on it, and the hand-off decision when a match
//! becomes playable. The transport layer owns one `Registry` behind its
//! lock and calls one operation per request; operations on the same
//! registry value are thereby linearized, which is what the contracts
//! below describe.

use vstd::prelude::*;
use crate::channel::{Broadcaster, StateSnapshot, Subscription, snap_equiv};
use crate::error::{
    CannotBroadcastError, CannotJoinMatchError, IdGenerationError, InvalidInputError, MatchError,
    NoAvailablePorts, NotFoundError,
};
use crate::info::get_max_players_for_game;
use crate::record::{
    clone_bools, clone_strings, distinct_strs, find_player, match_equiv, seq_contains_str,
    str_index_of, Match, MatchState,
};
use crate::request::MatchRequest;
use crate::runner::LaunchParams;
use crate::user::User;
use crate::utils::NumberPool;
use crate::validation::{
    spec_max_players, spec_min_players, spec_valid_game_type, spec_valid_prize,
    validate_can_join_match, validate_game_not_started, validate_game_type, validate_prize_amount,
    validate_user_in_game,
};

verus! {

/// How long a newly created match stays fresh before an external sweeper
/// may treat it as stale.
pub const GAME_EXPIRY_TIME_SECS: u64 = 60 * 20;

/// How many random identifier draws a create attempts before giving up.
pub const MAX_ID_ATTEMPTS: u32 = 16;

/// No two records carry the same identifier.
pub open spec fn ids_unique(s: Seq<Match>) -> bool {
    forall|i: int, j: int| 0 <= i < j < s.len() ==> s[i].id != s[j].id
}

/// Whether some record carries the identifier.
pub open spec fn spec_has_id(s: Seq<Match>, id: u32) -> bool {
    exists|i: int| 0 <= i < s.len() && s[i].id == id
}

/// The position of the record carrying the identifier; meaningful only
/// where `spec_has_id` holds and identifiers are unique.
pub open spec fn spec_id_index(s: Seq<Match>, id: u32) -> int {
    choose|i: int| 0 <= i < s.len() && s[i].id == id
}

/// With unique identifiers, any position holding `id` is the position
/// `spec_id_index` names.
pub proof fn lemma_id_index(s: Seq<Match>, id: u32, i: int)
    requires
        ids_unique(s),
        0 <= i < s.len(),
        s[i].id == id,
    ensures
        spec_has_id(s, id),
        spec_id_index(s, id) == i,
{
    assert(spec_has_id(s, id));
    let j = spec_id_index(s, id);
    if j < i {
        assert(s[j].id != s[i].id);
    } else if i < j {
        assert(s[i].id != s[j].id);
    }
}

/// With distinct entries, any position holding `x` is the position
/// `str_index_of` names.
pub proof fn lemma_str_index(s: Seq<String>, x: Seq<char>, i: int)
    requires
        distinct_strs(s),
        0 <= i < s.len(),
        s[i]@ == x,
    ensures
        seq_contains_str(s, x),
        str_index_of(s, x) == i,
{
    assert(seq_contains_str(s, x));
    let j = str_index_of(s, x);
    if j < i {
        assert(s[j]@ != s[i]@);
    } else if i < j {
        assert(s[i]@ != s[j]@);
    }
}

/// The in-memory match registry: every live record, and the pool of ports
/// not currently reserved by any of them.
pub struct Registry {
    pub matches: Vec<Match>,
    pub port_pool: NumberPool,
}

impl Registry {
    /// Well-formedness: every record is well formed, identifiers are
    /// unique, and every port sits in exactly one place — reserved by one
    /// match, or available in the pool.
    pub open spec fn wf(&self) -> bool {
        &&& ids_unique(self.matches@)
        &&& forall|i: int| 0 <= i < self.matches@.len() ==> (#[trigger] self.matches@[i]).wf()
        &&& forall|i: int, j: int|
            0 <= i < j < self.matches@.len() ==> self.matches@[i].port != self.matches@[j].port
        &&& self.port_pool.wf()
        &&& forall|i: int, k: int|
            0 <= i < self.matches@.len() && 0 <= k < self.port_pool.available@.len()
                ==> self.matches@[i].port != self.port_pool.available@[k]
    }

    /// An empty registry whose pool holds every port of `[low, high)`.
    pub fn new(low_port: u32, high_port: u32) -> (r: Registry)
        ensures
            r.wf(),
            r.matches@.len() == 0,
            r.port_pool.available@.len() == if low_port <= high_port {
                (high_port - low_port) as int
            } else {
                0
            },
            forall|k: int|
                0 <= k < r.port_pool.available@.len()
                    ==> r.port_pool.available@[k] == low_port + k,
    {
        Registry {
            matches: Vec::new(),
            port_pool: NumberPool::new(std::ops::Range { start: low_port, end: high_port }),
        }
    }

    /// Finds the position of the record carrying `id`.
    fn find_index(&self, id: u32) -> (r: Option<usize>)
        ensures
            match r {
                Some(i) => i < self.matches@.len() && self.matches@[i as int].id == id,
                None => !spec_has_id(self.matches@, id),
            },
    {
        let mut i: usize = 0;
        while i < self.matches.len()
            invariant
                i <= self.matches@.len(),
                forall|j: int| 0 <= j < i ==> self.matches@[j].id != id,
            decreases self.matches@.len() - i,
        {
            if self.matches[i].id == id {
                return Some(i);
            }
            i += 1;
        }
        None
    }

    /// Read-only lookup. A caller sees a match only if they participate in
    /// it; anyone else learns nothing but "not found".
    pub fn get_match(&self, id: u32, user: &User) -> (r: Result<Match, MatchError>)
        requires
            self.wf(),
        ensures
            ({
                let s = self.matches@;
                if spec_has_id(s, id) && s[spec_id_index(s, id)].has_player(user.username@) {
                    r matches Ok(m) && match_equiv(m, s[spec_id_index(s, id)])
                } else {
                    r == Err::<Match, MatchError>(MatchError::NotFound(NotFoundError))
                }
            }),
    {
        match self.find_index(id) {
            None => Err(MatchError::NotFound(NotFoundError)),
            Some(i) => {
                proof {
                    lemma_id_index(self.matches@, id, i as int);
                }
                if validate_user_in_game(&user.username, &self.matches[i]) {
                    Ok(self.matches[i].snapshot())
                } else {
                    Err(MatchError::NotFound(NotFoundError))
                }
            },
        }
    }

    /// Point-in-time copies of every record the caller participates in, in
    /// registry order.
    pub fn list_matches(&self, user: &User) -> (r: Vec<Match>)
        ensures
            matches_equiv_seq(r@, spec_visible(self.matches@, user.username@)),
    {
        let mut out: Vec<Match> = Vec::new();
        let mut i: usize = 0;
        while i < self.matches.len()
            invariant
                i <= self.matches@.len(),
                matches_equiv_seq(out@, spec_visible(self.matches@.take(i as int), user.username@)),
            decreases self.matches@.len() - i,
        {
            proof {
                assert(self.matches@.take(i + 1).drop_last() =~= self.matches@.take(i as int));
                assert(self.matches@.take(i + 1).last() == self.matches@[i as int]);
            }
            if validate_user_in_game(&user.username, &self.matches[i]) {
                out.push(self.matches[i].snapshot());
            }
            i += 1;
        }
        proof {
            assert(self.matches@.take(self.matches@.len() as int) =~= self.matches@);
        }
        out
    }
}

/// View-level agreement of two registries: the same records and the same
/// available ports.
pub open spec fn regs_equiv(a: Registry, b: Registry) -> bool {
    a.matches@ == b.matches@ && a.port_pool.available@ == b.port_pool.available@
}

/// What a newly created record looks like: the requester as sole, unready
/// player, the requested stake and variant, the reserved port, and a fresh
/// broadcast slot already holding the initial tuple.
pub open spec fn spec_created(
    m: Match,
    id: u32,
    request: MatchRequest,
    user: User,
    now: u64,
    port: u32,
) -> bool {
    &&& m.id == id
    &&& m.players@.len() == 1 && m.players@[0]@ == user.username@
    &&& m.player_tokens@.len() == 1 && m.player_tokens@[0]@ == user.auth_token@
    &&& m.ready@ == seq![false]
    &&& m.prize == request.prize
    &&& m.game_type@ == request.game_type@
    &&& m.expiry_time == now + GAME_EXPIRY_TIME_SECS
    &&& m.port == port
    &&& m.state == MatchState::OPEN
    &&& m.state_channel.version == 0
    &&& m.state_channel.receivers == 0
    &&& m.state_channel.latest.state == MatchState::OPEN
    &&& m.state_channel.latest.ready@ == seq![false]
    &&& m.state_channel.latest.players@.len() == 1
    &&& m.state_channel.latest.players@[0]@ == user.username@
    &&& m.state_channel.latest.port == port
}

/// Relies on getrandom::fill: it fills the buffer with random bytes or
/// reports the generator's failure; nothing is promised of the bytes.
#[verifier::external_body]
fn random_u32() -> (r: Option<u32>) {
    let mut buffer = [0u8; 4];
    match getrandom::fill(&mut buffer) {
        Ok(()) => Some(u32::from_ne_bytes(buffer)),
        Err(_) => None,
    }
}

impl Registry {
    /// Draws random identifiers until one is unused, giving up after a
    /// bounded number of draws or on a generator failure.
    fn fresh_id(&self) -> (r: Option<u32>)
        ensures
            r matches Some(id) ==> !spec_has_id(self.matches@, id),
    {
        let mut attempts: u32 = 0;
        while attempts < MAX_ID_ATTEMPTS
            invariant
                attempts <= MAX_ID_ATTEMPTS,
            decreases MAX_ID_ATTEMPTS - attempts,
        {
            match random_u32() {
                None => {
                    return None;
                },
                Some(id) => {
                    if self.find_index(id).is_none() {
                        return Some(id);
                    }
                },
            }
            attempts = attempts + 1;
        }
        None
    }

    /// Creation once an unused identifier is in hand: validates the request,
    /// reserves a port, and inserts the new record. Succeeds exactly when
    /// the request is valid and a port is available.
    pub fn create_match_with_id(
        &mut self,
        id: u32,
        request: MatchRequest,
        user: User,
        now: u64,
    ) -> (r: Result<Match, MatchError>)
        requires
            old(self).wf(),
            !spec_has_id(old(self).matches@, id),
            now + GAME_EXPIRY_TIME_SECS <= u64::MAX,
        ensures
            final(self).wf(),
            ({
                let s = old(self).matches@;
                let pool = old(self).port_pool.available@;
                let valid = spec_valid_game_type(request.game_type@) && spec_valid_prize(
                    request.prize,
                );
                if !valid {
                    r == Err::<Match, MatchError>(MatchError::InvalidInput(InvalidInputError))
                        && regs_equiv(*final(self), *old(self))
                } else if pool.len() == 0 {
                    r == Err::<Match, MatchError>(MatchError::NoAvailablePorts(NoAvailablePorts))
                        && regs_equiv(*final(self), *old(self))
                } else {
                    &&& r matches Ok(m)
                    &&& spec_created(m, id, request, user, now, pool[0])
                    &&& final(self).matches@.len() == s.len() + 1
                    &&& (forall|j: int| 0 <= j < s.len() ==> final(self).matches@[j] == s[j])
                    &&& match_equiv(final(self).matches@.last(), m)
                    &&& final(self).port_pool.available@ == pool.subrange(1, pool.len() as int)
                }
            }),
    {
        if !(validate_game_type(&request.game_type) && validate_prize_amount(&request.prize)) {
            return Err(MatchError::InvalidInput(InvalidInputError));
        }
        let port = match self.port_pool.get() {
            Some(p) => p,
            None => {
                return Err(MatchError::NoAvailablePorts(NoAvailablePorts));
            },
        };
        let expiry_time = now + GAME_EXPIRY_TIME_SECS;
        let channel = Broadcaster::new(
            StateSnapshot {
                state: MatchState::OPEN,
                ready: vec![false],
                players: vec![user.username.clone()],
                port,
            },
        );
        let m = Match {
            id,
            players: vec![user.username.clone()],
            player_tokens: vec![user.auth_token.clone()],
            ready: vec![false],
            prize: request.prize,
            game_type: request.game_type,
            expiry_time,
            port,
            state: MatchState::OPEN,
            state_channel: channel,
        };
        let ret = m.snapshot();
        self.matches.push(m);
        proof {
            let s = old(self).matches@;
            let post = self.matches@;
            assert(forall|i: int| 0 <= i < s.len() ==> s[i].id != id);
            assert(forall|j: int| 0 <= j < s.len() ==> post[j] == s[j]);
            assert(post.last().wf());
            assert(self.wf());
            assert(post.last().ready@ =~= seq![false]);
            assert(post.last().state_channel.latest.ready@ =~= seq![false]);
        }
        Ok(ret)
    }

    /// Creates a match: validates the request, draws a random unused
    /// identifier (bounded retry on collision), reserves a port, and inserts
    /// a record with the requester as sole, unready player. An invalid
    /// request and an empty pool are rejected deterministically; only the
    /// identifier draw itself can fail beyond that.
    pub fn create_match(&mut self, request: MatchRequest, user: User, now: u64) -> (r: Result<
        Match,
        MatchError,
    >)
        requires
            old(self).wf(),
            now + GAME_EXPIRY_TIME_SECS <= u64::MAX,
        ensures
            final(self).wf(),
            ({
                let s = old(self).matches@;
                let pool = old(self).port_pool.available@;
                let valid = spec_valid_game_type(request.game_type@) && spec_valid_prize(
                    request.prize,
                );
                &&& ((r == Err::<Match, MatchError>(
                    MatchError::InvalidInput(InvalidInputError),
                )) <==> !valid)
                &&& (r == Err::<Match, MatchError>(
                    MatchError::IdGeneration(IdGenerationError),
                ) ==> valid)
                &&& ((r == Err::<Match, MatchError>(
                    MatchError::NoAvailablePorts(NoAvailablePorts),
                )) ==> valid && pool.len() == 0)
                &&& (valid && pool.len() == 0 ==> r is Err)
                &&& (r is Err ==> regs_equiv(*final(self), *old(self)))
                &&& (r matches Ok(m) ==> {
                    &&& valid
                    &&& pool.len() > 0
                    &&& !spec_has_id(s, m.id)
                    &&& spec_created(m, m.id, request, user, now, pool[0])
                    &&& final(self).matches@.len() == s.len() + 1
                    &&& (forall|j: int| 0 <= j < s.len() ==> final(self).matches@[j] == s[j])
                    &&& match_equiv(final(self).matches@.last(), m)
                    &&& final(self).port_pool.available@ == pool.subrange(1, pool.len() as int)
                })
            }),
    {
        if !(validate_game_type(&request.game_type) && validate_prize_amount(&request.prize)) {
            return Err(MatchError::InvalidInput(InvalidInputError));
        }
        let id = match self.fresh_id() {
            Some(i) => i,
            None => {
                return Err(MatchError::IdGeneration(IdGenerationError));
            },
        };
        self.create_match_with_id(id, request, user, now)
    }
}

/// Whether a join may take the match: it still accepts joiners, has roster
/// room, and does not already hold the joiner.
pub open spec fn spec_can_join(m: Match, name: Seq<char>) -> bool {
    &&& m.state == MatchState::OPEN
    &&& m.players@.len() < spec_max_players(m.game_type@)
    &&& !seq_contains_str(m.players@, name)
}

/// What a join does to a record: the joiner is appended, unready, to the
/// parallel sequences, and a roster that thereby becomes full moves the
/// match to `READYING`. Everything else stays.
pub open spec fn spec_joined(pre: Match, post: Match, user: User) -> bool {
    &&& post.id == pre.id
    &&& post.players@ == pre.players@.push(user.username)
    &&& post.player_tokens@ == pre.player_tokens@.push(user.auth_token)
    &&& post.ready@ == pre.ready@.push(false)
    &&& post.prize == pre.prize
    &&& post.game_type@ == pre.game_type@
    &&& post.expiry_time == pre.expiry_time
    &&& post.port == pre.port
    &&& post.state == if pre.players@.len() + 1 == spec_max_players(pre.game_type@) {
        MatchState::READYING
    } else {
        pre.state
    }
}

/// Whether this record's slot can deliver a publish.
pub open spec fn spec_publish_ok(b: Broadcaster) -> bool {
    b.receivers > 0 && b.version < u64::MAX
}

/// What a successful publish does to a record's slot: the version advances
/// by one and the slot holds the record's current tuple.
pub open spec fn spec_published_record(pre: Match, post: Match) -> bool {
    &&& post.state_channel.version == pre.state_channel.version + 1
    &&& post.state_channel.receivers == pre.state_channel.receivers
    &&& post.state_channel.latest.state == post.state
    &&& post.state_channel.latest.ready@ == post.ready@
    &&& post.state_channel.latest.players@ == post.players@
    &&& post.state_channel.latest.port == post.port
}

/// All but position `i` agree between the two record sequences.
pub open spec fn spec_only_changed(pre: Seq<Match>, post: Seq<Match>, i: int) -> bool {
    post.len() == pre.len() && forall|j: int| 0 <= j < pre.len() && j != i ==> post[j] == pre[j]
}

impl Registry {
    /// Adds the caller to an open match with roster room. A full, closed,
    /// or already-joined match rejects the join. The new state is then
    /// published, and — as with every publish here — a publish that finds
    /// no subscriber fails the request even though the roster change
    /// stands.
    pub fn join_match(&mut self, id: u32, user: &User) -> (r: Result<Match, MatchError>)
        requires
            old(self).wf(),
        ensures
            final(self).wf(),
            final(self).port_pool.available@ == old(self).port_pool.available@,
            ({
                let s = old(self).matches@;
                if !spec_has_id(s, id) {
                    r == Err::<Match, MatchError>(MatchError::NotFound(NotFoundError))
                        && final(self).matches@ == s
                } else {
                    let i = spec_id_index(s, id);
                    let m = s[i];
                    if !spec_can_join(m, user.username@) {
                        r == Err::<Match, MatchError>(
                            MatchError::CannotJoinMatch(CannotJoinMatchError),
                        ) && final(self).matches@ == s
                    } else {
                        let nm = final(self).matches@[i];
                        &&& spec_only_changed(s, final(self).matches@, i)
                        &&& spec_joined(m, nm, *user)
                        &&& if spec_publish_ok(m.state_channel) {
                            &&& spec_published_record(m, nm)
                            &&& r matches Ok(ret) && match_equiv(ret, nm)
                        } else {
                            &&& nm.state_channel == m.state_channel
                            &&& r == Err::<Match, MatchError>(
                                MatchError::CannotBroadcast(CannotBroadcastError),
                            )
                        }
                    }
                }
            }),
    {
        let i = match self.find_index(id) {
            Some(i) => i,
            None => {
                return Err(MatchError::NotFound(NotFoundError));
            },
        };
        proof {
            lemma_id_index(self.matches@, id, i as int);
        }
        let can_join = validate_can_join_match(&self.matches[i]) && find_player(
            &self.matches[i].players,
            &user.username,
        ).is_none();
        if !can_join {
            return Err(MatchError::CannotJoinMatch(CannotJoinMatchError));
        }
        let ghost s = self.matches@;
        let mut m = self.matches.remove(i);
        m.players.push(user.username.clone());
        m.ready.push(false);
        m.player_tokens.push(user.auth_token.clone());
        let max_players = get_max_players_for_game(&m.game_type);
        if m.players.len() == max_players {
            m.state = MatchState::READYING;
        }
        let snap = m.current_snapshot();
        let published = m.state_channel.publish(snap);
        let ret = match published {
            Ok(()) => Ok(m.snapshot()),
            Err(e) => Err(MatchError::CannotBroadcast(e)),
        };
        self.matches.insert(i, m);
        proof {
            assert(self.matches@ =~= s.update(i as int, self.matches@[i as int]));
            let nm = self.matches@[i as int];
            let pre = s[i as int];
            assert(nm.players@ =~= pre.players@.push(user.username));
            assert(nm.player_tokens@ =~= pre.player_tokens@.push(user.auth_token));
            assert(nm.ready@ =~= pre.ready@.push(false));
            assert(distinct_strs(nm.players@)) by {
                assert(forall|a: int, b: int|
                    0 <= a < b < nm.players@.len() ==> nm.players@[a]@ != nm.players@[b]@) by {
                    assert(forall|a: int|
                        0 <= a < pre.players@.len() ==> nm.players@[a] == pre.players@[a]);
                }
            }
            assert(nm.wf());
            assert(self.wf());
        }
        ret
    }
}

/// Every readiness flag is set.
pub open spec fn spec_all_ready(s: Seq<bool>) -> bool {
    forall|k: int| 0 <= k < s.len() ==> s[k]
}

/// What a ready call does to a record: the caller's flag is set, and if
/// every flag is now set the match moves to `PLAYING`. Everything else
/// stays.
pub open spec fn spec_readied(pre: Match, post: Match, pidx: int) -> bool {
    &&& post.id == pre.id
    &&& post.players@ == pre.players@
    &&& post.player_tokens@ == pre.player_tokens@
    &&& post.ready@ == pre.ready@.update(pidx, true)
    &&& post.prize == pre.prize
    &&& post.game_type@ == pre.game_type@
    &&& post.expiry_time == pre.expiry_time
    &&& post.port == pre.port
    &&& post.state == if spec_all_ready(pre.ready@.update(pidx, true)) {
        MatchState::PLAYING
    } else {
        pre.state
    }
}

/// The hand-off the one transition to `PLAYING` produces: the match's
/// variant and port, and each of the two players with their credential, in
/// join order.
pub open spec fn spec_handoff(m: Match, p: LaunchParams) -> bool {
    &&& p.game_type@ == m.game_type@
    &&& p.port == m.port
    &&& p.player_one@ == m.players@[0]@
    &&& p.player_one_token@ == m.player_tokens@[0]@
    &&& p.player_two@ == m.players@[1]@
    &&& p.player_two_token@ == m.player_tokens@[1]@
}

/// Whether every flag of the vector is set.
fn all_true(v: &Vec<bool>) -> (r: bool)
    ensures
        r == spec_all_ready(v@),
{
    let mut i: usize = 0;
    while i < v.len()
        invariant
            i <= v@.len(),
            forall|j: int| 0 <= j < i ==> v@[j],
        decreases v@.len() - i,
    {
        if !v[i] {
            return false;
        }
        i += 1;
    }
    true
}

impl Registry {
    /// Marks the caller ready. If that completes the roster's readiness the
    /// match moves to `PLAYING` and — when that transition happens in this
    /// very call, on a roster of two — the returned parameters order the
    /// one hand-off to the process runner. The new state is published
    /// first: a failed publish fails the request, keeps the readiness
    /// change, and orders no hand-off.
    pub fn ready_match(&mut self, id: u32, user: &User) -> (r: Result<
        Option<LaunchParams>,
        MatchError,
    >)
        requires
            old(self).wf(),
        ensures
            final(self).wf(),
            final(self).port_pool.available@ == old(self).port_pool.available@,
            ({
                let s = old(self).matches@;
                if !spec_has_id(s, id) {
                    r == Err::<Option<LaunchParams>, MatchError>(
                        MatchError::NotFound(NotFoundError),
                    ) && final(self).matches@ == s
                } else {
                    let i = spec_id_index(s, id);
                    let m = s[i];
                    if !seq_contains_str(m.players@, user.username@) {
                        r == Err::<Option<LaunchParams>, MatchError>(
                            MatchError::InvalidInput(InvalidInputError),
                        ) && final(self).matches@ == s
                    } else {
                        let pidx = str_index_of(m.players@, user.username@);
                        let nm = final(self).matches@[i];
                        &&& spec_only_changed(s, final(self).matches@, i)
                        &&& spec_readied(m, nm, pidx)
                        &&& if spec_publish_ok(m.state_channel) {
                            &&& spec_published_record(m, nm)
                            &&& r matches Ok(launch)
                            &&& ((launch is Some) <==> (nm.state == MatchState::PLAYING
                                && m.state != MatchState::PLAYING && m.players@.len() >= 2))
                            &&& (launch matches Some(p) ==> spec_handoff(nm, p))
                        } else {
                            &&& nm.state_channel == m.state_channel
                            &&& r == Err::<Option<LaunchParams>, MatchError>(
                                MatchError::CannotBroadcast(CannotBroadcastError),
                            )
                        }
                    }
                }
            }),
    {
        let i = match self.find_index(id) {
            Some(i) => i,
            None => {
                return Err(MatchError::NotFound(NotFoundError));
            },
        };
        proof {
            lemma_id_index(self.matches@, id, i as int);
        }
        let pidx = match find_player(&self.matches[i].players, &user.username) {
            Some(p) => p,
            None => {
                return Err(MatchError::InvalidInput(InvalidInputError));
            },
        };
        proof {
            lemma_str_index(self.matches@[i as int].players@, user.username@, pidx as int);
        }
        let ghost s = self.matches@;
        let mut m = self.matches.remove(i);
        let was_playing = m.state == MatchState::PLAYING;
        m.ready[pidx] = true;
        let all_ready = all_true(&m.ready);
        if all_ready {
            m.state = MatchState::PLAYING;
        }
        let snap = m.current_snapshot();
        let published = m.state_channel.publish(snap);
        let ret: Result<Option<LaunchParams>, MatchError> = match published {
            Ok(()) => {
                if all_ready && !was_playing && m.players.len() >= 2 {
                    Ok(
                        Some(
                            LaunchParams {
                                game_type: m.game_type.clone(),
                                port: m.port,
                                player_one: m.players[0].clone(),
                                player_one_token: m.player_tokens[0].clone(),
                                player_two: m.players[1].clone(),
                                player_two_token: m.player_tokens[1].clone(),
                            },
                        ),
                    )
                } else {
                    Ok(None)
                }
            },
            Err(e) => Err(MatchError::CannotBroadcast(e)),
        };
        self.matches.insert(i, m);
        proof {
            assert(self.matches@ =~= s.update(i as int, self.matches@[i as int]));
            let nm = self.matches@[i as int];
            assert(nm.wf());
            assert(self.wf());
        }
        ret
    }
}

/// Whether a cancel may proceed: the caller sits in the roster and the
/// match is still short of the roster size at which its game starts.
pub open spec fn spec_cancel_allowed(m: Match, name: Seq<char>) -> bool {
    &&& seq_contains_str(m.players@, name)
    &&& m.players@.len() != spec_min_players(m.game_type@)
}

impl Registry {
    /// Removes the caller from an unstarted match. When that empties the
    /// roster, the record leaves the registry and its port returns to the
    /// pool; otherwise the reduced roster stays as it was, still open.
    pub fn cancel_match(&mut self, id: u32, user: &User) -> (r: Result<(), MatchError>)
        requires
            old(self).wf(),
        ensures
            final(self).wf(),
            ({
                let s = old(self).matches@;
                let pool = old(self).port_pool.available@;
                if !spec_has_id(s, id) {
                    r == Err::<(), MatchError>(MatchError::NotFound(NotFoundError))
                        && final(self).matches@ == s && final(self).port_pool.available@ == pool
                } else {
                    let i = spec_id_index(s, id);
                    let m = s[i];
                    if !spec_cancel_allowed(m, user.username@) {
                        r == Err::<(), MatchError>(MatchError::InvalidInput(InvalidInputError))
                            && final(self).matches@ == s && final(self).port_pool.available@
                            == pool
                    } else {
                        let pidx = str_index_of(m.players@, user.username@);
                        &&& r == Ok::<(), MatchError>(())
                        &&& if m.players@.len() == 1 {
                            final(self).matches@ == s.remove(i)
                                && final(self).port_pool.available@ == pool.push(m.port)
                        } else {
                            let nm = final(self).matches@[i];
                            &&& spec_only_changed(s, final(self).matches@, i)
                            &&& nm.id == m.id
                            &&& nm.players@ == m.players@.remove(pidx)
                            &&& nm.player_tokens@ == m.player_tokens@.remove(pidx)
                            &&& nm.ready@ == m.ready@.remove(pidx)
                            &&& nm.prize == m.prize
                            &&& nm.game_type@ == m.game_type@
                            &&& nm.expiry_time == m.expiry_time
                            &&& nm.port == m.port
                            &&& nm.state == m.state
                            &&& nm.state_channel == m.state_channel
                            &&& final(self).port_pool.available@ == pool
                        }
                    }
                }
            }),
    {
        let i = match self.find_index(id) {
            Some(i) => i,
            None => {
                return Err(MatchError::NotFound(NotFoundError));
            },
        };
        proof {
            lemma_id_index(self.matches@, id, i as int);
        }
        let pidx = match find_player(&self.matches[i].players, &user.username) {
            Some(p) => p,
            None => {
                return Err(MatchError::InvalidInput(InvalidInputError));
            },
        };
        if !validate_game_not_started(&self.matches[i]) {
            return Err(MatchError::InvalidInput(InvalidInputError));
        }
        proof {
            lemma_str_index(self.matches@[i as int].players@, user.username@, pidx as int);
        }
        let ghost s = self.matches@;
        let mut m = self.matches.remove(i);
        let _removed_player = m.players.remove(pidx);
        let _removed_token = m.player_tokens.remove(pidx);
        let _removed_flag = m.ready.remove(pidx);
        if m.players.len() == 0 {
            proof {
                if self.port_pool.available@.contains(m.port) {
                    let k = choose|k: int|
                        0 <= k < self.port_pool.available@.len()
                            && self.port_pool.available@[k] == m.port;
                    assert(s[i as int].port != self.port_pool.available@[k]);
                }
            }
            self.port_pool.release(m.port);
            proof {
                assert(self.wf());
            }
            Ok(())
        } else {
            self.matches.insert(i, m);
            proof {
                assert(self.matches@ =~= s.update(i as int, self.matches@[i as int]));
                let nm = self.matches@[i as int];
                let pre = s[i as int];
                assert(distinct_strs(nm.players@)) by {
                    assert(forall|a: int|
                        0 <= a < nm.players@.len() ==> nm.players@[a] == if a < pidx as int {
                            pre.players@[a]
                        } else {
                            pre.players@[a + 1]
                        });
                }
                assert(nm.wf());
                assert(self.wf());
            }
            Ok(())
        }
    }
}

/// Agreement of two records on everything but the broadcast slot.
pub open spec fn spec_same_core(pre: Match, post: Match) -> bool {
    &&& post.id == pre.id
    &&& post.players@ == pre.players@
    &&& post.player_tokens@ == pre.player_tokens@
    &&& post.ready@ == pre.ready@
    &&& post.prize == pre.prize
    &&& post.game_type@ == pre.game_type@
    &&& post.expiry_time == pre.expiry_time
    &&& post.port == pre.port
    &&& post.state == pre.state
}

/// What one wait on a subscription observes.
pub enum PollResult {
    /// The match is gone from the registry: the stream has closed.
    Closed,
    /// Nothing was published past what the subscriber already saw.
    Pending,
    /// A newer tuple than the subscriber's last: the latest one.
    Changed(StateSnapshot),
}

impl Registry {
    /// Attaches a live-update subscription to a match. Only a participant
    /// may subscribe; anyone else learns nothing but "not found". The slot's
    /// current value counts as seen, so the subscriber wakes on the next
    /// change after this call.
    pub fn subscribe_updates(&mut self, id: u32, user: &User) -> (r: Result<
        Subscription,
        MatchError,
    >)
        requires
            old(self).wf(),
        ensures
            final(self).wf(),
            final(self).port_pool.available@ == old(self).port_pool.available@,
            ({
                let s = old(self).matches@;
                if !(spec_has_id(s, id) && seq_contains_str(
                    s[spec_id_index(s, id)].players@,
                    user.username@,
                )) {
                    r == Err::<Subscription, MatchError>(MatchError::NotFound(NotFoundError))
                        && final(self).matches@ == s
                } else {
                    let i = spec_id_index(s, id);
                    let m = s[i];
                    let nm = final(self).matches@[i];
                    &&& spec_only_changed(s, final(self).matches@, i)
                    &&& spec_same_core(m, nm)
                    &&& nm.state_channel.latest == m.state_channel.latest
                    &&& nm.state_channel.version == m.state_channel.version
                    &&& nm.state_channel.receivers == if m.state_channel.receivers < u64::MAX {
                        m.state_channel.receivers + 1
                    } else {
                        u64::MAX as int
                    }
                    &&& r matches Ok(sub) && sub.match_id == id && sub.last_seen
                        == m.state_channel.version
                }
            }),
    {
        let i = match self.find_index(id) {
            Some(i) => i,
            None => {
                return Err(MatchError::NotFound(NotFoundError));
            },
        };
        proof {
            lemma_id_index(self.matches@, id, i as int);
        }
        if !validate_user_in_game(&user.username, &self.matches[i]) {
            return Err(MatchError::NotFound(NotFoundError));
        }
        let ghost s = self.matches@;
        let mut m = self.matches.remove(i);
        let last_seen = m.state_channel.subscribe();
        self.matches.insert(i, m);
        proof {
            assert(self.matches@ =~= s.update(i as int, self.matches@[i as int]));
            assert(self.matches@[i as int].wf());
            assert(self.wf());
        }
        Ok(Subscription { match_id: id, last_seen })
    }

    /// One wait on a subscription, against the registry as it stands: the
    /// stream has closed if the match is gone, is pending if nothing newer
    /// than the subscriber's last version was published, and otherwise hands
    /// over the latest tuple and marks it seen.
    pub fn poll_update(&self, sub: &mut Subscription) -> (r: PollResult)
        requires
            self.wf(),
        ensures
            final(sub).match_id == old(sub).match_id,
            ({
                let s = self.matches@;
                let id = old(sub).match_id;
                if !spec_has_id(s, id) {
                    r is Closed && final(sub).last_seen == old(sub).last_seen
                } else {
                    let ch = s[spec_id_index(s, id)].state_channel;
                    if ch.version == old(sub).last_seen {
                        r is Pending && final(sub).last_seen == old(sub).last_seen
                    } else {
                        &&& r matches PollResult::Changed(snap) && snap_equiv(snap, ch.latest)
                        &&& final(sub).last_seen == ch.version
                    }
                }
            }),
    {
        let i = match self.find_index(sub.match_id) {
            Some(i) => i,
            None => {
                return PollResult::Closed;
            },
        };
        proof {
            lemma_id_index(self.matches@, sub.match_id, i as int);
        }
        let ch = &self.matches[i].state_channel;
        if ch.version == sub.last_seen {
            PollResult::Pending
        } else {
            sub.last_seen = ch.version;
            PollResult::Changed(
                StateSnapshot {
                    state: ch.latest.state,
                    ready: clone_bools(&ch.latest.ready),
                    players: clone_strings(&ch.latest.players),
                    port: ch.latest.port,
                },
            )
        }
    }

    /// Detaches a finished subscription from its match, if the match is
    /// still there.
    pub fn unsubscribe_updates(&mut self, sub: Subscription)
        requires
            old(self).wf(),
        ensures
            final(self).wf(),
            final(self).port_pool.available@ == old(self).port_pool.available@,
            ({
                let s = old(self).matches@;
                if !spec_has_id(s, sub.match_id) {
                    final(self).matches@ == s
                } else {
                    let i = spec_id_index(s, sub.match_id);
                    let m = s[i];
                    let nm = final(self).matches@[i];
                    &&& spec_only_changed(s, final(self).matches@, i)
                    &&& spec_same_core(m, nm)
                    &&& nm.state_channel.latest == m.state_channel.latest
                    &&& nm.state_channel.version == m.state_channel.version
                    &&& nm.state_channel.receivers == if m.state_channel.receivers > 0 {
                        (m.state_channel.receivers - 1) as int
                    } else {
                        0int
                    }
                }
            }),
    {
        let i = match self.find_index(sub.match_id) {
            Some(i) => i,
            None => {
                return ;
            },
        };
        proof {
            lemma_id_index(self.matches@, sub.match_id, i as int);
        }
        let ghost s = self.matches@;
        let mut m = self.matches.remove(i);
        m.state_channel.unsubscribe();
        self.matches.insert(i, m);
        proof {
            assert(self.matches@ =~= s.update(i as int, self.matches@[i as int]));
            assert(self.matches@[i as int].wf());
            assert(self.wf());
        }
    }
}

/// The records of `s` whose roster holds `u`, in order.
pub open spec fn spec_visible(s: Seq<Match>, u: Seq<char>) -> Seq<Match>
    decreases s.len(),
{
    if s.len() == 0 {
        Seq::empty()
    } else {
        let rest = spec_visible(s.drop_last(), u);
        if seq_contains_str(s.last().players@, u) {
            rest.push(s.last())
        } else {
            rest
        }
    }
}

/// Position-wise field agreement of two record sequences.
pub open spec fn matches_equiv_seq(a: Seq<Match>, b: Seq<Match>) -> bool {
    a.len() == b.len() && forall|i: int| 0 <= i < a.len() ==> match_equiv(a[i], b[i])
}

} // verus!
