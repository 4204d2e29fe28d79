//! Laws of the registry and the pool, stated over the same spec functions
//! the operations' contracts use, and proved from them.

use vstd::prelude::*;

use crate::record::{match_equiv, Match, MatchState};
use crate::registry::{
    ids_unique, lemma_id_index, spec_all_ready, spec_can_join, spec_created, spec_has_id,
    spec_id_index, spec_joined, spec_publish_ok, spec_published_record, spec_readied,
};
use crate::request::MatchRequest;
use crate::user::User;
use crate::validation::spec_max_players;

verus! {

/// Law: on a match of capacity two holding its creator alone, one join
/// fills the roster, and from then on every join — whoever asks — is
/// refused, so of any linearized sequence of joins exactly one succeeds
/// and the roster ends with exactly two players.
pub proof fn lemma_join_fills_then_rejects(pre: Match, post: Match, joiner: User, later: Seq<char>)
    requires
        pre.wf(),
        spec_max_players(pre.game_type@) == 2,
        pre.players@.len() == 1,
        spec_can_join(pre, joiner.username@),
        spec_joined(pre, post, joiner),
    ensures
        post.players@.len() == 2,
        post.state == MatchState::READYING,
        !spec_can_join(post, later),
{
}

/// Law: a join never takes a match whose roster already holds its
/// variant's capacity.
pub proof fn lemma_join_rejects_full(m: Match, name: Seq<char>)
    requires
        m.players@.len() >= spec_max_players(m.game_type@),
    ensures
        !spec_can_join(m, name),
{
}

/// Law: once the last unready participant readies, the match is PLAYING.
pub proof fn lemma_all_ready_plays(pre: Match, post: Match, pidx: int)
    requires
        0 <= pidx < pre.ready@.len(),
        spec_readied(pre, post, pidx),
        spec_all_ready(pre.ready@.update(pidx, true)),
    ensures
        post.state == MatchState::PLAYING,
{
}

/// Law: the hand-off to the process runner happens at most once. A ready
/// call orders it only when its own update moves the match into PLAYING;
/// the state never leaves PLAYING under further ready calls, so of two
/// ready calls in either order at most one can order the hand-off.
pub proof fn lemma_handoff_at_most_once(m0: Match, m1: Match, m2: Match, i1: int, i2: int)
    requires
        0 <= i1 < m0.ready@.len(),
        0 <= i2 < m1.ready@.len(),
        spec_readied(m0, m1, i1),
        spec_readied(m1, m2, i2),
        m1.state == MatchState::PLAYING && m0.state != MatchState::PLAYING,
    ensures
        !(m2.state == MatchState::PLAYING && m1.state != MatchState::PLAYING),
{
}

/// Law: the hand-off never fails to happen. On a full two-player roster
/// not yet playing, the ready call that sets the last flag moves the match
/// into PLAYING in that very call — which is precisely the condition under
/// which a delivered ready call returns the launch parameters.
pub proof fn lemma_completing_ready_hands_off(pre: Match, post: Match, pidx: int)
    requires
        pre.players@.len() == 2,
        0 <= pidx < pre.ready@.len(),
        spec_readied(pre, post, pidx),
        spec_all_ready(pre.ready@.update(pidx, true)),
        pre.state != MatchState::PLAYING,
    ensures
        post.state == MatchState::PLAYING && pre.state != MatchState::PLAYING
            && post.players@.len() >= 2,
{
}

/// Law: the lifecycle never regresses. A taken join leaves the state where
/// it was or moves it from OPEN to READYING; a ready call leaves it or
/// moves it to PLAYING.
pub proof fn lemma_state_monotonic(pre: Match, post: Match)
    requires
        (exists|u: User| spec_can_join(pre, u.username@) && spec_joined(pre, post, u)) || (
        exists|i: int| 0 <= i < pre.ready@.len() && spec_readied(pre, post, i)),
    ensures
        spec_state_rank(post.state) >= spec_state_rank(pre.state),
{
}

/// The order of the lifecycle states.
pub open spec fn spec_state_rank(s: MatchState) -> int {
    match s {
        MatchState::OPEN => 0,
        MatchState::READYING => 1,
        MatchState::PLAYING => 2,
    }
}

/// Law: a subscription attached before a join wakes on its next wait and
/// observes the post-join roster (and the post-join state and readiness
/// flags), not any earlier tuple.
pub proof fn lemma_subscriber_sees_join(pre: Match, post: Match, joiner: User, last_seen: u64)
    requires
        spec_joined(pre, post, joiner),
        spec_publish_ok(pre.state_channel),
        spec_published_record(pre, post),
        last_seen == pre.state_channel.version,
    ensures
        post.state_channel.version != last_seen,
        post.state_channel.latest.players@ == pre.players@.push(joiner.username),
        post.state_channel.latest.ready@ == pre.ready@.push(false),
        post.state_channel.latest.state == post.state,
{
}

/// Law: right after a successful create, the creator finds the match as a
/// sole, unready player of an OPEN record, while any other name is not a
/// participant — so a lookup by anyone else is answered as if the match
/// did not exist.
pub proof fn lemma_create_then_get(
    s_pre: Seq<Match>,
    s_post: Seq<Match>,
    m: Match,
    id: u32,
    request: MatchRequest,
    user: User,
    now: u64,
    port: u32,
    other: Seq<char>,
)
    requires
        ids_unique(s_post),
        !spec_has_id(s_pre, id),
        spec_created(m, id, request, user, now, port),
        s_post.len() == s_pre.len() + 1,
        forall|j: int| 0 <= j < s_pre.len() ==> s_post[j] == s_pre[j],
        match_equiv(s_post.last(), m),
        other != user.username@,
    ensures
        spec_has_id(s_post, id),
        spec_id_index(s_post, id) == s_post.len() - 1,
        ({
            let rec = s_post[spec_id_index(s_post, id)];
            &&& rec.has_player(user.username@)
            &&& rec.players@.len() == 1 && rec.players@[0]@ == user.username@
            &&& rec.ready@.len() == 1 && rec.ready@[0] == false
            &&& rec.state == MatchState::OPEN
            &&& !rec.has_player(other)
        }),
{
    let last = s_post.len() - 1;
    assert(s_post[last].id == id);
    lemma_id_index(s_post, id, last);
    let rec = s_post[spec_id_index(s_post, id)];
    assert(rec.players@[0]@ == user.username@);
    assert(rec.has_player(user.username@));
    assert(!rec.has_player(other)) by {
        if rec.has_player(other) {
            let k = choose|k: int| 0 <= k < rec.players@.len() && rec.players@[k]@ == other;
            assert(k == 0);
        }
    }
}

/// How many entries of the sequence hold `x`.
pub open spec fn spec_count(s: Seq<u32>, x: u32) -> int
    decreases s.len(),
{
    if s.len() == 0 {
        0
    } else {
        spec_count(s.drop_last(), x) + if s.last() == x {
            1int
        } else {
            0int
        }
    }
}

/// A sequence without `x` counts no entry of it.
pub proof fn lemma_count_absent(s: Seq<u32>, x: u32)
    requires
        !s.contains(x),
    ensures
        spec_count(s, x) == 0,
    decreases s.len(),
{
    if s.len() > 0 {
        assert(!s.drop_last().contains(x)) by {
            if s.drop_last().contains(x) {
                let k = choose|k: int| 0 <= k < s.drop_last().len() && s.drop_last()[k] == x;
                assert(s[k] == x);
            }
        }
        lemma_count_absent(s.drop_last(), x);
    }
}

/// Law: the pool hands no port out twice concurrently. An acquisition
/// hands out the front port and leaves a set that no longer holds it, so a
/// second acquisition before its release yields a different port.
pub proof fn lemma_pool_exclusive(avail: Seq<u32>)
    requires
        forall|i: int, j: int| 0 <= i < j < avail.len() ==> avail[i] != avail[j],
        avail.len() >= 1,
    ensures
        !avail.subrange(1, avail.len() as int).contains(avail[0]),
        avail.len() >= 2 ==> avail.subrange(1, avail.len() as int)[0] != avail[0],
{
    let rest = avail.subrange(1, avail.len() as int);
    assert(!rest.contains(avail[0])) by {
        if rest.contains(avail[0]) {
            let k = choose|k: int| 0 <= k < rest.len() && rest[k] == avail[0];
            assert(avail[k + 1] == avail[0]);
        }
    }
}

/// Law: a cancelled match's port can be reused. Removing a match appends
/// its port to the pool; with the pool otherwise empty, the next
/// successful create — which reserves the pool's front port — reserves
/// exactly the released one.
pub proof fn lemma_cancel_port_reuse(
    pool_before: Seq<u32>,
    released: u32,
    m: Match,
    id: u32,
    request: MatchRequest,
    user: User,
    now: u64,
)
    requires
        pool_before.len() == 0,
        spec_created(m, id, request, user, now, pool_before.push(released)[0]),
    ensures
        m.port == released,
{
}

/// Law: a released port re-enters the available set exactly once: the set
/// did not hold the outstanding port, and the release appends exactly one
/// entry of it.
pub proof fn lemma_release_once(avail: Seq<u32>, port: u32)
    requires
        !avail.contains(port),
    ensures
        spec_count(avail, port) == 0,
        spec_count(avail.push(port), port) == 1,
{
    lemma_count_absent(avail, port);
    assert(avail.push(port).drop_last() =~= avail);
}

} // verus!
