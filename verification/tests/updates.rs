use matchmaker::error::MatchError;
use matchmaker::record::MatchState;
use matchmaker::registry::{PollResult, Registry};
use matchmaker::request::MatchRequest;
use matchmaker::user::User;

fn user(name: &str) -> User {
    User {
        id: 1,
        username: String::from(name),
        auth_token: format!("{}-token", name),
        balance: 1000,
    }
}

fn request(game_type: &str, prize: u32) -> MatchRequest {
    MatchRequest { prize, game_type: String::from(game_type) }
}

#[test]
fn subscriber_before_join_sees_post_join_roster() {
    let mut reg = Registry::new(30000, 31000);
    let a = user("A");
    let id = reg.create_match(request("knockout", 10), user("A"), 0).unwrap().id;
    let mut sub = reg.subscribe_updates(id, &a).unwrap();
    assert!(matches!(reg.poll_update(&mut sub), PollResult::Pending));
    reg.join_match(id, &user("B")).unwrap();
    match reg.poll_update(&mut sub) {
        PollResult::Changed(snap) => {
            assert_eq!(snap.players, vec![String::from("A"), String::from("B")]);
            assert_eq!(snap.ready, vec![false, false]);
            assert!(matches!(snap.state, MatchState::READYING));
        },
        _ => panic!("the subscriber must observe the post-join tuple"),
    }
    assert!(matches!(reg.poll_update(&mut sub), PollResult::Pending));
}

#[test]
fn slow_subscriber_sees_only_the_latest_tuple() {
    let mut reg = Registry::new(30000, 31000);
    let a = user("A");
    let b = user("B");
    let id = reg.create_match(request("knockout", 10), user("A"), 0).unwrap().id;
    let mut sub = reg.subscribe_updates(id, &a).unwrap();
    reg.join_match(id, &b).unwrap();
    reg.ready_match(id, &a).unwrap();
    reg.ready_match(id, &b).unwrap();
    match reg.poll_update(&mut sub) {
        PollResult::Changed(snap) => {
            assert_eq!(snap.ready, vec![true, true]);
            assert!(matches!(snap.state, MatchState::PLAYING));
        },
        _ => panic!("the subscriber must observe the latest tuple"),
    }
    assert!(matches!(reg.poll_update(&mut sub), PollResult::Pending));
}

#[test]
fn subscription_closes_when_match_is_removed() {
    let mut reg = Registry::new(30000, 31000);
    let a = user("A");
    let id = reg.create_match(request("soccer", 5), user("A"), 0).unwrap().id;
    let mut sub = reg.subscribe_updates(id, &a).unwrap();
    reg.cancel_match(id, &a).unwrap();
    assert!(matches!(reg.poll_update(&mut sub), PollResult::Closed));
}

#[test]
fn subscribe_by_stranger_is_not_found() {
    let mut reg = Registry::new(30000, 31000);
    let id = reg.create_match(request("soccer", 5), user("A"), 0).unwrap().id;
    assert!(matches!(reg.subscribe_updates(id, &user("Z")), Err(MatchError::NotFound(_))));
}

#[test]
fn subscribe_to_removed_match_is_not_found() {
    let mut reg = Registry::new(30000, 31000);
    let a = user("A");
    let id = reg.create_match(request("soccer", 5), user("A"), 0).unwrap().id;
    reg.cancel_match(id, &a).unwrap();
    assert!(matches!(reg.subscribe_updates(id, &a), Err(MatchError::NotFound(_))));
}

#[test]
fn unsubscribed_match_refuses_publishes_again() {
    let mut reg = Registry::new(30000, 31000);
    let a = user("A");
    let id = reg.create_match(request("soccer", 5), user("A"), 0).unwrap().id;
    let sub = reg.subscribe_updates(id, &a).unwrap();
    reg.unsubscribe_updates(sub);
    assert!(matches!(reg.join_match(id, &user("B")), Err(MatchError::CannotBroadcast(_))));
}
