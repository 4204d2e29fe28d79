use matchmaker::error::MatchError;
use matchmaker::record::MatchState;
use matchmaker::registry::Registry;
use matchmaker::request::MatchRequest;
use matchmaker::user::User;

fn user(name: &str) -> User {
    User {
        id: 1,
        username: String::from(name),
        auth_token: format!("{}-token", name),
        balance: 1000,
    }
}

fn request(game_type: &str, prize: u32) -> MatchRequest {
    MatchRequest { prize, game_type: String::from(game_type) }
}

#[test]
fn create_inserts_sole_unready_player() {
    let mut reg = Registry::new(30000, 31000);
    let m = reg.create_match(request("knockout", 10), user("A"), 1_000_000).unwrap();
    assert_eq!(m.players, vec![String::from("A")]);
    assert_eq!(m.player_tokens, vec![String::from("A-token")]);
    assert_eq!(m.ready, vec![false]);
    assert_eq!(m.prize, 10);
    assert_eq!(m.game_type, "knockout");
    assert_eq!(m.expiry_time, 1_000_000 + 60 * 20);
    assert_eq!(m.port, 30000);
    assert!(matches!(m.state, MatchState::OPEN));
}

#[test]
fn create_rejects_bad_game_type() {
    let mut reg = Registry::new(30000, 31000);
    let r = reg.create_match(request("chess", 10), user("A"), 0);
    assert!(matches!(r, Err(MatchError::InvalidInput(_))));
}

#[test]
fn create_rejects_bad_prize() {
    let mut reg = Registry::new(30000, 31000);
    let r = reg.create_match(request("soccer", 3), user("A"), 0);
    assert!(matches!(r, Err(MatchError::InvalidInput(_))));
}

#[test]
fn create_fails_when_ports_exhausted() {
    let mut reg = Registry::new(30000, 30001);
    reg.create_match(request("soccer", 2), user("A"), 0).unwrap();
    let r = reg.create_match(request("soccer", 2), user("B"), 0);
    assert!(matches!(r, Err(MatchError::NoAvailablePorts(_))));
}

#[test]
fn round_trip_create_then_get() {
    let mut reg = Registry::new(30000, 31000);
    let creator = user("A");
    let m = reg.create_match(request("soccer", 5), user("A"), 7).unwrap();
    let got = reg.get_match(m.id, &creator).unwrap();
    assert_eq!(got.players, vec![String::from("A")]);
    assert_eq!(got.ready, vec![false]);
    assert!(matches!(got.state, MatchState::OPEN));
    let outsider = user("Z");
    assert!(matches!(reg.get_match(m.id, &outsider), Err(MatchError::NotFound(_))));
}

#[test]
fn get_unknown_id_is_not_found() {
    let reg = Registry::new(30000, 31000);
    assert!(matches!(reg.get_match(42, &user("A")), Err(MatchError::NotFound(_))));
}

#[test]
fn list_shows_only_participated_matches() {
    let mut reg = Registry::new(30000, 31000);
    let a = user("A");
    let b = user("B");
    let ma = reg.create_match(request("soccer", 2), user("A"), 0).unwrap();
    let mb = reg.create_match(request("knockout", 5), user("B"), 0).unwrap();
    let seen_by_a = reg.list_matches(&a);
    assert_eq!(seen_by_a.len(), 1);
    assert_eq!(seen_by_a[0].id, ma.id);
    let seen_by_b = reg.list_matches(&b);
    assert_eq!(seen_by_b.len(), 1);
    assert_eq!(seen_by_b[0].id, mb.id);
    assert_eq!(reg.list_matches(&user("Z")).len(), 0);
}

#[test]
fn knockout_scenario_through_launch() {
    let mut reg = Registry::new(30000, 31000);
    let a = user("A");
    let b = user("B");
    let created = reg.create_match(request("knockout", 10), user("A"), 0).unwrap();
    let id = created.id;
    assert!(matches!(created.state, MatchState::OPEN));
    assert_eq!(created.players, vec![String::from("A")]);

    // a live subscriber, so every publish can be delivered
    reg.subscribe_updates(id, &a).unwrap();

    let joined = reg.join_match(id, &b).unwrap();
    assert_eq!(joined.players, vec![String::from("A"), String::from("B")]);
    assert!(matches!(joined.state, MatchState::READYING));

    let first = reg.ready_match(id, &a).unwrap();
    assert!(first.is_none());
    let after_first = reg.get_match(id, &a).unwrap();
    assert_eq!(after_first.ready, vec![true, false]);
    assert!(matches!(after_first.state, MatchState::READYING));

    let second = reg.ready_match(id, &b).unwrap();
    let launch = second.expect("the completing ready call orders the hand-off");
    assert_eq!(launch.game_type, "knockout");
    assert_eq!(launch.port, created.port);
    assert_eq!(launch.player_one, "A");
    assert_eq!(launch.player_one_token, "A-token");
    assert_eq!(launch.player_two, "B");
    assert_eq!(launch.player_two_token, "B-token");
    let after_second = reg.get_match(id, &a).unwrap();
    assert_eq!(after_second.ready, vec![true, true]);
    assert!(matches!(after_second.state, MatchState::PLAYING));
}

#[test]
fn exactly_two_joins_succeed() {
    let mut reg = Registry::new(30000, 31000);
    let a = user("A");
    let id = reg.create_match(request("soccer", 2), user("A"), 0).unwrap().id;
    reg.subscribe_updates(id, &a).unwrap();
    assert!(reg.join_match(id, &user("B")).is_ok());
    assert!(matches!(reg.join_match(id, &user("C")), Err(MatchError::CannotJoinMatch(_))));
    assert!(matches!(reg.join_match(id, &user("B")), Err(MatchError::CannotJoinMatch(_))));
    assert_eq!(reg.get_match(id, &a).unwrap().players.len(), 2);
}

#[test]
fn join_without_subscriber_keeps_roster_but_reports_broadcast_failure() {
    let mut reg = Registry::new(30000, 31000);
    let a = user("A");
    let id = reg.create_match(request("soccer", 2), user("A"), 0).unwrap().id;
    let r = reg.join_match(id, &user("B"));
    assert!(matches!(r, Err(MatchError::CannotBroadcast(_))));
    // the mutation stands even though the request failed
    assert_eq!(reg.get_match(id, &a).unwrap().players.len(), 2);
}

#[test]
fn join_unknown_id_is_not_found() {
    let mut reg = Registry::new(30000, 31000);
    assert!(matches!(reg.join_match(9, &user("B")), Err(MatchError::NotFound(_))));
}

#[test]
fn ready_by_stranger_is_invalid_input() {
    let mut reg = Registry::new(30000, 31000);
    let a = user("A");
    let id = reg.create_match(request("soccer", 2), user("A"), 0).unwrap().id;
    reg.subscribe_updates(id, &a).unwrap();
    assert!(matches!(reg.ready_match(id, &user("Z")), Err(MatchError::InvalidInput(_))));
}

#[test]
fn repeated_ready_orders_no_second_handoff() {
    let mut reg = Registry::new(30000, 31000);
    let a = user("A");
    let b = user("B");
    let id = reg.create_match(request("knockout", 25), user("A"), 0).unwrap().id;
    reg.subscribe_updates(id, &a).unwrap();
    reg.join_match(id, &b).unwrap();
    assert!(reg.ready_match(id, &a).unwrap().is_none());
    assert!(reg.ready_match(id, &b).unwrap().is_some());
    assert!(reg.ready_match(id, &a).unwrap().is_none());
    assert!(reg.ready_match(id, &b).unwrap().is_none());
}

#[test]
fn cancel_by_last_player_removes_match() {
    let mut reg = Registry::new(30000, 31000);
    let a = user("A");
    let id = reg.create_match(request("soccer", 50), user("A"), 0).unwrap().id;
    reg.cancel_match(id, &a).unwrap();
    assert!(matches!(reg.get_match(id, &a), Err(MatchError::NotFound(_))));
}

#[test]
fn cancel_of_full_match_is_invalid_input() {
    let mut reg = Registry::new(30000, 31000);
    let a = user("A");
    let id = reg.create_match(request("soccer", 2), user("A"), 0).unwrap().id;
    reg.subscribe_updates(id, &a).unwrap();
    reg.join_match(id, &user("B")).unwrap();
    assert!(matches!(reg.cancel_match(id, &a), Err(MatchError::InvalidInput(_))));
}

#[test]
fn cancel_by_stranger_is_invalid_input() {
    let mut reg = Registry::new(30000, 31000);
    let id = reg.create_match(request("soccer", 2), user("A"), 0).unwrap().id;
    assert!(matches!(reg.cancel_match(id, &user("Z")), Err(MatchError::InvalidInput(_))));
}

#[test]
fn cancel_unknown_id_is_not_found() {
    let mut reg = Registry::new(30000, 31000);
    assert!(matches!(reg.cancel_match(5, &user("A")), Err(MatchError::NotFound(_))));
}

#[test]
fn sole_player_ready_plays_but_orders_no_handoff() {
    let mut reg = Registry::new(30000, 31000);
    let a = user("A");
    let id = reg.create_match(request("soccer", 2), user("A"), 0).unwrap().id;
    reg.subscribe_updates(id, &a).unwrap();
    // all flags of the one-player roster are set, so the match plays,
    // but a hand-off needs two players and is not ordered
    assert!(reg.ready_match(id, &a).unwrap().is_none());
    assert!(matches!(reg.get_match(id, &a).unwrap().state, MatchState::PLAYING));
}

#[test]
fn created_ids_are_distinct() {
    let mut reg = Registry::new(30000, 31000);
    let first = reg.create_match(request("soccer", 2), user("A"), 0).unwrap().id;
    let second = reg.create_match(request("soccer", 2), user("B"), 0).unwrap().id;
    assert_ne!(first, second);
}
