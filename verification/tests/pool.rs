use matchmaker::registry::Registry;
use matchmaker::request::MatchRequest;
use matchmaker::user::User;
use matchmaker::utils::NumberPool;

fn user(name: &str) -> User {
    User {
        id: 1,
        username: String::from(name),
        auth_token: format!("{}-token", name),
        balance: 1000,
    }
}

fn request(game_type: &str, prize: u32) -> MatchRequest {
    MatchRequest { prize, game_type: String::from(game_type) }
}

#[test]
fn pool_hands_out_in_order_and_never_twice() {
    let mut pool = NumberPool::new(10..13);
    let first = pool.get().unwrap();
    let second = pool.get().unwrap();
    let third = pool.get().unwrap();
    assert_eq!(first, 10);
    assert_eq!(second, 11);
    assert_eq!(third, 12);
    assert_ne!(first, second);
    assert_ne!(second, third);
    assert!(pool.get().is_none());
}

#[test]
fn released_number_reenters_exactly_once() {
    let mut pool = NumberPool::new(10..12);
    let first = pool.get().unwrap();
    pool.release(first);
    assert_eq!(pool.get().unwrap(), 11);
    assert_eq!(pool.get().unwrap(), first);
    assert!(pool.get().is_none());
}

#[test]
fn empty_range_pool_is_exhausted() {
    let mut pool = NumberPool::new(5..5);
    assert!(pool.get().is_none());
}

#[test]
fn cancelled_match_port_is_reused_by_create() {
    let mut reg = Registry::new(30000, 30001);
    let a = user("A");
    let first = reg.create_match(request("soccer", 2), user("A"), 0).unwrap();
    assert_eq!(first.port, 30000);
    // the one port is out: another create is refused
    assert!(reg.create_match(request("soccer", 2), user("B"), 0).is_err());
    reg.cancel_match(first.id, &a).unwrap();
    let second = reg.create_match(request("soccer", 2), user("B"), 0).unwrap();
    assert_eq!(second.port, 30000);
}
