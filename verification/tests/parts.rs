use matchmaker::error::{
    CannotBroadcastError, CannotJoinMatchError, IdGenerationError, InvalidInputError, MatchError,
    NoAvailablePorts, NotFoundError, UnauthorizedError,
};
use matchmaker::info::get_max_players_for_game;
use matchmaker::runner::{fold_exit_code, launch_args, settle_exit, u32_to_decimal, GameOutcome,
    LaunchParams};
use matchmaker::simulation::{lookup_flag, parse_args};
use matchmaker::user::authenticate;
use matchmaker::utils::game_type_to_path;
use matchmaker::validation::{
    validate_game_type, validate_prize_amount, match_type_to_max_players,
    match_type_to_min_players,
};

#[test]
fn game_types_and_prizes_are_enumerated() {
    assert!(validate_game_type(&String::from("soccer")));
    assert!(validate_game_type(&String::from("knockout")));
    assert!(!validate_game_type(&String::from("chess")));
    assert!(!validate_game_type(&String::from("")));
    for p in [2u32, 5, 10, 25, 50] {
        assert!(validate_prize_amount(&p));
    }
    assert!(!validate_prize_amount(&3));
    assert!(!validate_prize_amount(&0));
}

#[test]
fn roster_bounds_per_game_type() {
    assert_eq!(get_max_players_for_game(&String::from("soccer")), 2);
    assert_eq!(get_max_players_for_game(&String::from("knockout")), 2);
    assert_eq!(get_max_players_for_game(&String::from("chess")), 0);
    assert_eq!(match_type_to_max_players(&String::from("soccer")), 2);
    assert_eq!(match_type_to_min_players(&String::from("knockout")), 2);
    assert_eq!(match_type_to_min_players(&String::from("other")), 0);
}

#[test]
fn game_type_paths() {
    assert_eq!(game_type_to_path(&String::from("knockout")), "knockout/KnockoutGame.x86_64");
    assert_eq!(game_type_to_path(&String::from("soccer")), "");
    assert_eq!(game_type_to_path(&String::from("chess")), "");
}

#[test]
fn decimal_rendering() {
    assert_eq!(u32_to_decimal(0), "0");
    assert_eq!(u32_to_decimal(7), "7");
    assert_eq!(u32_to_decimal(30000), "30000");
    assert_eq!(u32_to_decimal(u32::MAX), "4294967295");
}

#[test]
fn launch_argument_protocol() {
    let p = LaunchParams {
        game_type: String::from("knockout"),
        port: 30005,
        player_one: String::from("A"),
        player_one_token: String::from("ta"),
        player_two: String::from("B"),
        player_two_token: String::from("tb"),
    };
    let args = launch_args(&p);
    let expected = vec![
        "-port", "30005", "-username1", "A", "-player1token", "ta", "-username2", "B",
        "-player2token", "tb",
    ];
    assert_eq!(args, expected);
}

#[test]
fn exit_codes_fold_and_settle() {
    assert_eq!(fold_exit_code(Some(1001)), 1001);
    assert_eq!(fold_exit_code(Some(1002)), 1002);
    assert_eq!(fold_exit_code(Some(1000)), 1000);
    assert_eq!(fold_exit_code(Some(7)), 1000);
    assert_eq!(fold_exit_code(None), 1000);
    assert!(matches!(settle_exit(Some(1001)), GameOutcome::PlayerOneWon));
    assert!(matches!(settle_exit(Some(1002)), GameOutcome::PlayerTwoWon));
    assert!(matches!(settle_exit(Some(1000)), GameOutcome::Aborted));
    assert!(matches!(settle_exit(Some(-1)), GameOutcome::Aborted));
    assert!(matches!(settle_exit(None), GameOutcome::Aborted));
}

#[test]
fn bearer_token_becomes_the_user() {
    let u = authenticate(Some(String::from("Bearer abc"))).unwrap();
    assert_eq!(u.username, "abc");
    assert_eq!(u.auth_token, "abc");
    assert_eq!(u.id, 1);
    assert_eq!(u.balance, 1000);
}

#[test]
fn missing_or_malformed_credential_is_unauthorized() {
    assert!(matches!(authenticate(None), Err(MatchError::Unauthorized(_))));
    assert!(matches!(
        authenticate(Some(String::from("Basic abc"))),
        Err(MatchError::Unauthorized(_))
    ));
    assert!(matches!(
        authenticate(Some(String::from("Bearer"))),
        Err(MatchError::Unauthorized(_))
    ));
}

#[test]
fn status_codes_and_messages() {
    let cases = [
        (MatchError::NotFound(NotFoundError), 404, "Match not found"),
        (MatchError::Unauthorized(UnauthorizedError), 401, "Unauthorized"),
        (MatchError::InvalidInput(InvalidInputError), 400, "Invalid input"),
        (MatchError::CannotJoinMatch(CannotJoinMatchError), 403, "Cannot join selected match"),
        (MatchError::CannotBroadcast(CannotBroadcastError), 500, "Broadcasting failed"),
        (MatchError::IdGeneration(IdGenerationError), 500, "ID generation failed"),
        (MatchError::NoAvailablePorts(NoAvailablePorts), 500, "No available ports"),
    ];
    for (err, code, message) in cases {
        assert_eq!(err.status_code(), code);
        assert_eq!(err.message(), message);
    }
}

#[test]
fn launch_arguments_parse_back() {
    let args: Vec<String> = ["game", "-port", "30000", "-username1", "A", "-player1token", "ta"]
        .iter()
        .map(|s| String::from(*s))
        .collect();
    let pairs = parse_args(&args).unwrap();
    assert_eq!(pairs.len(), 3);
    assert_eq!(lookup_flag(&pairs, "-port").unwrap(), "30000");
    assert_eq!(lookup_flag(&pairs, "-username1").unwrap(), "A");
    assert_eq!(lookup_flag(&pairs, "-player1token").unwrap(), "ta");
    assert!(lookup_flag(&pairs, "-username2").is_none());
}

#[test]
fn repeated_flag_takes_the_last_value() {
    let args: Vec<String> = ["game", "-port", "1", "-port", "2"]
        .iter()
        .map(|s| String::from(*s))
        .collect();
    let pairs = parse_args(&args).unwrap();
    assert_eq!(lookup_flag(&pairs, "-port").unwrap(), "2");
}

#[test]
fn malformed_launch_arguments_are_rejected() {
    let missing_value: Vec<String> =
        ["game", "-port"].iter().map(|s| String::from(*s)).collect();
    assert!(parse_args(&missing_value).is_none());
    let bare_value: Vec<String> =
        ["game", "30000", "-port"].iter().map(|s| String::from(*s)).collect();
    assert!(parse_args(&bare_value).is_none());
    let empty: Vec<String> = Vec::new();
    assert!(parse_args(&empty).is_none());
    let program_only: Vec<String> = vec![String::from("game")];
    assert_eq!(parse_args(&program_only).unwrap().len(), 0);
}
