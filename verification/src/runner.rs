//! What the hand-off to the external game-server process consists of: the
//! launch parameters, the argument list handed to the executable, and the
//! reading of its exit status.

use vstd::prelude::*;
use vstd::string::StringExecFns;

verus! {

/// Everything the external game-server process is launched with.
pub struct LaunchParams {
    pub game_type: String,
    pub port: u32,
    pub player_one: String,
    pub player_one_token: String,
    pub player_two: String,
    pub player_two_token: String,
}

/// How a finished game is settled, read off the process's exit status.
#[derive(Clone, Copy, Debug, PartialEq, Eq, Structural)]
pub enum GameOutcome {
    PlayerOneWon,
    PlayerTwoWon,
    Aborted,
}

/// The digit character for one decimal digit.
pub open spec fn spec_digit_char(d: int) -> char {
    if d == 0 {
        '0'
    } else if d == 1 {
        '1'
    } else if d == 2 {
        '2'
    } else if d == 3 {
        '3'
    } else if d == 4 {
        '4'
    } else if d == 5 {
        '5'
    } else if d == 6 {
        '6'
    } else if d == 7 {
        '7'
    } else if d == 8 {
        '8'
    } else {
        '9'
    }
}

/// The decimal digits of a positive number; empty for zero.
pub open spec fn spec_decimal(n: int) -> Seq<char>
    decreases n,
{
    if n <= 0 {
        Seq::empty()
    } else {
        spec_decimal(n / 10).push(spec_digit_char(n % 10))
    }
}

/// The decimal rendering of a number, with zero written as one digit.
pub open spec fn spec_u32_decimal(n: u32) -> Seq<char> {
    if n == 0 {
        seq!['0']
    } else {
        spec_decimal(n as int)
    }
}

fn digit_str(d: u32) -> (r: &'static str)
    requires
        d < 10,
    ensures
        r@ == seq![spec_digit_char(d as int)],
{
    let r: &'static str = match d {
        0 => "0",
        1 => "1",
        2 => "2",
        3 => "3",
        4 => "4",
        5 => "5",
        6 => "6",
        7 => "7",
        8 => "8",
        _ => "9",
    };
    proof {
        reveal_strlit("0");
        reveal_strlit("1");
        reveal_strlit("2");
        reveal_strlit("3");
        reveal_strlit("4");
        reveal_strlit("5");
        reveal_strlit("6");
        reveal_strlit("7");
        reveal_strlit("8");
        reveal_strlit("9");
        assert(r@ =~= seq![spec_digit_char(d as int)]);
    }
    r
}

fn decimal_digits(n: u32) -> (r: String)
    ensures
        r@ == spec_decimal(n as int),
    decreases n,
{
    if n == 0 {
        String::new()
    } else {
        let mut s = decimal_digits(n / 10);
        s.append(digit_str(n % 10));
        proof {
            assert(s@ =~= spec_decimal(n as int));
        }
        s
    }
}

/// Renders a number in decimal.
pub fn u32_to_decimal(n: u32) -> (r: String)
    ensures
        r@ == spec_u32_decimal(n),
{
    if n == 0 {
        let r = String::from_str("0");
        proof {
            reveal_strlit("0");
            assert(r@ =~= seq!['0']);
        }
        r
    } else {
        decimal_digits(n)
    }
}

/// The argument list the game-server executable is launched with: the port
/// and each player's identity and session credential, as flagged pairs.
pub fn launch_args(p: &LaunchParams) -> (args: Vec<String>)
    ensures
        args@.len() == 10,
        args@[0]@ == "-port"@,
        args@[1]@ == spec_u32_decimal(p.port),
        args@[2]@ == "-username1"@,
        args@[3]@ == p.player_one@,
        args@[4]@ == "-player1token"@,
        args@[5]@ == p.player_one_token@,
        args@[6]@ == "-username2"@,
        args@[7]@ == p.player_two@,
        args@[8]@ == "-player2token"@,
        args@[9]@ == p.player_two_token@,
{
    let mut args: Vec<String> = Vec::new();
    args.push(String::from_str("-port"));
    args.push(u32_to_decimal(p.port));
    args.push(String::from_str("-username1"));
    args.push(p.player_one.clone());
    args.push(String::from_str("-player1token"));
    args.push(p.player_one_token.clone());
    args.push(String::from_str("-username2"));
    args.push(p.player_two.clone());
    args.push(String::from_str("-player2token"));
    args.push(p.player_two_token.clone());
    args
}

/// Folds an exit status into the externally defined code set: a missing or
/// unknown code counts as an abort.
pub fn fold_exit_code(code: Option<i32>) -> (r: i32)
    ensures
        r == match code {
            Some(c) => if c == 1001 || c == 1002 {
                c
            } else {
                1000
            },
            None => 1000,
        },
{
    match code {
        Some(c) => if c == 1001 || c == 1002 {
            c
        } else {
            1000
        },
        None => 1000,
    }
}

/// How the settled outcome reads: code 1001 means player one won, 1002
/// means player two won, and anything else — a missing code included — is
/// an abort that refunds both players.
pub open spec fn spec_outcome(code: Option<i32>) -> GameOutcome {
    match code {
        Some(c) => if c == 1001 {
            GameOutcome::PlayerOneWon
        } else if c == 1002 {
            GameOutcome::PlayerTwoWon
        } else {
            GameOutcome::Aborted
        },
        None => GameOutcome::Aborted,
    }
}

/// Settles a finished process's exit status into an outcome.
pub fn settle_exit(code: Option<i32>) -> (r: GameOutcome)
    ensures
        r == spec_outcome(code),
{
    match code {
        Some(c) => if c == 1001 {
            GameOutcome::PlayerOneWon
        } else if c == 1002 {
            GameOutcome::PlayerTwoWon
        } else {
            GameOutcome::Aborted
        },
        None => GameOutcome::Aborted,
    }
}

} // verus!
