//! The game-server executable's side of the hand-off protocol: reading the
//! flagged argument pairs it is launched with. Flags map to values as a
//! map built by insertion does: of a repeated flag the last value counts.

use vstd::prelude::*;
use vstd::string::StrSliceExecFns;
use crate::utils::str_eq;

verus! {

/// A flag argument: it starts with a dash.
pub open spec fn spec_flag(s: Seq<char>) -> bool {
    s.len() >= 1 && s[0] == '-'
}

/// A well-formed argument vector: past the program name, flags and values
/// strictly alternate and every pair is complete.
pub open spec fn spec_args_ok(args: Seq<String>) -> bool {
    &&& args.len() % 2 == 1
    &&& forall|p: int| 1 <= p < args.len() && p % 2 == 1 ==> spec_flag((#[trigger] args[p])@)
}

fn starts_with_dash(s: &String) -> (r: bool)
    ensures
        r == spec_flag(s@),
{
    let slice = s.as_str();
    if slice.is_empty() {
        false
    } else {
        slice.get_char(0) == '-'
    }
}

/// Reads the launch arguments as flag/value pairs, the program name
/// skipped. A vector whose flags and values do not strictly alternate is
/// rejected as a whole.
pub fn parse_args(args: &Vec<String>) -> (r: Option<Vec<(String, String)>>)
    ensures
        match r {
            Some(pairs) => {
                &&& spec_args_ok(args@)
                &&& pairs@.len() == (args@.len() - 1) / 2
                &&& forall|j: int|
                    0 <= j < pairs@.len() ==> (#[trigger] pairs@[j]).0 == args@[2 * j + 1]
                        && pairs@[j].1 == args@[2 * j + 2]
            },
            None => !spec_args_ok(args@),
        },
{
    if args.len() == 0 {
        return None;
    }
    let mut pairs: Vec<(String, String)> = Vec::new();
    let mut i: usize = 1;
    while i < args.len()
        invariant
            1 <= i <= args@.len(),
            i % 2 == 1,
            pairs@.len() == (i - 1) / 2,
            forall|j: int|
                0 <= j < pairs@.len() ==> (#[trigger] pairs@[j]).0 == args@[2 * j + 1]
                    && pairs@[j].1 == args@[2 * j + 2],
            forall|p: int| 1 <= p < i && p % 2 == 1 ==> spec_flag((#[trigger] args@[p])@),
        decreases args@.len() - i,
    {
        if !starts_with_dash(&args[i]) {
            return None;
        }
        if i + 1 >= args.len() {
            proof {
                assert(args@.len() % 2 == 0);
            }
            return None;
        }
        pairs.push((args[i].clone(), args[i + 1].clone()));
        i += 2;
    }
    proof {
        assert(i == args@.len());
    }
    Some(pairs)
}

/// The value the flag maps to; of a repeated flag, the last value.
pub open spec fn spec_lookup(pairs: Seq<(String, String)>, key: Seq<char>) -> Option<Seq<char>>
    decreases pairs.len(),
{
    if pairs.len() == 0 {
        None
    } else if pairs.last().0@ == key {
        Some(pairs.last().1@)
    } else {
        spec_lookup(pairs.drop_last(), key)
    }
}

/// Looks a flag up among the parsed pairs.
pub fn lookup_flag(pairs: &Vec<(String, String)>, key: &str) -> (r: Option<String>)
    ensures
        match r {
            Some(v) => spec_lookup(pairs@, key@) == Some(v@),
            None => spec_lookup(pairs@, key@) is None,
        },
{
    let mut i: usize = pairs.len();
    proof {
        assert(pairs@.take(i as int) =~= pairs@);
    }
    while i > 0
        invariant
            i <= pairs@.len(),
            spec_lookup(pairs@, key@) == spec_lookup(pairs@.take(i as int), key@),
        decreases i,
    {
        i -= 1;
        proof {
            assert(pairs@.take(i + 1).drop_last() =~= pairs@.take(i as int));
            assert(pairs@.take(i + 1).last() == pairs@[i as int]);
        }
        if str_eq(pairs[i].0.as_str(), key) {
            return Some(pairs[i].1.clone());
        }
    }
    None
}

} // verus!
