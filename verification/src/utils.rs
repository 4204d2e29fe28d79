//! Small shared helpers: string comparison, the game-type to executable
//! mapping, and the pool of reusable port numbers.

use vstd::prelude::*;
use vstd::string::StrSliceExecFns;

verus! {

/// Character-for-character equality of two string slices.
pub fn str_eq(a: &str, b: &str) -> (r: bool)
    ensures
        r == (a@ == b@),
{
    let n = a.unicode_len();
    if n != b.unicode_len() {
        return false;
    }
    let mut i: usize = 0;
    while i < n
        invariant
            i <= n,
            n == a@.len(),
            n == b@.len(),
            forall|j: int| 0 <= j < i ==> a@[j] == b@[j],
        decreases n - i,
    {
        if a.get_char(i) != b.get_char(i) {
            return false;
        }
        i += 1;
    }
    proof {
        assert(a@ =~= b@);
    }
    true
}

/// Where the executable for a game variant lives, relative to the builds
/// directory; unknown variants map to the empty path.
pub open spec fn spec_game_path(g: Seq<char>) -> Seq<char> {
    if g == "knockout"@ {
        "knockout/KnockoutGame.x86_64"@
    } else {
        ""@
    }
}

/// Resolves a game variant to the path of its game-server executable.
pub fn game_type_to_path(game_type: &String) -> (r: String)
    ensures
        r@ == spec_game_path(game_type@),
{
    if str_eq(game_type.as_str(), "knockout") {
        String::from_str("knockout/KnockoutGame.x86_64")
    } else {
        String::from_str("")
    }
}

/// A pool of reusable numbers (network ports). Numbers leave the pool at the
/// front and re-enter at the back, so a released number is reused last.
pub struct NumberPool {
    pub available: std::collections::VecDeque<u32>,
}

impl NumberPool {
    /// The pool never holds the same number twice: what was handed out is
    /// gone until released, and only outstanding numbers may be released.
    pub open spec fn wf(&self) -> bool {
        forall|i: int, j: int|
            0 <= i < j < self.available@.len() ==> self.available@[i] != self.available@[j]
    }

    /// Builds a pool holding every number of the range, in ascending order.
    pub fn new(range: std::ops::Range<u32>) -> (pool: NumberPool)
        ensures
            pool.available@.len() == if range.start <= range.end {
                (range.end - range.start) as int
            } else {
                0
            },
            forall|i: int|
                0 <= i < pool.available@.len() ==> pool.available@[i] == range.start + i,
            pool.wf(),
    {
        let mut available: std::collections::VecDeque<u32> = std::collections::VecDeque::new();
        let mut next: u32 = range.start;
        while next < range.end
            invariant
                range.start <= next,
                next <= range.end || next == range.start,
                available@.len() == next - range.start,
                forall|i: int| 0 <= i < available@.len() ==> available@[i] == range.start + i,
            decreases range.end - next,
        {
            available.push_back(next);
            next = next + 1;
        }
        NumberPool { available }
    }

    /// Hands out the number that has waited longest, or reports exhaustion.
    pub fn get(&mut self) -> (r: Option<u32>)
        ensures
            match r {
                Some(p) => {
                    &&& old(self).available@.len() > 0
                    &&& p == old(self).available@[0]
                    &&& final(self).available@ == old(self).available@.subrange(
                        1,
                        old(self).available@.len() as int,
                    )
                },
                None => {
                    &&& old(self).available@.len() == 0
                    &&& final(self).available@ == old(self).available@
                },
            },
            old(self).wf() ==> final(self).wf(),
    {
        self.available.pop_front()
    }

    /// Returns an outstanding number to the pool. Callers may only release a
    /// number the pool handed out and has not taken back, so it cannot
    /// already be present.
    pub fn release(&mut self, num: u32)
        requires
            !old(self).available@.contains(num),
        ensures
            final(self).available@ == old(self).available@.push(num),
            old(self).wf() ==> final(self).wf(),
    {
        self.available.push_back(num);
    }
}

} // verus!
