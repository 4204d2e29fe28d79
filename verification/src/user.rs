//! The authenticated caller, resolved from the bearer credential header.

use vstd::prelude::*;
use vstd::string::StrSliceExecFns;
use crate::error::{MatchError, UnauthorizedError};

verus! {

/// The caller of a registry operation.
pub struct User {
    pub id: u64,
    pub username: String,
    pub auth_token: String,
    pub balance: u64,
}

/// Whether a credential header carries the accepted scheme.
pub open spec fn spec_bearer_prefix(s: Seq<char>) -> bool {
    s.len() >= 7 && s.subrange(0, 7) == "Bearer "@
}

/// Resolves the caller from the optional credential header. The scheme
/// must be present; past that, any bearer token is trusted as it stands:
/// the token itself becomes the caller's name and session credential.
pub fn authenticate(auth_header: Option<String>) -> (r: Result<User, MatchError>)
    ensures
        match auth_header {
            None => r == Err::<User, MatchError>(
                MatchError::Unauthorized(UnauthorizedError),
            ),
            Some(h) => if spec_bearer_prefix(h@) {
                r matches Ok(u) && u.id == 1 && u.balance == 1000 && u.username@ == h@.skip(7)
                    && u.auth_token@ == h@.skip(7)
            } else {
                r == Err::<User, MatchError>(MatchError::Unauthorized(UnauthorizedError))
            },
        },
{
    match auth_header {
        None => Err(MatchError::Unauthorized(UnauthorizedError)),
        Some(h) => {
            let s = h.as_str();
            let n = s.unicode_len();
            if n < 7 {
                return Err(MatchError::Unauthorized(UnauthorizedError));
            }
            let scheme_ok = s.get_char(0) == 'B' && s.get_char(1) == 'e' && s.get_char(2) == 'a'
                && s.get_char(3) == 'r' && s.get_char(4) == 'e' && s.get_char(5) == 'r'
                && s.get_char(6) == ' ';
            proof {
                reveal_strlit("Bearer ");
            }
            if !scheme_ok {
                proof {
                    if spec_bearer_prefix(h@) {
                        let p = h@.subrange(0, 7);
                        assert(p == "Bearer "@);
                        assert(h@[0] == p[0] && h@[1] == p[1] && h@[2] == p[2] && h@[3] == p[3]
                            && h@[4] == p[4] && h@[5] == p[5] && h@[6] == p[6]);
                        assert(h@[0] == 'B' && h@[1] == 'e' && h@[2] == 'a' && h@[3] == 'r'
                            && h@[4] == 'e' && h@[5] == 'r' && h@[6] == ' ');
                        assert(false);
                    }
                }
                return Err(MatchError::Unauthorized(UnauthorizedError));
            }
            proof {
                assert(h@.subrange(0, 7) =~= "Bearer "@);
            }
            let token = s.substring_char(7, n);
            let username = String::from_str(token);
            let auth_token = String::from_str(token);
            proof {
                assert(token@ =~= h@.skip(7));
            }
            Ok(User { id: 1, username, auth_token, balance: 1000 })
        },
    }
}

} // verus!
