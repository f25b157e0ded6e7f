//! The bearer token of one invocation and the header derived from it.

use vstd::prelude::*;
use vstd::string::*;

verus! {

/// Why no authorization context could be made.
#[derive(Clone, Copy, Debug, PartialEq, Eq, Structural)]
pub enum AuthError {
    /// Neither the command line nor the credential store gave a token, or the
    /// token given is empty.
    MissingToken,
}

/// The value of the authorization header for `token`.
pub open spec fn bearer(token: Seq<char>) -> Seq<char> {
    "Bearer "@ + token
}

/// The token that a command uses: the one given on the command line where
/// there is one, else the stored one.
pub open spec fn chosen_token(flag: Option<String>, stored: Option<String>) -> Option<String> {
    if flag.is_some() {
        flag
    } else {
        stored
    }
}

/// A bearer token with the header value that carries it.
#[derive(Clone, Debug)]
pub struct AuthContext {
    pub token: String,
    pub authorization: String,
}

impl AuthContext {
    /// The token is not empty and the header is derived from it.
    pub open spec fn wf(&self) -> bool {
        &&& self.token@.len() > 0
        &&& self.authorization@ == bearer(self.token@)
    }
}

/// Builds the authorization context for `token`, which must not be empty.
pub fn authorization_headers(token: &str) -> (outcome: Result<AuthContext, AuthError>)
    ensures
        token@.len() == 0 <==> outcome == Err::<AuthContext, AuthError>(AuthError::MissingToken),
        outcome matches Ok(context) ==> context.wf() && context.token@ == token@,
{
    if token.unicode_len() == 0 {
        return Err(AuthError::MissingToken);
    }
    let authorization = String::from_str("Bearer ").concat(token);
    Ok(AuthContext { token: String::from_str(token), authorization })
}

/// Picks the token of an invocation: `flag` overrides `stored`. Fails where
/// neither is there.
pub fn select_token(flag: Option<String>, stored: Option<String>) -> (outcome: Result<
    String,
    AuthError,
>)
    ensures
        match chosen_token(flag, stored) {
            Some(token) => outcome == Ok::<String, AuthError>(token),
            None => outcome == Err::<String, AuthError>(AuthError::MissingToken),
        },
{
    match flag {
        Some(token) => Ok(token),
        None => match stored {
            Some(token) => Ok(token),
            None => Err(AuthError::MissingToken),
        },
    }
}

} // verus!
