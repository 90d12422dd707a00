//! Session-token acquisition: the decision on the auth endpoint's answer.
//!
//! The HTTP exchange itself is the embedding runtime's job; what it parses
//! out of the response — the success flag and whatever token or message came
//! with it — is decided here. Without a token the orchestrator cannot start
//! an attempt, so a failed or incomplete answer becomes the error shown to
//! the caller.

use vstd::prelude::*;
use vstd::string::*;

verus! {

/// Decide the outcome of an authentication exchange from the response's
/// fields: a successful response yields its token (or an empty token when
/// the server sent none), a failed one yields its message, or the stock
/// cause when the server sent no message.
pub fn authenticate_outcome(success: bool, token: Option<String>, msg: Option<String>) -> (r:
    Result<String, String>)
    ensures
        success ==> r is Ok,
        !success ==> r is Err,
        (match (success, token) {
            (true, Some(t)) => r matches Ok(v) && v@ == t@,
            (true, None) => r matches Ok(v) && v@ == Seq::<char>::empty(),
            _ => true,
        }),
        (match (success, msg) {
            (false, Some(m)) => r matches Err(v) && v@ == m@,
            (false, None) => r matches Err(v) && v@ == "Authentication failed"@,
            _ => true,
        }),
{
    if success {
        match token {
            Some(t) => Ok(t),
            None => Ok(String::new()),
        }
    } else {
        match msg {
            Some(m) => Err(m),
            None => {
                let mut r = String::new();
                r.append("Authentication failed");
                Err(r)
            },
        }
    }
}

} // verus!
