//! Tokens that cancel the tasks which hold them.
use vstd::prelude::*;

use tokio_util::sync::CancellationToken;

verus! {

/// A token that a task watches for its cancellation.
#[verifier::external_type_specification]
#[verifier::external_body]
pub struct ExCancellationToken(tokio_util::sync::CancellationToken);

/// Shows that a token is cancelled. Nothing but cancelling a token, or seeing that it was
/// cancelled, gives it; a token that is cancelled stays so.
pub struct Cancellation {
    token: Ghost<CancellationToken>,
}

impl Cancellation {
    /// The token that is cancelled.
    pub closed spec fn token(&self) -> CancellationToken {
        self.token@
    }
}

impl Clone for Cancellation {
    fn clone(&self) -> (copy: Self)
        ensures
            copy == *self,
    {
        Cancellation { token: Ghost(self.token@) }
    }
}

/// Shows that a token was looked at, and was not cancelled then. Nothing but looking gives
/// it.
pub struct Uncancelled {
    token: Ghost<CancellationToken>,
}

impl Uncancelled {
    /// The token that was not cancelled.
    pub closed spec fn token(&self) -> CancellationToken {
        self.token@
    }
}

/// Shows that a token was made new. Nothing but making one gives it.
pub struct Issue {
    token: Ghost<CancellationToken>,
}

impl Issue {
    /// The token that was made.
    pub closed spec fn token(&self) -> CancellationToken {
        self.token@
    }
}

/// Calls `CancellationToken::new`, which makes a token that is not cancelled and that no task
/// holds yet. It is handed out with the issue that shows where it comes from.
#[verifier::external_body]
pub(crate) fn new_token() -> (made: (CancellationToken, Issue))
    ensures
        made.1.token() == made.0,
{
    let token = CancellationToken::new();
    let ghost made = token;
    (token, Issue { token: Ghost(made) })
}

/// Calls `CancellationToken::clone`: the copy is the same token, and is cancelled with it.
#[verifier::external_body]
pub(crate) fn share_token(token: &CancellationToken) -> (copy: CancellationToken)
    ensures
        copy == *token,
{
    token.clone()
}

/// Calls `CancellationToken::cancel`, which cancels the token for every holder, and hands out
/// what shows that this token is cancelled.
#[verifier::external_body]
pub(crate) fn cancel_token(token: &CancellationToken) -> (cancellation: Cancellation)
    ensures
        cancellation.token() == *token,
{
    token.cancel();
    Cancellation { token: Ghost(*token) }
}

/// Calls `CancellationToken::is_cancelled`, and hands out what shows that this token is
/// cancelled, or that it was found not to be. Which of the two depends on what other holders
/// of the token have done, so that is not stated.
#[verifier::external_body]
pub(crate) fn seen_cancelled(token: &CancellationToken) -> (seen: Result<
    Cancellation,
    Uncancelled,
>)
    ensures
        match seen {
            Ok(cancellation) => cancellation.token() == *token,
            Err(uncancelled) => uncancelled.token() == *token,
        },
{
    let found = token.is_cancelled().then_some(Cancellation { token: Ghost(*token) });
    found.ok_or(Uncancelled { token: Ghost(*token) })
}

} // verus!
