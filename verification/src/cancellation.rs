//! Cancellation tokens, taken from `tokio_util`.

use tokio_util::sync::CancellationToken;
use vstd::prelude::*;

verus! {

/// A cancellation token of `tokio_util`: a handle on a cancellation signal that several holders
/// share. Two tokens are equal here where they share one signal. Whether the signal was given
/// is no part of the token's value, since another holder may give it at any time.
#[verifier::external_type_specification]
#[verifier::external_body]
pub struct ExCancellationToken(CancellationToken);

/// `CancellationToken::new` makes a token with a signal of its own, not yet given. The signal's
/// state is not part of a token's value, so nothing is claimed.
pub assume_specification[ CancellationToken::new ]() -> (token: CancellationToken)
;

/// `Clone` of `CancellationToken`: the copy shares the signal of the original.
pub assume_specification[ <CancellationToken as Clone>::clone ](token: &CancellationToken) -> (copy:
    CancellationToken)
    ensures
        copy == *token,
;

/// `CancellationToken::cancel` gives the signal to every holder. The signal's state is not part
/// of a token's value, so nothing is claimed.
pub assume_specification[ CancellationToken::cancel ](token: &CancellationToken)
;

/// `CancellationToken::is_cancelled` reads whether the signal was given by now. Any holder may
/// give it at any time, so nothing is claimed of the answer.
pub assume_specification[ CancellationToken::is_cancelled ](token: &CancellationToken) -> (given:
    bool)
;

/// The copy of an optional token.
pub fn clone_optional(token: &Option<CancellationToken>) -> (copy: Option<CancellationToken>)
    ensures
        copy == *token,
{
    match token {
        Some(t) => Some(t.clone()),
        None => None,
    }
}

} // verus!
