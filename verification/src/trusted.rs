//! Declarations for the outside items the session core works with, and thin
//! wrappers around the calls it makes into them.  Each wrapper's doc comment
//! names the outside function relied on.

use vstd::prelude::*;

verus! {

/// Relies on `String`'s `FromIterator<char>` impl (through
/// `Iterator::collect`): collecting characters yields the string made of
/// exactly those characters, in order.
#[verifier::external_body]
pub fn string_from_chars(v: &Vec<char>) -> (s: String)
    ensures
        s@ == v@,
{
    v.iter().collect()
}

#[verifier::external_type_specification]
#[verifier::external_body]
pub struct ExCancellationToken(tokio_util::sync::CancellationToken);

/// Relies on `tokio_util::sync::CancellationToken::new`: creates a fresh
/// token in the non-cancelled state, unrelated to any existing token.
#[verifier::external_body]
pub fn new_cancellation_token() -> tokio_util::sync::CancellationToken {
    tokio_util::sync::CancellationToken::new()
}

/// Relies on `tokio_util::sync::CancellationToken::cancel`: signals the
/// token and all of its clones, waking every task waiting on it.
#[verifier::external_body]
pub fn signal_cancellation(token: &tokio_util::sync::CancellationToken) {
    token.cancel()
}

} // verus!
