//! The one-shot cancellation signal of a running download, and the sources
//! of fresh identifiers and time stamps.

use vstd::prelude::*;

verus! {

/// `tokio::sync::oneshot::Sender`, the sending end of a one-shot channel,
/// as a type whose inside is not looked at.
#[verifier::external_type_specification]
#[verifier::external_body]
#[verifier::reject_recursive_types(T)]
pub struct ExSender<T>(tokio::sync::oneshot::Sender<T>);

/// `tokio::sync::oneshot::Receiver`, the receiving end of a one-shot
/// channel, as a type whose inside is not looked at.
#[verifier::external_type_specification]
#[verifier::external_body]
#[verifier::reject_recursive_types(T)]
pub struct ExReceiver<T>(tokio::sync::oneshot::Receiver<T>);

/// `tokio::sync::oneshot::error::RecvError`, as a type whose inside is not
/// looked at. Nothing here names it, but `Receiver` is a future that ends
/// in it, and Verus takes `Receiver` in a signature only when the types
/// of its trait impls are declared.
#[verifier::external_type_specification]
#[verifier::external_body]
pub struct ExRecvError(tokio::sync::oneshot::error::RecvError);

/// Calls `tokio::sync::oneshot::channel`: a sending and a receiving end that
/// belong together. Nothing is claimed of them.
#[verifier::external_body]
pub(crate) fn new_signal() -> (ends: (
    tokio::sync::oneshot::Sender<()>,
    tokio::sync::oneshot::Receiver<()>,
)) {
    tokio::sync::oneshot::channel()
}

/// Calls `Sender::send` with the unit value and drops what it returns: the
/// receiving end, if it still exists, wakes up. Nothing is claimed of it.
#[verifier::external_body]
pub(crate) fn fire(signal: tokio::sync::oneshot::Sender<()>) {
    let _ = signal.send(());
}

/// Calls `Uuid::new_v4` and formats the identifier with `to_string`: random,
/// so only its form is stated, the 36 characters of the hyphenated notation.
#[verifier::external_body]
pub(crate) fn random_id() -> (id: String)
    ensures
        id@.len() == 36,
{
    uuid::Uuid::new_v4().to_string()
}

/// Calls `chrono::Utc::now` and formats the moment with `to_rfc3339`. It
/// depends on the clock, so nothing is claimed of it.
#[verifier::external_body]
pub(crate) fn now_rfc3339() -> (stamp: String) {
    chrono::Utc::now().to_rfc3339()
}

} // verus!
