//! The outside types and calls this library relies on: uuid, chrono and
//! tokio's broadcast channel. Opening and sending on a topic's channel are
//! `open_topic` and `Router::send_on`, beside the registry they fill.

use tokio::sync::broadcast::{Receiver, Sender};
use vstd::prelude::*;

verus! {

/// A universally unique identifier, carried through unchanged.
#[verifier::external_type_specification]
#[verifier::external_body]
pub struct ExUuid(uuid::Uuid);

/// The sending half of a tokio broadcast channel.
#[verifier::external_type_specification]
#[verifier::external_body]
#[verifier::reject_recursive_types(T)]
pub struct ExSender<T>(Sender<T>);

/// The receiving half of a tokio broadcast channel.
#[verifier::external_type_specification]
#[verifier::external_body]
#[verifier::reject_recursive_types(T)]
pub struct ExReceiver<T>(Receiver<T>);

/// Relies on the derived Clone of uuid::Uuid, a Copy type: the copy is the
/// same identifier. The derived Clone of `Message` calls it.
pub assume_specification[ <uuid::Uuid as Clone>::clone ](u: &uuid::Uuid) -> (r: uuid::Uuid)
    ensures
        r == *u,
;

/// Relies on uuid::Uuid::new_v4: a random version-4 identifier. Nothing is
/// promised of its value.
pub assume_specification[ uuid::Uuid::new_v4 ]() -> uuid::Uuid;

/// Relies on chrono's `From<SystemTime> for DateTime<Utc>` and
/// `DateTime::timestamp`: the clock's time in whole seconds since the Unix
/// epoch, negative for a clock set before it. It depends on the clock, so
/// nothing is promised of its value.
#[verifier::external_body]
pub(crate) fn now_timestamp() -> i64 {
    chrono::DateTime::<chrono::Utc>::from(std::time::SystemTime::now()).timestamp()
}

/// Relies on tokio::sync::broadcast::Sender::subscribe: a new receiver that
/// sees the values sent after this call. tokio panics once `usize::MAX >> 2`
/// receivers of one channel are alive, a count that live handles cannot reach
/// in memory.
pub assume_specification<T>[ Sender::<T>::subscribe ](s: &Sender<T>) -> Receiver<T>;

} // verus!
