//! What is taken from other crates on trust: byte buffers, semaphores, locks and
//! random numbers.

use tokio::sync::{RwLock, Semaphore};
use tokio_util::bytes::Bytes;
use vstd::prelude::*;

use crate::topic_route::{PublishInfoTable, RouteTable};

verus! {

/// A cheaply shared, immutable run of bytes (`bytes::Bytes`).
#[verifier::external_type_specification]
#[verifier::external_body]
pub struct ExBytes(tokio_util::bytes::Bytes);

/// The bytes that a buffer holds. A buffer is never changed behind a shared
/// reference, so this is fixed for the value's life.
pub uninterp spec fn bytes_content(bytes: Bytes) -> Seq<u8>;

/// `Bytes::from(Vec<u8>)`: takes over the vector's storage; the buffer holds the
/// vector's bytes, in order.
#[verifier::external_body]
pub(crate) fn bytes_from_vec(data: Vec<u8>) -> (bytes: Bytes)
    ensures
        bytes_content(bytes) == data@,
{
    Bytes::from(data)
}

/// `Bytes::len`: the number of bytes that the buffer holds.
pub assume_specification[ Bytes::len ](bytes: &Bytes) -> (len: usize)
    ensures
        len == bytes_content(*bytes).len(),
;

/// `Bytes::clone`: another handle on the same bytes.
pub assume_specification[ <Bytes as Clone>::clone ](bytes: &Bytes) -> (copy: Bytes)
    ensures
        bytes_content(copy) == bytes_content(*bytes),
;

/// A counting semaphore for asynchronous tasks (`tokio::sync::Semaphore`).
#[verifier::external_type_specification]
#[verifier::external_body]
pub struct ExSemaphore(tokio::sync::Semaphore);

/// The number of permits that a semaphore was made with. How many are free at a
/// given moment is not said.
pub uninterp spec fn semaphore_permits(semaphore: Semaphore) -> nat;

/// The most permits a semaphore can hold (`Semaphore::MAX_PERMITS`, which is
/// `usize::MAX >> 3`).
pub open spec fn max_permits() -> nat {
    (usize::MAX / 8) as nat
}

/// `Semaphore::new`: a semaphore with this many permits. It panics above the
/// most it can hold, which the precondition leaves out.
pub assume_specification[ Semaphore::new ](permits: usize) -> (semaphore: Semaphore)
    requires
        permits <= max_permits(),
    ensures
        semaphore_permits(semaphore) == permits,
;

/// A lock for asynchronous tasks (`tokio::sync::RwLock`). Two equal values are the
/// same lock; what it guards at a given moment is not said.
#[verifier::external_type_specification]
#[verifier::external_body]
#[verifier::reject_recursive_types(T)]
pub struct ExRwLock<T: ?Sized>(tokio::sync::RwLock<T>);

/// The routes that a lock was made with. Which it guards later is not said.
pub uninterp spec fn routes_when_locked(lock: RwLock<PublishInfoTable>) -> RouteTable;

/// `RwLock::new`: a fresh lock that guards this table.
#[verifier::external_body]
pub(crate) fn lock_table(table: PublishInfoTable) -> (lock: RwLock<PublishInfoTable>)
    ensures
        routes_when_locked(lock) == table@,
{
    RwLock::new(table)
}

/// `rand::random::<u64>`: some number; nothing is promised of which.
#[verifier::external_body]
pub(crate) fn random_u64() -> (number: u64) {
    rand::random::<u64>()
}

} // verus!
