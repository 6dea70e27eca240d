//! The ledger host, as far as the checks need it: the ledger's clock and the host's byte arrays.
//!
//! What stands here is taken from `soroban_sdk` as stated and not proved. It describes calls that
//! return: a host ends the run of a contract whose resource budget is spent.
use soroban_sdk::ledger::Ledger;
use soroban_sdk::{Bytes, Env};
use vstd::prelude::*;

verus! {

/// `soroban_sdk::Env`, the handle through which a contract reaches the host.
#[verifier::external_type_specification]
#[verifier::external_body]
pub struct ExEnv(soroban_sdk::Env);

/// `soroban_sdk::Bytes`, a handle to a byte array that the host keeps.
#[verifier::external_type_specification]
#[verifier::external_body]
pub struct ExBytes(soroban_sdk::Bytes);

/// `soroban_sdk::ledger::Ledger`, a handle to the current ledger.
#[verifier::external_type_specification]
#[verifier::external_body]
pub struct ExLedger(soroban_sdk::ledger::Ledger);

/// The bytes of the host array that `bytes` refers to.
///
/// Host objects never change: an operation that grows a `Bytes` makes a new host object and points
/// the handle at it. So the bytes are a function of the handle.
pub uninterp spec fn byte_contents(bytes: Bytes) -> Seq<u8>;

/// `soroban_sdk::Bytes::new` makes an empty array.
pub assume_specification[ soroban_sdk::Bytes::new ](env: &Env) -> (bytes: Bytes)
    ensures
        byte_contents(bytes) == Seq::<u8>::empty(),
;

/// `soroban_sdk::Bytes::extend_from_slice` appends the bytes of `slice`.
///
/// The host counts positions in 32 bits and traps where the array would outgrow them.
pub assume_specification[ soroban_sdk::Bytes::extend_from_slice ](bytes: &mut Bytes, slice: &[u8])
    requires
        byte_contents(*old(bytes)).len() + slice@.len() <= u32::MAX,
    ensures
        byte_contents(*final(bytes)) == byte_contents(*old(bytes)) + slice@,
;

/// `soroban_sdk::Bytes::extend_from_array` appends the bytes of `array`.
///
/// The host counts positions in 32 bits and traps where the array would outgrow them.
pub assume_specification<const N: usize>[ soroban_sdk::Bytes::extend_from_array::<N> ](
    bytes: &mut Bytes,
    array: &[u8; N],
)
    requires
        byte_contents(*old(bytes)).len() + array@.len() <= u32::MAX,
    ensures
        byte_contents(*final(bytes)) == byte_contents(*old(bytes)) + array@,
;

/// `soroban_sdk::Env::ledger` gives a handle to the current ledger.
///
/// Nothing is claimed of the handle.
pub assume_specification[ soroban_sdk::Env::ledger ](env: &Env) -> (ledger: Ledger)
;

/// `soroban_sdk::ledger::Ledger::timestamp` gives the close time of the current ledger in seconds
/// since the Unix epoch.
///
/// Nothing is claimed of the time: it is the host's clock, and the same handle gives another time
/// once the ledger has moved on. The host has a current ledger whenever a contract runs.
pub assume_specification[ soroban_sdk::ledger::Ledger::timestamp ](ledger: &Ledger) -> (now: u64)
;

/// Whether `now` is a time that the clock of the host behind `env` gives.
pub open spec fn is_ledger_time(env: &Env, now: u64) -> bool {
    exists|ledger: Ledger| #[trigger]
        call_ensures(Env::ledger, (env,), ledger) && call_ensures(
            Ledger::timestamp,
            (&ledger,),
            now,
        )
}

/// Reads the close time of the current ledger from the host.
pub fn ledger_time(env: &Env) -> (now: u64)
    ensures
        is_ledger_time(env, now),
        exists|ledger: Ledger| #[trigger]
            call_ensures(Env::ledger, (env,), ledger) && call_ensures(
                Ledger::timestamp,
                (&ledger,),
                now,
            ),
{
    let ledger: Ledger = env.ledger();
    ledger.timestamp()
}

} // verus!
