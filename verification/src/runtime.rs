//! The boundary with the Solana runtime: the account key type, key comparison
//! and the cluster clock. Nothing in this file is proved; every contract here
//! is an assumption about `anchor_lang`.

use anchor_lang::prelude::Clock;
use anchor_lang::prelude::ProgramError;
use anchor_lang::prelude::Pubkey;
use anchor_lang::solana_program::sysvar::Sysvar;
use vstd::prelude::*;

verus! {

/// `Pubkey`, the 32-byte address of an account. Opaque to the verifier: keys
/// are carried through and compared, never taken apart.
#[verifier::external_type_specification]
#[verifier::external_body]
pub struct ExPubkey(Pubkey);

/// `ProgramError`, the error of a failed runtime call. Opaque to the verifier.
#[verifier::external_type_specification]
#[verifier::external_body]
pub struct ExProgramError(ProgramError);

/// Compares two keys with `Pubkey`'s `==`, which compares the 32 bytes.
/// Assumed: it answers `true` exactly when both are the same key.
#[verifier::external_body]
pub(crate) fn same_key(a: &Pubkey, b: &Pubkey) -> (same: bool)
    ensures
        same == (*a == *b),
{
    a == b
}

/// Reads the cluster clock with `Clock::get` and hands back its `slot` and
/// `unix_timestamp`. Nothing is assumed of the outcome: the clock changes from
/// call to call, and outside a running program the call fails.
#[verifier::external_body]
pub(crate) fn read_clock() -> (now: Result<(u64, i64), ProgramError>) {
    match Clock::get() {
        Ok(clock) => Ok((clock.slot, clock.unix_timestamp)),
        Err(e) => Err(e),
    }
}

} // verus!
