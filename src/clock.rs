//! The host clock.
use vstd::prelude::*;
use anchor_lang::prelude::{Clock, SolanaSysvar};
use anchor_lang::solana_program::program_error::ProgramError;

verus! {

#[verifier::external_type_specification]
#[verifier::external_body]
pub struct ExProgramError(ProgramError);

/// Relies on `Clock::get` (the clock sysvar): the host's current unix timestamp, or
/// the host's error when the sysvar cannot be read. Nothing is known of the value.
#[verifier::external_body]
pub(crate) fn clock_unix_timestamp() -> (r: Result<i64, ProgramError>) {
    Clock::get().map(|c| c.unix_timestamp)
}

} // verus!
