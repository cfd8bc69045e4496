//! The cluster clock.

use anchor_lang::prelude::Clock;
use anchor_lang::prelude::ProgramError;
use anchor_lang::prelude::SolanaSysvar;
use vstd::prelude::*;

verus! {

/// `ProgramError`, the runtime's reason for a failure, as an opaque value.
#[verifier::external_type_specification]
#[verifier::external_body]
pub struct ExProgramError(anchor_lang::prelude::ProgramError);

/// Reads the clock sysvar with `Clock::get` and hands out its
/// `unix_timestamp`, or the error the runtime reported.
///
/// Nothing is promised about the outcome: the timestamp is whatever the
/// runtime says, and outside a runtime that serves the sysvar the call fails.
#[verifier::external_body]
pub(crate) fn unix_timestamp() -> (now: Result<i64, ProgramError>) {
    match Clock::get() {
        Ok(clock) => Ok(clock.unix_timestamp),
        Err(e) => Err(e),
    }
}

} // verus!
