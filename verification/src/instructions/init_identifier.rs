//! Init identifier: the counter of pools is opened at zero.

use crate::errors::ErrorCode;
use crate::pda::counter_seeds;
use crate::pda::identifier_seeds;
use crate::pda::seed_bytes;
use crate::state::Identifier;
use vstd::prelude::*;

verus! {

/// The accounts of the opening of the counter.
#[derive(Clone, Copy, Debug, PartialEq, Eq)]
pub struct InitIdentifierCtx {
    /// The counter to fill in.
    pub identifier: Identifier,
    /// The bump of the counter's address.
    pub identifier_bump: u8,
}

/// What the opening of the counter does to accounts that were `before`: it
/// is never refused, the counter stands at zero, and the seeds of its
/// address are handed out.
pub open spec fn init_identifier_result(
    before: InitIdentifierCtx,
    after: InitIdentifierCtx,
    outcome: Result<Vec<Vec<u8>>, ErrorCode>,
) -> bool {
    &&& outcome matches Ok(seeds) && seed_bytes(seeds@) == identifier_seeds()
    &&& after == (InitIdentifierCtx {
        identifier: Identifier { bump: before.identifier_bump, count: 0 },
        ..before
    })
}

/// Opens the counter.
pub fn handler(ctx: &mut InitIdentifierCtx) -> (outcome: Result<Vec<Vec<u8>>, ErrorCode>)
    ensures
        init_identifier_result(*old(ctx), *final(ctx), outcome),
{
    ctx.identifier.bump = ctx.identifier_bump;
    ctx.identifier.count = 0;
    Ok(counter_seeds())
}

} // verus!
