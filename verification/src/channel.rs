//! ReadinessChannel protocol: the one-byte messages the host sends the
//! parked child. The transport (a pipe between the two processes) lives
//! outside the library; what each byte means is pinned down here, so both
//! endpoints agree and a host failure still unblocks the child.

use vstd::prelude::*;

verus! {

/// The byte the host sends when the identity-mapping phase finished and
/// the child may proceed to drop capabilities.
pub const PHASE2_PROCEED: u8 = 1;

/// The byte the host sends when it failed before the mapping finished, so
/// the waiting child terminates instead of blocking forever.
pub const PHASE2_ABORT: u8 = 0;

/// The byte the host signals for a mapping phase that ended as `ok` says.
/// A failing host still signals — the abort byte — so the child never
/// blocks indefinitely.
pub fn phase2_signal_byte(ok: bool) -> (b: u8)
    ensures
        ok ==> b == PHASE2_PROCEED,
        !ok ==> b == PHASE2_ABORT,
        (b == PHASE2_PROCEED) <==> ok,
{
    if ok {
        PHASE2_PROCEED
    } else {
        PHASE2_ABORT
    }
}

/// How the child reads a received byte: only the proceed byte lets it go
/// on; anything else is a failure indication.
pub fn phase2_proceeds(b: u8) -> (proceed: bool)
    ensures
        proceed <==> b == PHASE2_PROCEED,
{
    b == PHASE2_PROCEED
}

} // verus!
