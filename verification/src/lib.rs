//! Container bootstrap core: namespace composition, user-namespace identity
//! mapping, capability narrowing, and the host/child handshake that orders
//! them, modeled and verified around the kernel calls that carry them out.

pub mod capability;
pub mod channel;
pub mod decimal;
pub mod entrypoint;
pub mod errors;
pub mod launch;
pub mod lifecycle;
pub mod mapping;
pub mod namespace;

use vstd::prelude::*;

verus! {

/// Largest value a kernel uid/gid can take; identity-mapping ranges must
/// stay within `0 ..= ID_LIMIT`.
pub const ID_LIMIT: u64 = 0xffff_ffff;

} // verus!
