//! Hardware-abstraction building blocks for the LPC55 family: ownable
//! register proxies and a typestate-guarded driver for the true-random-number
//! generator peripheral.
//!
//! The register code generated from the vendor's SVD description hands out
//! registers only as shared references scoped to a borrow of the owning
//! peripheral struct. The [`reg_proxy`] module turns such a register into an
//! ownable, movable value. The [`rng`] module is the canonical consumer of the
//! same discipline: a driver whose enable/disable lifecycle is encoded in its
//! type, so that operations of an enabled peripheral are unreachable on a
//! disabled handle.

pub mod init_state;
pub mod reg_proxy;
pub mod rng;
pub mod sim;
pub mod syscon;
