//! Type states for the peripheral lifecycle.
//!
//! A peripheral handle carries one of these zero-sized tags in its type.
//! Transitions consume the old handle and produce a new one, so a stale state
//! can never be used after a transition.

use vstd::prelude::*;

verus! {

/// The peripheral's clock is ungated; no peripheral-specific operation is
/// available.
pub struct Disabled;

/// The peripheral's clock is gated on; the full operation set is available.
pub struct Enabled;

} // verus!
