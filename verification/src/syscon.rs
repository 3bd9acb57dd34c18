//! Minimal handle over the system configuration block (SYSCON), the clock
//! controller that gates peripheral clocks.
//!
//! Only the two clock-gating operations the RNG driver needs are exposed.
//! Both are assumed infallible, as the hardware defines them.

use vstd::prelude::*;

verus! {

#[verifier::external_type_specification]
#[verifier::external_body]
pub struct ExSyscon(lpc55_pac::SYSCON);

/// Handle over the raw SYSCON register block.
pub struct Syscon {
    raw: lpc55_pac::SYSCON,
}

impl Syscon {
    /// The raw SYSCON block this handle owns.
    pub closed spec fn raw_block(&self) -> lpc55_pac::SYSCON {
        self.raw
    }

    /// Take ownership of the raw SYSCON block.
    pub fn new(raw: lpc55_pac::SYSCON) -> (s: Syscon)
        ensures
            s.raw_block() == raw,
    {
        Syscon { raw }
    }

    /// Give the raw SYSCON block back, ending this handle's lifecycle.
    pub fn release(self) -> (raw: lpc55_pac::SYSCON)
        ensures
            raw == self.raw_block(),
    {
        self.raw
    }

    /// Gate the RNG peripheral's functional clock on.
    ///
    /// Relies on lpc55-pac: the RNG field of SYSCON's AHBCLKCTRL2 register
    /// enables the clock for the RNG. The write touches only the clock
    /// controller's own register; the peripheral block passed as proof of
    /// ownership is returned as it was given.
    #[verifier::external_body]
    pub fn enable_rng_clock(&mut self, periph: &mut lpc55_pac::RNG)
        ensures
            *final(periph) == *old(periph),
    {
        self.raw.ahbclkctrl2.modify(|_, w| w.rng().enable());
    }

    /// Gate the RNG peripheral's functional clock off.
    ///
    /// Relies on lpc55-pac: the RNG field of SYSCON's AHBCLKCTRL2 register
    /// disables the clock for the RNG. As with `enable_rng_clock`, the
    /// peripheral block is returned as it was given.
    #[verifier::external_body]
    pub fn disable_rng_clock(&mut self, periph: &mut lpc55_pac::RNG)
        ensures
            *final(periph) == *old(periph),
    {
        self.raw.ahbclkctrl2.modify(|_, w| w.rng().disable());
    }
}

} // verus!
