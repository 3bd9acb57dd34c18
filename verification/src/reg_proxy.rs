//! Makes registers ownable and movable.
//!
//! Generated register-access code only hands out shared references to
//! registers, scoped to a borrow of the owning peripheral struct. That becomes
//! inconvenient when a peripheral is split so that multiple components of an
//! API access it, as every component then has to carry a lifetime.
//!
//! This module works around the limitation with a proxy value that provides
//! access to a register. A proxy holds no runtime data: its sole content is a
//! phantom marker tying it, at compile time, to one capability descriptor, a
//! type implementing [`Reg`] (or [`RegCluster`] for a contiguous run of
//! identical registers). The descriptor's `get` function returns a reference
//! that is valid for the whole life of the program, so the proxy can hand it
//! out under any borrow.
//!
//! Owning a proxy conveys no hardware lock: nothing prevents constructing two
//! proxies for the same register and writing through both without
//! coordination. At most one owner per register is a caller obligation, not a
//! guarantee this module enforces.

use core::marker::PhantomData;
use vstd::prelude::*;

verus! {

/// Implemented for registers that `RegProxy` can proxy.
///
/// An implementer asserts that the reference returned by `get` always refers
/// to the same memory-mapped register, resident for the entire life of the
/// program. For a hardware register that promise rests on the device's memory
/// map and is established by a single pointer promotion written once per
/// register, outside this library.
pub trait Reg {
    /// The type that `RegProxy` dereferences to.
    ///
    /// If only one instance of the register exists, this should be `Self`.
    /// If the same type in the generated API is used to represent registers
    /// at multiple memory locations, this trait must be implemented for a
    /// type that represents a specific register at a specific location, and
    /// `Target` must be the common type.
    type Target;

    /// Return a program-lifetime reference to the register.
    fn get() -> &'static Self::Target;
}

/// A proxy object for a register.
///
/// This proxy can be moved and owned; it is zero-sized, and it transfers
/// between execution contexts whenever the descriptor type does, since the
/// real shared resource is the hardware register, not the proxy value.
pub struct RegProxy<T> where T: Reg {
    marker: PhantomData<T>,
}

impl<T> RegProxy<T> where T: Reg {
    /// Create a new proxy object.
    ///
    /// Construction takes no runtime arguments, cannot fail, and performs no
    /// hardware interaction: the register is only touched when the proxy is
    /// dereferenced.
    pub fn new() -> Self {
        RegProxy { marker: PhantomData }
    }

    /// Access the register behind the proxy.
    ///
    /// Every call goes through the same descriptor function, so repeated
    /// calls, from any owning context, yield the same register.
    pub fn get(&self) -> &'static T::Target {
        T::get()
    }
}

/// Implemented for contiguous runs of identical registers that
/// `RegClusterProxy` can proxy, e.g. one register per pin of a port.
///
/// The same contract as [`Reg`], except that the returned reference addresses
/// a slice of the target type.
pub trait RegCluster {
    /// The element type that `RegClusterProxy` dereferences to a slice of.
    ///
    /// If only one instance of the register cluster exists, this should be
    /// `Self`. If the same type in the generated API is used to represent
    /// registers at multiple memory locations, this trait must be implemented
    /// for a type that represents a specific cluster at a specific location,
    /// and `Target` must be the common type.
    type Target;

    /// Return a program-lifetime reference to the run of registers.
    fn get() -> &'static [Self::Target];
}

/// A proxy object for a cluster of registers.
///
/// The slice-valued counterpart of [`RegProxy`].
pub struct RegClusterProxy<T> where T: RegCluster {
    marker: PhantomData<T>,
}

impl<T> RegClusterProxy<T> where T: RegCluster {
    /// Create a new proxy object.
    pub fn new() -> Self {
        RegClusterProxy { marker: PhantomData }
    }

    /// Access the run of registers behind the proxy.
    pub fn get(&self) -> &'static [T::Target] {
        T::get()
    }
}

} // verus!
