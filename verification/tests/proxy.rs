//! The proxy mechanism, exercised against descriptors whose registers are
//! plain in-memory locations.

use lpc55_hal::reg_proxy::{Reg, RegCluster, RegClusterProxy, RegProxy};

const WORD: u32 = 0xa5a5_5a5a;
const WORDS: [u32; 4] = [10, 20, 30, 40];

struct FixedReg;

impl Reg for FixedReg {
    type Target = u32;

    fn get() -> &'static u32 {
        &WORD
    }
}

struct FixedCluster;

impl RegCluster for FixedCluster {
    type Target = u32;

    fn get() -> &'static [u32] {
        &WORDS
    }
}

#[test]
fn proxy_reads_the_descriptor_location() {
    let proxy: RegProxy<FixedReg> = RegProxy::new();
    assert_eq!(*proxy.get(), 0xa5a5_5a5a);
}

#[test]
fn proxy_deref_is_repeatable_across_owners() {
    let first: RegProxy<FixedReg> = RegProxy::new();
    let second: RegProxy<FixedReg> = RegProxy::new();
    let r1 = first.get();
    let r2 = first.get();
    let r3 = second.get();
    assert!(std::ptr::eq(r1, r2));
    assert!(std::ptr::eq(r1, r3));
    assert_eq!(*r3, 0xa5a5_5a5a);
}

#[test]
fn proxy_construction_is_free_and_movable() {
    let mut proxies: Vec<RegProxy<FixedReg>> = Vec::new();
    let mut i: usize = 0;
    while i < 8 {
        proxies.push(RegProxy::new());
        i += 1;
    }
    assert_eq!(proxies.len(), 8);
    let moved = proxies.pop().unwrap();
    assert_eq!(*moved.get(), 0xa5a5_5a5a);
}

#[test]
fn proxies_are_zero_sized() {
    assert_eq!(std::mem::size_of::<RegProxy<FixedReg>>(), 0);
    assert_eq!(std::mem::size_of::<RegClusterProxy<FixedCluster>>(), 0);
}

#[test]
fn cluster_proxy_yields_the_whole_run() {
    let proxy: RegClusterProxy<FixedCluster> = RegClusterProxy::new();
    let regs = proxy.get();
    assert_eq!(regs.len(), 4);
    assert_eq!(regs[0], 10);
    assert_eq!(regs[3], 40);
    assert!(std::ptr::eq(proxy.get(), proxy.get()));
}
