//! Behavior of the validity chain and the per-level locks.

use rusty_libimobiledevice::memory_lock::{
    IdeviceMemoryLock, Invalidated, LockdowndClientLock, LockdowndServiceLock,
    MobileImageMounterLock, ValidityChain,
};

#[test]
fn root_check_returns_snapshot() {
    let mut chain: ValidityChain<u64> = ValidityChain::new();
    let root = IdeviceMemoryLock::new(&mut chain, 7);
    assert_eq!(chain.len(), 1);
    assert_eq!(root.check(&chain), Ok(7));
}

#[test]
fn chain_of_length_one_breaks_on_invalidate() {
    let mut chain: ValidityChain<u64> = ValidityChain::new();
    let root = IdeviceMemoryLock::new(&mut chain, 1);
    assert_eq!(root.check(&chain), Ok(1));
    root.invalidate(&mut chain);
    assert_eq!(root.check(&chain), Err(Invalidated));
}

#[test]
fn check_is_read_only_and_repeatable() {
    let mut chain: ValidityChain<u64> = ValidityChain::new();
    let root = IdeviceMemoryLock::new(&mut chain, 7);
    let client = LockdowndClientLock::new(&mut chain, 8, &root);
    assert_eq!(root.check(&chain), Ok(7));
    assert_eq!(root.check(&chain), Ok(7));
    assert_eq!(client.check(&chain), Ok(8));
    assert_eq!(client.check(&chain), Ok(8));
    assert_eq!(root.check(&chain), Ok(7));
}

#[test]
fn invalidate_root_breaks_descendants() {
    // Root, child, grandchild; breaking the root breaks everything below,
    // though only the root's own cell was touched.
    let mut chain: ValidityChain<u64> = ValidityChain::new();
    let r = IdeviceMemoryLock::new(&mut chain, 1);
    let c = LockdowndClientLock::new(&mut chain, 2, &r);
    let g = LockdowndServiceLock::new(&mut chain, 3, &c);
    assert_eq!(g.check(&chain), Ok(3));
    r.invalidate(&mut chain);
    assert_eq!(r.check(&chain), Err(Invalidated));
    assert_eq!(c.check(&chain), Err(Invalidated));
    assert_eq!(g.check(&chain), Err(Invalidated));
}

#[test]
fn invalidate_middle_spares_the_root() {
    // Breaking the middle of the chain leaves the root usable but breaks
    // the middle and everything below it.
    let mut chain: ValidityChain<u64> = ValidityChain::new();
    let r = IdeviceMemoryLock::new(&mut chain, 1);
    let c = LockdowndClientLock::new(&mut chain, 2, &r);
    let g = LockdowndServiceLock::new(&mut chain, 3, &c);
    c.invalidate(&mut chain);
    assert_eq!(r.check(&chain), Ok(1));
    assert_eq!(c.check(&chain), Err(Invalidated));
    assert_eq!(g.check(&chain), Err(Invalidated));
}

#[test]
fn invalidate_is_idempotent() {
    let mut chain: ValidityChain<u64> = ValidityChain::new();
    let r = IdeviceMemoryLock::new(&mut chain, 1);
    let c = LockdowndClientLock::new(&mut chain, 2, &r);
    c.invalidate(&mut chain);
    let after_once = (r.check(&chain), c.check(&chain));
    c.invalidate(&mut chain);
    let after_twice = (r.check(&chain), c.check(&chain));
    assert_eq!(after_once, after_twice);
    assert_eq!(after_once, (Ok(1), Err(Invalidated)));
}

#[test]
fn four_level_chain_breaks_at_the_invalidated_level() {
    let mut chain: ValidityChain<u64> = ValidityChain::new();
    let device = IdeviceMemoryLock::new(&mut chain, 10);
    let client = LockdowndClientLock::new(&mut chain, 20, &device);
    let service = LockdowndServiceLock::new(&mut chain, 30, &client);
    let mounter = MobileImageMounterLock::new(&mut chain, 40, &service);
    assert_eq!(mounter.check(&chain), Ok(40));
    service.invalidate(&mut chain);
    assert_eq!(device.check(&chain), Ok(10));
    assert_eq!(client.check(&chain), Ok(20));
    assert_eq!(service.check(&chain), Err(Invalidated));
    assert_eq!(mounter.check(&chain), Err(Invalidated));
}

#[test]
fn sibling_chains_are_independent() {
    // Two clients of one device: breaking one leaves the other usable.
    let mut chain: ValidityChain<u64> = ValidityChain::new();
    let device = IdeviceMemoryLock::new(&mut chain, 1);
    let left = LockdowndClientLock::new(&mut chain, 2, &device);
    let right = LockdowndClientLock::new(&mut chain, 3, &device);
    left.invalidate(&mut chain);
    assert_eq!(left.check(&chain), Err(Invalidated));
    assert_eq!(right.check(&chain), Ok(3));
}

#[test]
fn check_of_unregistered_cell_fails() {
    let chain: ValidityChain<u64> = ValidityChain::new();
    assert_eq!(chain.check(0), Err(Invalidated));
}
