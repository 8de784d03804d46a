//! Scoped release guards.
//!
//! Cleanup is owed on every exit path: each created automation object owes a
//! "Quit" call, and an initialized runtime owes one uninitialization, inner
//! guards before outer ones. A guard is armed when the resource is acquired
//! and must be released exactly once: releasing requires a still-armed
//! guard, so a second release is rejected at verification time.

use vstd::prelude::*;

verus! {

/// The guard owed by the process-wide automation runtime: armed when
/// initialization succeeds, released by the one uninitialization call.
#[derive(Debug)]
pub struct DeferUninitializeCOM {
    pub pending: bool,
}

impl DeferUninitializeCOM {
    /// Arm the guard; done right after the runtime initializes.
    pub fn new() -> (g: DeferUninitializeCOM)
        ensures
            g.pending,
    {
        DeferUninitializeCOM { pending: true }
    }

    /// Release the guard; owed, and allowed, exactly once.
    pub fn release(&mut self)
        requires
            old(self).pending,
        ensures
            !final(self).pending,
    {
        self.pending = false;
    }
}

/// The guard owed by one created automation object: armed when the server is
/// created, released by the one "Quit" call on it.
#[derive(Debug)]
pub struct DeferQuit {
    pub app: u32,
    pub pending: bool,
}

impl DeferQuit {
    /// Arm the guard for the server with this identity; done right after the
    /// server is created.
    pub fn new(app: u32) -> (g: DeferQuit)
        ensures
            g.pending,
            g.app == app,
    {
        DeferQuit { app, pending: true }
    }

    /// Release the guard; owed, and allowed, exactly once.
    pub fn release(&mut self)
        requires
            old(self).pending,
        ensures
            !final(self).pending,
            final(self).app == old(self).app,
    {
        self.pending = false;
    }
}

} // verus!
