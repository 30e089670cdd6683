//! The module state singleton and the guard around it.
//!
//! Exactly one [`App`] exists per module instance.  Every exported entry
//! point reaches it through a [`StateCell`], a runtime-checked exclusive
//! borrow: a second borrow while one is active is the one fault this
//! template can raise.  The singleton itself carries no fields; its two
//! operations only show the shape of an exported operation (emit one log
//! line, return a fixed-width scalar).

use vstd::prelude::*;
use vstd::string::StringSliceAdditionalSpecFns;
use crate::boundary::Host;
use crate::boundary::log;

verus! {

/// The message the one-time setup step emits.
pub open spec fn init_message() -> Seq<u8> {
    "App initialized".spec_bytes()
}

/// The message the example transform emits on every call.
pub open spec fn hello_message() -> Seq<u8> {
    "Hello, world!".spec_bytes()
}

/// The module's state singleton.  The template keeps no fields in it;
/// only the lifecycle around it is of interest.
pub struct App {}

impl App {
    /// Construct the singleton's payload.  Called once, on first access.
    pub fn new() -> (a: App) {
        App {}
    }

    /// One-time setup: emits exactly one informational message and
    /// nothing on the error sink.
    pub fn initialize(&self, host: &mut Host)
        ensures
            final(host).info_log() == old(host).info_log().push(init_message()),
            final(host).error_log() == old(host).error_log(),
    {
        log(host, "App initialized");
    }

    /// The example transform: emits exactly one informational message
    /// and returns the square of its argument in the argument's own bit
    /// width, wrapping modulo 2^32 where the square overflows.
    pub fn hello(&self, host: &mut Host, arg: u32) -> (r: u32)
        ensures
            r as nat == (arg as nat * arg as nat) % 0x1_0000_0000,
            arg * arg <= u32::MAX ==> r == arg * arg,
            final(host).info_log() == old(host).info_log().push(hello_message()),
            final(host).error_log() == old(host).error_log(),
    {
        log(host, "Hello, world!");
        arg.wrapping_mul(arg)
    }
}

/// The interior-mutability guard around the singleton: a runtime-checked
/// window of exclusive access.  At most one guarded borrow is active at
/// any instant; asking for a second one is refused and is the fault the
/// failure hook reports.
pub struct StateCell {
    app: App,
    borrowed: bool,
}

impl StateCell {
    /// Whether a guarded borrow is active.
    pub closed spec fn is_borrowed(self) -> bool {
        self.borrowed
    }

    /// A fresh cell around a newly constructed singleton, not borrowed.
    pub fn new() -> (c: StateCell)
        ensures
            !c.is_borrowed(),
    {
        StateCell { app: App::new(), borrowed: false }
    }

    /// Begin a guarded borrow.  Succeeds exactly when none is active;
    /// a re-entrant request leaves the active borrow in place and fails.
    pub fn try_borrow(&mut self) -> (ok: bool)
        ensures
            ok == !old(self).is_borrowed(),
            final(self).is_borrowed(),
    {
        if self.borrowed {
            false
        } else {
            self.borrowed = true;
            true
        }
    }

    /// The singleton, readable while the caller holds the borrow.
    pub fn state(&self) -> (a: &App) {
        &self.app
    }

    /// End the active guarded borrow.
    pub fn release(&mut self)
        requires
            old(self).is_borrowed(),
        ensures
            !final(self).is_borrowed(),
    {
        self.borrowed = false;
    }
}

} // verus!
