//! The restart policy shared by the discovery server and client: socket
//! failures are counted, and reaching the limit asks for a full restart.

use vstd::prelude::*;

verus! {

/// Socket failures after which a loop tears down and rebinds its socket.
pub const SOCK_FAIL_BEFORE_RESTART: u8 = 5;

/// Backoff before a retry or a rebind, in milliseconds.
pub const SPAM_DELAY_MS: u64 = 1000;

/// Count of socket failures since the last restart; always below the limit.
pub struct FailCounter {
    count: u8,
}

impl View for FailCounter {
    type V = nat;

    closed spec fn view(&self) -> nat {
        self.count as nat
    }
}

impl FailCounter {
    #[verifier::type_invariant]
    spec fn inv(self) -> bool {
        self.count < SOCK_FAIL_BEFORE_RESTART
    }

    /// A counter with no failures.
    pub fn new() -> (r: FailCounter)
        ensures
            r@ == 0,
    {
        FailCounter { count: 0 }
    }

    /// Number of failures counted.
    pub fn count(&self) -> (r: u8)
        ensures
            r as nat == self@,
            self@ < SOCK_FAIL_BEFORE_RESTART,
    {
        proof {
            use_type_invariant(self);
        }
        self.count
    }

    /// Counts one failure. Returns whether the limit was reached, in which
    /// case the counter starts again from zero.
    pub fn record_failure(&mut self) -> (restart: bool)
        ensures
            restart == (old(self)@ + 1 >= SOCK_FAIL_BEFORE_RESTART),
            restart ==> final(self)@ == 0,
            !restart ==> final(self)@ == old(self)@ + 1,
    {
        proof {
            use_type_invariant(&*self);
        }
        if self.count + 1 >= SOCK_FAIL_BEFORE_RESTART {
            self.count = 0;
            true
        } else {
            self.count = self.count + 1;
            false
        }
    }

    /// Forgets all failures, as after a restart.
    pub fn reset(&mut self)
        ensures
            final(self)@ == 0,
    {
        self.count = 0;
    }
}

} // verus!
