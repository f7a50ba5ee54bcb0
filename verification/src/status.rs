//! Whether the kernel has finished its set-up.

use vstd::prelude::*;

verus! {

/// The kernel's set-up flag: raised once interrupts, the GDT, the local
/// APIC and the timer are set up, never lowered.
pub struct InitStatus {
    pub ok: bool,
}

impl InitStatus {
    /// The flag before set-up.
    pub fn new() -> (r: InitStatus)
        ensures
            !r.ok,
    {
        InitStatus { ok: false }
    }

    /// Raises the flag.
    pub fn mark_ok(&mut self)
        ensures
            final(self).ok,
    {
        self.ok = true;
    }
}

/// Whether set-up has finished.
pub fn init_ok(status: &InitStatus) -> (r: bool)
    ensures
        r == status.ok,
{
    status.ok
}

} // verus!
