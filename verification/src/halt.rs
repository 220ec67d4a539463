//! The panic strategy of every firmware binary in the suite: there is
//! no operating system to unwind into, so a failed program parks the
//! core and waits for a reset or a debugger.

use vstd::prelude::*;

verus! {

/// The hook body run when a binary panics, before the core is parked:
/// nothing at all — the examples deliberately ignore the panic report,
/// preferring a silent halt to acting on corrupted state. The endless
/// parking spin itself stays with the unverified start-up glue, since
/// every verified function must terminate.
pub fn panic() {
}

} // verus!
