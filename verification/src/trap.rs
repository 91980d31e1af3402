//! The saved register snapshot that crosses the user/kernel mode
//! boundary.

use vstd::prelude::*;

verus! {

/// Trap-context snapshot: what the mode-switch entry point needs to start
/// or resume an application in user mode — its entry program counter and
/// its user-mode stack pointer. The full register-file layout belongs to
/// the trap collaborator; these are the fields this core populates.
#[derive(Clone, Copy, Debug, PartialEq, Eq, Structural)]
pub struct TrapContext {
    pub entry_pc: usize,
    pub user_sp: usize,
}

impl TrapContext {
    /// The initial snapshot for an application: control enters at `entry`
    /// with the user-mode stack pointer at `sp`.
    pub fn app_init_context(entry: usize, sp: usize) -> (r: Self)
        ensures
            r.entry_pc == entry,
            r.user_sp == sp,
    {
        TrapContext { entry_pc: entry, user_sp: sp }
    }
}

} // verus!
