//! The transfer directions the tool knows about.

use vstd::prelude::*;

verus! {

/// Direction and flavour of a transfer.
#[derive(Clone, Copy, Debug, PartialEq, Eq, Structural)]
pub enum Cmd {
    /// Copy to the server and leave files that exist only there alone.
    Push,
    /// Copy to the server and delete what the source no longer has.
    Sync,
    /// Copy from the server; reserved, never carried out.
    Fetch,
}

impl Cmd {
    /// Whether the transfer removes files on the target that the source lacks.
    pub open spec fn deletes_extraneous(self) -> bool {
        self == Cmd::Sync
    }

    /// Whether the transfer removes files on the target that the source lacks.
    pub fn removes_extraneous(self) -> (r: bool)
        ensures
            r == self.deletes_extraneous(),
    {
        match self {
            Cmd::Sync => true,
            _ => false,
        }
    }
}

} // verus!
