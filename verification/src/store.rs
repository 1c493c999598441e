//! Lifecycle of the materialized patcher payload.
//!
//! The patcher executable is bundled as an opaque byte payload and written on
//! demand to one fixed, well-known file name inside the temporary directory —
//! the same name for every variant, so whatever payload occupies the slot
//! first is the one reused (the file, once written, is never rewritten for the
//! remainder of the process lifetime). This module tracks that occupancy and
//! decides whether a materialization request must write; the embedding
//! application performs the write, the existence check behind the initial
//! state, and the eventual delete.

use vstd::prelude::*;
use vstd::string::StringExecFns;

use crate::runner::HPatchzType;

verus! {

/// The fixed file name, inside the temporary directory, at which the patcher
/// payload is materialized.
pub open spec fn materialized_file_name_spec() -> Seq<char> {
    "hpatchz.tmp"@
}

/// The well-known file name of the materialized patcher payload.
pub fn materialized_file_name() -> (r: String)
    ensures
        r@ == materialized_file_name_spec(),
{
    let r: String = String::from_str("hpatchz.tmp");
    r
}

/// What a materialization request asks the caller to do: write the named
/// variant's payload bytes to the well-known path, or nothing because the
/// path is already occupied.
#[derive(Clone, Copy, PartialEq, Eq, Structural, Debug)]
pub enum MaterializeAction {
    WritePayload(HPatchzType),
    NoWrite,
}

/// Occupancy of the well-known payload path. `occupied` is true when a file
/// already exists there, whichever variant's bytes it holds.
#[derive(Clone, Copy, PartialEq, Eq, Structural, Debug)]
pub struct PayloadStore {
    pub occupied: bool,
}

/// The store after a materialization request: the slot is occupied, written
/// now if it was not before.
pub open spec fn materialize_spec_state(s: PayloadStore, variant: HPatchzType) -> PayloadStore {
    PayloadStore { occupied: true }
}

/// The action a materialization request yields: a write of the requested
/// variant's payload when the slot is free, no write when it is occupied.
pub open spec fn materialize_spec_action(
    s: PayloadStore,
    variant: HPatchzType,
) -> MaterializeAction {
    if s.occupied {
        MaterializeAction::NoWrite
    } else {
        MaterializeAction::WritePayload(variant)
    }
}

impl PayloadStore {
    /// A store whose occupancy mirrors whether a file already exists at the
    /// well-known path.
    pub fn new(occupied: bool) -> (s: Self)
        ensures
            s.occupied == occupied,
    {
        PayloadStore { occupied }
    }

    /// Ensures the payload of `variant` is materialized: returns the fixed
    /// file name and, when the slot was free, the write the caller must
    /// perform before using the file. An occupied slot is reused unchanged —
    /// no write, no content verification.
    pub fn materialize(&mut self, variant: HPatchzType) -> (r: (String, MaterializeAction))
        ensures
            r.0@ == materialized_file_name_spec(),
            r.1 == materialize_spec_action(*old(self), variant),
            *final(self) == materialize_spec_state(*old(self), variant),
    {
        let name = materialized_file_name();
        if self.occupied {
            (name, MaterializeAction::NoWrite)
        } else {
            self.occupied = true;
            (name, MaterializeAction::WritePayload(variant))
        }
    }

    /// Releases the materialized payload: the slot is free again. The caller
    /// performs the delete and surfaces its failure — a locked file must not
    /// be swallowed.
    pub fn release(&mut self)
        ensures
            !final(self).occupied,
    {
        self.occupied = false;
    }
}

/// Materialization is idempotent: immediately after one materialization, a
/// second request — for any variant — performs no write, returns the same
/// fixed file name, and leaves the store unchanged.
pub proof fn lemma_materialize_idempotent(s0: PayloadStore, v1: HPatchzType, v2: HPatchzType)
    ensures
        materialize_spec_action(materialize_spec_state(s0, v1), v2) == MaterializeAction::NoWrite,
        materialize_spec_state(materialize_spec_state(s0, v1), v2) == materialize_spec_state(
            s0,
            v1,
        ),
{
}

} // verus!
