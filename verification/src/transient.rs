//! State related to stable storage that is not persisted.

use vstd::prelude::*;

verus! {

/// Transient information related to stable storage.
#[derive(Debug, Clone, Copy, PartialEq, Eq, Structural)]
pub struct Transient {
    /// When set, the next save is skipped.
    pub skip_next_save: bool,
    /// Number of instructions used for post-upgrade.
    pub post_upgrade_instruction_count: u64,
}

impl Transient {
    /// The transient state produced by a restore that observed `count` instructions.
    pub fn after_restore(count: u64) -> (r: Self)
        ensures
            r == (Transient { skip_next_save: false, post_upgrade_instruction_count: count }),
    {
        Transient { skip_next_save: false, post_upgrade_instruction_count: count }
    }
}

impl Default for Transient {
    fn default() -> (r: Self)
        ensures
            r == (Transient { skip_next_save: false, post_upgrade_instruction_count: 0 }),
    {
        Transient { skip_next_save: false, post_upgrade_instruction_count: 0 }
    }
}

} // verus!
