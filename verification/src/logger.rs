//! The verbosity of the process's logger.
use vstd::prelude::*;

use log::LevelFilter;

verus! {

/// The verbosity of the `log` crate, carried from the stored configuration to the logger.
#[verifier::external_type_specification]
#[verifier::external_body]
pub struct ExLevelFilter(log::LevelFilter);

/// A hold on the process's logger. What the process logs at belongs to all its threads and can be
/// changed past this value; recorded here is what was handed to the logger through it.
pub struct MaxLevel {
    handed: Ghost<Seq<LevelFilter>>,
}

impl MaxLevel {
    /// The levels handed to the logger through this value, in order.
    pub closed spec fn handed(self) -> Seq<LevelFilter> {
        self.handed@
    }

    /// A hold through which no level has been handed to the logger yet.
    pub fn new() -> (hold: MaxLevel)
        ensures
            hold.handed() == Seq::<LevelFilter>::empty(),
    {
        MaxLevel { handed: Ghost(Seq::empty()) }
    }

    /// Calls `log::set_max_level`, which makes `level` the greatest verbosity that the process
    /// logs at and cannot fail. The contract claims that `level` was handed to it, once. It
    /// claims nothing of what the process logs at afterwards, which another thread may change.
    #[verifier::external_body]
    pub(crate) fn set(&mut self, level: LevelFilter)
        ensures
            final(self).handed() == old(self).handed().push(level),
    {
        log::set_max_level(level)
    }
}

} // verus!
