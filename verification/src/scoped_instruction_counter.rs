//! Counting the instructions that a piece of work takes.

use crate::dscvr_interface::Interface;
use vstd::prelude::*;
use vstd::string::StringExecFns;

verus! {

/// Counts the number of instructions from the moment that it was made.
#[derive(Debug)]
pub struct ScopedInstructionCounter {
    name: String,
    start: u64,
}

impl ScopedInstructionCounter {
    /// The name of the work that is counted.
    pub closed spec fn name(&self) -> Seq<char> {
        self.name@
    }

    /// The reading of the instruction counter when the counter was made.
    pub closed spec fn start(&self) -> u64 {
        self.start
    }

    /// Start counting the instructions of the work named `name`.
    pub fn new<I: Interface>(name: &str, system: &I) -> (r: Self)
        ensures
            r.name() == name@,
    {
        ScopedInstructionCounter { name: String::from_str(name), start: system.instruction_counter() }
    }

    /// Start counting at a given reading of the instruction counter.
    pub fn started_at(name: &str, start: u64) -> (r: Self)
        ensures
            r.name() == name@,
            r.start() == start,
    {
        ScopedInstructionCounter { name: String::from_str(name), start }
    }

    /// The number of instructions between the start and a later reading `end` of the
    /// instruction counter; zero where `end` is the earlier reading.
    pub fn instructions_until(&self, end: u64) -> (r: u64)
        ensures
            end >= self.start() ==> r == end - self.start(),
            end < self.start() ==> r == 0,
    {
        if end >= self.start {
            end - self.start
        } else {
            0
        }
    }

    /// Stop counting: the name of the work and the number of instructions that it took.
    pub fn finish<I: Interface>(self, system: &I) -> (r: (String, u64))
        ensures
            r.0@ == self.name(),
    {
        let end = system.instruction_counter();
        let used = self.instructions_until(end);
        (self.name, used)
    }
}

} // verus!
