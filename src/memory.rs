use vstd::prelude::*;
use std::collections::HashMap;
use crate::felt::Felt;

verus! {

broadcast use vstd::std_specs::hash::group_hash_axioms;

/// A sparse store of field elements keyed by address. Addresses never
/// written read as ZERO.
pub struct Memory {
    cells: HashMap<u64, Felt>,
}

impl View for Memory {
    type V = Map<u64, Felt>;

    closed spec fn view(&self) -> Map<u64, Felt> {
        self.cells@
    }
}

/// What a read of `addr` from memory `m` gives.
pub open spec fn mem_read(m: Map<u64, Felt>, addr: u64) -> Felt {
    if m.contains_key(addr) {
        m[addr]
    } else {
        Felt::spec_zero()
    }
}

/// Memory `m` after the write `w`, if there is one.
pub open spec fn apply_write(m: Map<u64, Felt>, w: Option<(u64, Felt)>) -> Map<u64, Felt> {
    match w {
        Some((addr, value)) => m.insert(addr, value),
        None => m,
    }
}

impl Memory {
    /// A memory in which nothing has been written.
    pub fn new() -> (r: Memory)
        ensures
            r@ == Map::<u64, Felt>::empty(),
    {
        Memory { cells: HashMap::new() }
    }

    /// The element at `addr`; ZERO where nothing was written.
    pub fn read(&self, addr: u64) -> (r: Felt)
        ensures
            r == mem_read(self@, addr),
    {
        match self.cells.get(&addr) {
            Some(v) => *v,
            None => Felt::zero(),
        }
    }

    /// Stores `value` at `addr`, replacing what was there.
    pub fn write(&mut self, addr: u64, value: Felt)
        ensures
            final(self)@ == old(self)@.insert(addr, value),
    {
        self.cells.insert(addr, value);
    }
}

} // verus!
