//! The cartridge: an immutable byte sequence holding program code and
//! embedded data. It is loaded once and never mutated during execution; the
//! processor fetches instruction bytes from it by index.

use vstd::prelude::*;

verus! {

pub struct Cardridge {
    pub memory: Vec<u8>,
}

impl View for Cardridge {
    type V = Seq<u8>;

    open spec fn view(&self) -> Seq<u8> {
        self.memory@
    }
}

impl Cardridge {
    /// Number of bytes on the cartridge.
    pub fn len(&self) -> (n: usize)
        ensures
            n == self@.len(),
    {
        self.memory.len()
    }

    /// The byte at `index`; instruction fetch goes through this.
    pub fn get(&self, index: usize) -> (b: u8)
        requires
            index < self@.len(),
        ensures
            b == self@[index as int],
    {
        self.memory[index]
    }
}

} // verus!
