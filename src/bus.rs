use vstd::prelude::*;

verus! {

/// Number of addressable bytes: every 16-bit address names one byte.
pub const MEMORY_SIZE: usize = 0x10000;

/// A flat memory space covering the whole 16-bit address range.
pub struct Bus {
    memory: [u8; MEMORY_SIZE],
}

impl Bus {
    /// The bytes held, indexed by address.
    pub closed spec fn view(&self) -> Seq<u8> {
        self.memory@
    }

    /// Every address of the bus holds a byte.
    pub proof fn lemma_full_space(&self)
        ensures
            self.view().len() == MEMORY_SIZE,
    {
        assert(self.memory@.len() == MEMORY_SIZE);
    }

    /// A bus whose every byte is zero.
    pub fn new() -> (r: Self)
        ensures
            r.view() == Seq::new(MEMORY_SIZE as nat, |_i: int| 0u8),
    {
        let memory = [0u8; MEMORY_SIZE];
        assert(memory@ =~= Seq::new(MEMORY_SIZE as nat, |_i: int| 0u8));
        Bus { memory }
    }

    /// The byte stored at `addr`.
    pub fn read(&self, addr: u16) -> (r: u8)
        ensures
            r == self.view()[addr as int],
            self.view().len() == MEMORY_SIZE,
    {
        proof {
            self.lemma_full_space();
        }
        self.memory[addr as usize]
    }

    /// The bytes from `addr` on, `size` of them, clamped at the end of the address
    /// space rather than wrapping round to address zero.
    pub fn read_bulk(&self, addr: u16, size: u16) -> (r: Vec<u8>)
        ensures
            r@ == self.view().subrange(addr as int, bulk_end(addr, size)),
    {
        proof {
            self.lemma_full_space();
        }
        let end: usize = if addr as usize + size as usize > MEMORY_SIZE {
            MEMORY_SIZE
        } else {
            addr as usize + size as usize
        };
        let mut out: Vec<u8> = Vec::new();
        let mut i: usize = addr as usize;
        while i < end
            invariant
                addr <= i <= end,
                end == bulk_end(addr, size),
                self.memory@.len() == MEMORY_SIZE,
                out@ == self.memory@.subrange(addr as int, i as int),
            decreases end - i,
        {
            out.push(self.memory[i]);
            i = i + 1;
            assert(out@ =~= self.memory@.subrange(addr as int, i as int));
        }
        out
    }

    /// Stores `value` at `addr`, leaving every other byte as it was.
    pub fn write(&mut self, addr: u16, value: u8)
        ensures
            final(self).view() == old(self).view().update(addr as int, value),
            final(self).view().len() == MEMORY_SIZE,
    {
        proof {
            self.lemma_full_space();
        }
        self.memory[addr as usize] = value;
    }
}

/// One past the last address that a bulk read of `size` bytes at `addr` covers.
pub open spec fn bulk_end(addr: u16, size: u16) -> int {
    if addr + size > MEMORY_SIZE {
        MEMORY_SIZE as int
    } else {
        addr + size
    }
}

} // verus!
