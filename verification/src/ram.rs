//! The console's 2 KiB of internal RAM. It claims the CPU window
//! `0x0000..0x2000`, mirrored every 2 KiB.

use vstd::prelude::*;

verus! {

/// Number of bytes of internal RAM.
pub const RAM_SIZE: usize = 0x800;

/// What a RAM read of `addr` returns: the mirrored cell for addresses in the
/// window, "not mine" outside it.
pub open spec fn ram_read(mem: Seq<u8>, addr: u16) -> Option<u8> {
    if addr < 0x2000 {
        Some(mem[addr as int % 0x800])
    } else {
        None
    }
}

/// RAM contents after a write of `data` at `addr`: the mirrored cell is
/// replaced for addresses in the window, nothing changes outside it.
pub open spec fn ram_write(mem: Seq<u8>, addr: u16, data: u8) -> Seq<u8> {
    if addr < 0x2000 {
        mem.update(addr as int % 0x800, data)
    } else {
        mem
    }
}

pub struct Ram {
    pub memory: Vec<u8>,
}

impl Ram {
    /// The RAM invariant: exactly `RAM_SIZE` cells.
    pub open spec fn wf(&self) -> bool {
        self.memory@.len() == RAM_SIZE
    }

    pub fn new() -> (r: Ram)
        ensures
            r.wf(),
            r.memory@ =~= Seq::new(RAM_SIZE as nat, |i: int| 0u8),
    {
        let mut memory: Vec<u8> = Vec::new();
        let mut i: usize = 0;
        while i < RAM_SIZE
            invariant
                i == memory@.len(),
                i <= RAM_SIZE,
                forall|j: int| 0 <= j < i ==> memory@[j] == 0u8,
            decreases RAM_SIZE - i,
        {
            memory.push(0);
            i = i + 1;
        }
        let r = Ram { memory };
        assert(r.memory@ =~= Seq::new(RAM_SIZE as nat, |i: int| 0u8));
        r
    }
}

} // verus!
