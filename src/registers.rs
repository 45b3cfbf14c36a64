use vstd::prelude::*;

verus! {

/// Value that every register but the zero register holds before its first write.
pub const SENTINEL: u32 = 0xF0F0_F0F0;

/// Number of general-purpose registers.
pub const REGISTER_COUNT: usize = 32;

/// The register values after writing `data` to `register`: register 0 ignores writes.
pub open spec fn write_reg(regs: Seq<u32>, register: int, data: u32) -> Seq<u32> {
    if register == 0 {
        regs
    } else {
        regs.update(register, data)
    }
}

/// The register values right after construction: zero in register 0, the sentinel elsewhere.
pub open spec fn initial_registers() -> Seq<u32> {
    Seq::new(32, |i: int| if i == 0 { 0 } else { SENTINEL })
}

/// The bank of 32 general-purpose registers; register 0 always reads as zero.
pub struct Registers {
    registers: Vec<u32>,
}

impl View for Registers {
    type V = Seq<u32>;

    /// The value each register reads as, indexed by register number.
    closed spec fn view(&self) -> Seq<u32> {
        self.registers@
    }
}

impl Registers {
    /// Exactly 32 registers, and register 0 holds zero.
    pub open spec fn wf(&self) -> bool {
        &&& self@.len() == 32
        &&& self@[0] == 0
    }

    /// Reading a register right after writing `v` to it gives `v`, except for
    /// register 0, which reads as zero whatever was written.
    pub proof fn lemma_write_then_read(&self, i: int, v: u32)
        requires
            self.wf(),
            0 <= i < 32,
        ensures
            write_reg(self@, i, v)[i] == (if i == 0 {
                0
            } else {
                v
            }),
            write_reg(self@, i, v).len() == 32,
            write_reg(self@, i, v)[0] == 0,
    {
    }

    pub fn new() -> (r: Self)
        ensures
            r.wf(),
            r@.len() == 32,
            r@ == initial_registers(),
    {
        let mut registers: Vec<u32> = Vec::new();
        registers.push(0);
        let mut i: usize = 1;
        while i < REGISTER_COUNT
            invariant
                1 <= i <= REGISTER_COUNT,
                registers@.len() == i,
                registers@[0] == 0,
                forall|j: int| 1 <= j < i ==> registers@[j] == SENTINEL,
            decreases REGISTER_COUNT - i,
        {
            registers.push(SENTINEL);
            i += 1;
        }
        assert(registers@ =~= initial_registers());
        Registers { registers }
    }

    /// Writes `data` to `register`; a write to register 0 is discarded.
    pub fn set(&mut self, register: usize, data: u32)
        requires
            old(self).wf(),
            register < 32,
        ensures
            final(self).wf(),
            final(self)@ == write_reg(old(self)@, register as int, data),
    {
        if register > 0 {
            self.registers.set(register, data);
        }
    }

    /// Reads `register`; register 0 reads as zero.
    pub fn get(&self, register: usize) -> (r: u32)
        requires
            self.wf(),
            register < 32,
        ensures
            r == self@[register as int],
            register == 0 ==> r == 0,
    {
        if register == 0 {
            return 0;
        }
        self.registers[register]
    }
}

} // verus!
