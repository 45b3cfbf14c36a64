use vstd::prelude::*;

use crate::instruction::{
    as_signed, decode, imm_b, imm_i, imm_j, imm_s, imm_u, rd_of, rs1_of, rs2_of, shamt_of,
    Instruction, InstructionType,
};
use crate::memory::{half_at, sign_extend16, sign_extend8, store16, store32, word_at, Memory};
use crate::registers::{initial_registers, write_reg, Registers};

verus! {

/// The architectural state of the machine.
pub struct MachineState {
    pub pc: u32,
    pub regs: Seq<u32>,
    pub mem: Seq<u8>,
    pub halted: bool,
}

/// 32 registers with register 0 holding zero.
pub open spec fn state_wf(s: MachineState) -> bool {
    s.regs.len() == 32 && s.regs[0] == 0
}

/// `a + b` modulo 2^32.
pub open spec fn add32(a: u32, b: u32) -> u32 {
    ((a + b) % 0x1_0000_0000) as u32
}

/// `a - b` modulo 2^32.
pub open spec fn sub32(a: u32, b: u32) -> u32 {
    ((a - b) % 0x1_0000_0000) as u32
}

/// Arithmetic shift right: the vacated high bits take the value of bit 31.
pub open spec fn sra32(a: u32, n: u32) -> u32 {
    if a >> 31u32 == 1 {
        !((!a) >> n)
    } else {
        a >> n
    }
}

pub open spec fn bool_word(b: bool) -> u32 {
    if b {
        1
    } else {
        0
    }
}

/// The value of register `i`.
pub open spec fn reg(s: MachineState, i: u8) -> u32 {
    s.regs[i as int]
}

/// The state with the program counter moved to the next instruction.
pub open spec fn advance(s: MachineState) -> MachineState {
    MachineState { pc: add32(s.pc, 4), ..s }
}

/// The state after writing `v` to the destination register of `w` and advancing.
pub open spec fn write_back(s: MachineState, w: u32, v: u32) -> MachineState {
    MachineState { regs: write_reg(s.regs, rd_of(w) as int, v), pc: add32(s.pc, 4), ..s }
}

/// The state after a jump to `target` that links the return address into the destination register.
pub open spec fn jump(s: MachineState, w: u32, target: u32) -> MachineState {
    MachineState { regs: write_reg(s.regs, rd_of(w) as int, add32(s.pc, 4)), pc: target, ..s }
}

/// The state after a conditional branch of `w`.
pub open spec fn branch(s: MachineState, w: u32, taken: bool) -> MachineState {
    MachineState {
        pc: if taken {
            add32(s.pc, imm_b(w))
        } else {
            add32(s.pc, 4)
        },
        ..s
    }
}

/// The halted state, with nothing else changed.
pub open spec fn halt(s: MachineState) -> MachineState {
    MachineState { halted: true, ..s }
}

/// Whether `width` bytes starting at `addr` lie inside memory.
pub open spec fn fits(s: MachineState, addr: u32, width: int) -> bool {
    addr + width <= s.mem.len()
}

/// The effective address of a load: rs1 plus the I-form immediate.
pub open spec fn load_addr(s: MachineState, w: u32) -> u32 {
    add32(reg(s, rs1_of(w)), imm_i(w))
}

/// The effective address of a store: rs1 plus the S-form immediate.
pub open spec fn store_addr(s: MachineState, w: u32) -> u32 {
    add32(reg(s, rs1_of(w)), imm_s(w))
}

/// A load of `width` bytes that writes `v` back; outside memory, the machine halts instead.
pub open spec fn load(s: MachineState, w: u32, width: int, v: u32) -> MachineState {
    if fits(s, load_addr(s, w), width) {
        write_back(s, w, v)
    } else {
        halt(s)
    }
}

/// A store of `width` bytes that leaves `mem`; outside memory, the machine halts instead.
pub open spec fn store(s: MachineState, w: u32, width: int, mem: Seq<u8>) -> MachineState {
    if fits(s, store_addr(s, w), width) {
        MachineState { mem, pc: add32(s.pc, 4), ..s }
    } else {
        halt(s)
    }
}

/// The effect of executing word `w` as mnemonic `t`.
pub open spec fn semantics(s: MachineState, t: InstructionType, w: u32) -> MachineState {
    let a = reg(s, rs1_of(w));
    let b = reg(s, rs2_of(w));
    let la = load_addr(s, w) as int;
    let sa = store_addr(s, w) as int;
    let sh = shamt_of(w) as u32;
    match t {
        InstructionType::LUI => write_back(s, w, imm_u(w) << 12u32),
        InstructionType::AUIPC => write_back(s, w, add32(imm_u(w) << 12u32, s.pc)),
        InstructionType::JAL => jump(s, w, add32(s.pc, imm_j(w))),
        InstructionType::JALR => jump(s, w, add32(a, imm_i(w)) & 0xFFFF_FFFE),
        InstructionType::BEQ => branch(s, w, a == b),
        InstructionType::BNE => branch(s, w, a != b),
        InstructionType::BLT => branch(s, w, as_signed(a) < as_signed(b)),
        InstructionType::BGE => branch(s, w, as_signed(a) >= as_signed(b)),
        InstructionType::BLTU => branch(s, w, a < b),
        InstructionType::BGEU => branch(s, w, a >= b),
        InstructionType::LB => load(s, w, 1, sign_extend8(s.mem[la])),
        InstructionType::LH => load(s, w, 2, sign_extend16(half_at(s.mem, la))),
        InstructionType::LW => load(s, w, 4, word_at(s.mem, la)),
        InstructionType::LBU => load(s, w, 1, s.mem[la] as u32),
        InstructionType::LHU => load(s, w, 2, half_at(s.mem, la) as u32),
        InstructionType::SB => store(s, w, 1, s.mem.update(sa, b as u8)),
        InstructionType::SH => store(s, w, 2, store16(s.mem, sa, b as u16)),
        InstructionType::SW => store(s, w, 4, store32(s.mem, sa, b)),
        InstructionType::ADDI => write_back(s, w, add32(a, imm_i(w))),
        InstructionType::SLTI => write_back(s, w, bool_word(as_signed(a) < as_signed(imm_i(w)))),
        InstructionType::SLTIU => write_back(s, w, bool_word(a < imm_i(w))),
        InstructionType::XORI => write_back(s, w, a ^ imm_i(w)),
        InstructionType::ORI => write_back(s, w, a | imm_i(w)),
        InstructionType::ANDI => write_back(s, w, a & imm_i(w)),
        InstructionType::SLLI => write_back(s, w, a << sh),
        InstructionType::SRLI => write_back(s, w, a >> sh),
        InstructionType::SRAI => write_back(s, w, sra32(a, sh)),
        InstructionType::ADD => write_back(s, w, add32(a, b)),
        InstructionType::SUB => write_back(s, w, sub32(a, b)),
        InstructionType::SLL => write_back(s, w, a << (b & 0x1F)),
        InstructionType::SLT => write_back(s, w, bool_word(as_signed(a) < as_signed(b))),
        InstructionType::SLTU => write_back(s, w, bool_word(a < b)),
        InstructionType::XOR => write_back(s, w, a ^ b),
        InstructionType::SRL => write_back(s, w, a >> (b & 0x1F)),
        InstructionType::SRA => write_back(s, w, sra32(a, b & 0x1F)),
        InstructionType::OR => write_back(s, w, a | b),
        InstructionType::AND => write_back(s, w, a & b),
        InstructionType::ECALL | InstructionType::CSRRW | InstructionType::CSRRS
        | InstructionType::CSRRC | InstructionType::CSRRWI | InstructionType::CSRRSI
        | InstructionType::CSRRCI => advance(s),
        InstructionType::EBREAK => halt(s),
    }
}

/// The effect of executing word `w`; an illegal word halts the machine with nothing else changed.
pub open spec fn execute(s: MachineState, w: u32) -> MachineState {
    match decode(w) {
        Some(t) => semantics(s, t, w),
        None => halt(s),
    }
}

/// Whether a step would fetch and execute: not halted, and a whole word at the program counter.
pub open spec fn can_fetch(s: MachineState) -> bool {
    !s.halted && s.pc + 4 <= s.mem.len()
}

/// One step: nothing once halted; a fetch outside memory halts; otherwise execute the word
/// at the program counter.
pub open spec fn step(s: MachineState) -> MachineState {
    if s.halted {
        s
    } else if !can_fetch(s) {
        halt(s)
    } else {
        execute(s, word_at(s.mem, s.pc as int))
    }
}

/// The state after `n` steps.
pub open spec fn steps(s: MachineState, n: nat) -> MachineState
    decreases n,
{
    if n == 0 {
        s
    } else {
        step(steps(s, (n - 1) as nat))
    }
}

/// Once the machine is halted, a step changes nothing, and neither do any number of steps.
pub proof fn lemma_halted_is_final(s: MachineState, n: nat)
    requires
        s.halted,
    ensures
        step(s) == s,
        steps(s, n) == s,
    decreases n,
{
    if n > 0 {
        lemma_halted_is_final(s, (n - 1) as nat);
    }
}

/// The state after executing the words of `ws` in order.
pub open spec fn execute_all(s: MachineState, ws: Seq<u32>) -> MachineState
    decreases ws.len(),
{
    if ws.len() == 0 {
        s
    } else {
        execute(execute_all(s, ws.drop_last()), ws.last())
    }
}

/// Executing any word keeps 32 registers and register 0 at zero.
pub proof fn lemma_execute_keeps_zero_register(s: MachineState, w: u32)
    requires
        state_wf(s),
    ensures
        state_wf(execute(s, w)),
        execute(s, w).regs[0] == 0,
{
    crate::instruction::lemma_field_widths(w);
    assert forall|v: u32| #[trigger]
        write_reg(s.regs, rd_of(w) as int, v).len() == 32 && write_reg(
            s.regs,
            rd_of(w) as int,
            v,
        )[0] == 0 by {}
}

/// After any sequence of instructions register 0 still reads as zero.
pub proof fn lemma_zero_register_after_instructions(s: MachineState, ws: Seq<u32>)
    requires
        state_wf(s),
    ensures
        state_wf(execute_all(s, ws)),
        execute_all(s, ws).regs[0] == 0,
    decreases ws.len(),
{
    if ws.len() > 0 {
        lemma_zero_register_after_instructions(s, ws.drop_last());
        lemma_execute_keeps_zero_register(execute_all(s, ws.drop_last()), ws.last());
    }
}

/// After any number of steps register 0 still reads as zero.
pub proof fn lemma_zero_register_stays_zero(s: MachineState, n: nat)
    requires
        state_wf(s),
    ensures
        state_wf(steps(s, n)),
        steps(s, n).regs[0] == 0,
    decreases n,
{
    if n > 0 {
        let prev = steps(s, (n - 1) as nat);
        lemma_zero_register_stays_zero(s, (n - 1) as nat);
        if can_fetch(prev) {
            lemma_execute_keeps_zero_register(prev, word_at(prev.mem, prev.pc as int));
        }
    }
}

fn add_wrap(a: u32, b: u32) -> (r: u32)
    ensures
        r == add32(a, b),
{
    a.wrapping_add(b)
}

fn sub_wrap(a: u32, b: u32) -> (r: u32)
    ensures
        r == sub32(a, b),
{
    a.wrapping_sub(b)
}

/// Two's-complement comparison of two words.
fn signed_less(a: u32, b: u32) -> (r: bool)
    ensures
        r == (as_signed(a) < as_signed(b)),
{
    let a_negative = a >= 0x8000_0000;
    let b_negative = b >= 0x8000_0000;
    if a_negative != b_negative {
        a_negative
    } else {
        a < b
    }
}

fn shift_right_arith(a: u32, n: u32) -> (r: u32)
    requires
        n < 32,
    ensures
        r == sra32(a, n),
{
    if a >> 31 == 1 {
        !((!a) >> n)
    } else {
        a >> n
    }
}

/// The execution engine: program counter, halt flag, registers and its own memory.
pub struct CPU {
    memory: Memory,
    pc: u32,
    registers: Registers,
    halted: bool,
}

impl View for CPU {
    type V = MachineState;

    closed spec fn view(&self) -> MachineState {
        MachineState {
            pc: self.pc,
            regs: self.registers@,
            mem: self.memory@,
            halted: self.halted,
        }
    }
}

impl CPU {
    pub open spec fn wf(&self) -> bool {
        state_wf(self@)
    }

    /// A machine at program counter 0, not halted, with fresh registers and its own
    /// copy of `memory`.
    pub fn from_memory(memory: &Memory) -> (r: Self)
        ensures
            r.wf(),
            r@ == (MachineState { pc: 0, regs: initial_registers(), mem: memory@, halted: false }),
    {
        Self { memory: memory.snapshot(), pc: 0, registers: Registers::new(), halted: false }
    }

    pub fn pc(&self) -> (r: u32)
        ensures
            r == self@.pc,
    {
        self.pc
    }

    pub fn halted(&self) -> (r: bool)
        ensures
            r == self@.halted,
    {
        self.halted
    }

    /// The value that register `register` reads as.
    pub fn register(&self, register: usize) -> (r: u32)
        requires
            self.wf(),
            register < 32,
        ensures
            r == self@.regs[register as int],
    {
        self.registers.get(register)
    }

    pub fn memory(&self) -> (r: &Memory)
        ensures
            r@ == self@.mem,
    {
        &self.memory
    }

    /// Whether `width` bytes starting at `addr` lie inside memory.
    fn fits(&self, addr: u32, width: u32) -> (r: bool)
        ensures
            r == fits(self@, addr, width as int),
    {
        let n = self.memory.len();
        addr as usize <= n && width as usize <= n - addr as usize
    }

    /// Runs until the machine halts or no whole word lies at the program counter.
    pub fn run(&mut self)
        requires
            old(self).wf(),
        ensures
            final(self).wf(),
            exists|n: nat|
                final(self)@ == steps(old(self)@, n) && (forall|k: nat|
                    k < n ==> can_fetch(#[trigger] steps(old(self)@, k))) && (!can_fetch(
                    final(self)@) || n == u64::MAX),
    {
        let mut count: u64 = 0;
        while count < u64::MAX && self.can_fetch()
            invariant
                self.wf(),
                self@ == steps(old(self)@, count as nat),
                forall|k: nat| k < count ==> can_fetch(#[trigger] steps(old(self)@, k)),
            decreases u64::MAX - count,
        {
            self.tick();
            count += 1;
        }
        assert(final(self)@ == steps(old(self)@, count as nat));
    }

    fn can_fetch(&self) -> (r: bool)
        ensures
            r == can_fetch(self@),
    {
        let n = self.memory.len();
        !self.halted && n >= 4 && self.pc as usize <= n - 4
    }

    /// One step: fetches the word at the program counter and executes it. Returns the
    /// word executed, or `None` when the machine is halted or the fetch lies outside
    /// memory, which halts it.
    pub fn tick(&mut self) -> (r: Option<u32>)
        requires
            old(self).wf(),
        ensures
            final(self).wf(),
            final(self)@ == step(old(self)@),
            r == (if can_fetch(old(self)@) {
                Some(word_at(old(self)@.mem, old(self)@.pc as int))
            } else {
                None::<u32>
            }),
    {
        if self.halted {
            return None;
        }
        if !self.can_fetch() {
            self.halted = true;
            return None;
        }
        let word = self.memory.get32(self.pc as usize);
        let instruction = Instruction::from_u32(word);
        self.execute_instruction(&instruction);
        Some(word)
    }

    /// Executes one decoded instruction; an illegal word halts the machine.
    pub fn execute_instruction(&mut self, instruction: &Instruction)
        requires
            old(self).wf(),
        ensures
            final(self).wf(),
            final(self)@ == execute(old(self)@, instruction@),
    {
        match instruction._type() {
            Ok(t) => match t {
                InstructionType::LUI => self.execute_lui(instruction),
                InstructionType::AUIPC => self.execute_auipc(instruction),
                InstructionType::JAL => self.execute_jal(instruction),
                InstructionType::JALR => self.execute_jalr(instruction),
                InstructionType::BEQ => self.execute_beq(instruction),
                InstructionType::BNE => self.execute_bne(instruction),
                InstructionType::BLT => self.execute_blt(instruction),
                InstructionType::BGE => self.execute_bge(instruction),
                InstructionType::BLTU => self.execute_bltu(instruction),
                InstructionType::BGEU => self.execute_bgeu(instruction),
                InstructionType::LB => self.execute_lb(instruction),
                InstructionType::LH => self.execute_lh(instruction),
                InstructionType::LW => self.execute_lw(instruction),
                InstructionType::LBU => self.execute_lbu(instruction),
                InstructionType::LHU => self.execute_lhu(instruction),
                InstructionType::SB => self.execute_sb(instruction),
                InstructionType::SH => self.execute_sh(instruction),
                InstructionType::SW => self.execute_sw(instruction),
                InstructionType::ADDI => self.execute_addi(instruction),
                InstructionType::SLTI => self.execute_slti(instruction),
                InstructionType::SLTIU => self.execute_sltiu(instruction),
                InstructionType::XORI => self.execute_xori(instruction),
                InstructionType::ORI => self.execute_ori(instruction),
                InstructionType::ANDI => self.execute_andi(instruction),
                InstructionType::SLLI => self.execute_slli(instruction),
                InstructionType::SRLI => self.execute_srli(instruction),
                InstructionType::SRAI => self.execute_srai(instruction),
                InstructionType::ADD => self.execute_add(instruction),
                InstructionType::SUB => self.execute_sub(instruction),
                InstructionType::SLL => self.execute_sll(instruction),
                InstructionType::SLT => self.execute_slt(instruction),
                InstructionType::SLTU => self.execute_sltu(instruction),
                InstructionType::XOR => self.execute_xor(instruction),
                InstructionType::SRL => self.execute_srl(instruction),
                InstructionType::SRA => self.execute_sra(instruction),
                InstructionType::OR => self.execute_or(instruction),
                InstructionType::AND => self.execute_and(instruction),
                InstructionType::ECALL | InstructionType::CSRRW | InstructionType::CSRRS
                | InstructionType::CSRRC | InstructionType::CSRRWI | InstructionType::CSRRSI
                | InstructionType::CSRRCI => self.pc = add_wrap(self.pc, 4),
                InstructionType::EBREAK => self.halted = true,
            },
            Err(_) => self.halted = true,
        }
    }

    pub fn execute_lui(&mut self, instruction: &Instruction)
        requires
            old(self).wf(),
        ensures
            final(self).wf(),
            final(self)@ == semantics(old(self)@, InstructionType::LUI, instruction@),
    {
        let rd = instruction.get_rd();
        let imm = instruction.get_imm_u() << 12;
        self.registers.set(rd as usize, imm);
        self.pc = add_wrap(self.pc, 4);
    }

    pub fn execute_auipc(&mut self, instruction: &Instruction)
        requires
            old(self).wf(),
        ensures
            final(self).wf(),
            final(self)@ == semantics(old(self)@, InstructionType::AUIPC, instruction@),
    {
        let rd = instruction.get_rd();
        let imm = instruction.get_imm_u() << 12;
        self.registers.set(rd as usize, add_wrap(imm, self.pc));
        self.pc = add_wrap(self.pc, 4);
    }

    pub fn execute_jal(&mut self, instruction: &Instruction)
        requires
            old(self).wf(),
        ensures
            final(self).wf(),
            final(self)@ == semantics(old(self)@, InstructionType::JAL, instruction@),
    {
        let rd = instruction.get_rd();
        let imm = instruction.get_imm_j();
        let target = add_wrap(self.pc, imm);
        self.registers.set(rd as usize, add_wrap(self.pc, 4));
        self.pc = target;
    }

    pub fn execute_jalr(&mut self, instruction: &Instruction)
        requires
            old(self).wf(),
        ensures
            final(self).wf(),
            final(self)@ == semantics(old(self)@, InstructionType::JALR, instruction@),
    {
        let rd = instruction.get_rd();
        let rs1 = instruction.get_rs1();
        let imm = instruction.get_imm_i();
        let rs1_value = self.registers.get(rs1 as usize);
        let target = add_wrap(rs1_value, imm) & 0xFFFF_FFFE;
        self.registers.set(rd as usize, add_wrap(self.pc, 4));
        self.pc = target;
    }

    pub fn execute_bne(&mut self, instruction: &Instruction)
        requires
            old(self).wf(),
        ensures
            final(self).wf(),
            final(self)@ == semantics(old(self)@, InstructionType::BNE, instruction@),
    {
        let rs1 = instruction.get_rs1();
        let rs2 = instruction.get_rs2();
        let imm = instruction.get_imm_b();
        let rs1_value = self.registers.get(rs1 as usize);
        let rs2_value = self.registers.get(rs2 as usize);
        let offset = if rs1_value != rs2_value {
            imm
        } else {
            4
        };
        self.pc = add_wrap(self.pc, offset);
    }

    pub fn execute_blt(&mut self, instruction: &Instruction)
        requires
            old(self).wf(),
        ensures
            final(self).wf(),
            final(self)@ == semantics(old(self)@, InstructionType::BLT, instruction@),
    {
        let rs1 = instruction.get_rs1();
        let rs2 = instruction.get_rs2();
        let imm = instruction.get_imm_b();
        let rs1_value = self.registers.get(rs1 as usize);
        let rs2_value = self.registers.get(rs2 as usize);
        let offset = if signed_less(rs1_value, rs2_value) {
            imm
        } else {
            4
        };
        self.pc = add_wrap(self.pc, offset);
    }

    pub fn execute_bge(&mut self, instruction: &Instruction)
        requires
            old(self).wf(),
        ensures
            final(self).wf(),
            final(self)@ == semantics(old(self)@, InstructionType::BGE, instruction@),
    {
        let rs1 = instruction.get_rs1();
        let rs2 = instruction.get_rs2();
        let imm = instruction.get_imm_b();
        let rs1_value = self.registers.get(rs1 as usize);
        let rs2_value = self.registers.get(rs2 as usize);
        let offset = if !signed_less(rs1_value, rs2_value) {
            imm
        } else {
            4
        };
        self.pc = add_wrap(self.pc, offset);
    }

    pub fn execute_bltu(&mut self, instruction: &Instruction)
        requires
            old(self).wf(),
        ensures
            final(self).wf(),
            final(self)@ == semantics(old(self)@, InstructionType::BLTU, instruction@),
    {
        let rs1 = instruction.get_rs1();
        let rs2 = instruction.get_rs2();
        let imm = instruction.get_imm_b();
        let rs1_value = self.registers.get(rs1 as usize);
        let rs2_value = self.registers.get(rs2 as usize);
        let offset = if rs1_value < rs2_value {
            imm
        } else {
            4
        };
        self.pc = add_wrap(self.pc, offset);
    }

    pub fn execute_bgeu(&mut self, instruction: &Instruction)
        requires
            old(self).wf(),
        ensures
            final(self).wf(),
            final(self)@ == semantics(old(self)@, InstructionType::BGEU, instruction@),
    {
        let rs1 = instruction.get_rs1();
        let rs2 = instruction.get_rs2();
        let imm = instruction.get_imm_b();
        let rs1_value = self.registers.get(rs1 as usize);
        let rs2_value = self.registers.get(rs2 as usize);
        let offset = if rs1_value >= rs2_value {
            imm
        } else {
            4
        };
        self.pc = add_wrap(self.pc, offset);
    }

    pub fn execute_beq(&mut self, instruction: &Instruction)
        requires
            old(self).wf(),
        ensures
            final(self).wf(),
            final(self)@ == semantics(old(self)@, InstructionType::BEQ, instruction@),
    {
        let rs1 = instruction.get_rs1();
        let rs2 = instruction.get_rs2();
        let imm = instruction.get_imm_b();
        let rs1_value = self.registers.get(rs1 as usize);
        let rs2_value = self.registers.get(rs2 as usize);
        let offset = if rs1_value == rs2_value {
            imm
        } else {
            4
        };
        self.pc = add_wrap(self.pc, offset);
    }

    pub fn execute_addi(&mut self, instruction: &Instruction)
        requires
            old(self).wf(),
        ensures
            final(self).wf(),
            final(self)@ == semantics(old(self)@, InstructionType::ADDI, instruction@),
    {
        let rd = instruction.get_rd();
        let rs1 = instruction.get_rs1();
        let imm = instruction.get_imm_i();
        let rs1_value = self.registers.get(rs1 as usize);
        self.registers.set(rd as usize, add_wrap(rs1_value, imm));
        self.pc = add_wrap(self.pc, 4);
    }

    pub fn execute_lbu(&mut self, instruction: &Instruction)
        requires
            old(self).wf(),
        ensures
            final(self).wf(),
            final(self)@ == semantics(old(self)@, InstructionType::LBU, instruction@),
    {
        let rd = instruction.get_rd();
        let rs1 = instruction.get_rs1();
        let imm = instruction.get_imm_i();
        let addr = add_wrap(self.registers.get(rs1 as usize), imm);
        if self.fits(addr, 1) {
            let data = self.memory.get8(addr as usize) as u32;
            self.registers.set(rd as usize, data);
            self.pc = add_wrap(self.pc, 4);
        } else {
            self.halted = true;
        }
    }

    pub fn execute_lb(&mut self, instruction: &Instruction)
        requires
            old(self).wf(),
        ensures
            final(self).wf(),
            final(self)@ == semantics(old(self)@, InstructionType::LB, instruction@),
    {
        let rd = instruction.get_rd();
        let rs1 = instruction.get_rs1();
        let imm = instruction.get_imm_i();
        let addr = add_wrap(self.registers.get(rs1 as usize), imm);
        if self.fits(addr, 1) {
            let data = self.memory.get8_sx(addr as usize);
            self.registers.set(rd as usize, data);
            self.pc = add_wrap(self.pc, 4);
        } else {
            self.halted = true;
        }
    }

    pub fn execute_lhu(&mut self, instruction: &Instruction)
        requires
            old(self).wf(),
        ensures
            final(self).wf(),
            final(self)@ == semantics(old(self)@, InstructionType::LHU, instruction@),
    {
        let rd = instruction.get_rd();
        let rs1 = instruction.get_rs1();
        let imm = instruction.get_imm_i();
        let addr = add_wrap(self.registers.get(rs1 as usize), imm);
        if self.fits(addr, 2) {
            let data = self.memory.get16(addr as usize) as u32;
            self.registers.set(rd as usize, data);
            self.pc = add_wrap(self.pc, 4);
        } else {
            self.halted = true;
        }
    }

    pub fn execute_lh(&mut self, instruction: &Instruction)
        requires
            old(self).wf(),
        ensures
            final(self).wf(),
            final(self)@ == semantics(old(self)@, InstructionType::LH, instruction@),
    {
        let rd = instruction.get_rd();
        let rs1 = instruction.get_rs1();
        let imm = instruction.get_imm_i();
        let addr = add_wrap(self.registers.get(rs1 as usize), imm);
        if self.fits(addr, 2) {
            let data = self.memory.get16_sx(addr as usize);
            self.registers.set(rd as usize, data);
            self.pc = add_wrap(self.pc, 4);
        } else {
            self.halted = true;
        }
    }

    pub fn execute_lw(&mut self, instruction: &Instruction)
        requires
            old(self).wf(),
        ensures
            final(self).wf(),
            final(self)@ == semantics(old(self)@, InstructionType::LW, instruction@),
    {
        let rd = instruction.get_rd();
        let rs1 = instruction.get_rs1();
        let imm = instruction.get_imm_i();
        let addr = add_wrap(self.registers.get(rs1 as usize), imm);
        if self.fits(addr, 4) {
            let data = self.memory.get32(addr as usize);
            self.registers.set(rd as usize, data);
            self.pc = add_wrap(self.pc, 4);
        } else {
            self.halted = true;
        }
    }

    pub fn execute_sb(&mut self, instruction: &Instruction)
        requires
            old(self).wf(),
        ensures
            final(self).wf(),
            final(self)@ == semantics(old(self)@, InstructionType::SB, instruction@),
    {
        let rs1 = instruction.get_rs1();
        let rs2 = instruction.get_rs2();
        let imm = instruction.get_imm_s();
        let addr = add_wrap(self.registers.get(rs1 as usize), imm);
        let rs2_value = self.registers.get(rs2 as usize);
        if self.fits(addr, 1) {
            self.memory.set8(#[verifier::truncate] (rs2_value as u8), addr as usize);
            self.pc = add_wrap(self.pc, 4);
        } else {
            self.halted = true;
        }
    }

    pub fn execute_sh(&mut self, instruction: &Instruction)
        requires
            old(self).wf(),
        ensures
            final(self).wf(),
            final(self)@ == semantics(old(self)@, InstructionType::SH, instruction@),
    {
        let rs1 = instruction.get_rs1();
        let rs2 = instruction.get_rs2();
        let imm = instruction.get_imm_s();
        let addr = add_wrap(self.registers.get(rs1 as usize), imm);
        let rs2_value = self.registers.get(rs2 as usize);
        if self.fits(addr, 2) {
            self.memory.set16(#[verifier::truncate] (rs2_value as u16), addr as usize);
            self.pc = add_wrap(self.pc, 4);
        } else {
            self.halted = true;
        }
    }

    pub fn execute_sw(&mut self, instruction: &Instruction)
        requires
            old(self).wf(),
        ensures
            final(self).wf(),
            final(self)@ == semantics(old(self)@, InstructionType::SW, instruction@),
    {
        let rs1 = instruction.get_rs1();
        let rs2 = instruction.get_rs2();
        let imm = instruction.get_imm_s();
        let addr = add_wrap(self.registers.get(rs1 as usize), imm);
        let rs2_value = self.registers.get(rs2 as usize);
        if self.fits(addr, 4) {
            self.memory.set32(rs2_value, addr as usize);
            self.pc = add_wrap(self.pc, 4);
        } else {
            self.halted = true;
        }
    }

    pub fn execute_slti(&mut self, instruction: &Instruction)
        requires
            old(self).wf(),
        ensures
            final(self).wf(),
            final(self)@ == semantics(old(self)@, InstructionType::SLTI, instruction@),
    {
        let rd = instruction.get_rd();
        let rs1 = instruction.get_rs1();
        let imm = instruction.get_imm_i();
        let rs1_value = self.registers.get(rs1 as usize);
        self.registers.set(rd as usize, if signed_less(rs1_value, imm) { 1 } else { 0 });
        self.pc = add_wrap(self.pc, 4);
    }

    pub fn execute_sltiu(&mut self, instruction: &Instruction)
        requires
            old(self).wf(),
        ensures
            final(self).wf(),
            final(self)@ == semantics(old(self)@, InstructionType::SLTIU, instruction@),
    {
        let rd = instruction.get_rd();
        let rs1 = instruction.get_rs1();
        let imm = instruction.get_imm_i();
        let rs1_value = self.registers.get(rs1 as usize);
        self.registers.set(rd as usize, if rs1_value < imm { 1 } else { 0 });
        self.pc = add_wrap(self.pc, 4);
    }

    pub fn execute_xori(&mut self, instruction: &Instruction)
        requires
            old(self).wf(),
        ensures
            final(self).wf(),
            final(self)@ == semantics(old(self)@, InstructionType::XORI, instruction@),
    {
        let rd = instruction.get_rd();
        let rs1 = instruction.get_rs1();
        let imm = instruction.get_imm_i();
        let rs1_value = self.registers.get(rs1 as usize);
        self.registers.set(rd as usize, rs1_value ^ imm);
        self.pc = add_wrap(self.pc, 4);
    }

    pub fn execute_ori(&mut self, instruction: &Instruction)
        requires
            old(self).wf(),
        ensures
            final(self).wf(),
            final(self)@ == semantics(old(self)@, InstructionType::ORI, instruction@),
    {
        let rd = instruction.get_rd();
        let rs1 = instruction.get_rs1();
        let imm = instruction.get_imm_i();
        let rs1_value = self.registers.get(rs1 as usize);
        self.registers.set(rd as usize, rs1_value | imm);
        self.pc = add_wrap(self.pc, 4);
    }

    pub fn execute_andi(&mut self, instruction: &Instruction)
        requires
            old(self).wf(),
        ensures
            final(self).wf(),
            final(self)@ == semantics(old(self)@, InstructionType::ANDI, instruction@),
    {
        let rd = instruction.get_rd();
        let rs1 = instruction.get_rs1();
        let imm = instruction.get_imm_i();
        let rs1_value = self.registers.get(rs1 as usize);
        self.registers.set(rd as usize, rs1_value & imm);
        self.pc = add_wrap(self.pc, 4);
    }

    pub fn execute_slli(&mut self, instruction: &Instruction)
        requires
            old(self).wf(),
        ensures
            final(self).wf(),
            final(self)@ == semantics(old(self)@, InstructionType::SLLI, instruction@),
    {
        let rd = instruction.get_rd();
        let rs1 = instruction.get_rs1();
        let shamt = instruction.get_shamt() as u32;
        let rs1_value = self.registers.get(rs1 as usize);
        self.registers.set(rd as usize, rs1_value << shamt);
        self.pc = add_wrap(self.pc, 4);
    }

    pub fn execute_srli(&mut self, instruction: &Instruction)
        requires
            old(self).wf(),
        ensures
            final(self).wf(),
            final(self)@ == semantics(old(self)@, InstructionType::SRLI, instruction@),
    {
        let rd = instruction.get_rd();
        let rs1 = instruction.get_rs1();
        let shamt = instruction.get_shamt() as u32;
        let rs1_value = self.registers.get(rs1 as usize);
        self.registers.set(rd as usize, rs1_value >> shamt);
        self.pc = add_wrap(self.pc, 4);
    }

    pub fn execute_srai(&mut self, instruction: &Instruction)
        requires
            old(self).wf(),
        ensures
            final(self).wf(),
            final(self)@ == semantics(old(self)@, InstructionType::SRAI, instruction@),
    {
        let rd = instruction.get_rd();
        let rs1 = instruction.get_rs1();
        let shamt = instruction.get_shamt() as u32;
        let rs1_value = self.registers.get(rs1 as usize);
        self.registers.set(rd as usize, shift_right_arith(rs1_value, shamt));
        self.pc = add_wrap(self.pc, 4);
    }

    pub fn execute_add(&mut self, instruction: &Instruction)
        requires
            old(self).wf(),
        ensures
            final(self).wf(),
            final(self)@ == semantics(old(self)@, InstructionType::ADD, instruction@),
    {
        let rd = instruction.get_rd();
        let rs1 = instruction.get_rs1();
        let rs2 = instruction.get_rs2();
        let rs1_value = self.registers.get(rs1 as usize);
        let rs2_value = self.registers.get(rs2 as usize);
        self.registers.set(rd as usize, add_wrap(rs1_value, rs2_value));
        self.pc = add_wrap(self.pc, 4);
    }

    pub fn execute_sub(&mut self, instruction: &Instruction)
        requires
            old(self).wf(),
        ensures
            final(self).wf(),
            final(self)@ == semantics(old(self)@, InstructionType::SUB, instruction@),
    {
        let rd = instruction.get_rd();
        let rs1 = instruction.get_rs1();
        let rs2 = instruction.get_rs2();
        let rs1_value = self.registers.get(rs1 as usize);
        let rs2_value = self.registers.get(rs2 as usize);
        self.registers.set(rd as usize, sub_wrap(rs1_value, rs2_value));
        self.pc = add_wrap(self.pc, 4);
    }

    pub fn execute_sll(&mut self, instruction: &Instruction)
        requires
            old(self).wf(),
        ensures
            final(self).wf(),
            final(self)@ == semantics(old(self)@, InstructionType::SLL, instruction@),
    {
        let rd = instruction.get_rd();
        let rs1 = instruction.get_rs1();
        let rs2 = instruction.get_rs2();
        let rs1_value = self.registers.get(rs1 as usize);
        let rs2_value = self.registers.get(rs2 as usize);
        let amount = rs2_value & 0b11111;
        assert(amount < 32) by (bit_vector)
            requires
                amount == rs2_value & 0b11111,
        ;
        self.registers.set(rd as usize, rs1_value << amount);
        self.pc = add_wrap(self.pc, 4);
    }

    pub fn execute_slt(&mut self, instruction: &Instruction)
        requires
            old(self).wf(),
        ensures
            final(self).wf(),
            final(self)@ == semantics(old(self)@, InstructionType::SLT, instruction@),
    {
        let rd = instruction.get_rd();
        let rs1 = instruction.get_rs1();
        let rs2 = instruction.get_rs2();
        let rs1_value = self.registers.get(rs1 as usize);
        let rs2_value = self.registers.get(rs2 as usize);
        self.registers.set(rd as usize, if signed_less(rs1_value, rs2_value) { 1 } else { 0 });
        self.pc = add_wrap(self.pc, 4);
    }

    pub fn execute_sltu(&mut self, instruction: &Instruction)
        requires
            old(self).wf(),
        ensures
            final(self).wf(),
            final(self)@ == semantics(old(self)@, InstructionType::SLTU, instruction@),
    {
        let rd = instruction.get_rd();
        let rs1 = instruction.get_rs1();
        let rs2 = instruction.get_rs2();
        let rs1_value = self.registers.get(rs1 as usize);
        let rs2_value = self.registers.get(rs2 as usize);
        self.registers.set(rd as usize, if rs1_value < rs2_value { 1 } else { 0 });
        self.pc = add_wrap(self.pc, 4);
    }

    pub fn execute_xor(&mut self, instruction: &Instruction)
        requires
            old(self).wf(),
        ensures
            final(self).wf(),
            final(self)@ == semantics(old(self)@, InstructionType::XOR, instruction@),
    {
        let rd = instruction.get_rd();
        let rs1 = instruction.get_rs1();
        let rs2 = instruction.get_rs2();
        let rs1_value = self.registers.get(rs1 as usize);
        let rs2_value = self.registers.get(rs2 as usize);
        self.registers.set(rd as usize, rs1_value ^ rs2_value);
        self.pc = add_wrap(self.pc, 4);
    }

    pub fn execute_srl(&mut self, instruction: &Instruction)
        requires
            old(self).wf(),
        ensures
            final(self).wf(),
            final(self)@ == semantics(old(self)@, InstructionType::SRL, instruction@),
    {
        let rd = instruction.get_rd();
        let rs1 = instruction.get_rs1();
        let rs2 = instruction.get_rs2();
        let rs1_value = self.registers.get(rs1 as usize);
        let rs2_value = self.registers.get(rs2 as usize);
        let amount = rs2_value & 0b11111;
        assert(amount < 32) by (bit_vector)
            requires
                amount == rs2_value & 0b11111,
        ;
        self.registers.set(rd as usize, rs1_value >> amount);
        self.pc = add_wrap(self.pc, 4);
    }

    pub fn execute_sra(&mut self, instruction: &Instruction)
        requires
            old(self).wf(),
        ensures
            final(self).wf(),
            final(self)@ == semantics(old(self)@, InstructionType::SRA, instruction@),
    {
        let rd = instruction.get_rd();
        let rs1 = instruction.get_rs1();
        let rs2 = instruction.get_rs2();
        let rs1_value = self.registers.get(rs1 as usize);
        let rs2_value = self.registers.get(rs2 as usize);
        let amount = rs2_value & 0b11111;
        assert(amount < 32) by (bit_vector)
            requires
                amount == rs2_value & 0b11111,
        ;
        self.registers.set(rd as usize, shift_right_arith(rs1_value, amount));
        self.pc = add_wrap(self.pc, 4);
    }

    pub fn execute_or(&mut self, instruction: &Instruction)
        requires
            old(self).wf(),
        ensures
            final(self).wf(),
            final(self)@ == semantics(old(self)@, InstructionType::OR, instruction@),
    {
        let rd = instruction.get_rd();
        let rs1 = instruction.get_rs1();
        let rs2 = instruction.get_rs2();
        let rs1_value = self.registers.get(rs1 as usize);
        let rs2_value = self.registers.get(rs2 as usize);
        self.registers.set(rd as usize, rs1_value | rs2_value);
        self.pc = add_wrap(self.pc, 4);
    }

    pub fn execute_and(&mut self, instruction: &Instruction)
        requires
            old(self).wf(),
        ensures
            final(self).wf(),
            final(self)@ == semantics(old(self)@, InstructionType::AND, instruction@),
    {
        let rd = instruction.get_rd();
        let rs1 = instruction.get_rs1();
        let rs2 = instruction.get_rs2();
        let rs1_value = self.registers.get(rs1 as usize);
        let rs2_value = self.registers.get(rs2 as usize);
        self.registers.set(rd as usize, rs1_value & rs2_value);
        self.pc = add_wrap(self.pc, 4);
    }
}

} // verus!
