use rv32i_emu::cpu::CPU;
use rv32i_emu::instruction::Instruction;
use rv32i_emu::memory::Memory;

const EBREAK: u32 = 0x0010_0073;
const SENTINEL: u32 = 0xF0F0_F0F0;

fn machine(words: &[u32], size: usize) -> CPU {
    let mut image: Vec<u8> = Vec::new();
    for w in words {
        image.extend_from_slice(&w.to_le_bytes());
    }
    let mut memory = Memory::new(size);
    memory.load(&image);
    CPU::from_memory(&memory)
}

#[test]
fn addi_then_ebreak() {
    let mut memory = Memory::new(4096);
    memory.load(&[0x93, 0x00, 0xA0, 0x00, 0x73, 0x00, 0x10, 0x00]);
    let mut cpu = CPU::from_memory(&memory);
    cpu.run();
    assert_eq!(cpu.register(1), 0x0000_000A);
    assert_eq!(cpu.pc(), 4);
    assert!(cpu.halted());
}

#[test]
fn lui_auipc_cooperation() {
    // lui x5, 0x12345 ; auipc x6, 0x00001 ; ebreak
    let mut cpu = machine(&[0x1234_52B7, 0x0000_1317, EBREAK], 4096);
    cpu.run();
    assert_eq!(cpu.register(5), 0x1234_5000);
    assert_eq!(cpu.register(6), 0x0000_1004);
    assert!(cpu.halted());
}

#[test]
fn branch_taken_loop() {
    // addi x1,x0,3 ; addi x2,x0,0 ; L: addi x2,x2,1 ; addi x1,x1,-1 ; bne x1,x0,L ; ebreak
    let mut cpu = machine(
        &[0x0030_0093, 0x0000_0113, 0x0011_0113, 0xFFF0_8093, 0xFE00_9CE3, EBREAK],
        4096,
    );
    cpu.run();
    assert_eq!(cpu.register(1), 0);
    assert_eq!(cpu.register(2), 3);
    assert!(cpu.halted());
    assert_eq!(cpu.pc(), 20);
}

#[test]
fn signed_and_unsigned_compare() {
    // addi x1,x0,-1 ; addi x2,x0,1 ; slt x3,x1,x2 ; sltu x4,x1,x2 ; ebreak
    let mut cpu = machine(
        &[0xFFF0_0093, 0x0010_0113, 0x0020_A1B3, 0x0020_B233, EBREAK],
        4096,
    );
    cpu.run();
    assert_eq!(cpu.register(1), 0xFFFF_FFFF);
    assert_eq!(cpu.register(3), 1);
    assert_eq!(cpu.register(4), 0);
}

#[test]
fn load_store_round_trip() {
    // addi x1,x0,0x100 ; addi x2,x0,0x55 ; sb x2,0(x1) ; lbu x3,0(x1) ; lb x4,0(x1) ; ebreak
    let mut cpu = machine(
        &[0x1000_0093, 0x0550_0113, 0x0020_8023, 0x0000_C183, 0x0000_8203, EBREAK],
        4096,
    );
    cpu.run();
    assert_eq!(cpu.memory().get8(0x100), 0x55);
    assert_eq!(cpu.register(3), 0x0000_0055);
    assert_eq!(cpu.register(4), 0x0000_0055);
}

#[test]
fn sra_arithmetic() {
    // addi x1,x0,-8 ; addi x2,x0,2 ; sra x3,x1,x2 ; ebreak
    let mut cpu = machine(&[0xFF80_0093, 0x0020_0113, 0x4020_D1B3, EBREAK], 4096);
    cpu.run();
    assert_eq!(cpu.register(3), 0xFFFF_FFFE);
}

#[test]
fn fresh_machine_state() {
    let cpu = machine(&[], 64);
    assert_eq!(cpu.pc(), 0);
    assert!(!cpu.halted());
    assert_eq!(cpu.register(0), 0);
    for i in 1..32 {
        assert_eq!(cpu.register(i), SENTINEL);
    }
}

#[test]
fn engine_copies_memory() {
    let mut memory = Memory::new(16);
    memory.load(&[0x93, 0x00, 0xA0, 0x00]);
    let cpu = CPU::from_memory(&memory);
    memory.set8(0xFF, 0);
    assert_eq!(cpu.memory().get8(0), 0x93);
    assert_eq!(cpu.memory().len(), 16);
}

#[test]
fn halted_machine_ignores_ticks() {
    let mut cpu = machine(&[EBREAK, 0x0030_0093], 64);
    assert_eq!(cpu.tick(), Some(EBREAK));
    assert!(cpu.halted());
    assert_eq!(cpu.pc(), 0);
    assert_eq!(cpu.tick(), None);
    assert_eq!(cpu.tick(), None);
    assert_eq!(cpu.pc(), 0);
    assert_eq!(cpu.register(1), SENTINEL);
}

#[test]
fn register_zero_ignores_writes() {
    // addi x0,x0,5 ; lui x0,0x12345 ; ebreak
    let mut cpu = machine(&[0x0050_0013, 0x1234_5037, EBREAK], 64);
    cpu.run();
    assert_eq!(cpu.register(0), 0);
    assert!(cpu.halted());
}

#[test]
fn illegal_instruction_halts() {
    let mut cpu = machine(&[0x0030_0093, 0xFFFF_FFFF, 0x0050_0093], 64);
    cpu.run();
    assert!(cpu.halted());
    assert_eq!(cpu.pc(), 4);
    assert_eq!(cpu.register(1), 3);
}

#[test]
fn run_stops_at_end_of_memory() {
    // two addi instructions fill an eight-byte memory exactly
    let mut cpu = machine(&[0x0030_0093, 0x0011_0113], 8);
    cpu.run();
    assert_eq!(cpu.pc(), 8);
    assert!(!cpu.halted());
    assert_eq!(cpu.register(1), 3);
    assert_eq!(cpu.register(2), SENTINEL.wrapping_add(1));
    // a step with no whole word at the program counter halts the machine
    assert_eq!(cpu.tick(), None);
    assert!(cpu.halted());
}

#[test]
fn out_of_range_load_halts() {
    // addi x1,x0,62 ; lw x3,0(x1) ; ebreak
    let mut cpu = machine(&[0x03E0_0093, 0x0000_A183, EBREAK], 64);
    cpu.run();
    assert!(cpu.halted());
    assert_eq!(cpu.pc(), 4);
    assert_eq!(cpu.register(3), SENTINEL);
}

#[test]
fn out_of_range_store_halts() {
    // addi x1,x0,-1 ; sb x1,0(x1)
    let mut cpu = machine(&[0xFFF0_0093, 0x0010_8023], 64);
    cpu.run();
    assert!(cpu.halted());
    assert_eq!(cpu.pc(), 4);
}

#[test]
fn jal_backwards_and_jalr() {
    // 0: jal x0, 12 ; 4: ebreak ; 8: ebreak ; 12: jal x1, -8 -> 4
    let mut cpu = machine(&[0x00C0_006F, EBREAK, EBREAK, 0xFF9F_F0EF], 64);
    cpu.run();
    assert_eq!(cpu.pc(), 4);
    assert_eq!(cpu.register(1), 16);
    // 0: addi x5,x0,9 ; 4: jalr x6, 3(x5) -> 12 ; 8: ebreak ; 12: ebreak
    let mut cpu = machine(&[0x0090_0293, 0x0032_8367, EBREAK, EBREAK], 64);
    cpu.run();
    assert_eq!(cpu.pc(), 12);
    assert_eq!(cpu.register(6), 8);
}

#[test]
fn wide_loads_and_stores() {
    // addi x1,x0,0x40 ; lui x2,0x89ABD ; addi x2,x2,-0x211 (0x89ABCDEF) ; sw x2,0(x1)
    // lh x3,0(x1) ; lhu x4,2(x1) ; lw x5,0(x1) ; sh x2,8(x1) ; lw x6,8(x1) ; ebreak
    let mut cpu = machine(
        &[
            0x0400_0093, 0x89AB_D137, 0xDEF1_0113, 0x0020_A023, 0x0000_9183, 0x0020_D203,
            0x0000_A283, 0x0020_9423, 0x0080_A303, EBREAK,
        ],
        128,
    );
    cpu.run();
    assert_eq!(cpu.register(2), 0x89AB_CDEF);
    assert_eq!(cpu.register(3), 0xFFFF_CDEF);
    assert_eq!(cpu.register(4), 0x0000_89AB);
    assert_eq!(cpu.register(5), 0x89AB_CDEF);
    assert_eq!(cpu.register(6), 0x0000_CDEF);
    assert_eq!(cpu.memory().get32(0x40), 0x89AB_CDEF);
}

#[test]
fn immediate_arithmetic_and_shifts() {
    // addi x1,x0,-8 ; slti x2,x1,0 ; sltiu x3,x1,1 ; xori x4,x1,-1 ; ori x5,x0,0x70
    // andi x6,x5,0x30 ; slli x7,x5,4 ; srli x8,x1,28 ; srai x9,x1,1 ; ebreak
    let mut cpu = machine(
        &[
            0xFF80_0093, 0x0000_A113, 0x0010_B193, 0xFFF0_C213, 0x0700_6293, 0x0302_F313,
            0x0042_9393, 0x01C0_D413, 0x4010_D493, EBREAK,
        ],
        128,
    );
    cpu.run();
    assert_eq!(cpu.register(2), 1);
    assert_eq!(cpu.register(3), 0);
    assert_eq!(cpu.register(4), 7);
    assert_eq!(cpu.register(5), 0x70);
    assert_eq!(cpu.register(6), 0x30);
    assert_eq!(cpu.register(7), 0x700);
    assert_eq!(cpu.register(8), 0xF);
    assert_eq!(cpu.register(9), 0xFFFF_FFFC);
}

#[test]
fn register_arithmetic_wraps() {
    // addi x1,x0,-1 ; addi x2,x0,2 ; add x3,x1,x2 ; sub x4,x0,x2 ; sll x5,x1,x2
    // srl x6,x1,x2 ; xor x7,x1,x2 ; or x8,x0,x2 ; and x9,x1,x2 ; ebreak
    let mut cpu = machine(
        &[
            0xFFF0_0093, 0x0020_0113, 0x0020_81B3, 0x4020_0233, 0x0020_92B3, 0x0020_D333,
            0x0020_C3B3, 0x0020_6433, 0x0020_F4B3, EBREAK,
        ],
        128,
    );
    cpu.run();
    assert_eq!(cpu.register(3), 1);
    assert_eq!(cpu.register(4), 0xFFFF_FFFE);
    assert_eq!(cpu.register(5), 0xFFFF_FFFC);
    assert_eq!(cpu.register(6), 0x3FFF_FFFF);
    assert_eq!(cpu.register(7), 0xFFFF_FFFD);
    assert_eq!(cpu.register(8), 2);
    assert_eq!(cpu.register(9), 2);
}

#[test]
fn branches_signed_and_unsigned() {
    // addi x1,x0,-1 ; addi x2,x0,1
    // blt x1,x2,8 (taken) ; ebreak ; bltu x1,x2,8 (not taken) ; bge x1,x2,8 (not taken)
    // bgeu x1,x2,8 (taken) ; ebreak ; beq x1,x1,8 (taken) ; ebreak ; ecall ; ebreak
    let mut cpu = machine(
        &[
            0xFFF0_0093, 0x0010_0113, 0x0020_C463, EBREAK, 0x0020_E463, 0x0020_D463,
            0x0020_F463, EBREAK, 0x0010_8463, EBREAK, 0x0000_0073, EBREAK,
        ],
        128,
    );
    cpu.run();
    assert!(cpu.halted());
    assert_eq!(cpu.pc(), 44);
}

#[test]
fn execute_single_instruction() {
    let mut cpu = machine(&[], 64);
    cpu.execute_instruction(&Instruction::from_u32(0x0030_0093));
    assert_eq!(cpu.register(1), 3);
    assert_eq!(cpu.pc(), 4);
    cpu.execute_addi(&Instruction::from_u32(0x0030_8093));
    assert_eq!(cpu.register(1), 6);
    assert_eq!(cpu.pc(), 8);
}
