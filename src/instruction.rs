use vstd::prelude::*;

verus! {

/// The value of a 32-bit word read as a two's-complement integer.
pub open spec fn as_signed(v: u32) -> int {
    if v >= 0x8000_0000 {
        v - 0x1_0000_0000
    } else {
        v as int
    }
}

/// `value` with every bit above `sign_bit` set to the value of bit `sign_bit`,
/// for a `value` that has no bit above `sign_bit` set.
pub open spec fn sign_extend(value: u32, sign_bit: u32) -> u32 {
    if (value >> sign_bit) & 1 == 1 {
        value | (0xFFFF_FFFFu32 << sign_bit)
    } else {
        value
    }
}

/// Bits 6..0: the major opcode.
pub open spec fn opcode_of(w: u32) -> u8 {
    (w & 0x7F) as u8
}

/// Bits 11..7: the destination register.
pub open spec fn rd_of(w: u32) -> u8 {
    ((w >> 7u32) & 0x1F) as u8
}

/// Bits 14..12.
pub open spec fn funct3_of(w: u32) -> u8 {
    ((w >> 12u32) & 0x7) as u8
}

/// Bits 19..15: the first source register.
pub open spec fn rs1_of(w: u32) -> u8 {
    ((w >> 15u32) & 0x1F) as u8
}

/// Bits 24..20: the second source register.
pub open spec fn rs2_of(w: u32) -> u8 {
    ((w >> 20u32) & 0x1F) as u8
}

/// Bits 31..25.
pub open spec fn funct7_of(w: u32) -> u8 {
    (w >> 25u32) as u8
}

/// Bits 24..20 read as a shift amount.
pub open spec fn shamt_of(w: u32) -> u8 {
    ((w >> 20u32) & 0x1F) as u8
}

/// The 12-bit I-form field: bits 31..20.
pub open spec fn i_field(w: u32) -> u32 {
    w >> 20u32
}

/// The 12-bit S-form field: bits 31..25 above bits 11..7.
pub open spec fn s_field(w: u32) -> u32 {
    ((w >> 25u32) << 5u32) | ((w >> 7u32) & 0x1F)
}

/// The 13-bit B-form field: bit 31, bit 7, bits 30..25, bits 11..8, then a zero bit.
pub open spec fn b_field(w: u32) -> u32 {
    ((w >> 31u32) << 12u32) | (((w >> 7u32) & 1) << 11u32) | (((w >> 25u32) & 0x3F) << 5u32)
        | (((w >> 8u32) & 0xF) << 1u32)
}

/// The 21-bit J-form field: bit 31, bits 19..12, bit 20, bits 30..21, then a zero bit.
pub open spec fn j_field(w: u32) -> u32 {
    ((w >> 31u32) << 20u32) | (((w >> 12u32) & 0xFF) << 12u32) | (((w >> 20u32) & 1) << 11u32)
        | (((w >> 21u32) & 0x3FF) << 1u32)
}

pub open spec fn imm_i(w: u32) -> u32 {
    sign_extend(i_field(w), 11)
}

pub open spec fn imm_s(w: u32) -> u32 {
    sign_extend(s_field(w), 11)
}

pub open spec fn imm_b(w: u32) -> u32 {
    sign_extend(b_field(w), 12)
}

/// The raw 20-bit U-form field, bits 31..12; execution shifts it into place.
pub open spec fn imm_u(w: u32) -> u32 {
    w >> 12u32
}

pub open spec fn imm_j(w: u32) -> u32 {
    sign_extend(j_field(w), 20)
}

/// Every field of a word has its architectural width: register indices and the shift
/// amount fit in 5 bits, funct3 in 3, opcode and funct7 in 7, the U-form field in 20;
/// each sign-extended immediate is the sign extension of a field of its own width, and
/// the B- and J-form immediates are even.
pub proof fn lemma_field_widths(w: u32)
    ensures
        opcode_of(w) < 128,
        rd_of(w) < 32,
        rs1_of(w) < 32,
        rs2_of(w) < 32,
        shamt_of(w) < 32,
        funct3_of(w) < 8,
        funct7_of(w) < 128,
        imm_u(w) < 0x10_0000,
        i_field(w) < 0x1000,
        s_field(w) < 0x1000,
        b_field(w) < 0x2000,
        j_field(w) < 0x20_0000,
        imm_i(w) < 0x800 || imm_i(w) >= 0xFFFF_F800,
        imm_s(w) < 0x800 || imm_s(w) >= 0xFFFF_F800,
        imm_b(w) < 0x1000 || imm_b(w) >= 0xFFFF_F000,
        imm_j(w) < 0x10_0000 || imm_j(w) >= 0xFFF0_0000,
        imm_b(w) % 2 == 0,
        imm_j(w) % 2 == 0,
{
    let (fi, fs, fb, fj) = (i_field(w), s_field(w), b_field(w), j_field(w));
    let (ii, is, ib, ij) = (imm_i(w), imm_s(w), imm_b(w), imm_j(w));
    assert(w & 0x7F < 128 && (w >> 7u32) & 0x1F < 32 && (w >> 15u32) & 0x1F < 32 && (w
        >> 20u32) & 0x1F < 32 && (w >> 12u32) & 0x7 < 8 && w >> 25u32 < 128 && w >> 12u32
        < 0x10_0000) by (bit_vector);
    assert(fi < 0x1000 && fs < 0x1000 && fb < 0x2000 && fj < 0x20_0000 && fb & 1 == 0 && fj
        & 1 == 0) by (bit_vector)
        requires
            fi == w >> 20u32,
            fs == ((w >> 25u32) << 5u32) | ((w >> 7u32) & 0x1F),
            fb == ((w >> 31u32) << 12u32) | (((w >> 7u32) & 1) << 11u32) | (((w >> 25u32)
                & 0x3F) << 5u32) | (((w >> 8u32) & 0xF) << 1u32),
            fj == ((w >> 31u32) << 20u32) | (((w >> 12u32) & 0xFF) << 12u32) | (((w >> 20u32)
                & 1) << 11u32) | (((w >> 21u32) & 0x3FF) << 1u32),
    ;
    assert((ii < 0x800 || ii >= 0xFFFF_F800) && (is < 0x800 || is >= 0xFFFF_F800) && (ib
        < 0x1000 || ib >= 0xFFFF_F000) && (ij < 0x10_0000 || ij >= 0xFFF0_0000) && ib & 1 == 0
        && ij & 1 == 0) by (bit_vector)
        requires
            fi < 0x1000,
            fs < 0x1000,
            fb < 0x2000,
            fj < 0x20_0000,
            fb & 1 == 0,
            fj & 1 == 0,
            ii == (if (fi >> 11u32) & 1 == 1 {
                fi | (0xFFFF_FFFFu32 << 11u32)
            } else {
                fi
            }),
            is == (if (fs >> 11u32) & 1 == 1 {
                fs | (0xFFFF_FFFFu32 << 11u32)
            } else {
                fs
            }),
            ib == (if (fb >> 12u32) & 1 == 1 {
                fb | (0xFFFF_FFFFu32 << 12u32)
            } else {
                fb
            }),
            ij == (if (fj >> 20u32) & 1 == 1 {
                fj | (0xFFFF_FFFFu32 << 20u32)
            } else {
                fj
            }),
    ;
    assert(ib % 2 == 0 && ij % 2 == 0) by (bit_vector)
        requires
            ib & 1 == 0,
            ij & 1 == 0,
    ;
}

/// An immediate is negative as a 32-bit value exactly when the top bit of its encoded
/// field is set: bit 11 of the I- and S-form fields, bit 12 of the B-form field and
/// bit 20 of the J-form field.
pub proof fn lemma_immediate_signs(w: u32)
    ensures
        as_signed(imm_i(w)) < 0 <==> (i_field(w) >> 11u32) & 1 == 1,
        as_signed(imm_s(w)) < 0 <==> (s_field(w) >> 11u32) & 1 == 1,
        as_signed(imm_b(w)) < 0 <==> (b_field(w) >> 12u32) & 1 == 1,
        as_signed(imm_j(w)) < 0 <==> (j_field(w) >> 20u32) & 1 == 1,
{
    lemma_field_widths(w);
    let (fi, fs, fb, fj) = (i_field(w), s_field(w), b_field(w), j_field(w));
    let (ii, is, ib, ij) = (imm_i(w), imm_s(w), imm_b(w), imm_j(w));
    assert((ii >= 0x8000_0000 <==> (fi >> 11u32) & 1 == 1) && (is >= 0x8000_0000 <==> (fs
        >> 11u32) & 1 == 1) && (ib >= 0x8000_0000 <==> (fb >> 12u32) & 1 == 1) && (ij
        >= 0x8000_0000 <==> (fj >> 20u32) & 1 == 1)) by (bit_vector)
        requires
            fi < 0x1000,
            fs < 0x1000,
            fb < 0x2000,
            fj < 0x20_0000,
            ii == (if (fi >> 11u32) & 1 == 1 {
                fi | (0xFFFF_FFFFu32 << 11u32)
            } else {
                fi
            }),
            is == (if (fs >> 11u32) & 1 == 1 {
                fs | (0xFFFF_FFFFu32 << 11u32)
            } else {
                fs
            }),
            ib == (if (fb >> 12u32) & 1 == 1 {
                fb | (0xFFFF_FFFFu32 << 12u32)
            } else {
                fb
            }),
            ij == (if (fj >> 20u32) & 1 == 1 {
                fj | (0xFFFF_FFFFu32 << 20u32)
            } else {
                fj
            }),
    ;
}

/// The mnemonics of the base integer instruction set that the decoder recognises.
#[allow(non_camel_case_types, clippy::upper_case_acronyms)]
#[derive(Debug, Clone, Copy, PartialEq, Eq, Structural)]
pub enum InstructionType {
    LUI,
    AUIPC,
    JAL,
    JALR,
    BEQ,
    BNE,
    BLT,
    BGE,
    BLTU,
    BGEU,
    LB,
    LH,
    LW,
    LBU,
    LHU,
    SB,
    SH,
    SW,
    ADDI,
    SLTI,
    SLTIU,
    XORI,
    ORI,
    ANDI,
    SLLI,
    SRLI,
    SRAI,
    ADD,
    SUB,
    SLL,
    SLT,
    SLTU,
    XOR,
    SRL,
    SRA,
    OR,
    AND,
    ECALL,
    EBREAK,
    CSRRW,
    CSRRS,
    CSRRC,
    CSRRWI,
    CSRRSI,
    CSRRCI,
}

/// The mnemonic's name in lower case.
pub open spec fn mnemonic_text(t: InstructionType) -> Seq<char> {
    match t {
        InstructionType::LUI => "lui"@,
        InstructionType::AUIPC => "auipc"@,
        InstructionType::JAL => "jal"@,
        InstructionType::JALR => "jalr"@,
        InstructionType::BEQ => "beq"@,
        InstructionType::BNE => "bne"@,
        InstructionType::BLT => "blt"@,
        InstructionType::BGE => "bge"@,
        InstructionType::BLTU => "bltu"@,
        InstructionType::BGEU => "bgeu"@,
        InstructionType::LB => "lb"@,
        InstructionType::LH => "lh"@,
        InstructionType::LW => "lw"@,
        InstructionType::LBU => "lbu"@,
        InstructionType::LHU => "lhu"@,
        InstructionType::SB => "sb"@,
        InstructionType::SH => "sh"@,
        InstructionType::SW => "sw"@,
        InstructionType::ADDI => "addi"@,
        InstructionType::SLTI => "slti"@,
        InstructionType::SLTIU => "sltiu"@,
        InstructionType::XORI => "xori"@,
        InstructionType::ORI => "ori"@,
        InstructionType::ANDI => "andi"@,
        InstructionType::SLLI => "slli"@,
        InstructionType::SRLI => "srli"@,
        InstructionType::SRAI => "srai"@,
        InstructionType::ADD => "add"@,
        InstructionType::SUB => "sub"@,
        InstructionType::SLL => "sll"@,
        InstructionType::SLT => "slt"@,
        InstructionType::SLTU => "sltu"@,
        InstructionType::XOR => "xor"@,
        InstructionType::SRL => "srl"@,
        InstructionType::SRA => "sra"@,
        InstructionType::OR => "or"@,
        InstructionType::AND => "and"@,
        InstructionType::ECALL => "ecall"@,
        InstructionType::EBREAK => "ebreak"@,
        InstructionType::CSRRW => "csrrw"@,
        InstructionType::CSRRS => "csrrs"@,
        InstructionType::CSRRC => "csrrc"@,
        InstructionType::CSRRWI => "csrrwi"@,
        InstructionType::CSRRSI => "csrrsi"@,
        InstructionType::CSRRCI => "csrrci"@,
    }
}

impl InstructionType {
    /// The mnemonic's name in lower case.
    pub fn mnemonic(&self) -> (r: &'static str)
        ensures
            r@ == mnemonic_text(*self),
    {
        match self {
            InstructionType::LUI => "lui",
            InstructionType::AUIPC => "auipc",
            InstructionType::JAL => "jal",
            InstructionType::JALR => "jalr",
            InstructionType::BEQ => "beq",
            InstructionType::BNE => "bne",
            InstructionType::BLT => "blt",
            InstructionType::BGE => "bge",
            InstructionType::BLTU => "bltu",
            InstructionType::BGEU => "bgeu",
            InstructionType::LB => "lb",
            InstructionType::LH => "lh",
            InstructionType::LW => "lw",
            InstructionType::LBU => "lbu",
            InstructionType::LHU => "lhu",
            InstructionType::SB => "sb",
            InstructionType::SH => "sh",
            InstructionType::SW => "sw",
            InstructionType::ADDI => "addi",
            InstructionType::SLTI => "slti",
            InstructionType::SLTIU => "sltiu",
            InstructionType::XORI => "xori",
            InstructionType::ORI => "ori",
            InstructionType::ANDI => "andi",
            InstructionType::SLLI => "slli",
            InstructionType::SRLI => "srli",
            InstructionType::SRAI => "srai",
            InstructionType::ADD => "add",
            InstructionType::SUB => "sub",
            InstructionType::SLL => "sll",
            InstructionType::SLT => "slt",
            InstructionType::SLTU => "sltu",
            InstructionType::XOR => "xor",
            InstructionType::SRL => "srl",
            InstructionType::SRA => "sra",
            InstructionType::OR => "or",
            InstructionType::AND => "and",
            InstructionType::ECALL => "ecall",
            InstructionType::EBREAK => "ebreak",
            InstructionType::CSRRW => "csrrw",
            InstructionType::CSRRS => "csrrs",
            InstructionType::CSRRC => "csrrc",
            InstructionType::CSRRWI => "csrrwi",
            InstructionType::CSRRSI => "csrrsi",
            InstructionType::CSRRCI => "csrrci",
        }
    }
}

/// `t` when the funct7 field is all zeros, the only funct7 that `t` admits.
pub open spec fn base_only(f7: u8, t: InstructionType) -> Option<InstructionType> {
    if f7 == 0 {
        Some(t)
    } else {
        None
    }
}

/// The mnemonic that the opcode table assigns to `w`, or `None` for an illegal word.
pub open spec fn decode(w: u32) -> Option<InstructionType> {
    let f3 = funct3_of(w);
    let f7 = funct7_of(w);
    match opcode_of(w) {
        0b0110111 => Some(InstructionType::LUI),
        0b0010111 => Some(InstructionType::AUIPC),
        0b1101111 => Some(InstructionType::JAL),
        0b1100111 => Some(InstructionType::JALR),
        0b1100011 => match f3 {
            0b000 => Some(InstructionType::BEQ),
            0b001 => Some(InstructionType::BNE),
            0b100 => Some(InstructionType::BLT),
            0b101 => Some(InstructionType::BGE),
            0b110 => Some(InstructionType::BLTU),
            0b111 => Some(InstructionType::BGEU),
            _ => None,
        },
        0b0000011 => match f3 {
            0b000 => Some(InstructionType::LB),
            0b001 => Some(InstructionType::LH),
            0b010 => Some(InstructionType::LW),
            0b100 => Some(InstructionType::LBU),
            0b101 => Some(InstructionType::LHU),
            _ => None,
        },
        0b0100011 => match f3 {
            0b000 => Some(InstructionType::SB),
            0b001 => Some(InstructionType::SH),
            0b010 => Some(InstructionType::SW),
            _ => None,
        },
        0b0010011 => match f3 {
            0b000 => Some(InstructionType::ADDI),
            0b010 => Some(InstructionType::SLTI),
            0b011 => Some(InstructionType::SLTIU),
            0b100 => Some(InstructionType::XORI),
            0b110 => Some(InstructionType::ORI),
            0b111 => Some(InstructionType::ANDI),
            0b001 => base_only(f7, InstructionType::SLLI),
            0b101 => match f7 {
                0b0000000 => Some(InstructionType::SRLI),
                0b0100000 => Some(InstructionType::SRAI),
                _ => None,
            },
            _ => None,
        },
        0b0110011 => match f3 {
            0b000 => match f7 {
                0b0000000 => Some(InstructionType::ADD),
                0b0100000 => Some(InstructionType::SUB),
                _ => None,
            },
            0b001 => base_only(f7, InstructionType::SLL),
            0b010 => base_only(f7, InstructionType::SLT),
            0b011 => base_only(f7, InstructionType::SLTU),
            0b100 => base_only(f7, InstructionType::XOR),
            0b101 => match f7 {
                0b0000000 => Some(InstructionType::SRL),
                0b0100000 => Some(InstructionType::SRA),
                _ => None,
            },
            0b110 => base_only(f7, InstructionType::OR),
            0b111 => base_only(f7, InstructionType::AND),
            _ => None,
        },
        0b1110011 => match f3 {
            0b000 => if imm_i(w) == 0 {
                Some(InstructionType::ECALL)
            } else if imm_i(w) == 1 {
                Some(InstructionType::EBREAK)
            } else {
                None
            },
            0b001 => Some(InstructionType::CSRRW),
            0b010 => Some(InstructionType::CSRRS),
            0b011 => Some(InstructionType::CSRRC),
            0b101 => Some(InstructionType::CSRRWI),
            0b110 => Some(InstructionType::CSRRSI),
            0b111 => Some(InstructionType::CSRRCI),
            _ => None,
        },
        _ => None,
    }
}

/// One lower-case hexadecimal digit.
pub open spec fn hex_digit(d: nat) -> char {
    seq!['0', '1', '2', '3', '4', '5', '6', '7', '8', '9', 'a', 'b', 'c', 'd', 'e', 'f'][d as int]
}

/// `n` in lower-case hexadecimal, without leading zeros.
pub open spec fn hex_text(n: nat) -> Seq<char>
    decreases n,
{
    if n < 16 {
        seq![hex_digit(n)]
    } else {
        hex_text(n / 16).push(hex_digit(n % 16))
    }
}

/// The diagnostic that an illegal instruction word carries.
pub open spec fn illegal_text(w: u32) -> Seq<char> {
    "Illegal Instruction 0x"@ + hex_text(w as nat)
}

/// Relies on std's `format!` with `{:#x}`, which writes `0x` and then the value in
/// lower-case hexadecimal without leading zeros.
#[verifier::external_body]
fn illegal_message(word: u32) -> (r: String)
    ensures
        r@ == illegal_text(word),
{
    format!("Illegal Instruction {:#x}", word)
}

/// A 32-bit instruction word; every accessor is a pure function of the word.
pub struct Instruction {
    instruction: u32,
}

impl View for Instruction {
    type V = u32;

    closed spec fn view(&self) -> u32 {
        self.instruction
    }
}

impl Instruction {
    pub fn from_u32(instruction: u32) -> (r: Self)
        ensures
            r@ == instruction,
    {
        Self { instruction }
    }

    pub fn opcode(&self) -> (r: u8)
        ensures
            r == opcode_of(self@),
    {
        #[verifier::truncate]
        ((self.instruction & 0x7F) as u8)
    }

    /// Classifies the word by the opcode table; an illegal word gives its diagnostic.
    pub fn _type(&self) -> (r: Result<InstructionType, String>)
        ensures
            decode(self@) is Some ==> r == Ok::<InstructionType, String>(decode(self@)->0),
            decode(self@) is None ==> r is Err && r->Err_0@ == illegal_text(self@),
    {
        let f3 = self.get_funct3();
        let f7 = self.get_funct7();
        let imm = self.get_imm_i();
        let found: Option<InstructionType> = match self.opcode() {
            0b0110111 => Some(InstructionType::LUI),
            0b0010111 => Some(InstructionType::AUIPC),
            0b1101111 => Some(InstructionType::JAL),
            0b1100111 => Some(InstructionType::JALR),
            0b1100011 => match f3 {
                0b000 => Some(InstructionType::BEQ),
                0b001 => Some(InstructionType::BNE),
                0b100 => Some(InstructionType::BLT),
                0b101 => Some(InstructionType::BGE),
                0b110 => Some(InstructionType::BLTU),
                0b111 => Some(InstructionType::BGEU),
                _ => None,
            },
            0b0000011 => match f3 {
                0b000 => Some(InstructionType::LB),
                0b001 => Some(InstructionType::LH),
                0b010 => Some(InstructionType::LW),
                0b100 => Some(InstructionType::LBU),
                0b101 => Some(InstructionType::LHU),
                _ => None,
            },
            0b0100011 => match f3 {
                0b000 => Some(InstructionType::SB),
                0b001 => Some(InstructionType::SH),
                0b010 => Some(InstructionType::SW),
                _ => None,
            },
            0b0010011 => match f3 {
                0b000 => Some(InstructionType::ADDI),
                0b010 => Some(InstructionType::SLTI),
                0b011 => Some(InstructionType::SLTIU),
                0b100 => Some(InstructionType::XORI),
                0b110 => Some(InstructionType::ORI),
                0b111 => Some(InstructionType::ANDI),
                0b001 => match f7 {
                    0b0000000 => Some(InstructionType::SLLI),
                    _ => None,
                },
                0b101 => match f7 {
                    0b0000000 => Some(InstructionType::SRLI),
                    0b0100000 => Some(InstructionType::SRAI),
                    _ => None,
                },
                _ => None,
            },
            0b0110011 => match (f3, f7) {
                (0b000, 0b0000000) => Some(InstructionType::ADD),
                (0b000, 0b0100000) => Some(InstructionType::SUB),
                (0b001, 0b0000000) => Some(InstructionType::SLL),
                (0b010, 0b0000000) => Some(InstructionType::SLT),
                (0b011, 0b0000000) => Some(InstructionType::SLTU),
                (0b100, 0b0000000) => Some(InstructionType::XOR),
                (0b101, 0b0000000) => Some(InstructionType::SRL),
                (0b101, 0b0100000) => Some(InstructionType::SRA),
                (0b110, 0b0000000) => Some(InstructionType::OR),
                (0b111, 0b0000000) => Some(InstructionType::AND),
                _ => None,
            },
            0b1110011 => match f3 {
                0b000 => if imm == 0 {
                    Some(InstructionType::ECALL)
                } else if imm == 1 {
                    Some(InstructionType::EBREAK)
                } else {
                    None
                },
                0b001 => Some(InstructionType::CSRRW),
                0b010 => Some(InstructionType::CSRRS),
                0b011 => Some(InstructionType::CSRRC),
                0b101 => Some(InstructionType::CSRRWI),
                0b110 => Some(InstructionType::CSRRSI),
                0b111 => Some(InstructionType::CSRRCI),
                _ => None,
            },
            _ => None,
        };
        match found {
            Some(t) => Ok(t),
            None => Err(illegal_message(self.instruction)),
        }
    }

    /// The lower-case name of the word's mnemonic, or `None` for an illegal word.
    pub fn get_mnemonic(&self) -> (r: Option<String>)
        ensures
            decode(self@) is Some ==> r is Some && r->0@ == mnemonic_text(decode(self@)->0),
            decode(self@) is None ==> r is None,
    {
        match self._type() {
            Ok(t) => Some(t.mnemonic().to_owned()),
            Err(_) => None,
        }
    }

    pub fn get_rd(&self) -> (r: u8)
        ensures
            r == rd_of(self@),
            r < 32,
    {
        proof {
            lemma_field_widths(self@);
        }
        let w = self.instruction;
        assert(w << 20u32 >> 27u32 == (w >> 7u32) & 0x1F) by (bit_vector);
        #[verifier::truncate]
        ((w << 20 >> 27) as u8)
    }

    pub fn get_funct3(&self) -> (r: u8)
        ensures
            r == funct3_of(self@),
    {
        let w = self.instruction;
        assert(w << 17u32 >> 29u32 == (w >> 12u32) & 0x7) by (bit_vector);
        #[verifier::truncate]
        ((w << 17 >> 29) as u8)
    }

    pub fn get_rs1(&self) -> (r: u8)
        ensures
            r == rs1_of(self@),
            r < 32,
    {
        proof {
            lemma_field_widths(self@);
        }
        let w = self.instruction;
        assert(w << 12u32 >> 27u32 == (w >> 15u32) & 0x1F) by (bit_vector);
        #[verifier::truncate]
        ((w << 12 >> 27) as u8)
    }

    pub fn get_rs2(&self) -> (r: u8)
        ensures
            r == rs2_of(self@),
            r < 32,
    {
        proof {
            lemma_field_widths(self@);
        }
        let w = self.instruction;
        assert(w << 7u32 >> 27u32 == (w >> 20u32) & 0x1F) by (bit_vector);
        #[verifier::truncate]
        ((w << 7 >> 27) as u8)
    }

    pub fn get_funct7(&self) -> (r: u8)
        ensures
            r == funct7_of(self@),
    {
        #[verifier::truncate]
        ((self.instruction >> 25) as u8)
    }

    pub fn get_imm_i(&self) -> (r: u32)
        ensures
            r == imm_i(self@),
    {
        let mut insn = self.instruction;
        insn >>= 20;
        if insn & 0x800 != 0 {
            insn |= 0xFFFFF000;
        }
        let w = self.instruction;
        assert(insn == (if ((w >> 20u32) >> 11u32) & 1 == 1 {
            (w >> 20u32) | (0xFFFF_FFFFu32 << 11u32)
        } else {
            w >> 20u32
        })) by (bit_vector)
            requires
                insn == (if (w >> 20u32) & 0x800 != 0 {
                    (w >> 20u32) | 0xFFFFF000
                } else {
                    w >> 20u32
                }),
        ;
        insn
    }

    pub fn get_imm_u(&self) -> (r: u32)
        ensures
            r == imm_u(self@),
    {
        self.instruction >> 12
    }

    pub fn get_imm_b(&self) -> (r: u32)
        ensures
            r == imm_b(self@),
    {
        let w = self.instruction;
        let rightmost = w >> 8 << 1 & 0b11110;
        let right = w << 1 >> 21 & 0b11111100000;
        let single_bit = w << 4 & (0b1 << 11);
        let left_bit = (w & (0b1 << 31)) >> 19;
        let complete = rightmost | right | single_bit | left_bit;
        assert(complete == b_field(w)) by (bit_vector)
            requires
                complete == ((w >> 8u32 << 1u32) & 0b11110) | ((w << 1u32 >> 21u32)
                    & 0b11111100000) | ((w << 4u32) & (0b1u32 << 11u32)) | ((w & (0b1u32
                    << 31u32)) >> 19u32),
        ;
        if complete >> 12 != 0 {
            assert((complete >> 12u32) & 1 == 1 && complete | 0xFFFFF000 == complete | (
            0xFFFF_FFFFu32 << 12u32)) by (bit_vector)
                requires
                    complete >> 12u32 != 0,
                    complete == b_field(w),
            ;
            return complete | 0xFFFFF000;
        }
        assert((complete >> 12u32) & 1 != 1) by (bit_vector)
            requires
                complete >> 12u32 == 0,
        ;
        complete
    }

    pub fn get_imm_s(&self) -> (r: u32)
        ensures
            r == imm_s(self@),
    {
        let w = self.instruction;
        let right = w >> 7 & (0xFFFFFFFF >> 27);
        let left = w >> 25;
        let complete = (left << 5) | right;
        assert(complete == s_field(w)) by (bit_vector)
            requires
                complete == ((w >> 25u32) << 5u32) | ((w >> 7u32) & (0xFFFFFFFFu32 >> 27u32)),
        ;
        if 0x800 & complete != 0 {
            assert((complete >> 11u32) & 1 == 1 && complete | 0xFFFFF000 == complete | (
            0xFFFF_FFFFu32 << 11u32)) by (bit_vector)
                requires
                    0x800 & complete != 0,
            ;
            return complete | 0xFFFFF000;
        }
        assert((complete >> 11u32) & 1 != 1) by (bit_vector)
            requires
                0x800 & complete == 0,
        ;
        complete
    }

    pub fn get_imm_j(&self) -> (r: u32)
        ensures
            r == imm_j(self@),
    {
        let w = self.instruction;
        let sign = (w >> 31) << 20;
        let high = w & 0x000F_F000;
        let eleventh = ((w >> 20) & 0x1) << 11;
        let low = ((w >> 21) & 0x3FF) << 1;
        let complete = sign | high | eleventh | low;
        assert(complete == j_field(w)) by (bit_vector)
            requires
                complete == ((w >> 31u32) << 20u32) | (w & 0x000F_F000) | (((w >> 20u32) & 0x1)
                    << 11u32) | (((w >> 21u32) & 0x3FF) << 1u32),
        ;
        if complete & 0x0010_0000 != 0 {
            assert((complete >> 20u32) & 1 == 1 && complete | 0xFFF0_0000 == complete | (
            0xFFFF_FFFFu32 << 20u32)) by (bit_vector)
                requires
                    complete & 0x0010_0000 != 0,
            ;
            return complete | 0xFFF0_0000;
        }
        assert((complete >> 20u32) & 1 != 1) by (bit_vector)
            requires
                complete & 0x0010_0000 == 0,
        ;
        complete
    }

    pub fn get_shamt(&self) -> (r: u8)
        ensures
            r == shamt_of(self@),
            r < 32,
    {
        proof {
            lemma_field_widths(self@);
        }
        #[verifier::truncate]
        ((self.instruction >> 20 & 0b11111) as u8)
    }
}

} // verus!
