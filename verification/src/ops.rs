//! The opcode table: which instruction each opcode byte stands for, and what
//! it costs.

use vstd::prelude::*;
use std::collections::HashMap;
use crate::constants::Byte;

verus! {

/// The instruction families.
#[derive(Debug, PartialEq, Eq, Copy, Clone)]
pub enum Operation {
    ADD,
    ADC,
    ANA,
    CMA,
    CMC,
    CMP,
    DAA,
    DAD,
    DCR,
    DCX,
    INR,
    INX,
    LDAX,
    MOV,
    NOP,
    ORA,
    POP,
    PUSH,
    RAL,
    RAR,
    RLC,
    RRC,
    SBB,
    SPHL,
    STAX,
    STC,
    SUB,
    XCHG,
    XRA,
    XTHL,
}

impl Operation {
    /// The name of the family, as it is written in assembly.
    pub open spec fn name(self) -> Seq<char> {
        match self {
            Operation::ADD => "ADD"@,
            Operation::ADC => "ADC"@,
            Operation::ANA => "ANA"@,
            Operation::CMA => "CMA"@,
            Operation::CMC => "CMC"@,
            Operation::CMP => "CMP"@,
            Operation::DAA => "DAA"@,
            Operation::DAD => "DAD"@,
            Operation::DCR => "DCR"@,
            Operation::DCX => "DCX"@,
            Operation::INR => "INR"@,
            Operation::INX => "INX"@,
            Operation::LDAX => "LDAX"@,
            Operation::MOV => "MOV"@,
            Operation::NOP => "NOP"@,
            Operation::ORA => "ORA"@,
            Operation::POP => "POP"@,
            Operation::PUSH => "PUSH"@,
            Operation::RAL => "RAL"@,
            Operation::RAR => "RAR"@,
            Operation::RLC => "RLC"@,
            Operation::RRC => "RRC"@,
            Operation::SBB => "SBB"@,
            Operation::SPHL => "SPHL"@,
            Operation::STAX => "STAX"@,
            Operation::STC => "STC"@,
            Operation::SUB => "SUB"@,
            Operation::XCHG => "XCHG"@,
            Operation::XRA => "XRA"@,
            Operation::XTHL => "XTHL"@,
        }
    }

    /// The name of the family, as it is written in assembly.
    pub fn to_string(&self) -> (name: String)
        ensures
            name@ == self.name(),
    {
        match self {
            Operation::ADD => "ADD".to_owned(),
            Operation::ADC => "ADC".to_owned(),
            Operation::ANA => "ANA".to_owned(),
            Operation::CMA => "CMA".to_owned(),
            Operation::CMC => "CMC".to_owned(),
            Operation::CMP => "CMP".to_owned(),
            Operation::DAA => "DAA".to_owned(),
            Operation::DAD => "DAD".to_owned(),
            Operation::DCR => "DCR".to_owned(),
            Operation::DCX => "DCX".to_owned(),
            Operation::INR => "INR".to_owned(),
            Operation::INX => "INX".to_owned(),
            Operation::LDAX => "LDAX".to_owned(),
            Operation::MOV => "MOV".to_owned(),
            Operation::NOP => "NOP".to_owned(),
            Operation::ORA => "ORA".to_owned(),
            Operation::POP => "POP".to_owned(),
            Operation::PUSH => "PUSH".to_owned(),
            Operation::RAL => "RAL".to_owned(),
            Operation::RAR => "RAR".to_owned(),
            Operation::RLC => "RLC".to_owned(),
            Operation::RRC => "RRC".to_owned(),
            Operation::SBB => "SBB".to_owned(),
            Operation::SPHL => "SPHL".to_owned(),
            Operation::STAX => "STAX".to_owned(),
            Operation::STC => "STC".to_owned(),
            Operation::SUB => "SUB".to_owned(),
            Operation::XCHG => "XCHG".to_owned(),
            Operation::XRA => "XRA".to_owned(),
            Operation::XTHL => "XTHL".to_owned(),
        }
    }
}

/// One entry of the opcode table.
#[derive(Debug)]
pub struct OpCode {
    pub code: Byte,
    pub mnemonic: String,
    pub operation: Operation,
    pub len: u8,
    pub cycles: u8,
    pub alt_cycles: Option<u8>,
}

impl OpCode {
    pub fn new(
        code: Byte,
        mnemonic: String,
        operation: Operation,
        len: u8,
        cycles: u8,
        alt_cycles: Option<u8>,
    ) -> (opcode: OpCode)
        ensures
            opcode == (OpCode { code, mnemonic, operation, len, cycles, alt_cycles }),
    {
        OpCode { code, mnemonic, operation, len, cycles, alt_cycles }
    }
}

impl Clone for OpCode {
    fn clone(&self) -> (copy: OpCode)
        ensures
            copy == *self,
    {
        OpCode {
            code: self.code,
            mnemonic: self.mnemonic.clone(),
            operation: self.operation,
            len: self.len,
            cycles: self.cycles,
            alt_cycles: self.alt_cycles,
        }
    }
}

/// The instruction family that an opcode byte belongs to; `None` for a byte
/// that stands for no instruction of the table.
///
/// Below 0x40 the low bits of the opcode tell the family and bits 3 to 5, or
/// 4 and 5, the register or the register pair. From 0x40 to 0x7F every opcode
/// but 0x76 is a move. From 0x80 to 0xBF each run of eight opcodes is one
/// arithmetic or logic family. Above that come the stack and exchange
/// instructions.
pub open spec fn operation_of(code: Byte) -> Option<Operation> {
    if code == 0x00 {
        Some(Operation::NOP)
    } else if code < 0x40 {
        if code % 8 == 4 {
            Some(Operation::INR)
        } else if code % 8 == 5 {
            Some(Operation::DCR)
        } else if code % 16 == 0x3 {
            Some(Operation::INX)
        } else if code % 16 == 0x9 {
            Some(Operation::DAD)
        } else if code % 16 == 0xB {
            Some(Operation::DCX)
        } else if code == 0x02 || code == 0x12 {
            Some(Operation::STAX)
        } else if code == 0x0A || code == 0x1A {
            Some(Operation::LDAX)
        } else if code == 0x07 {
            Some(Operation::RLC)
        } else if code == 0x0F {
            Some(Operation::RRC)
        } else if code == 0x17 {
            Some(Operation::RAL)
        } else if code == 0x1F {
            Some(Operation::RAR)
        } else if code == 0x27 {
            Some(Operation::DAA)
        } else if code == 0x2F {
            Some(Operation::CMA)
        } else if code == 0x37 {
            Some(Operation::STC)
        } else if code == 0x3F {
            Some(Operation::CMC)
        } else {
            None
        }
    } else if code < 0x80 {
        if code == 0x76 {
            None
        } else {
            Some(Operation::MOV)
        }
    } else if code < 0x88 {
        Some(Operation::ADD)
    } else if code < 0x90 {
        Some(Operation::ADC)
    } else if code < 0x98 {
        Some(Operation::SUB)
    } else if code < 0xA0 {
        Some(Operation::SBB)
    } else if code < 0xA8 {
        Some(Operation::ANA)
    } else if code < 0xB0 {
        Some(Operation::XRA)
    } else if code < 0xB8 {
        Some(Operation::ORA)
    } else if code < 0xC0 {
        Some(Operation::CMP)
    } else if code % 16 == 0x1 {
        Some(Operation::POP)
    } else if code % 16 == 0x5 {
        Some(Operation::PUSH)
    } else if code == 0xE3 {
        Some(Operation::XTHL)
    } else if code == 0xEB {
        Some(Operation::XCHG)
    } else if code == 0xF9 {
        Some(Operation::SPHL)
    } else {
        None
    }
}

/// The register index in bits 0 to 2 of an opcode: the source of a move, the
/// operand of an arithmetic or logic instruction. Index 6 stands for the byte
/// of memory that HL addresses.
pub open spec fn source_index(code: Byte) -> Byte {
    code % 8
}

/// The register index in bits 3 to 5 of an opcode: the destination of a move,
/// the register that an increment or decrement counts.
pub open spec fn destination_index(code: Byte) -> Byte {
    (code / 8) % 8
}

/// The clock cycles that the instruction with this opcode takes: more where
/// it reads or writes the byte of memory that HL addresses.
pub open spec fn cycles_of(code: Byte) -> u8 {
    match operation_of(code) {
        Some(Operation::MOV) => if source_index(code) == 6 || destination_index(code) == 6 {
            7
        } else {
            5
        },
        Some(Operation::INR) | Some(Operation::DCR) => if destination_index(code) == 6 {
            10
        } else {
            5
        },
        Some(Operation::ADD)
        | Some(Operation::ADC)
        | Some(Operation::SUB)
        | Some(Operation::SBB)
        | Some(Operation::ANA)
        | Some(Operation::XRA)
        | Some(Operation::ORA)
        | Some(Operation::CMP) => if source_index(code) == 6 {
            7
        } else {
            4
        },
        Some(Operation::STAX) | Some(Operation::LDAX) => 7,
        Some(Operation::INX) | Some(Operation::DCX) | Some(Operation::XCHG) | Some(
            Operation::SPHL,
        ) => 5,
        Some(Operation::DAD) | Some(Operation::POP) => 10,
        Some(Operation::PUSH) => 11,
        Some(Operation::XTHL) => 18,
        _ => 4,
    }
}

/// Every instruction takes at least four clock cycles.
pub proof fn lemma_cycles_positive(code: Byte)
    ensures
        cycles_of(code) >= 4,
{
}

/// The text of the instruction with this opcode, as the table spells it.
pub open spec fn mnemonic_of(code: Byte) -> Seq<char> {
    match code {
        0x00 => "NOP"@,
        0x02 => "STAX B"@,
        0x03 => "INX B"@,
        0x04 => "INR B"@,
        0x05 => "DCR B"@,
        0x07 => "RLC"@,
        0x09 => "DAD B"@,
        0x0A => "LDAX B"@,
        0x0B => "DCX B"@,
        0x0C => "INR C"@,
        0x0D => "DCR C"@,
        0x0F => "RRC"@,
        0x12 => "STAX D"@,
        0x13 => "INX D"@,
        0x14 => "INR D"@,
        0x15 => "DCR D"@,
        0x17 => "RAL"@,
        0x19 => "DAD D"@,
        0x1A => "LDAX B"@,
        0x1B => "DCX D"@,
        0x1C => "INR E"@,
        0x1D => "DCR E"@,
        0x1F => "RAR"@,
        0x23 => "INX H"@,
        0x24 => "INR H"@,
        0x25 => "DCR H"@,
        0x27 => "DAA"@,
        0x29 => "DAD H"@,
        0x2B => "DCX H"@,
        0x2C => "INR L"@,
        0x2D => "DCR L"@,
        0x2F => "CMA"@,
        0x33 => "INX SP"@,
        0x34 => "INR M"@,
        0x35 => "DCR M"@,
        0x37 => "STC"@,
        0x39 => "DAD SP"@,
        0x3B => "DCX SP"@,
        0x3C => "INR A"@,
        0x3D => "DCR A"@,
        0x3F => "CMC"@,
        0x40 => "MOV B,B"@,
        0x41 => "MOV B,C"@,
        0x42 => "MOV B,D"@,
        0x43 => "MOV B,E"@,
        0x44 => "MOV B,H"@,
        0x45 => "MOV B,L"@,
        0x46 => "MOV B,M"@,
        0x47 => "MOV B,A"@,
        0x48 => "MOV C,B"@,
        0x49 => "MOV C,C"@,
        0x4A => "MOV C,D"@,
        0x4B => "MOV C,E"@,
        0x4C => "MOV C,H"@,
        0x4D => "MOV C,L"@,
        0x4E => "MOV C,M"@,
        0x4F => "MOV C,A"@,
        0x50 => "MOV D,B"@,
        0x51 => "MOV D,C"@,
        0x52 => "MOV D,D"@,
        0x53 => "MOV D,E"@,
        0x54 => "MOV D,H"@,
        0x55 => "MOV D,L"@,
        0x56 => "MOV D,M"@,
        0x57 => "MOV D,A"@,
        0x58 => "MOV E,B"@,
        0x59 => "MOV E,C"@,
        0x5A => "MOV E,D"@,
        0x5B => "MOV E,E"@,
        0x5C => "MOV E,H"@,
        0x5D => "MOV E,L"@,
        0x5E => "MOV E,M"@,
        0x5F => "MOV E,A"@,
        0x60 => "MOV H,B"@,
        0x61 => "MOV H,C"@,
        0x62 => "MOV H,D"@,
        0x63 => "MOV H,E"@,
        0x64 => "MOV H,H"@,
        0x65 => "MOV H,L"@,
        0x66 => "MOV H,M"@,
        0x67 => "MOV H,A"@,
        0x68 => "MOV L,B"@,
        0x69 => "MOV L,C"@,
        0x6A => "MOV L,D"@,
        0x6B => "MOV L,E"@,
        0x6C => "MOV L,H"@,
        0x6D => "MOV L,L"@,
        0x6E => "MOV L,M"@,
        0x6F => "MOV L,A"@,
        0x70 => "MOV M,B"@,
        0x71 => "MOV M,C"@,
        0x72 => "MOV M,D"@,
        0x73 => "MOV M,E"@,
        0x74 => "MOV M,H"@,
        0x75 => "MOV M,L"@,
        0x77 => "MOV M,A"@,
        0x78 => "MOV A,B"@,
        0x79 => "MOV A,C"@,
        0x7A => "MOV A,D"@,
        0x7B => "MOV A,E"@,
        0x7C => "MOV A,H"@,
        0x7D => "MOV A,L"@,
        0x7E => "MOV A,M"@,
        0x7F => "MOV A,A"@,
        0x80 => "ADD B"@,
        0x81 => "ADD C"@,
        0x82 => "ADD D"@,
        0x83 => "ADD E"@,
        0x84 => "ADD H"@,
        0x85 => "ADD L"@,
        0x86 => "ADD M"@,
        0x87 => "ADD A"@,
        0x88 => "ADC B"@,
        0x89 => "ADC C"@,
        0x8A => "ADC D"@,
        0x8B => "ADC E"@,
        0x8C => "ADC H"@,
        0x8D => "ADC L"@,
        0x8E => "ADC M"@,
        0x8F => "ADC A"@,
        0x90 => "SUB B"@,
        0x91 => "SUB C"@,
        0x92 => "SUB D"@,
        0x93 => "SUB E"@,
        0x94 => "SUB H"@,
        0x95 => "SUB L"@,
        0x96 => "SUB M"@,
        0x97 => "SUB A"@,
        0x98 => "SBB B"@,
        0x99 => "SBB C"@,
        0x9A => "SBB D"@,
        0x9B => "SBB E"@,
        0x9C => "SBB H"@,
        0x9D => "SBB L"@,
        0x9E => "SBB M"@,
        0x9F => "SBB A"@,
        0xA0 => "ANA B"@,
        0xA1 => "ANA C"@,
        0xA2 => "ANA D"@,
        0xA3 => "ANA E"@,
        0xA4 => "ANA H"@,
        0xA5 => "ANA L"@,
        0xA6 => "ANA M"@,
        0xA7 => "ANA A"@,
        0xA8 => "XRA B"@,
        0xA9 => "XRA C"@,
        0xAA => "XRA D"@,
        0xAB => "XRA E"@,
        0xAC => "XRA H"@,
        0xAD => "XRA L"@,
        0xAE => "XRA M"@,
        0xAF => "XRA A"@,
        0xB0 => "ORA B"@,
        0xB1 => "ORA C"@,
        0xB2 => "ORA D"@,
        0xB3 => "ORA E"@,
        0xB4 => "ORA H"@,
        0xB5 => "ORA L"@,
        0xB6 => "ORA M"@,
        0xB7 => "ORA A"@,
        0xB8 => "CMP B"@,
        0xB9 => "CMP C"@,
        0xBA => "CMP D"@,
        0xBB => "CMP E"@,
        0xBC => "CMP H"@,
        0xBD => "CMP L"@,
        0xBE => "CMP M"@,
        0xBF => "CMP A"@,
        0xC1 => "POP B"@,
        0xC5 => "PUSH B"@,
        0xD1 => "POP D"@,
        0xD5 => "PUSH D"@,
        0xE1 => "POP H"@,
        0xE3 => "XTHL"@,
        0xE5 => "PUSH H"@,
        0xEB => "XCHG"@,
        0xF1 => "POP PSW"@,
        0xF5 => "PUSH PSW"@,
        0xF9 => "SPHL"@,
        _ => Seq::empty(),
    }
}

/// Whether `opcode` is the entry of the table for its opcode byte. Every
/// instruction of the table is one byte long and has one cycle count.
pub open spec fn is_entry(opcode: OpCode) -> bool {
    &&& operation_of(opcode.code) == Some(opcode.operation)
    &&& opcode.mnemonic@ == mnemonic_of(opcode.code)
    &&& opcode.len == 1
    &&& opcode.cycles == cycles_of(opcode.code)
    &&& opcode.alt_cycles is None
}

/// Whether `entries` lists, in rising order and once each, the entries of all
/// opcodes below `bound` that stand for an instruction, and nothing else.
#[verifier::opaque]
pub open spec fn lists_below(entries: Seq<OpCode>, bound: int) -> bool {
    &&& forall|i: int|
        0 <= i < entries.len() ==> is_entry(#[trigger] entries[i]) && entries[i].code < bound
    &&& forall|i: int, j: int|
        0 <= i < j < entries.len() ==> (#[trigger] entries[i]).code < (#[trigger] entries[j]).code
    &&& forall|code: Byte|
        code < bound && #[trigger] operation_of(code) is Some ==> exists|i: int|
            0 <= i < entries.len() && (#[trigger] entries[i]).code == code
}

/// Whether `entries` is the whole opcode table.
pub open spec fn is_table(entries: Seq<OpCode>) -> bool {
    lists_below(entries, 256)
}

/// A list stays complete up to a higher bound when no opcode in between
/// stands for an instruction.
proof fn lemma_lists_below_gap(entries: Seq<OpCode>, bound: int, higher: int)
    requires
        lists_below(entries, bound),
        bound <= higher,
        forall|code: Byte| bound <= code < higher ==> #[trigger] operation_of(code) is None,
    ensures
        lists_below(entries, higher),
{
    reveal(lists_below);
}

/// Appends the entry of the next opcode that stands for an instruction.
fn append(codes: &mut Vec<OpCode>, opcode: OpCode)
    requires
        is_entry(opcode),
        exists|bound: int|
            {
                &&& #[trigger] lists_below(old(codes)@, bound)
                &&& bound <= opcode.code
                &&& forall|code: Byte|
                    bound <= code < opcode.code ==> #[trigger] operation_of(code) is None
            },
    ensures
        final(codes)@ == old(codes)@.push(opcode),
        lists_below(final(codes)@, opcode.code + 1),
{
    let ghost before = codes@;
    codes.push(opcode);
    proof {
        reveal(lists_below);
        let bound = choose|bound: int|
            {
                &&& #[trigger] lists_below(before, bound)
                &&& bound <= opcode.code
                &&& forall|code: Byte|
                    bound <= code < opcode.code ==> #[trigger] operation_of(code) is None
            };
        assert forall|code: Byte|
            code < opcode.code + 1 && #[trigger] operation_of(code) is Some implies exists|i: int|
            0 <= i < codes@.len() && (#[trigger] codes@[i]).code == code by {
            if code < bound {
                let i = choose|i: int| 0 <= i < before.len() && (#[trigger] before[i]).code == code;
                assert(codes@[i].code == code);
            } else {
                assert(codes@[before.len() as int].code == code);
            }
        }
    }
}

/// Appends the entries of the opcodes from 0x00 to 0x0F.
fn row_0(codes: &mut Vec<OpCode>)
    requires
        lists_below(old(codes)@, 0x00),
    ensures
        lists_below(final(codes)@, 0x10),
{
    append(codes, OpCode::new(0x00, "NOP".to_owned(), Operation::NOP, 1, 4, None));
    append(codes, OpCode::new(0x02, "STAX B".to_owned(), Operation::STAX, 1, 7, None));
    append(codes, OpCode::new(0x03, "INX B".to_owned(), Operation::INX, 1, 5, None));
    append(codes, OpCode::new(0x04, "INR B".to_owned(), Operation::INR, 1, 5, None));
    append(codes, OpCode::new(0x05, "DCR B".to_owned(), Operation::DCR, 1, 5, None));
    append(codes, OpCode::new(0x07, "RLC".to_owned(), Operation::RLC, 1, 4, None));
    append(codes, OpCode::new(0x09, "DAD B".to_owned(), Operation::DAD, 1, 10, None));
    append(codes, OpCode::new(0x0A, "LDAX B".to_owned(), Operation::LDAX, 1, 7, None));
    append(codes, OpCode::new(0x0B, "DCX B".to_owned(), Operation::DCX, 1, 5, None));
    append(codes, OpCode::new(0x0C, "INR C".to_owned(), Operation::INR, 1, 5, None));
    append(codes, OpCode::new(0x0D, "DCR C".to_owned(), Operation::DCR, 1, 5, None));
    append(codes, OpCode::new(0x0F, "RRC".to_owned(), Operation::RRC, 1, 4, None));
}

/// Appends the entries of the opcodes from 0x10 to 0x1F.
fn row_1(codes: &mut Vec<OpCode>)
    requires
        lists_below(old(codes)@, 0x10),
    ensures
        lists_below(final(codes)@, 0x20),
{
    append(codes, OpCode::new(0x12, "STAX D".to_owned(), Operation::STAX, 1, 7, None));
    append(codes, OpCode::new(0x13, "INX D".to_owned(), Operation::INX, 1, 5, None));
    append(codes, OpCode::new(0x14, "INR D".to_owned(), Operation::INR, 1, 5, None));
    append(codes, OpCode::new(0x15, "DCR D".to_owned(), Operation::DCR, 1, 5, None));
    append(codes, OpCode::new(0x17, "RAL".to_owned(), Operation::RAL, 1, 4, None));
    append(codes, OpCode::new(0x19, "DAD D".to_owned(), Operation::DAD, 1, 10, None));
    append(codes, OpCode::new(0x1A, "LDAX B".to_owned(), Operation::LDAX, 1, 7, None));
    append(codes, OpCode::new(0x1B, "DCX D".to_owned(), Operation::DCX, 1, 5, None));
    append(codes, OpCode::new(0x1C, "INR E".to_owned(), Operation::INR, 1, 5, None));
    append(codes, OpCode::new(0x1D, "DCR E".to_owned(), Operation::DCR, 1, 5, None));
    append(codes, OpCode::new(0x1F, "RAR".to_owned(), Operation::RAR, 1, 4, None));
}

/// Appends the entries of the opcodes from 0x20 to 0x2F.
fn row_2(codes: &mut Vec<OpCode>)
    requires
        lists_below(old(codes)@, 0x20),
    ensures
        lists_below(final(codes)@, 0x30),
{
    append(codes, OpCode::new(0x23, "INX H".to_owned(), Operation::INX, 1, 5, None));
    append(codes, OpCode::new(0x24, "INR H".to_owned(), Operation::INR, 1, 5, None));
    append(codes, OpCode::new(0x25, "DCR H".to_owned(), Operation::DCR, 1, 5, None));
    append(codes, OpCode::new(0x27, "DAA".to_owned(), Operation::DAA, 1, 4, None));
    append(codes, OpCode::new(0x29, "DAD H".to_owned(), Operation::DAD, 1, 10, None));
    append(codes, OpCode::new(0x2B, "DCX H".to_owned(), Operation::DCX, 1, 5, None));
    append(codes, OpCode::new(0x2C, "INR L".to_owned(), Operation::INR, 1, 5, None));
    append(codes, OpCode::new(0x2D, "DCR L".to_owned(), Operation::DCR, 1, 5, None));
    append(codes, OpCode::new(0x2F, "CMA".to_owned(), Operation::CMA, 1, 4, None));
}

/// Appends the entries of the opcodes from 0x30 to 0x3F.
fn row_3(codes: &mut Vec<OpCode>)
    requires
        lists_below(old(codes)@, 0x30),
    ensures
        lists_below(final(codes)@, 0x40),
{
    append(codes, OpCode::new(0x33, "INX SP".to_owned(), Operation::INX, 1, 5, None));
    append(codes, OpCode::new(0x34, "INR M".to_owned(), Operation::INR, 1, 10, None));
    append(codes, OpCode::new(0x35, "DCR M".to_owned(), Operation::DCR, 1, 10, None));
    append(codes, OpCode::new(0x37, "STC".to_owned(), Operation::STC, 1, 4, None));
    append(codes, OpCode::new(0x39, "DAD SP".to_owned(), Operation::DAD, 1, 10, None));
    append(codes, OpCode::new(0x3B, "DCX SP".to_owned(), Operation::DCX, 1, 5, None));
    append(codes, OpCode::new(0x3C, "INR A".to_owned(), Operation::INR, 1, 5, None));
    append(codes, OpCode::new(0x3D, "DCR A".to_owned(), Operation::DCR, 1, 5, None));
    append(codes, OpCode::new(0x3F, "CMC".to_owned(), Operation::CMC, 1, 4, None));
}

/// Appends the entries of the opcodes from 0x40 to 0x4F.
fn row_4(codes: &mut Vec<OpCode>)
    requires
        lists_below(old(codes)@, 0x40),
    ensures
        lists_below(final(codes)@, 0x50),
{
    append(codes, OpCode::new(0x40, "MOV B,B".to_owned(), Operation::MOV, 1, 5, None));
    append(codes, OpCode::new(0x41, "MOV B,C".to_owned(), Operation::MOV, 1, 5, None));
    append(codes, OpCode::new(0x42, "MOV B,D".to_owned(), Operation::MOV, 1, 5, None));
    append(codes, OpCode::new(0x43, "MOV B,E".to_owned(), Operation::MOV, 1, 5, None));
    append(codes, OpCode::new(0x44, "MOV B,H".to_owned(), Operation::MOV, 1, 5, None));
    append(codes, OpCode::new(0x45, "MOV B,L".to_owned(), Operation::MOV, 1, 5, None));
    append(codes, OpCode::new(0x46, "MOV B,M".to_owned(), Operation::MOV, 1, 7, None));
    append(codes, OpCode::new(0x47, "MOV B,A".to_owned(), Operation::MOV, 1, 5, None));
    append(codes, OpCode::new(0x48, "MOV C,B".to_owned(), Operation::MOV, 1, 5, None));
    append(codes, OpCode::new(0x49, "MOV C,C".to_owned(), Operation::MOV, 1, 5, None));
    append(codes, OpCode::new(0x4A, "MOV C,D".to_owned(), Operation::MOV, 1, 5, None));
    append(codes, OpCode::new(0x4B, "MOV C,E".to_owned(), Operation::MOV, 1, 5, None));
    append(codes, OpCode::new(0x4C, "MOV C,H".to_owned(), Operation::MOV, 1, 5, None));
    append(codes, OpCode::new(0x4D, "MOV C,L".to_owned(), Operation::MOV, 1, 5, None));
    append(codes, OpCode::new(0x4E, "MOV C,M".to_owned(), Operation::MOV, 1, 7, None));
    append(codes, OpCode::new(0x4F, "MOV C,A".to_owned(), Operation::MOV, 1, 5, None));
}

/// Appends the entries of the opcodes from 0x50 to 0x5F.
fn row_5(codes: &mut Vec<OpCode>)
    requires
        lists_below(old(codes)@, 0x50),
    ensures
        lists_below(final(codes)@, 0x60),
{
    append(codes, OpCode::new(0x50, "MOV D,B".to_owned(), Operation::MOV, 1, 5, None));
    append(codes, OpCode::new(0x51, "MOV D,C".to_owned(), Operation::MOV, 1, 5, None));
    append(codes, OpCode::new(0x52, "MOV D,D".to_owned(), Operation::MOV, 1, 5, None));
    append(codes, OpCode::new(0x53, "MOV D,E".to_owned(), Operation::MOV, 1, 5, None));
    append(codes, OpCode::new(0x54, "MOV D,H".to_owned(), Operation::MOV, 1, 5, None));
    append(codes, OpCode::new(0x55, "MOV D,L".to_owned(), Operation::MOV, 1, 5, None));
    append(codes, OpCode::new(0x56, "MOV D,M".to_owned(), Operation::MOV, 1, 7, None));
    append(codes, OpCode::new(0x57, "MOV D,A".to_owned(), Operation::MOV, 1, 5, None));
    append(codes, OpCode::new(0x58, "MOV E,B".to_owned(), Operation::MOV, 1, 5, None));
    append(codes, OpCode::new(0x59, "MOV E,C".to_owned(), Operation::MOV, 1, 5, None));
    append(codes, OpCode::new(0x5A, "MOV E,D".to_owned(), Operation::MOV, 1, 5, None));
    append(codes, OpCode::new(0x5B, "MOV E,E".to_owned(), Operation::MOV, 1, 5, None));
    append(codes, OpCode::new(0x5C, "MOV E,H".to_owned(), Operation::MOV, 1, 5, None));
    append(codes, OpCode::new(0x5D, "MOV E,L".to_owned(), Operation::MOV, 1, 5, None));
    append(codes, OpCode::new(0x5E, "MOV E,M".to_owned(), Operation::MOV, 1, 7, None));
    append(codes, OpCode::new(0x5F, "MOV E,A".to_owned(), Operation::MOV, 1, 5, None));
}

/// Appends the entries of the opcodes from 0x60 to 0x6F.
fn row_6(codes: &mut Vec<OpCode>)
    requires
        lists_below(old(codes)@, 0x60),
    ensures
        lists_below(final(codes)@, 0x70),
{
    append(codes, OpCode::new(0x60, "MOV H,B".to_owned(), Operation::MOV, 1, 5, None));
    append(codes, OpCode::new(0x61, "MOV H,C".to_owned(), Operation::MOV, 1, 5, None));
    append(codes, OpCode::new(0x62, "MOV H,D".to_owned(), Operation::MOV, 1, 5, None));
    append(codes, OpCode::new(0x63, "MOV H,E".to_owned(), Operation::MOV, 1, 5, None));
    append(codes, OpCode::new(0x64, "MOV H,H".to_owned(), Operation::MOV, 1, 5, None));
    append(codes, OpCode::new(0x65, "MOV H,L".to_owned(), Operation::MOV, 1, 5, None));
    append(codes, OpCode::new(0x66, "MOV H,M".to_owned(), Operation::MOV, 1, 7, None));
    append(codes, OpCode::new(0x67, "MOV H,A".to_owned(), Operation::MOV, 1, 5, None));
    append(codes, OpCode::new(0x68, "MOV L,B".to_owned(), Operation::MOV, 1, 5, None));
    append(codes, OpCode::new(0x69, "MOV L,C".to_owned(), Operation::MOV, 1, 5, None));
    append(codes, OpCode::new(0x6A, "MOV L,D".to_owned(), Operation::MOV, 1, 5, None));
    append(codes, OpCode::new(0x6B, "MOV L,E".to_owned(), Operation::MOV, 1, 5, None));
    append(codes, OpCode::new(0x6C, "MOV L,H".to_owned(), Operation::MOV, 1, 5, None));
    append(codes, OpCode::new(0x6D, "MOV L,L".to_owned(), Operation::MOV, 1, 5, None));
    append(codes, OpCode::new(0x6E, "MOV L,M".to_owned(), Operation::MOV, 1, 7, None));
    append(codes, OpCode::new(0x6F, "MOV L,A".to_owned(), Operation::MOV, 1, 5, None));
}

/// Appends the entries of the opcodes from 0x70 to 0x7F.
fn row_7(codes: &mut Vec<OpCode>)
    requires
        lists_below(old(codes)@, 0x70),
    ensures
        lists_below(final(codes)@, 0x80),
{
    append(codes, OpCode::new(0x70, "MOV M,B".to_owned(), Operation::MOV, 1, 7, None));
    append(codes, OpCode::new(0x71, "MOV M,C".to_owned(), Operation::MOV, 1, 7, None));
    append(codes, OpCode::new(0x72, "MOV M,D".to_owned(), Operation::MOV, 1, 7, None));
    append(codes, OpCode::new(0x73, "MOV M,E".to_owned(), Operation::MOV, 1, 7, None));
    append(codes, OpCode::new(0x74, "MOV M,H".to_owned(), Operation::MOV, 1, 7, None));
    append(codes, OpCode::new(0x75, "MOV M,L".to_owned(), Operation::MOV, 1, 7, None));
    append(codes, OpCode::new(0x77, "MOV M,A".to_owned(), Operation::MOV, 1, 7, None));
    append(codes, OpCode::new(0x78, "MOV A,B".to_owned(), Operation::MOV, 1, 5, None));
    append(codes, OpCode::new(0x79, "MOV A,C".to_owned(), Operation::MOV, 1, 5, None));
    append(codes, OpCode::new(0x7A, "MOV A,D".to_owned(), Operation::MOV, 1, 5, None));
    append(codes, OpCode::new(0x7B, "MOV A,E".to_owned(), Operation::MOV, 1, 5, None));
    append(codes, OpCode::new(0x7C, "MOV A,H".to_owned(), Operation::MOV, 1, 5, None));
    append(codes, OpCode::new(0x7D, "MOV A,L".to_owned(), Operation::MOV, 1, 5, None));
    append(codes, OpCode::new(0x7E, "MOV A,M".to_owned(), Operation::MOV, 1, 7, None));
    append(codes, OpCode::new(0x7F, "MOV A,A".to_owned(), Operation::MOV, 1, 5, None));
}

/// Appends the entries of the opcodes from 0x80 to 0x8F.
fn row_8(codes: &mut Vec<OpCode>)
    requires
        lists_below(old(codes)@, 0x80),
    ensures
        lists_below(final(codes)@, 0x90),
{
    append(codes, OpCode::new(0x80, "ADD B".to_owned(), Operation::ADD, 1, 4, None));
    append(codes, OpCode::new(0x81, "ADD C".to_owned(), Operation::ADD, 1, 4, None));
    append(codes, OpCode::new(0x82, "ADD D".to_owned(), Operation::ADD, 1, 4, None));
    append(codes, OpCode::new(0x83, "ADD E".to_owned(), Operation::ADD, 1, 4, None));
    append(codes, OpCode::new(0x84, "ADD H".to_owned(), Operation::ADD, 1, 4, None));
    append(codes, OpCode::new(0x85, "ADD L".to_owned(), Operation::ADD, 1, 4, None));
    append(codes, OpCode::new(0x86, "ADD M".to_owned(), Operation::ADD, 1, 7, None));
    append(codes, OpCode::new(0x87, "ADD A".to_owned(), Operation::ADD, 1, 4, None));
    append(codes, OpCode::new(0x88, "ADC B".to_owned(), Operation::ADC, 1, 4, None));
    append(codes, OpCode::new(0x89, "ADC C".to_owned(), Operation::ADC, 1, 4, None));
    append(codes, OpCode::new(0x8A, "ADC D".to_owned(), Operation::ADC, 1, 4, None));
    append(codes, OpCode::new(0x8B, "ADC E".to_owned(), Operation::ADC, 1, 4, None));
    append(codes, OpCode::new(0x8C, "ADC H".to_owned(), Operation::ADC, 1, 4, None));
    append(codes, OpCode::new(0x8D, "ADC L".to_owned(), Operation::ADC, 1, 4, None));
    append(codes, OpCode::new(0x8E, "ADC M".to_owned(), Operation::ADC, 1, 7, None));
    append(codes, OpCode::new(0x8F, "ADC A".to_owned(), Operation::ADC, 1, 4, None));
}

/// Appends the entries of the opcodes from 0x90 to 0x9F.
fn row_9(codes: &mut Vec<OpCode>)
    requires
        lists_below(old(codes)@, 0x90),
    ensures
        lists_below(final(codes)@, 0xA0),
{
    append(codes, OpCode::new(0x90, "SUB B".to_owned(), Operation::SUB, 1, 4, None));
    append(codes, OpCode::new(0x91, "SUB C".to_owned(), Operation::SUB, 1, 4, None));
    append(codes, OpCode::new(0x92, "SUB D".to_owned(), Operation::SUB, 1, 4, None));
    append(codes, OpCode::new(0x93, "SUB E".to_owned(), Operation::SUB, 1, 4, None));
    append(codes, OpCode::new(0x94, "SUB H".to_owned(), Operation::SUB, 1, 4, None));
    append(codes, OpCode::new(0x95, "SUB L".to_owned(), Operation::SUB, 1, 4, None));
    append(codes, OpCode::new(0x96, "SUB M".to_owned(), Operation::SUB, 1, 7, None));
    append(codes, OpCode::new(0x97, "SUB A".to_owned(), Operation::SUB, 1, 4, None));
    append(codes, OpCode::new(0x98, "SBB B".to_owned(), Operation::SBB, 1, 4, None));
    append(codes, OpCode::new(0x99, "SBB C".to_owned(), Operation::SBB, 1, 4, None));
    append(codes, OpCode::new(0x9A, "SBB D".to_owned(), Operation::SBB, 1, 4, None));
    append(codes, OpCode::new(0x9B, "SBB E".to_owned(), Operation::SBB, 1, 4, None));
    append(codes, OpCode::new(0x9C, "SBB H".to_owned(), Operation::SBB, 1, 4, None));
    append(codes, OpCode::new(0x9D, "SBB L".to_owned(), Operation::SBB, 1, 4, None));
    append(codes, OpCode::new(0x9E, "SBB M".to_owned(), Operation::SBB, 1, 7, None));
    append(codes, OpCode::new(0x9F, "SBB A".to_owned(), Operation::SBB, 1, 4, None));
}

/// Appends the entries of the opcodes from 0xA0 to 0xAF.
fn row_a(codes: &mut Vec<OpCode>)
    requires
        lists_below(old(codes)@, 0xA0),
    ensures
        lists_below(final(codes)@, 0xB0),
{
    append(codes, OpCode::new(0xA0, "ANA B".to_owned(), Operation::ANA, 1, 4, None));
    append(codes, OpCode::new(0xA1, "ANA C".to_owned(), Operation::ANA, 1, 4, None));
    append(codes, OpCode::new(0xA2, "ANA D".to_owned(), Operation::ANA, 1, 4, None));
    append(codes, OpCode::new(0xA3, "ANA E".to_owned(), Operation::ANA, 1, 4, None));
    append(codes, OpCode::new(0xA4, "ANA H".to_owned(), Operation::ANA, 1, 4, None));
    append(codes, OpCode::new(0xA5, "ANA L".to_owned(), Operation::ANA, 1, 4, None));
    append(codes, OpCode::new(0xA6, "ANA M".to_owned(), Operation::ANA, 1, 7, None));
    append(codes, OpCode::new(0xA7, "ANA A".to_owned(), Operation::ANA, 1, 4, None));
    append(codes, OpCode::new(0xA8, "XRA B".to_owned(), Operation::XRA, 1, 4, None));
    append(codes, OpCode::new(0xA9, "XRA C".to_owned(), Operation::XRA, 1, 4, None));
    append(codes, OpCode::new(0xAA, "XRA D".to_owned(), Operation::XRA, 1, 4, None));
    append(codes, OpCode::new(0xAB, "XRA E".to_owned(), Operation::XRA, 1, 4, None));
    append(codes, OpCode::new(0xAC, "XRA H".to_owned(), Operation::XRA, 1, 4, None));
    append(codes, OpCode::new(0xAD, "XRA L".to_owned(), Operation::XRA, 1, 4, None));
    append(codes, OpCode::new(0xAE, "XRA M".to_owned(), Operation::XRA, 1, 7, None));
    append(codes, OpCode::new(0xAF, "XRA A".to_owned(), Operation::XRA, 1, 4, None));
}

/// Appends the entries of the opcodes from 0xB0 to 0xBF.
fn row_b(codes: &mut Vec<OpCode>)
    requires
        lists_below(old(codes)@, 0xB0),
    ensures
        lists_below(final(codes)@, 0xC0),
{
    append(codes, OpCode::new(0xB0, "ORA B".to_owned(), Operation::ORA, 1, 4, None));
    append(codes, OpCode::new(0xB1, "ORA C".to_owned(), Operation::ORA, 1, 4, None));
    append(codes, OpCode::new(0xB2, "ORA D".to_owned(), Operation::ORA, 1, 4, None));
    append(codes, OpCode::new(0xB3, "ORA E".to_owned(), Operation::ORA, 1, 4, None));
    append(codes, OpCode::new(0xB4, "ORA H".to_owned(), Operation::ORA, 1, 4, None));
    append(codes, OpCode::new(0xB5, "ORA L".to_owned(), Operation::ORA, 1, 4, None));
    append(codes, OpCode::new(0xB6, "ORA M".to_owned(), Operation::ORA, 1, 7, None));
    append(codes, OpCode::new(0xB7, "ORA A".to_owned(), Operation::ORA, 1, 4, None));
    append(codes, OpCode::new(0xB8, "CMP B".to_owned(), Operation::CMP, 1, 4, None));
    append(codes, OpCode::new(0xB9, "CMP C".to_owned(), Operation::CMP, 1, 4, None));
    append(codes, OpCode::new(0xBA, "CMP D".to_owned(), Operation::CMP, 1, 4, None));
    append(codes, OpCode::new(0xBB, "CMP E".to_owned(), Operation::CMP, 1, 4, None));
    append(codes, OpCode::new(0xBC, "CMP H".to_owned(), Operation::CMP, 1, 4, None));
    append(codes, OpCode::new(0xBD, "CMP L".to_owned(), Operation::CMP, 1, 4, None));
    append(codes, OpCode::new(0xBE, "CMP M".to_owned(), Operation::CMP, 1, 7, None));
    append(codes, OpCode::new(0xBF, "CMP A".to_owned(), Operation::CMP, 1, 4, None));
}

/// Appends the entries of the opcodes from 0xC0 to 0xFF.
fn rows_c_to_f(codes: &mut Vec<OpCode>)
    requires
        lists_below(old(codes)@, 0xC0),
    ensures
        lists_below(final(codes)@, 0x100),
{
    append(codes, OpCode::new(0xC1, "POP B".to_owned(), Operation::POP, 1, 10, None));
    append(codes, OpCode::new(0xC5, "PUSH B".to_owned(), Operation::PUSH, 1, 11, None));

    append(codes, OpCode::new(0xD1, "POP D".to_owned(), Operation::POP, 1, 10, None));
    append(codes, OpCode::new(0xD5, "PUSH D".to_owned(), Operation::PUSH, 1, 11, None));

    append(codes, OpCode::new(0xE1, "POP H".to_owned(), Operation::POP, 1, 10, None));
    append(codes, OpCode::new(0xE3, "XTHL".to_owned(), Operation::XTHL, 1, 18, None));
    append(codes, OpCode::new(0xE5, "PUSH H".to_owned(), Operation::PUSH, 1, 11, None));
    append(codes, OpCode::new(0xEB, "XCHG".to_owned(), Operation::XCHG, 1, 5, None));

    append(codes, OpCode::new(0xF1, "POP PSW".to_owned(), Operation::POP, 1, 10, None));
    append(codes, OpCode::new(0xF5, "PUSH PSW".to_owned(), Operation::PUSH, 1, 11, None));
    append(codes, OpCode::new(0xF9, "SPHL".to_owned(), Operation::SPHL, 1, 5, None));
    proof {
        lemma_lists_below_gap(codes@, 0xFA, 0x100);
    }
}

/// The opcode table: one entry for each opcode that stands for an
/// instruction, in rising order of the opcode.
pub fn cpu_op_codes() -> (codes: Vec<OpCode>)
    ensures
        is_table(codes@),
{
    let mut codes: Vec<OpCode> = Vec::new();
    proof {
        reveal(lists_below);
    }
    assert(lists_below(codes@, 0x00));
    row_0(&mut codes);
    row_1(&mut codes);
    row_2(&mut codes);
    row_3(&mut codes);
    row_4(&mut codes);
    row_5(&mut codes);
    row_6(&mut codes);
    row_7(&mut codes);
    row_8(&mut codes);
    row_9(&mut codes);
    row_a(&mut codes);
    row_b(&mut codes);
    rows_c_to_f(&mut codes);
    codes
}

/// The opcode table, indexed by opcode byte.
pub struct OpcodeMap {
    entries: Vec<OpCode>,
    index: HashMap<Byte, usize>,
}

impl View for OpcodeMap {
    type V = Map<Byte, OpCode>;

    /// The entry of each opcode that has one.
    closed spec fn view(&self) -> Map<Byte, OpCode> {
        Map::new(
            |code: Byte| self.index@.contains_key(code),
            |code: Byte| self.entries@[self.index@[code] as int],
        )
    }
}

/// Whether `map` holds, for each opcode that stands for an instruction and
/// for no other byte, the entry of that opcode.
pub open spec fn is_opcode_map(map: Map<Byte, OpCode>) -> bool {
    forall|code: Byte|
        {
            &&& map.contains_key(code) <==> #[trigger] operation_of(code) is Some
            &&& map.contains_key(code) ==> map[code].code == code && is_entry(map[code])
        }
}

impl OpcodeMap {
    #[verifier::type_invariant]
    spec fn indexes_the_table(self) -> bool {
        &&& is_table(self.entries@)
        &&& forall|code: Byte|
            self.index@.contains_key(code) <==> #[trigger] operation_of(code) is Some
        &&& forall|code: Byte| #[trigger]
            self.index@.contains_key(code) ==> self.index@[code] < self.entries@.len()
                && self.entries@[self.index@[code] as int].code == code
    }

    /// Builds the table and its index.
    pub fn new() -> (map: OpcodeMap)
        ensures
            is_opcode_map(map@),
    {
        let entries = cpu_op_codes();
        proof {
            reveal(lists_below);
        }
        let mut index: HashMap<Byte, usize> = HashMap::new();
        let mut i: usize = 0;
        while i < entries.len()
            invariant
                i <= entries.len(),
                is_table(entries@),
                forall|code: Byte|
                    index@.contains_key(code) <==> exists|j: int|
                        0 <= j < i && (#[trigger] entries@[j]).code == code,
                forall|code: Byte| #[trigger]
                    index@.contains_key(code) ==> index@[code] < i && entries@[index@[code] as int].code
                        == code,
            decreases entries.len() - i,
        {
            let ghost before = index@;
            index.insert(entries[i].code, i);
            proof {
                assert forall|code: Byte| index@.contains_key(code) implies exists|j: int|
                    0 <= j < i + 1 && (#[trigger] entries@[j]).code == code by {
                    if code == entries@[i as int].code {
                        assert(entries@[i as int].code == code);
                    } else {
                        assert(before.contains_key(code));
                        let j = choose|j: int| 0 <= j < i && (#[trigger] entries@[j]).code == code;
                        assert(entries@[j].code == code);
                    }
                }
            }
            i += 1;
        }
        OpcodeMap { entries, index }
    }

    /// The entry of `code`, if the byte stands for an instruction.
    pub fn get(&self, code: Byte) -> (entry: Option<&OpCode>)
        ensures
            is_opcode_map(self@),
            match entry {
                Some(opcode) => {
                    &&& self@.contains_key(code)
                    &&& *opcode == self@[code]
                    &&& opcode.code == code
                    &&& is_entry(*opcode)
                },
                None => !self@.contains_key(code) && operation_of(code) is None,
            },
    {
        proof {
            use_type_invariant(self);
            reveal(lists_below);
        }
        match self.index.get(&code) {
            Some(i) => Some(&self.entries[*i]),
            None => None,
        }
    }
}

} // verus!
