//! Opcode fields and the decoded form of an instruction.
use vstd::prelude::*;

verus! {

/// The high nibble of an opcode: its instruction family.
pub open spec fn op_family(op: u16) -> int {
    op as int / 0x1000
}

/// Bits 8 to 11 of an opcode: the first register index.
pub open spec fn op_x(op: u16) -> u8 {
    (op as int / 0x100 % 0x10) as u8
}

/// Bits 4 to 7 of an opcode: the second register index.
pub open spec fn op_y(op: u16) -> u8 {
    (op as int / 0x10 % 0x10) as u8
}

/// Bits 0 to 3 of an opcode.
pub open spec fn op_n(op: u16) -> u8 {
    (op as int % 0x10) as u8
}

/// Bits 0 to 7 of an opcode: an 8-bit immediate.
pub open spec fn op_nn(op: u16) -> u8 {
    (op as int % 0x100) as u8
}

/// Bits 0 to 11 of an opcode: a 12-bit address or immediate.
pub open spec fn op_nnn(op: u16) -> u16 {
    (op as int % 0x1000) as u16
}

/// One decoded instruction. `x` and `y` name registers (0 to 15), `n` is a
/// 4-bit immediate, `nn` an 8-bit immediate and `nnn` a 12-bit address.
#[derive(Clone, Copy, Debug, PartialEq, Eq, Structural)]
pub enum Instruction {
    /// 00E0
    ClearScreen,
    /// 00EE
    Return,
    /// 1nnn
    Jump { nnn: u16 },
    /// 2nnn
    Call { nnn: u16 },
    /// 3xnn
    SkipEqImm { x: u8, nn: u8 },
    /// 4xnn
    SkipNeImm { x: u8, nn: u8 },
    /// 5xy0
    SkipEqReg { x: u8, y: u8 },
    /// 6xnn
    LoadImm { x: u8, nn: u8 },
    /// 7xnn
    AddImm { x: u8, nn: u8 },
    /// 8xy0
    Move { x: u8, y: u8 },
    /// 8xy1
    Or { x: u8, y: u8 },
    /// 8xy2
    And { x: u8, y: u8 },
    /// 8xy3
    Xor { x: u8, y: u8 },
    /// 8xy4
    AddReg { x: u8, y: u8 },
    /// 8xy5
    SubReg { x: u8, y: u8 },
    /// 8xy6
    ShiftRight { x: u8, y: u8 },
    /// 8xy7
    SubRev { x: u8, y: u8 },
    /// 8xyE
    ShiftLeft { x: u8, y: u8 },
    /// 9xy0
    SkipNeReg { x: u8, y: u8 },
    /// Annn
    SetIndex { nnn: u16 },
    /// Bnnn
    JumpOffset { nnn: u16 },
    /// Cxnn
    Random { x: u8, nn: u8 },
    /// Dxyn
    Draw { x: u8, y: u8, n: u8 },
    /// Ex9E
    SkipKey { x: u8 },
    /// ExA1
    SkipNoKey { x: u8 },
    /// Fx07
    ReadDelay { x: u8 },
    /// Fx0A
    WaitKey { x: u8 },
    /// Fx15
    SetDelay { x: u8 },
    /// Fx18
    SetSound { x: u8 },
    /// Fx1E
    AddIndex { x: u8 },
    /// Fx29
    FontAddr { x: u8 },
    /// Fx33
    StoreBcd { x: u8 },
    /// Fx55
    StoreRegs { x: u8 },
    /// Fx65
    LoadRegs { x: u8 },
    /// Any opcode outside the instruction set, kept as it was fetched.
    Unknown { op: u16 },
}

/// The instruction that an opcode stands for: the instruction table.
pub open spec fn decode_spec(op: u16) -> Instruction {
    let x = op_x(op);
    let y = op_y(op);
    let n = op_n(op);
    let nn = op_nn(op);
    let nnn = op_nnn(op);
    let f = op_family(op);
    if f == 0x0 {
        if op == 0x00E0 {
            Instruction::ClearScreen
        } else if op == 0x00EE {
            Instruction::Return
        } else {
            Instruction::Unknown { op }
        }
    } else if f == 0x1 {
        Instruction::Jump { nnn }
    } else if f == 0x2 {
        Instruction::Call { nnn }
    } else if f == 0x3 {
        Instruction::SkipEqImm { x, nn }
    } else if f == 0x4 {
        Instruction::SkipNeImm { x, nn }
    } else if f == 0x5 {
        if n == 0 {
            Instruction::SkipEqReg { x, y }
        } else {
            Instruction::Unknown { op }
        }
    } else if f == 0x6 {
        Instruction::LoadImm { x, nn }
    } else if f == 0x7 {
        Instruction::AddImm { x, nn }
    } else if f == 0x8 {
        if n == 0x0 {
            Instruction::Move { x, y }
        } else if n == 0x1 {
            Instruction::Or { x, y }
        } else if n == 0x2 {
            Instruction::And { x, y }
        } else if n == 0x3 {
            Instruction::Xor { x, y }
        } else if n == 0x4 {
            Instruction::AddReg { x, y }
        } else if n == 0x5 {
            Instruction::SubReg { x, y }
        } else if n == 0x6 {
            Instruction::ShiftRight { x, y }
        } else if n == 0x7 {
            Instruction::SubRev { x, y }
        } else if n == 0xE {
            Instruction::ShiftLeft { x, y }
        } else {
            Instruction::Unknown { op }
        }
    } else if f == 0x9 {
        if n == 0 {
            Instruction::SkipNeReg { x, y }
        } else {
            Instruction::Unknown { op }
        }
    } else if f == 0xA {
        Instruction::SetIndex { nnn }
    } else if f == 0xB {
        Instruction::JumpOffset { nnn }
    } else if f == 0xC {
        Instruction::Random { x, nn }
    } else if f == 0xD {
        Instruction::Draw { x, y, n }
    } else if f == 0xE {
        if nn == 0x9E {
            Instruction::SkipKey { x }
        } else if nn == 0xA1 {
            Instruction::SkipNoKey { x }
        } else {
            Instruction::Unknown { op }
        }
    } else {
        if nn == 0x07 {
            Instruction::ReadDelay { x }
        } else if nn == 0x0A {
            Instruction::WaitKey { x }
        } else if nn == 0x15 {
            Instruction::SetDelay { x }
        } else if nn == 0x18 {
            Instruction::SetSound { x }
        } else if nn == 0x1E {
            Instruction::AddIndex { x }
        } else if nn == 0x29 {
            Instruction::FontAddr { x }
        } else if nn == 0x33 {
            Instruction::StoreBcd { x }
        } else if nn == 0x55 {
            Instruction::StoreRegs { x }
        } else if nn == 0x65 {
            Instruction::LoadRegs { x }
        } else {
            Instruction::Unknown { op }
        }
    }
}

/// Opcode of family `f` whose low twelve bits are register `x` and the byte `nn`.
pub open spec fn pack_x_nn(f: int, x: u8, nn: u8) -> int {
    f * 0x1000 + x * 0x100 + nn
}

/// Opcode of family `f` whose low twelve bits are registers `x`, `y` and the nibble `n`.
pub open spec fn pack_x_y_n(f: int, x: u8, y: u8, n: u8) -> int {
    f * 0x1000 + x * 0x100 + y * 0x10 + n
}

/// The 16-bit opcode that an instruction is written as.
pub open spec fn encode(ins: Instruction) -> int {
    match ins {
        Instruction::ClearScreen => 0x00E0,
        Instruction::Return => 0x00EE,
        Instruction::Jump { nnn } => 0x1000 + nnn,
        Instruction::Call { nnn } => 0x2000 + nnn,
        Instruction::SkipEqImm { x, nn } => pack_x_nn(0x3, x, nn),
        Instruction::SkipNeImm { x, nn } => pack_x_nn(0x4, x, nn),
        Instruction::SkipEqReg { x, y } => pack_x_y_n(0x5, x, y, 0x0),
        Instruction::LoadImm { x, nn } => pack_x_nn(0x6, x, nn),
        Instruction::AddImm { x, nn } => pack_x_nn(0x7, x, nn),
        Instruction::Move { x, y } => pack_x_y_n(0x8, x, y, 0x0),
        Instruction::Or { x, y } => pack_x_y_n(0x8, x, y, 0x1),
        Instruction::And { x, y } => pack_x_y_n(0x8, x, y, 0x2),
        Instruction::Xor { x, y } => pack_x_y_n(0x8, x, y, 0x3),
        Instruction::AddReg { x, y } => pack_x_y_n(0x8, x, y, 0x4),
        Instruction::SubReg { x, y } => pack_x_y_n(0x8, x, y, 0x5),
        Instruction::ShiftRight { x, y } => pack_x_y_n(0x8, x, y, 0x6),
        Instruction::SubRev { x, y } => pack_x_y_n(0x8, x, y, 0x7),
        Instruction::ShiftLeft { x, y } => pack_x_y_n(0x8, x, y, 0xE),
        Instruction::SkipNeReg { x, y } => pack_x_y_n(0x9, x, y, 0x0),
        Instruction::SetIndex { nnn } => 0xA000 + nnn,
        Instruction::JumpOffset { nnn } => 0xB000 + nnn,
        Instruction::Random { x, nn } => pack_x_nn(0xC, x, nn),
        Instruction::Draw { x, y, n } => pack_x_y_n(0xD, x, y, n),
        Instruction::SkipKey { x } => pack_x_nn(0xE, x, 0x9E),
        Instruction::SkipNoKey { x } => pack_x_nn(0xE, x, 0xA1),
        Instruction::ReadDelay { x } => pack_x_nn(0xF, x, 0x07),
        Instruction::WaitKey { x } => pack_x_nn(0xF, x, 0x0A),
        Instruction::SetDelay { x } => pack_x_nn(0xF, x, 0x15),
        Instruction::SetSound { x } => pack_x_nn(0xF, x, 0x18),
        Instruction::AddIndex { x } => pack_x_nn(0xF, x, 0x1E),
        Instruction::FontAddr { x } => pack_x_nn(0xF, x, 0x29),
        Instruction::StoreBcd { x } => pack_x_nn(0xF, x, 0x33),
        Instruction::StoreRegs { x } => pack_x_nn(0xF, x, 0x55),
        Instruction::LoadRegs { x } => pack_x_nn(0xF, x, 0x65),
        Instruction::Unknown { op } => op as int,
    }
}

/// The fields of an opcode put back together give the opcode.
proof fn lemma_fields_recombine(op: u16)
    ensures
        0 <= op_family(op) < 0x10,
        op_x(op) < 0x10,
        op_y(op) < 0x10,
        op_n(op) < 0x10,
        op as int == op_family(op) * 0x1000 + op_x(op) * 0x100 + op_y(op) * 0x10 + op_n(op),
        op_nn(op) == op_y(op) * 0x10 + op_n(op),
        op_nnn(op) == op_x(op) * 0x100 + op_nn(op),
{
    let v = op as int;
    assert(v == (v / 0x1000) * 0x1000 + (v / 0x100 % 0x10) * 0x100 + (v / 0x10 % 0x10) * 0x10
        + v % 0x10) by (nonlinear_arith)
        requires
            0 <= v < 0x10000,
    ;
    assert(v % 0x100 == (v / 0x10 % 0x10) * 0x10 + v % 0x10) by (nonlinear_arith)
        requires
            0 <= v < 0x10000,
    ;
    assert(v % 0x1000 == (v / 0x100 % 0x10) * 0x100 + v % 0x100) by (nonlinear_arith)
        requires
            0 <= v < 0x10000,
    ;
}

/// Decoding loses nothing: every 16-bit opcode is written back exactly by
/// the instruction it decodes to, unknown opcodes included.
pub proof fn lemma_decode_encode(op: u16)
    ensures
        encode(decode_spec(op)) == op as int,
{
    lemma_fields_recombine(op);
}

/// Splits an opcode into its instruction.
pub fn decode(op: u16) -> (r: Instruction)
    ensures
        r == decode_spec(op),
{
    let x = (op / 0x100 % 0x10) as u8;
    let y = (op / 0x10 % 0x10) as u8;
    let n = (op % 0x10) as u8;
    let nn = (op % 0x100) as u8;
    let nnn = op % 0x1000;
    match op / 0x1000 {
        0x0 => {
            if op == 0x00E0 {
                Instruction::ClearScreen
            } else if op == 0x00EE {
                Instruction::Return
            } else {
                Instruction::Unknown { op }
            }
        },
        0x1 => Instruction::Jump { nnn },
        0x2 => Instruction::Call { nnn },
        0x3 => Instruction::SkipEqImm { x, nn },
        0x4 => Instruction::SkipNeImm { x, nn },
        0x5 => {
            if n == 0 {
                Instruction::SkipEqReg { x, y }
            } else {
                Instruction::Unknown { op }
            }
        },
        0x6 => Instruction::LoadImm { x, nn },
        0x7 => Instruction::AddImm { x, nn },
        0x8 => match n {
            0x0 => Instruction::Move { x, y },
            0x1 => Instruction::Or { x, y },
            0x2 => Instruction::And { x, y },
            0x3 => Instruction::Xor { x, y },
            0x4 => Instruction::AddReg { x, y },
            0x5 => Instruction::SubReg { x, y },
            0x6 => Instruction::ShiftRight { x, y },
            0x7 => Instruction::SubRev { x, y },
            0xE => Instruction::ShiftLeft { x, y },
            _ => Instruction::Unknown { op },
        },
        0x9 => {
            if n == 0 {
                Instruction::SkipNeReg { x, y }
            } else {
                Instruction::Unknown { op }
            }
        },
        0xA => Instruction::SetIndex { nnn },
        0xB => Instruction::JumpOffset { nnn },
        0xC => Instruction::Random { x, nn },
        0xD => Instruction::Draw { x, y, n },
        0xE => match nn {
            0x9E => Instruction::SkipKey { x },
            0xA1 => Instruction::SkipNoKey { x },
            _ => Instruction::Unknown { op },
        },
        _ => match nn {
            0x07 => Instruction::ReadDelay { x },
            0x0A => Instruction::WaitKey { x },
            0x15 => Instruction::SetDelay { x },
            0x18 => Instruction::SetSound { x },
            0x1E => Instruction::AddIndex { x },
            0x29 => Instruction::FontAddr { x },
            0x33 => Instruction::StoreBcd { x },
            0x55 => Instruction::StoreRegs { x },
            0x65 => Instruction::LoadRegs { x },
            _ => Instruction::Unknown { op },
        },
    }
}

} // verus!
