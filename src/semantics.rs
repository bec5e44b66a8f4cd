//! What one instruction, one timer tick and one whole cycle do to the
//! machine's model.
use vstd::prelude::*;
use crate::draw::{collides, drawn};
use crate::instruction::{decode_spec, Instruction};
use crate::machine::{
    fetch_spec, mem_at, Chip8Error, MachineState, DISPLAY_SIZE, MEM_SIZE, NUM_KEYS, STACK_DEPTH,
};

verus! {

/// Index of the flag register VF.
pub const FLAG: usize = 15;

/// Bytes per font glyph.
pub const GLYPH_LEN: u16 = 5;

/// The fields of an instruction are in range: registers and `n` below 16,
/// addresses below 4096. Every decoded instruction is.
pub open spec fn instruction_wf(ins: Instruction) -> bool {
    match ins {
        Instruction::Jump { nnn } => nnn < MEM_SIZE,
        Instruction::Call { nnn } => nnn < MEM_SIZE,
        Instruction::SetIndex { nnn } => nnn < MEM_SIZE,
        Instruction::JumpOffset { nnn } => nnn < MEM_SIZE,
        Instruction::SkipEqImm { x, nn } => x < 16,
        Instruction::SkipNeImm { x, nn } => x < 16,
        Instruction::LoadImm { x, nn } => x < 16,
        Instruction::AddImm { x, nn } => x < 16,
        Instruction::Random { x, nn } => x < 16,
        Instruction::SkipEqReg { x, y } => x < 16 && y < 16,
        Instruction::Move { x, y } => x < 16 && y < 16,
        Instruction::Or { x, y } => x < 16 && y < 16,
        Instruction::And { x, y } => x < 16 && y < 16,
        Instruction::Xor { x, y } => x < 16 && y < 16,
        Instruction::AddReg { x, y } => x < 16 && y < 16,
        Instruction::SubReg { x, y } => x < 16 && y < 16,
        Instruction::ShiftRight { x, y } => x < 16 && y < 16,
        Instruction::SubRev { x, y } => x < 16 && y < 16,
        Instruction::ShiftLeft { x, y } => x < 16 && y < 16,
        Instruction::SkipNeReg { x, y } => x < 16 && y < 16,
        Instruction::Draw { x, y, n } => x < 16 && y < 16 && n < 16,
        Instruction::SkipKey { x } => x < 16,
        Instruction::SkipNoKey { x } => x < 16,
        Instruction::ReadDelay { x } => x < 16,
        Instruction::WaitKey { x } => x < 16,
        Instruction::SetDelay { x } => x < 16,
        Instruction::SetSound { x } => x < 16,
        Instruction::AddIndex { x } => x < 16,
        Instruction::FontAddr { x } => x < 16,
        Instruction::StoreBcd { x } => x < 16,
        Instruction::StoreRegs { x } => x < 16,
        Instruction::LoadRegs { x } => x < 16,
        _ => true,
    }
}

/// The address two bytes after `pc`, wrapping at the end of memory.
pub open spec fn pc_after(pc: u16) -> u16 {
    ((pc + 2) % MEM_SIZE as int) as u16
}

/// Whether key `k` exists and is held down.
pub open spec fn key_down(keypad: Seq<bool>, k: int) -> bool {
    0 <= k < NUM_KEYS && keypad[k]
}

/// Key `k` is held down and no key of a lower index is.
pub open spec fn is_lowest_pressed(keypad: Seq<bool>, k: int) -> bool {
    &&& key_down(keypad, k)
    &&& forall|j: int| 0 <= j < k ==> !#[trigger] keypad[j]
}

/// Whether any key is held down.
pub open spec fn any_key_down(keypad: Seq<bool>) -> bool {
    exists|k: int| #[trigger] key_down(keypad, k)
}

/// The lowest-indexed key held down, where one is.
pub open spec fn lowest_pressed(keypad: Seq<bool>) -> int {
    choose|k: int| is_lowest_pressed(keypad, k)
}

/// Memory after V0..=Vx is copied to addresses `index`, `index + 1`, ...
pub open spec fn stored_regs(mem: Seq<u8>, regs: Seq<u8>, index: u16, x: u8) -> Seq<u8> {
    Seq::new(
        mem.len(),
        |a: int|
            {
                let off = (a - index) % MEM_SIZE as int;
                if off <= x {
                    regs[off]
                } else {
                    mem[a]
                }
            },
    )
}

/// Registers after V0..=Vx are read from addresses `index`, `index + 1`, ...
pub open spec fn loaded_regs(regs: Seq<u8>, mem: Seq<u8>, index: u16, x: u8) -> Seq<u8> {
    Seq::new(regs.len(), |r: int| if r <= x { mem_at(mem, index + r) } else { regs[r] })
}

/// Memory after the three decimal digits of `v` are written at `index`,
/// hundreds first.
pub open spec fn stored_bcd(mem: Seq<u8>, index: u16, v: u8) -> Seq<u8> {
    mem.update(index as int % MEM_SIZE as int, v / 100).update(
        (index + 1) % MEM_SIZE as int,
        v / 10 % 10,
    ).update((index + 2) % MEM_SIZE as int, v % 10)
}

/// Sets register `x` to `v`.
pub open spec fn with_reg(s: MachineState, x: u8, v: u8) -> MachineState {
    MachineState { regs: s.regs.update(x as int, v), ..s }
}

/// Sets register `x` to `v` and then the flag register to `f`.
pub open spec fn with_reg_flag(s: MachineState, x: u8, v: u8, f: u8) -> MachineState {
    MachineState { regs: s.regs.update(x as int, v).update(FLAG as int, f), ..s }
}

/// Moves the program counter past the next instruction when `cond` holds.
pub open spec fn skip_if(s: MachineState, cond: bool) -> MachineState {
    if cond {
        MachineState { pc: pc_after(s.pc), ..s }
    } else {
        s
    }
}

/// The effect of `ins` on `s` once the program counter has been moved past
/// it (`s.pc` is the address of the following instruction). `rnd` is the
/// random byte that `Cxnn` masks.
pub open spec fn apply(s: MachineState, ins: Instruction, rnd: u8) -> Result<MachineState, Chip8Error> {
    let v = s.regs;
    match ins {
        Instruction::ClearScreen => Ok(
            MachineState { display: Seq::new(DISPLAY_SIZE as nat, |p: int| false), ..s },
        ),
        Instruction::Return => if s.stack.len() == 0 {
            Err(Chip8Error::StackUnderflow)
        } else {
            Ok(MachineState { pc: s.stack.last(), stack: s.stack.drop_last(), ..s })
        },
        Instruction::Jump { nnn } => Ok(MachineState { pc: nnn, ..s }),
        Instruction::Call { nnn } => if s.stack.len() >= STACK_DEPTH {
            Err(Chip8Error::StackOverflow)
        } else {
            Ok(MachineState { pc: nnn, stack: s.stack.push(s.pc), ..s })
        },
        Instruction::SkipEqImm { x, nn } => Ok(skip_if(s, v[x as int] == nn)),
        Instruction::SkipNeImm { x, nn } => Ok(skip_if(s, v[x as int] != nn)),
        Instruction::SkipEqReg { x, y } => Ok(skip_if(s, v[x as int] == v[y as int])),
        Instruction::LoadImm { x, nn } => Ok(with_reg(s, x, nn)),
        Instruction::AddImm { x, nn } => Ok(with_reg(s, x, ((v[x as int] + nn) % 256) as u8)),
        Instruction::Move { x, y } => Ok(with_reg(s, x, v[y as int])),
        Instruction::Or { x, y } => Ok(with_reg(s, x, v[x as int] | v[y as int])),
        Instruction::And { x, y } => Ok(with_reg(s, x, v[x as int] & v[y as int])),
        Instruction::Xor { x, y } => Ok(with_reg(s, x, v[x as int] ^ v[y as int])),
        Instruction::AddReg { x, y } => {
            let sum = v[x as int] + v[y as int];
            Ok(with_reg_flag(s, x, (sum % 256) as u8, if sum > 255 { 1 } else { 0 }))
        },
        Instruction::SubReg { x, y } => Ok(
            with_reg_flag(
                s,
                x,
                ((v[x as int] - v[y as int]) % 256) as u8,
                if v[x as int] < v[y as int] { 1 } else { 0 },
            ),
        ),
        Instruction::ShiftRight { x, y } => Ok(
            with_reg_flag(s, x, v[x as int] / 2, v[x as int] % 2),
        ),
        Instruction::SubRev { x, y } => Ok(
            with_reg_flag(
                s,
                x,
                ((v[y as int] - v[x as int]) % 256) as u8,
                if v[y as int] < v[x as int] { 1 } else { 0 },
            ),
        ),
        Instruction::ShiftLeft { x, y } => Ok(
            with_reg_flag(s, x, ((v[x as int] * 2) % 256) as u8, v[x as int] / 128),
        ),
        Instruction::SkipNeReg { x, y } => Ok(skip_if(s, v[x as int] != v[y as int])),
        Instruction::SetIndex { nnn } => Ok(MachineState { index: nnn, ..s }),
        Instruction::JumpOffset { nnn } => Ok(
            MachineState { pc: ((nnn + v[0]) % MEM_SIZE as int) as u16, ..s },
        ),
        Instruction::Random { x, nn } => Ok(with_reg(s, x, rnd & nn)),
        Instruction::Draw { x, y, n } => {
            let vx = v[x as int];
            let vy = v[y as int];
            let hit = collides(s.display, s.mem, s.index, vx, vy, n);
            Ok(
                MachineState {
                    display: drawn(s.display, s.mem, s.index, vx, vy, n),
                    regs: v.update(FLAG as int, if hit { 1 } else { 0 }),
                    ..s
                },
            )
        },
        Instruction::SkipKey { x } => Ok(skip_if(s, key_down(s.keypad, v[x as int] as int))),
        Instruction::SkipNoKey { x } => Ok(skip_if(s, !key_down(s.keypad, v[x as int] as int))),
        Instruction::ReadDelay { x } => Ok(with_reg(s, x, s.delay_timer)),
        Instruction::WaitKey { x } => if any_key_down(s.keypad) {
            Ok(with_reg(s, x, lowest_pressed(s.keypad) as u8))
        } else {
            Ok(MachineState { pc: ((s.pc + MEM_SIZE - 2) % MEM_SIZE as int) as u16, ..s })
        },
        Instruction::SetDelay { x } => Ok(MachineState { delay_timer: v[x as int], ..s }),
        Instruction::SetSound { x } => Ok(MachineState { sound_timer: v[x as int], ..s }),
        Instruction::AddIndex { x } => Ok(
            MachineState { index: ((s.index + v[x as int]) % 0x10000) as u16, ..s },
        ),
        Instruction::FontAddr { x } => Ok(
            MachineState { index: (v[x as int] * GLYPH_LEN) as u16, ..s },
        ),
        Instruction::StoreBcd { x } => Ok(
            MachineState { mem: stored_bcd(s.mem, s.index, v[x as int]), ..s },
        ),
        Instruction::StoreRegs { x } => Ok(
            MachineState { mem: stored_regs(s.mem, v, s.index, x), ..s },
        ),
        Instruction::LoadRegs { x } => Ok(
            MachineState { regs: loaded_regs(v, s.mem, s.index, x), ..s },
        ),
        Instruction::Unknown { op } => Ok(s),
    }
}

/// Executes `ins`, fetched at `s.pc`: the program counter first moves past
/// it, then the instruction takes effect.
pub open spec fn execute_spec(s: MachineState, ins: Instruction, rnd: u8) -> Result<MachineState, Chip8Error> {
    apply(MachineState { pc: pc_after(s.pc), ..s }, ins, rnd)
}

/// Counts both timers down by one, stopping at zero.
pub open spec fn tick_spec(s: MachineState) -> MachineState {
    MachineState {
        delay_timer: if s.delay_timer > 0 { (s.delay_timer - 1) as u8 } else { 0 },
        sound_timer: if s.sound_timer > 0 { (s.sound_timer - 1) as u8 } else { 0 },
        ..s
    }
}

/// Whether a tick from `s` sounds the beep: the sound timer runs out.
pub open spec fn beeps(s: MachineState) -> bool {
    s.sound_timer == 1
}

/// Whether executing `ins` may change the display.
pub open spec fn touches_display(ins: Instruction) -> bool {
    ins is ClearScreen || ins is Draw
}

/// One full cycle: fetch, decode, execute, then a timer tick. On an error the
/// machine is left as it was.
pub open spec fn cycle_spec(s: MachineState, rnd: u8) -> Result<MachineState, Chip8Error> {
    match execute_spec(s, decode_spec(fetch_spec(s)), rnd) {
        Ok(t) => Ok(tick_spec(t)),
        Err(e) => Err(e),
    }
}

/// Every decoded instruction has its fields in range.
pub proof fn lemma_decoded_wf(op: u16)
    ensures
        instruction_wf(decode_spec(op)),
{
}

impl Instruction {
    /// Whether executing this instruction may change the display.
    pub fn touches_display(&self) -> (r: bool)
        ensures
            r == touches_display(*self),
    {
        match self {
            Instruction::ClearScreen | Instruction::Draw { .. } => true,
            _ => false,
        }
    }
}

} // verus!
