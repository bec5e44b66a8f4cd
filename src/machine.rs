//! The virtual machine's state: memory, registers, call stack, timers,
//! display buffer and keypad.
use vstd::prelude::*;
use crate::draw::draw_sprite;
use crate::instruction::{decode, decode_spec, Instruction};
use crate::semantics::{
    any_key_down, apply, beeps, cycle_spec, execute_spec, tick_spec,
    touches_display, instruction_wf, is_lowest_pressed, loaded_regs,
    lowest_pressed, pc_after, stored_regs, FLAG, GLYPH_LEN,
};

verus! {

/// Bytes of addressable memory.
pub const MEM_SIZE: usize = 4096;

/// Address at which a program is loaded, and the first value of the program counter.
pub const PROGRAM_START: usize = 0x200;

/// Longest program that fits between `PROGRAM_START` and the end of memory.
pub const MAX_PROGRAM_LEN: usize = 3584;

/// Bytes of the built-in font: 16 glyphs of 5 bytes.
pub const FONT_LEN: usize = 80;

/// Number of general registers, and of call stack slots.
pub const NUM_REGS: usize = 16;

/// Deepest the call stack may grow.
pub const STACK_DEPTH: usize = 16;

/// Number of keys on the keypad.
pub const NUM_KEYS: usize = 16;

/// Width of the display in pixels.
pub const DISPLAY_WIDTH: usize = 64;

/// Height of the display in pixels.
pub const DISPLAY_HEIGHT: usize = 32;

/// Number of pixels of the display.
pub const DISPLAY_SIZE: usize = 2048;

/// Ways in which loading or running a program fails.
#[derive(Clone, Copy, Debug, PartialEq, Eq, Structural)]
pub enum Chip8Error {
    /// The program is longer than `MAX_PROGRAM_LEN` bytes.
    ProgramTooLarge,
    /// A call was made with all `STACK_DEPTH` stack slots in use.
    StackOverflow,
    /// A return was made with an empty call stack.
    StackUnderflow,
}

/// The mathematical model of the machine.
pub struct MachineState {
    /// 4096 bytes, index 0 the lowest address.
    pub mem: Seq<u8>,
    /// V0 to VF.
    pub regs: Seq<u8>,
    /// The index register I.
    pub index: u16,
    /// Address of the next instruction.
    pub pc: u16,
    /// Return addresses, the most recent last; its length is the stack pointer.
    pub stack: Seq<u16>,
    pub delay_timer: u8,
    pub sound_timer: u8,
    /// 64 x 32 pixels, row-major: pixel (x, y) at x + 64 * y.
    pub display: Seq<bool>,
    /// Key states, indexed 0x0 to 0xF.
    pub keypad: Seq<bool>,
}

impl MachineState {
    pub open spec fn wf(self) -> bool {
        &&& self.mem.len() == MEM_SIZE
        &&& self.regs.len() == NUM_REGS
        &&& self.stack.len() <= STACK_DEPTH
        &&& forall|i: int| 0 <= i < self.stack.len() ==> #[trigger] self.stack[i] < MEM_SIZE
        &&& self.pc < MEM_SIZE
        &&& self.display.len() == DISPLAY_SIZE
        &&& self.keypad.len() == NUM_KEYS
    }
}

/// Memory right after loading: the font at address 0, the program at
/// `PROGRAM_START`, zero elsewhere.
pub open spec fn loaded_memory(font: Seq<u8>, program: Seq<u8>) -> Seq<u8> {
    Seq::new(
        MEM_SIZE as nat,
        |a: int|
            if a < FONT_LEN {
                font[a]
            } else if PROGRAM_START <= a < PROGRAM_START + program.len() {
                program[a - PROGRAM_START]
            } else {
                0u8
            },
    )
}

/// The machine right after loading `program` with the font `font`.
pub open spec fn initial_state(font: Seq<u8>, program: Seq<u8>) -> MachineState {
    MachineState {
        mem: loaded_memory(font, program),
        regs: Seq::new(NUM_REGS as nat, |i: int| 0u8),
        index: 0,
        pc: PROGRAM_START as u16,
        stack: Seq::empty(),
        delay_timer: 0,
        sound_timer: 0,
        display: Seq::new(DISPLAY_SIZE as nat, |i: int| false),
        keypad: Seq::new(NUM_KEYS as nat, |i: int| false),
    }
}

/// The byte at `addr`, addresses wrapping at the end of memory.
pub open spec fn mem_at(mem: Seq<u8>, addr: int) -> u8 {
    mem[addr % MEM_SIZE as int]
}

/// The opcode at `pc`: two bytes, big-endian.
pub open spec fn fetch_spec(s: MachineState) -> u16 {
    (mem_at(s.mem, s.pc as int) as int * 0x100 + mem_at(s.mem, s.pc + 1) as int) as u16
}

/// The virtual machine.
pub struct Chip8 {
    mem: Vec<u8>,
    regs: Vec<u8>,
    index: u16,
    pc: u16,
    stack: Vec<u16>,
    delay_timer: u8,
    sound_timer: u8,
    display: Vec<bool>,
    keypad: Vec<bool>,
}

impl View for Chip8 {
    type V = MachineState;

    closed spec fn view(&self) -> MachineState {
        MachineState {
            mem: self.mem@,
            regs: self.regs@,
            index: self.index,
            pc: self.pc,
            stack: self.stack@,
            delay_timer: self.delay_timer,
            sound_timer: self.sound_timer,
            display: self.display@,
            keypad: self.keypad@,
        }
    }
}

/// A vector of `len` copies of `v`.
fn filled<T: Copy>(v: T, len: usize) -> (r: Vec<T>)
    ensures
        r@ == Seq::new(len as nat, |i: int| v),
{
    let mut r: Vec<T> = Vec::new();
    let mut i: usize = 0;
    while i < len
        invariant
            i <= len,
            r@ == Seq::new(i as nat, |k: int| v),
        decreases len - i,
    {
        r.push(v);
        i += 1;
        assert(r@ =~= Seq::new(i as nat, |k: int| v));
    }
    r
}

/// Builds a machine with `fontset` at address 0 and `program` at
/// `PROGRAM_START`; registers, timers, stack, display and keypad start
/// cleared and the program counter at `PROGRAM_START`. Fails with
/// `ProgramTooLarge` exactly when the program is longer than `MAX_PROGRAM_LEN`.
pub fn init(fontset: &[u8; 80], program: Vec<u8>) -> (r: Result<Chip8, Chip8Error>)
    ensures
        program@.len() <= MAX_PROGRAM_LEN ==> (r matches Ok(m) && m@ == initial_state(
            fontset@,
            program@,
        )),
        program@.len() > MAX_PROGRAM_LEN ==> r == Err::<Chip8, Chip8Error>(
            Chip8Error::ProgramTooLarge,
        ),
{
    if program.len() > MAX_PROGRAM_LEN {
        return Err(Chip8Error::ProgramTooLarge);
    }
    let mut mem: Vec<u8> = Vec::new();
    let ghost want = loaded_memory(fontset@, program@);
    let mut a: usize = 0;
    while a < MEM_SIZE
        invariant
            a <= MEM_SIZE,
            program@.len() <= MAX_PROGRAM_LEN,
            fontset@.len() == FONT_LEN,
            want == loaded_memory(fontset@, program@),
            mem@ == want.subrange(0, a as int),
        decreases MEM_SIZE - a,
    {
        let b: u8 = if a < FONT_LEN {
            fontset[a]
        } else if PROGRAM_START <= a && a < PROGRAM_START + program.len() {
            program[a - PROGRAM_START]
        } else {
            0
        };
        mem.push(b);
        a += 1;
        assert(mem@ =~= want.subrange(0, a as int));
    }
    assert(mem@ =~= want);
    let m = Chip8 {
        mem,
        regs: filled(0u8, NUM_REGS),
        index: 0,
        pc: PROGRAM_START as u16,
        stack: Vec::new(),
        delay_timer: 0,
        sound_timer: 0,
        display: filled(false, DISPLAY_SIZE),
        keypad: filled(false, NUM_KEYS),
    };
    assert(m@.stack =~= Seq::<u16>::empty());
    Ok(m)
}

impl Chip8 {
    pub open spec fn wf(&self) -> bool {
        self@.wf()
    }

    /// Reads the opcode at the program counter: the byte there is its high
    /// half, the next one its low half.
    pub fn fetch(&self) -> (r: u16)
        requires
            self.wf(),
        ensures
            r == fetch_spec(self@),
    {
        let hi = self.mem[self.pc as usize] as u16;
        let lo = self.mem[(self.pc as usize + 1) % MEM_SIZE] as u16;
        hi * 0x100 + lo
    }
}

/// Copies `regs[0..=x]` to memory from `index` on, wrapping at the end of memory.
fn store_regs(mem: &mut Vec<u8>, regs: &Vec<u8>, index: u16, x: u8)
    requires
        old(mem)@.len() == MEM_SIZE,
        regs@.len() == NUM_REGS,
        x < 16,
    ensures
        final(mem)@ == stored_regs(old(mem)@, regs@, index, x),
{
    let ghost m0 = mem@;
    let mut i: u8 = 0;
    while i <= x
        invariant
            i <= x + 1,
            x < 16,
            m0.len() == MEM_SIZE,
            regs@.len() == NUM_REGS,
            mem@ == Seq::new(
                MEM_SIZE as nat,
                |a: int|
                    {
                        let off = (a - index) % MEM_SIZE as int;
                        if off < i {
                            regs@[off]
                        } else {
                            m0[a]
                        }
                    },
            ),
        decreases x + 1 - i,
    {
        let a0 = (index as usize + i as usize) % MEM_SIZE;
        mem.set(a0, regs[i as usize]);
        proof {
            assert forall|a: int| 0 <= a < MEM_SIZE implies #[trigger] mem@[a] == ({
                let off = (a - index) % MEM_SIZE as int;
                if off <= i {
                    regs@[off]
                } else {
                    m0[a]
                }
            }) by {
                if (a - index) % 4096 == i {
                    assert(a == (index + i) % 4096);
                }
                if a == a0 {
                    assert((a - index) % 4096 == i);
                }
            }
        }
        i += 1;
        assert(mem@ =~= Seq::new(
            MEM_SIZE as nat,
            |a: int|
                {
                    let off = (a - index) % MEM_SIZE as int;
                    if off < i {
                        regs@[off]
                    } else {
                        m0[a]
                    }
                },
        ));
    }
    assert(mem@ =~= stored_regs(m0, regs@, index, x));
}

/// Reads `regs[0..=x]` from memory from `index` on, wrapping at the end of memory.
fn load_regs(regs: &mut Vec<u8>, mem: &Vec<u8>, index: u16, x: u8)
    requires
        old(regs)@.len() == NUM_REGS,
        mem@.len() == MEM_SIZE,
        x < 16,
    ensures
        final(regs)@ == loaded_regs(old(regs)@, mem@, index, x),
{
    let ghost r0 = regs@;
    let mut i: u8 = 0;
    while i <= x
        invariant
            i <= x + 1,
            x < 16,
            r0.len() == NUM_REGS,
            mem@.len() == MEM_SIZE,
            regs@ == Seq::new(
                NUM_REGS as nat,
                |r: int| if r < i { mem_at(mem@, index + r) } else { r0[r] },
            ),
        decreases x + 1 - i,
    {
        let b = mem[(index as usize + i as usize) % MEM_SIZE];
        regs.set(i as usize, b);
        i += 1;
        assert(regs@ =~= Seq::new(
            NUM_REGS as nat,
            |r: int| if r < i { mem_at(mem@, index + r) } else { r0[r] },
        ));
    }
    assert(regs@ =~= loaded_regs(r0, mem@, index, x));
}

/// The lowest-indexed key held down, if any.
fn first_pressed(keypad: &Vec<bool>) -> (r: Option<u8>)
    requires
        keypad@.len() == NUM_KEYS,
    ensures
        r is None <==> !any_key_down(keypad@),
        r matches Some(k) ==> k == lowest_pressed(keypad@),
{
    let mut i: usize = 0;
    while i < NUM_KEYS
        invariant
            i <= NUM_KEYS,
            keypad@.len() == NUM_KEYS,
            forall|j: int| 0 <= j < i ==> !#[trigger] keypad@[j],
        decreases NUM_KEYS - i,
    {
        if keypad[i] {
            proof {
                assert(is_lowest_pressed(keypad@, i as int));
                let k = lowest_pressed(keypad@);
                assert(is_lowest_pressed(keypad@, k));
                assert(k == i) by {
                    if k < i {
                        assert(!keypad@[k]);
                    } else if k > i {
                        assert(!keypad@[i as int]);
                    }
                }
            }
            return Some(i as u8);
        }
        i += 1;
    }
    None
}

/// `r` and `after` are what `want`, the specified outcome from `before`, says:
/// the new state on success, the old state and the same error on failure.
pub open spec fn follows(
    r: Result<(), Chip8Error>,
    before: MachineState,
    after: MachineState,
    want: Result<MachineState, Chip8Error>,
) -> bool {
    match want {
        Ok(t) => r is Ok && after == t,
        Err(e) => r == Err::<(), Chip8Error>(e) && after == before,
    }
}

impl Chip8 {
    /// Executes one instruction fetched at the program counter: the program
    /// counter moves past it first, then the instruction takes effect. `rnd`
    /// is the random byte that `Cxnn` masks. On a call with a full stack or a
    /// return with an empty one the machine is left unchanged.
    pub fn execute(&mut self, ins: Instruction, rnd: u8) -> (r: Result<(), Chip8Error>)
        requires
            old(self).wf(),
            instruction_wf(ins),
        ensures
            final(self).wf(),
            follows(r, old(self)@, final(self)@, execute_spec(old(self)@, ins, rnd)),
    {
        let here = self.pc;
        self.skip();
        let r = match ins {
            Instruction::ClearScreen
            | Instruction::Return
            | Instruction::Jump { .. }
            | Instruction::Call { .. }
            | Instruction::JumpOffset { .. }
            | Instruction::WaitKey { .. }
            | Instruction::Unknown { .. } => self.exec_control(ins),
            Instruction::SkipEqImm { .. }
            | Instruction::SkipNeImm { .. }
            | Instruction::SkipEqReg { .. }
            | Instruction::SkipNeReg { .. }
            | Instruction::SkipKey { .. }
            | Instruction::SkipNoKey { .. } => {
                self.exec_skip(ins);
                Ok(())
            },
            Instruction::LoadImm { .. }
            | Instruction::AddImm { .. }
            | Instruction::Move { .. }
            | Instruction::Or { .. }
            | Instruction::And { .. }
            | Instruction::Xor { .. }
            | Instruction::Random { .. } => {
                self.exec_arith(ins, rnd);
                Ok(())
            },
            Instruction::AddReg { .. }
            | Instruction::SubReg { .. }
            | Instruction::ShiftRight { .. }
            | Instruction::SubRev { .. }
            | Instruction::ShiftLeft { .. } => {
                self.exec_flagged(ins);
                Ok(())
            },
            _ => {
                self.exec_memory(ins);
                Ok(())
            },
        };
        if r.is_err() {
            self.pc = here;
        }
        r
    }

    /// Control flow: clear, return, jumps, call, wait for a key, unknown opcodes.
    fn exec_control(&mut self, ins: Instruction) -> (r: Result<(), Chip8Error>)
        requires
            old(self).wf(),
            instruction_wf(ins),
            ins is ClearScreen || ins is Return || ins is Jump || ins is Call || ins is JumpOffset
                || ins is WaitKey || ins is Unknown,
        ensures
            final(self).wf(),
            follows(r, old(self)@, final(self)@, apply(old(self)@, ins, 0)),
    {
        match ins {
            Instruction::ClearScreen => {
                self.display = filled(false, DISPLAY_SIZE);
            },
            Instruction::Return => {
                if self.stack.len() == 0 {
                    return Err(Chip8Error::StackUnderflow);
                }
                let a = self.stack.pop().unwrap();
                self.pc = a;
            },
            Instruction::Jump { nnn } => {
                self.pc = nnn;
            },
            Instruction::Call { nnn } => {
                if self.stack.len() >= STACK_DEPTH {
                    return Err(Chip8Error::StackOverflow);
                }
                self.stack.push(self.pc);
                self.pc = nnn;
            },
            Instruction::JumpOffset { nnn } => {
                self.pc = ((nnn as usize + self.regs[0] as usize) % MEM_SIZE) as u16;
            },
            Instruction::WaitKey { x } => {
                match first_pressed(&self.keypad) {
                    Some(k) => {
                        self.regs.set(x as usize, k);
                    },
                    None => {
                        self.pc = ((self.pc as usize + MEM_SIZE - 2) % MEM_SIZE) as u16;
                    },
                }
            },
            _ => {},
        }
        Ok(())
    }

    /// The conditional skips.
    fn exec_skip(&mut self, ins: Instruction)
        requires
            old(self).wf(),
            instruction_wf(ins),
            ins is SkipEqImm || ins is SkipNeImm || ins is SkipEqReg || ins is SkipNeReg
                || ins is SkipKey || ins is SkipNoKey,
        ensures
            final(self).wf(),
            apply(old(self)@, ins, 0) == Ok::<MachineState, Chip8Error>(final(self)@),
    {
        let cond = match ins {
            Instruction::SkipEqImm { x, nn } => self.regs[x as usize] == nn,
            Instruction::SkipNeImm { x, nn } => self.regs[x as usize] != nn,
            Instruction::SkipEqReg { x, y } => self.regs[x as usize] == self.regs[y as usize],
            Instruction::SkipNeReg { x, y } => self.regs[x as usize] != self.regs[y as usize],
            Instruction::SkipKey { x } => {
                let k = self.regs[x as usize] as usize;
                k < NUM_KEYS && self.keypad[k]
            },
            Instruction::SkipNoKey { x } => {
                let k = self.regs[x as usize] as usize;
                !(k < NUM_KEYS && self.keypad[k])
            },
            _ => false,
        };
        if cond {
            self.skip();
        }
    }

    /// Register loads and arithmetic that leave the flag register alone.
    fn exec_arith(&mut self, ins: Instruction, rnd: u8)
        requires
            old(self).wf(),
            instruction_wf(ins),
            ins is LoadImm || ins is AddImm || ins is Move || ins is Or || ins is And || ins is Xor
                || ins is Random,
        ensures
            final(self).wf(),
            apply(old(self)@, ins, rnd) == Ok::<MachineState, Chip8Error>(final(self)@),
    {
        let (x, v) = match ins {
            Instruction::LoadImm { x, nn } => (x, nn),
            Instruction::AddImm { x, nn } => (x, self.regs[x as usize].wrapping_add(nn)),
            Instruction::Move { x, y } => (x, self.regs[y as usize]),
            Instruction::Or { x, y } => (x, self.regs[x as usize] | self.regs[y as usize]),
            Instruction::And { x, y } => (x, self.regs[x as usize] & self.regs[y as usize]),
            Instruction::Xor { x, y } => (x, self.regs[x as usize] ^ self.regs[y as usize]),
            Instruction::Random { x, nn } => (x, rnd & nn),
            _ => (0, self.regs[0]),
        };
        self.regs.set(x as usize, v);
    }

    /// Arithmetic that reports through the flag register: the result goes to
    /// Vx first and the flag to VF last.
    fn exec_flagged(&mut self, ins: Instruction)
        requires
            old(self).wf(),
            instruction_wf(ins),
            ins is AddReg || ins is SubReg || ins is ShiftRight || ins is SubRev || ins is ShiftLeft,
        ensures
            final(self).wf(),
            apply(old(self)@, ins, 0) == Ok::<MachineState, Chip8Error>(final(self)@),
    {
        let (x, v, f) = match ins {
            Instruction::AddReg { x, y } => {
                let (vx, vy) = (self.regs[x as usize], self.regs[y as usize]);
                (x, vx.wrapping_add(vy), if vx as u16 + vy as u16 > 255 { 1u8 } else { 0u8 })
            },
            Instruction::SubReg { x, y } => {
                let (vx, vy) = (self.regs[x as usize], self.regs[y as usize]);
                (x, vx.wrapping_sub(vy), if vx < vy { 1u8 } else { 0u8 })
            },
            Instruction::ShiftRight { x, .. } => {
                let vx = self.regs[x as usize];
                (x, vx / 2, vx % 2)
            },
            Instruction::SubRev { x, y } => {
                let (vx, vy) = (self.regs[x as usize], self.regs[y as usize]);
                (x, vy.wrapping_sub(vx), if vy < vx { 1u8 } else { 0u8 })
            },
            Instruction::ShiftLeft { x, .. } => {
                let vx = self.regs[x as usize];
                (x, vx.wrapping_mul(2), vx / 128)
            },
            _ => (0, self.regs[0], self.regs[FLAG]),
        };
        self.regs.set(x as usize, v);
        self.regs.set(FLAG, f);
    }

    /// Index register, timers, memory transfers and drawing.
    fn exec_memory(&mut self, ins: Instruction)
        requires
            old(self).wf(),
            instruction_wf(ins),
            ins is SetIndex || ins is Draw || ins is ReadDelay || ins is SetDelay || ins is SetSound
                || ins is AddIndex || ins is FontAddr || ins is StoreBcd || ins is StoreRegs
                || ins is LoadRegs,
        ensures
            final(self).wf(),
            apply(old(self)@, ins, 0) == Ok::<MachineState, Chip8Error>(final(self)@),
    {
        match ins {
            Instruction::SetIndex { nnn } => {
                self.index = nnn;
            },
            Instruction::Draw { x, y, n } => {
                let (vx, vy) = (self.regs[x as usize], self.regs[y as usize]);
                let hit = draw_sprite(&mut self.display, &self.mem, self.index, vx, vy, n);
                self.regs.set(FLAG, if hit { 1 } else { 0 });
            },
            Instruction::ReadDelay { x } => {
                self.regs.set(x as usize, self.delay_timer);
            },
            Instruction::SetDelay { x } => {
                self.delay_timer = self.regs[x as usize];
            },
            Instruction::SetSound { x } => {
                self.sound_timer = self.regs[x as usize];
            },
            Instruction::AddIndex { x } => {
                self.index = self.index.wrapping_add(self.regs[x as usize] as u16);
            },
            Instruction::FontAddr { x } => {
                self.index = self.regs[x as usize] as u16 * GLYPH_LEN;
            },
            Instruction::StoreBcd { x } => {
                let v = self.regs[x as usize];
                let i = self.index as usize;
                self.mem.set(i % MEM_SIZE, v / 100);
                self.mem.set((i + 1) % MEM_SIZE, v / 10 % 10);
                self.mem.set((i + 2) % MEM_SIZE, v % 10);
            },
            Instruction::StoreRegs { x } => {
                store_regs(&mut self.mem, &self.regs, self.index, x);
            },
            Instruction::LoadRegs { x } => {
                load_regs(&mut self.regs, &self.mem, self.index, x);
            },
            _ => {},
        }
    }

    /// Moves the program counter past one instruction.
    fn skip(&mut self)
        requires
            old(self).wf(),
        ensures
            final(self).wf(),
            final(self)@ == (MachineState { pc: pc_after(old(self).pc), ..old(self)@ }),
    {
        self.pc = ((self.pc as usize + 2) % MEM_SIZE) as u16;
    }
}

/// What one cycle reports to the driver.
#[derive(Clone, Copy, Debug, PartialEq, Eq, Structural)]
pub struct CycleReport {
    /// The instruction that was executed.
    pub instruction: Instruction,
    /// Whether the display may have changed, so that it is worth presenting.
    pub redraw: bool,
    /// Whether the sound timer ran out on this cycle's tick.
    pub beep: bool,
}

/// The report of a cycle from `s` with random byte `rnd`.
pub open spec fn report_spec(s: MachineState, rnd: u8) -> CycleReport {
    let ins = decode_spec(fetch_spec(s));
    CycleReport {
        instruction: ins,
        redraw: touches_display(ins),
        beep: execute_spec(s, ins, rnd) matches Ok(t) && beeps(t),
    }
}

/// `r` and `after` are the outcome of one cycle from `before` with random byte `rnd`.
pub open spec fn cycled(
    before: MachineState,
    after: MachineState,
    r: Result<CycleReport, Chip8Error>,
    rnd: u8,
) -> bool {
    match cycle_spec(before, rnd) {
        Ok(t) => r == Ok::<CycleReport, Chip8Error>(report_spec(before, rnd)) && after == t,
        Err(e) => r == Err::<CycleReport, Chip8Error>(e) && after == before,
    }
}

/// Relies on `rand::random::<u8>`: a byte drawn from the thread-local
/// generator; every value of `u8` may come back.
#[verifier::external_body]
fn random_byte() -> (r: u8) {
    rand::random::<u8>()
}

impl Chip8 {
    /// Counts both timers down by one, stopping at zero; returns whether the
    /// sound timer ran out, which is when the beep sounds.
    pub fn tick_timers(&mut self) -> (beep: bool)
        requires
            old(self).wf(),
        ensures
            final(self).wf(),
            final(self)@ == tick_spec(old(self)@),
            beep == beeps(old(self)@),
    {
        if self.delay_timer > 0 {
            self.delay_timer = self.delay_timer - 1;
        }
        let beep = self.sound_timer == 1;
        if self.sound_timer > 0 {
            self.sound_timer = self.sound_timer - 1;
        }
        beep
    }

    /// One cycle with a given random byte for `Cxnn`: fetch, decode and
    /// execute the instruction at the program counter, then tick the timers.
    /// On an error the machine is left unchanged.
    pub fn cycle_with(&mut self, rnd: u8) -> (r: Result<CycleReport, Chip8Error>)
        requires
            old(self).wf(),
        ensures
            final(self).wf(),
            cycled(old(self)@, final(self)@, r, rnd),
    {
        let op = self.fetch();
        let ins = decode(op);
        proof {
            crate::semantics::lemma_decoded_wf(op);
        }
        match self.execute(ins, rnd) {
            Ok(()) => {
                let beep = self.tick_timers();
                Ok(CycleReport { instruction: ins, redraw: ins.touches_display(), beep })
            },
            Err(e) => Err(e),
        }
    }

    /// One cycle of the machine, with a fresh random byte for `Cxnn`.
    pub fn emu_cycle(&mut self) -> (r: Result<CycleReport, Chip8Error>)
        requires
            old(self).wf(),
        ensures
            final(self).wf(),
            exists|rnd: u8| cycled(old(self)@, final(self)@, r, rnd),
    {
        let rnd = random_byte();
        self.cycle_with(rnd)
    }

    /// Sets key `key` as held down or released.
    pub fn set_key(&mut self, key: u8, pressed: bool)
        requires
            old(self).wf(),
            key < NUM_KEYS,
        ensures
            final(self).wf(),
            final(self)@ == (MachineState {
                keypad: old(self)@.keypad.update(key as int, pressed),
                ..old(self)@
            }),
    {
        self.keypad.set(key as usize, pressed);
    }

    /// Register V`i`.
    pub fn reg(&self, i: u8) -> (r: u8)
        requires
            self.wf(),
            i < NUM_REGS,
        ensures
            r == self@.regs[i as int],
    {
        self.regs[i as usize]
    }

    /// The index register I.
    pub fn index(&self) -> (r: u16)
        ensures
            r == self@.index,
    {
        self.index
    }

    /// The program counter.
    pub fn pc(&self) -> (r: u16)
        ensures
            r == self@.pc,
    {
        self.pc
    }

    /// The stack pointer: how many return addresses are on the call stack.
    pub fn sp(&self) -> (r: usize)
        ensures
            r == self@.stack.len(),
    {
        self.stack.len()
    }

    pub fn delay_timer(&self) -> (r: u8)
        ensures
            r == self@.delay_timer,
    {
        self.delay_timer
    }

    pub fn sound_timer(&self) -> (r: u8)
        ensures
            r == self@.sound_timer,
    {
        self.sound_timer
    }

    /// The byte at `addr`.
    pub fn memory(&self, addr: u16) -> (r: u8)
        requires
            self.wf(),
            addr < MEM_SIZE,
        ensures
            r == self@.mem[addr as int],
    {
        self.mem[addr as usize]
    }

    /// Whether pixel (`x`, `y`) is lit.
    pub fn pixel(&self, x: u8, y: u8) -> (r: bool)
        requires
            self.wf(),
            x < DISPLAY_WIDTH,
            y < DISPLAY_HEIGHT,
        ensures
            r == self@.display[x + y * DISPLAY_WIDTH],
    {
        self.display[x as usize + y as usize * DISPLAY_WIDTH]
    }

    /// The display buffer, read-only: pixel (x, y) at x + 64 * y.
    pub fn display(&self) -> (r: &Vec<bool>)
        ensures
            r@ == self@.display,
    {
        &self.display
    }

    /// Whether key `key` is held down.
    pub fn key(&self, key: u8) -> (r: bool)
        requires
            self.wf(),
            key < NUM_KEYS,
        ensures
            r == self@.keypad[key as int],
    {
        self.keypad[key as usize]
    }
}

} // verus!
