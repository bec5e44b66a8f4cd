//! Laws that relate several instructions, cycles or ticks.
use vstd::prelude::*;
use crate::draw::{lemma_draw_twice, sprite_hits};
use crate::instruction::{decode_spec, encode, lemma_decode_encode, Instruction};
use crate::machine::{
    fetch_spec, initial_state, mem_at, Chip8Error, MachineState, DISPLAY_SIZE, MEM_SIZE,
    PROGRAM_START,
};
use crate::semantics::{
    any_key_down, cycle_spec, execute_spec, is_lowest_pressed, lowest_pressed, pc_after,
    loaded_regs, stored_regs, tick_spec, FLAG,
};

verus! {

/// Decoding the opcode fetched at the program counter gives back, bit for
/// bit, the two bytes stored there, high byte first.
pub proof fn lemma_fetch_decode(s: MachineState)
    requires
        s.wf(),
    ensures
        encode(decode_spec(fetch_spec(s))) == mem_at(s.mem, s.pc as int) * 0x100 + mem_at(
            s.mem,
            s.pc + 1,
        ),
{
    lemma_decode_encode(fetch_spec(s));
}

/// Right after loading, the first opcode decodes to the first two bytes of
/// the program.
pub proof fn lemma_first_opcode(font: Seq<u8>, program: Seq<u8>)
    requires
        font.len() == 80,
        2 <= program.len() <= 3584,
    ensures
        encode(decode_spec(fetch_spec(initial_state(font, program)))) == program[0] * 0x100
            + program[1],
{
    let s = initial_state(font, program);
    lemma_decode_encode(fetch_spec(s));
    assert(s.mem[PROGRAM_START as int] == program[0]);
    assert(s.mem[PROGRAM_START + 1] == program[1]);
}

/// `00E0` leaves every pixel dark, whatever the display held.
pub proof fn lemma_clear_screen(s: MachineState, rnd: u8)
    requires
        s.wf(),
    ensures
        execute_spec(s, Instruction::ClearScreen, rnd) matches Ok(t) && t.display.len()
            == DISPLAY_SIZE && forall|p: int| 0 <= p < DISPLAY_SIZE ==> !#[trigger] t.display[p],
{
}

/// Executing the same `Dxyn` twice, with neither coordinate held in VF,
/// leaves the display as it was; the second draw sets VF exactly when the
/// sprite covers a pixel that was dark before the first.
pub proof fn lemma_draw_twice_restores(s: MachineState, x: u8, y: u8, n: u8, rnd: u8)
    requires
        s.wf(),
        x < FLAG,
        y < FLAG,
        n < 16,
    ensures
        ({
            let ins = Instruction::Draw { x, y, n };
            let vx = s.regs[x as int];
            let vy = s.regs[y as int];
            execute_spec(s, ins, rnd) matches Ok(t1) && execute_spec(t1, ins, rnd) matches Ok(t2)
                && t2.display == s.display && (t2.regs[FLAG as int] == 1 <==> exists|p: int|
                0 <= p < DISPLAY_SIZE && #[trigger] sprite_hits(s.mem, s.index, vx, vy, n, p)
                && !s.display[p]) && (t2.regs[FLAG as int] == 0 || t2.regs[FLAG as int] == 1)
        }),
{
    lemma_draw_twice(s.display, s.mem, s.index, s.regs[x as int], s.regs[y as int], n);
}

/// `Fx0A` as a whole cycle: with no key down the program counter stays on
/// it and the registers are untouched; with a key down, Vx receives the
/// lowest one held and the program counter moves on by two.
pub proof fn lemma_wait_key(s: MachineState, x: u8, rnd: u8)
    requires
        s.wf(),
        decode_spec(fetch_spec(s)) == (Instruction::WaitKey { x }),
    ensures
        cycle_spec(s, rnd) matches Ok(t) && (!any_key_down(s.keypad) ==> t.pc == s.pc && t.regs
            == s.regs) && (any_key_down(s.keypad) ==> t.pc == pc_after(s.pc) && t.regs == s.regs.update(
            x as int,
            lowest_pressed(s.keypad) as u8,
        )) && (forall|k: int| is_lowest_pressed(s.keypad, k) ==> t.regs[x as int] == k),
{
    assert forall|k: int| is_lowest_pressed(s.keypad, k) implies lowest_pressed(s.keypad) == k by {
        let c = lowest_pressed(s.keypad);
        assert(is_lowest_pressed(s.keypad, c));
        if c < k {
            assert(!s.keypad[c]);
        } else if c > k {
            assert(!s.keypad[k]);
        }
    }
    assert forall|k: int| is_lowest_pressed(s.keypad, k) implies any_key_down(s.keypad) by {
        assert(crate::semantics::key_down(s.keypad, k));
    }
}

/// The machine after `k` timer ticks.
pub open spec fn ticks(s: MachineState, k: nat) -> MachineState
    decreases k,
{
    if k == 0 {
        s
    } else {
        tick_spec(ticks(s, (k - 1) as nat))
    }
}

/// Each timer counts down by one per tick and then stays at zero: after `k`
/// ticks it holds its old value less `k`, or zero.
pub proof fn lemma_timers_count_down(s: MachineState, k: nat)
    ensures
        ticks(s, k).delay_timer == (if s.delay_timer > k { s.delay_timer - k } else { 0 }),
        ticks(s, k).sound_timer == (if s.sound_timer > k { s.sound_timer - k } else { 0 }),
        ticks(s, k).regs == s.regs,
        ticks(s, k).mem == s.mem,
        ticks(s, k).pc == s.pc,
    decreases k,
{
    if k > 0 {
        lemma_timers_count_down(s, (k - 1) as nat);
    }
}

/// Reading back from `index` on what was stored from `index` on.
proof fn lemma_stored_then_read(mem: Seq<u8>, regs: Seq<u8>, index: u16, x: u8, i: int)
    requires
        mem.len() == MEM_SIZE,
        0 <= i <= x < 16,
    ensures
        mem_at(stored_regs(mem, regs, index, x), index + i) == regs[i],
{
    let a = (index + i) % 4096;
    assert((a - index) % 4096 == i);
}

/// `Fx55` then `Fx65` with the same index register give back V0..=Vx,
/// whatever happened to the registers in between.
pub proof fn lemma_store_load_round_trip(s: MachineState, x: u8, between: MachineState, rnd: u8)
    requires
        s.wf(),
        x < 16,
        execute_spec(s, Instruction::StoreRegs { x }, rnd) matches Ok(t) && between.mem == t.mem,
        between.wf(),
        between.index == s.index,
    ensures
        execute_spec(between, Instruction::LoadRegs { x }, rnd) matches Ok(u) && forall|i: int|
            0 <= i <= x ==> #[trigger] u.regs[i] == s.regs[i],
{
    assert(between.mem == stored_regs(s.mem, s.regs, s.index, x));
    let u = MachineState {
        pc: pc_after(between.pc),
        regs: loaded_regs(between.regs, between.mem, between.index, x),
        ..between
    };
    assert(execute_spec(between, Instruction::LoadRegs { x }, rnd) == Ok::<MachineState, Chip8Error>(u));
    assert forall|i: int| 0 <= i <= x implies #[trigger] u.regs[i] == s.regs[i] by {
        lemma_stored_then_read(s.mem, s.regs, s.index, x, i);
    }
}

} // verus!
