//! A CHIP-8 virtual machine: 4 KiB of memory, sixteen 8-bit registers, a
//! 16-bit index register, a call stack of sixteen return addresses, two
//! countdown timers, a 64 x 32 monochrome display and a 16-key keypad.
//!
//! `instruction` decodes opcodes, `semantics` states what each instruction,
//! tick and cycle does to the machine's model, `machine` runs them,
//! `draw` XORs sprites onto the display, `render` lists what a renderer
//! fills, `keypad` maps keyboard keys to keypad slots and `theorems`
//! proves laws that span several steps.
use vstd::prelude::*;

pub mod draw;
pub mod instruction;
pub mod keypad;
pub mod machine;
pub mod render;
pub mod semantics;
pub mod theorems;

verus! {

} // verus!
