//! A CHIP-8 virtual machine: the processor with its memory, registers, call
//! stack, timers, key latch and frame buffer, and the small state machines of
//! the host that drives it.

pub mod audio;
pub mod cartridge_reader;
pub mod clock;
pub mod emulator;
pub mod error;
pub mod instruction;
pub mod keypad;
pub mod processor;
pub mod random;
pub mod state;

use vstd::prelude::*;

verus! {

/// Frame buffer width in pixels.
pub const WIDTH: usize = 64;

/// Frame buffer height in pixels.
pub const HEIGHT: usize = 32;

/// Size of the addressable memory in bytes.
pub const RAM: usize = 4096;

/// Address at which a program image is loaded and where execution starts.
pub const PROGRAM_START: usize = 0x200;

/// Length of one timer period in microseconds (timers count down at 60 Hz).
pub const TIMER_RATE: u64 = 16666;

/// The built-in font: sixteen glyphs of five bytes, one for each hex digit,
/// each byte one row of the glyph in its high four bits.
pub const CHIP8_FONT: [u8; 80] = [
    0xF0, 0x90, 0x90, 0x90, 0xF0,
    0x20, 0x60, 0x20, 0x20, 0x70,
    0xF0, 0x10, 0xF0, 0x80, 0xF0,
    0xF0, 0x10, 0xF0, 0x10, 0xF0,
    0x90, 0x90, 0xF0, 0x10, 0x10,
    0xF0, 0x80, 0xF0, 0x10, 0xF0,
    0xF0, 0x80, 0xF0, 0x90, 0xF0,
    0xF0, 0x10, 0x20, 0x40, 0x40,
    0xF0, 0x90, 0xF0, 0x90, 0xF0,
    0xF0, 0x90, 0xF0, 0x10, 0xF0,
    0xF0, 0x90, 0xF0, 0x90, 0x90,
    0xE0, 0x90, 0xE0, 0x90, 0xE0,
    0xF0, 0x80, 0x80, 0x80, 0xF0,
    0xE0, 0x90, 0x90, 0x90, 0xE0,
    0xF0, 0x80, 0xF0, 0x80, 0xF0,
    0xF0, 0x80, 0xF0, 0x80, 0x80,
];

} // verus!
