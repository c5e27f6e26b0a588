//! The processor: fetch, decode and execute, one instruction per call.

use crate::cartridge_reader::Cartridge;
use crate::error::CpuError;
use crate::instruction::decode;
use crate::instruction::decode_spec;
use crate::random::random_byte;
use crate::state::blank_screen;
use crate::state::initial_memory;
use crate::state::is_lowest_key;
use crate::state::lemma_draw_ends;
use crate::state::lemma_draw_keeps_pixels_binary;
use crate::state::lemma_draw_one_bit;
use crate::state::lemma_draw_row_done;
use crate::state::CpuState;
use crate::CHIP8_FONT;
use crate::HEIGHT;
use crate::PROGRAM_START;
use crate::RAM;
use crate::TIMER_RATE;
use crate::WIDTH;
use std::time::Instant;
use vstd::prelude::*;

verus! {

/// The machine. Its fields are open to the host, which may set up any state;
/// the instructions keep a well-formed machine well formed.
#[derive(Debug)]
pub struct Cpu {
    /// The addressable memory: the font table from address 0, the program
    /// from `PROGRAM_START`.
    pub memory: [u8; RAM],
    /// The registers `V0` to `VF`. `VF` takes the carry, borrow, shift and
    /// collision flags.
    pub register: [u8; 16],
    /// The address of the next instruction.
    pub program_counter: usize,
    /// The addresses of the calls that have not returned yet.
    pub stack: [u16; 16],
    /// The number of stack slots in use, at most 16.
    pub stack_pointer: u8,
    /// The index register `I`.
    pub i: u16,
    /// The delay timer.
    pub delay_timer: u8,
    /// The sound timer; the host sounds a tone while it is not zero.
    pub sound_timer: u8,
    /// The frame buffer, row by row, each pixel 0 or 1.
    pub pixels: [[u8; WIDTH]; HEIGHT],
    /// The key latch: which of the sixteen keys are down.
    pub keypad: [bool; 16],
    /// Microseconds that have passed since the timers last counted, less than
    /// one timer period.
    pub tick_carry: u64,
    /// When the last instruction ran.
    pub last_tick: Instant,
}

impl View for Cpu {
    type V = CpuState;

    /// The machine as the model sees it: everything but the clock reading.
    open spec fn view(&self) -> CpuState {
        CpuState {
            memory: self.memory@,
            registers: self.register@,
            pc: self.program_counter as int,
            stack: self.stack@,
            sp: self.stack_pointer as int,
            index: self.i as int,
            delay: self.delay_timer as int,
            sound: self.sound_timer as int,
            pixels: Seq::new(32, |r: int| self.pixels[r]@),
            keys: self.keypad@,
            carry: self.tick_carry as int,
        }
    }
}

impl Cpu {
    /// What the instructions rely on beyond the types: at most sixteen stack
    /// slots in use, pixels that are 0 or 1, and a carry below one period.
    pub open spec fn wf(&self) -> bool {
        self@.wf()
    }

    /// A machine at power-on: the font in memory, everything else zero, the
    /// program counter at the program start.
    pub fn new() -> (cpu: Cpu)
        ensures
            cpu@ == CpuState::power_on(),
            cpu.wf(),
    {
        let mut ram = [0u8; RAM];
        let mut a: usize = 0;
        while a < 80
            invariant
                a <= 80,
                forall|k: int| 0 <= k < a ==> ram[k] == CHIP8_FONT[k],
                forall|k: int| a <= k < 4096 ==> ram[k] == 0,
            decreases 80 - a,
        {
            ram[a] = CHIP8_FONT[a];
            a += 1;
        }
        let cpu = Cpu {
            memory: ram,
            register: [0; 16],
            program_counter: PROGRAM_START,
            stack: [0; 16],
            stack_pointer: 0,
            i: 0,
            delay_timer: 0,
            sound_timer: 0,
            pixels: [[0; WIDTH]; HEIGHT],
            keypad: [false; 16],
            tick_carry: 0,
            last_tick: Instant::now(),
        };
        assert(cpu@.memory =~= initial_memory());
        assert(cpu@.registers =~= CpuState::power_on().registers);
        assert(cpu@.stack =~= CpuState::power_on().stack);
        assert(cpu@.keys =~= CpuState::power_on().keys);
        assert(cpu@.pixels =~~= blank_screen());
        cpu
    }

    /// Puts the machine back to power-on, whatever it held: the host's way to
    /// start a program afresh.
    pub fn reset(&mut self)
        ensures
            final(self)@ == CpuState::power_on(),
            final(self).wf(),
    {
        *self = Cpu::new();
    }

    /// Copies the cartridge's program image into memory at the program start.
    /// An image longer than the memory from there on is refused, and the
    /// machine stays as it was. Nothing but memory changes: registers, stack
    /// and program counter keep their values.
    pub fn load_rom(&mut self, rom: &Cartridge) -> (r: Result<(), CpuError>)
        ensures
            rom.rom@.len() <= RAM - PROGRAM_START ==> r == Ok::<(), CpuError>(())
                && final(self)@ == old(self)@.load_rom(rom.rom@),
            rom.rom@.len() > RAM - PROGRAM_START ==> r == Err::<(), CpuError>(
                CpuError::RomTooLarge,
            ) && final(self)@ == old(self)@,
            final(self).last_tick == old(self).last_tick,
    {
        let len = rom.rom.len();
        if len > RAM - PROGRAM_START {
            return Err(CpuError::RomTooLarge);
        }
        let mut k: usize = 0;
        while k < len
            invariant
                k <= len,
                len == rom.rom@.len(),
                len <= RAM - PROGRAM_START,
                forall|a: int|
                    0 <= a < 4096 ==> self.memory[a] == if PROGRAM_START <= a < PROGRAM_START + k {
                        rom.rom@[a - PROGRAM_START]
                    } else {
                        old(self).memory[a]
                    },
                self.register == old(self).register,
                self.program_counter == old(self).program_counter,
                self.stack == old(self).stack,
                self.stack_pointer == old(self).stack_pointer,
                self.i == old(self).i,
                self.delay_timer == old(self).delay_timer,
                self.sound_timer == old(self).sound_timer,
                self.pixels == old(self).pixels,
                self.keypad == old(self).keypad,
                self.tick_carry == old(self).tick_carry,
                self.last_tick == old(self).last_tick,
            decreases len - k,
        {
            self.memory[PROGRAM_START + k] = rom.rom[k];
            k += 1;
        }
        assert(self@.memory =~= old(self)@.load_rom(rom.rom@).memory);
        Ok(())
    }

    /// A copy of the frame buffer, row by row, one byte per pixel.
    pub fn read_pixels(&self) -> (pixels: [[u8; WIDTH]; HEIGHT])
        ensures
            pixels == self.pixels,
            forall|r: int, c: int|
                0 <= r < 32 && 0 <= c < 64 ==> pixels[r][c] == #[trigger] self@.pixels[r][c],
            self.wf() ==> forall|r: int, c: int|
                0 <= r < 32 && 0 <= c < 64 ==> #[trigger] pixels[r][c] <= 1,
    {
        proof {
            assert forall|r: int, c: int| 0 <= r < 32 && 0 <= c < 64 && self.wf() implies #[trigger] self.pixels[r][c] <= 1 by {
                assert(self@.pixels[r][c] <= 1);
            }
        }
        self.pixels
    }

    /// The sound timer, for the host's tone.
    pub fn read_sound_timer(&self) -> (t: u8)
        ensures
            t == self@.sound,
    {
        self.sound_timer
    }

    /// The delay timer.
    pub fn read_delay_timer(&self) -> (t: u8)
        ensures
            t == self@.delay,
    {
        self.delay_timer
    }

    /// The lowest key that is down, if any is.
    pub fn what_key_is_pressed(&self) -> (key: Option<u8>)
        ensures
            key == self@.what_key_is_pressed(),
            key matches Some(k) ==> is_lowest_key(self@.keys, k as int),
            key is None ==> forall|j: int| 0 <= j < 16 ==> !self@.keys[j],
    {
        let mut key: u8 = 0;
        while key < 16
            invariant
                key <= 16,
                forall|j: int| 0 <= j < key ==> !self.keypad[j],
            decreases 16 - key,
        {
            if self.keypad[key as usize] {
                proof {
                    assert(is_lowest_key(self@.keys, key as int));
                }
                return Some(key);
            }
            key += 1;
        }
        proof {
            assert forall|k: int| !is_lowest_key(self@.keys, k) by {
                if 0 <= k < 16 {
                    assert(!self.keypad[k]);
                }
            }
        }
        None
    }

    /// Replaces the key latch by the host's snapshot.
    pub fn load_key_map(&mut self, key_map: &[bool; 16])
        ensures
            final(self)@ == old(self)@.load_key_map(key_map@),
            final(self).last_tick == old(self).last_tick,
    {
        self.keypad = *key_map;
    }

    /// Moves the program counter back by one instruction.
    pub fn program_counter_decrease(&mut self)
        requires
            old(self).program_counter >= 2,
        ensures
            final(self)@ == old(self)@.moved(-2),
            final(self).last_tick == old(self).last_tick,
    {
        self.program_counter -= 2;
    }

    /// Moves the program counter on by one instruction.
    pub fn program_counter_increase(&mut self)
        requires
            old(self).program_counter + 2 <= usize::MAX,
        ensures
            final(self)@ == old(self)@.moved(2),
            final(self).last_tick == old(self).last_tick,
    {
        self.program_counter += 2;
    }

    /// The instruction word at the program counter: two bytes, the high one
    /// first.
    pub fn next_opcode(&self) -> (word: u16)
        requires
            self.program_counter + 1 < RAM,
        ensures
            word == self@.next_opcode(),
    {
        let op1 = self.memory[self.program_counter];
        let op2 = self.memory[self.program_counter + 1];
        assert(((op1 as u16) << 8) | op2 as u16 == op1 as int * 256 + op2 as int) by (bit_vector);
        ((op1 as u16) << 8) | op2 as u16
    }

    // ----- flow -----

    /// `00E0`: clears the screen.
    pub fn screen_clear(&mut self)
        ensures
            final(self)@ == old(self)@.screen_clear(),
            final(self).last_tick == old(self).last_tick,
    {
        self.pixels = [[0; WIDTH]; HEIGHT];
        assert(self@.pixels =~~= blank_screen());
    }

    /// `00EE`: returns from a subroutine: the address on top of the stack
    /// becomes the program counter. With no call outstanding the return is
    /// refused and nothing changes; so it is with a stack pointer beyond the
    /// sixteen slots, which is reported as an overflow.
    pub fn return_from_subroutine(&mut self) -> (r: Result<(), CpuError>)
        ensures
            old(self)@.sp == 0 ==> r == Err::<(), CpuError>(CpuError::StackUnderflow) && final(self)@ == old(self)@,
            old(self)@.sp > 16 ==> r == Err::<(), CpuError>(CpuError::StackOverflow) && final(self)@ == old(self)@,
            0 < old(self)@.sp <= 16 ==> r == Ok::<(), CpuError>(()) && final(self)@ == old(self)@.return_from_subroutine(),
            final(self).last_tick == old(self).last_tick,
    {
        if self.stack_pointer == 0 {
            return Err(CpuError::StackUnderflow);
        }
        if self.stack_pointer as usize > self.stack.len() {
            return Err(CpuError::StackOverflow);
        }
        self.stack_pointer -= 1;
        self.program_counter = self.stack[self.stack_pointer as usize] as usize;
        Ok(())
    }

    /// `1nnn`: jumps to `nnn`.
    pub fn jump_to_subroutine(&mut self, nnn: u16)
        ensures
            final(self)@ == old(self)@.jump_to_subroutine(nnn),
            final(self).last_tick == old(self).last_tick,
    {
        self.program_counter = nnn as usize;
    }

    /// `2nnn`: calls the subroutine at `nnn`: the program counter enters the
    /// stack and `nnn` takes its place. With sixteen calls outstanding the
    /// call is refused and nothing changes.
    pub fn call_subroutine(&mut self, nnn: u16) -> (r: Result<(), CpuError>)
        ensures
            old(self)@.sp >= 16 ==> r == Err::<(), CpuError>(CpuError::StackOverflow) && final(self)@ == old(self)@,
            old(self)@.sp < 16 ==> r == Ok::<(), CpuError>(()) && final(self)@ == old(self)@.call_subroutine(nnn),
            final(self).last_tick == old(self).last_tick,
    {
        if self.stack_pointer as usize >= self.stack.len() {
            return Err(CpuError::StackOverflow);
        }
        self.stack[self.stack_pointer as usize] = (self.program_counter % 0x10000) as u16;
        self.stack_pointer += 1;
        self.jump_to_subroutine(nnn);
        Ok(())
    }

    /// `3xkk`: skips the next instruction if `Vx == kk`.
    pub fn skip_if_x(&mut self, x: u8, kk: u8)
        requires
            x < 16,
            old(self).program_counter + 2 <= usize::MAX,
        ensures
            final(self)@ == old(self)@.skip_if_x(x, kk),
            final(self).last_tick == old(self).last_tick,
    {
        if self.register[x as usize] == kk {
            self.program_counter_increase();
        }
    }

    /// `4xkk`: skips the next instruction if `Vx != kk`.
    pub fn skip_if_not_x(&mut self, x: u8, kk: u8)
        requires
            x < 16,
            old(self).program_counter + 2 <= usize::MAX,
        ensures
            final(self)@ == old(self)@.skip_if_not_x(x, kk),
            final(self).last_tick == old(self).last_tick,
    {
        if self.register[x as usize] != kk {
            self.program_counter_increase();
        }
    }

    /// `5xy0`: skips the next instruction if `Vx == Vy`.
    pub fn skip_if_x_eq_y(&mut self, x: u8, y: u8)
        requires
            x < 16,
            y < 16,
            old(self).program_counter + 2 <= usize::MAX,
        ensures
            final(self)@ == old(self)@.skip_if_x_eq_y(x, y),
            final(self).last_tick == old(self).last_tick,
    {
        if self.register[x as usize] == self.register[y as usize] {
            self.program_counter_increase();
        }
    }

    /// `9xy0`: skips the next instruction if `Vx != Vy`.
    pub fn comparte_x_y(&mut self, x: u8, y: u8)
        requires
            x < 16,
            y < 16,
            old(self).program_counter + 2 <= usize::MAX,
        ensures
            final(self)@ == old(self)@.comparte_x_y(x, y),
            final(self).last_tick == old(self).last_tick,
    {
        let vx = self.register[x as usize];
        let vy = self.register[y as usize];
        if vx != vy {
            self.program_counter_increase();
        }
    }

    /// `Bnnn`: jumps to `nnn + V0`.
    pub fn jump_to_addr_and_v0(&mut self, nnn: u16)
        ensures
            final(self)@ == old(self)@.jump_to_addr_and_v0(nnn),
            final(self).last_tick == old(self).last_tick,
    {
        let v0 = self.register[0] as usize;
        self.program_counter = nnn as usize + v0;
    }

    // ----- registers -----

    /// `6xkk`: `Vx = kk`.
    pub fn store_to_x(&mut self, x: u8, kk: u8)
        requires
            x < 16,
        ensures
            final(self)@ == old(self)@.store_to_x(x, kk),
            final(self).last_tick == old(self).last_tick,
    {
        self.register[x as usize] = kk;
    }

    /// `7xkk`: `Vx = (Vx + kk) mod 256`, without touching `VF`.
    pub fn add_to_x(&mut self, x: u8, kk: u8)
        requires
            x < 16,
        ensures
            final(self)@ == old(self)@.add_to_x(x, kk),
            final(self).last_tick == old(self).last_tick,
    {
        let vx = self.register[x as usize];
        self.register[x as usize] = vx.wrapping_add(kk);
    }

    /// `8xy0`: `Vx = Vy`.
    pub fn store_y_to_x(&mut self, x: u8, y: u8)
        requires
            x < 16,
            y < 16,
        ensures
            final(self)@ == old(self)@.store_y_to_x(x, y),
            final(self).last_tick == old(self).last_tick,
    {
        self.register[x as usize] = self.register[y as usize];
    }

    /// `8xy1`: `Vx = Vx | Vy`.
    pub fn set_x_xory(&mut self, x: u8, y: u8)
        requires
            x < 16,
            y < 16,
        ensures
            final(self)@ == old(self)@.set_x_xory(x, y),
            final(self).last_tick == old(self).last_tick,
    {
        let vx = self.register[x as usize];
        let vy = self.register[y as usize];
        self.register[x as usize] = vx | vy;
    }

    /// `8xy2`: `Vx = Vx & Vy`.
    pub fn set_x_xandy(&mut self, x: u8, y: u8)
        requires
            x < 16,
            y < 16,
        ensures
            final(self)@ == old(self)@.set_x_xandy(x, y),
            final(self).last_tick == old(self).last_tick,
    {
        let vx = self.register[x as usize];
        let vy = self.register[y as usize];
        self.register[x as usize] = vx & vy;
    }

    /// `8xy3`: `Vx = Vx ^ Vy`.
    pub fn set_x_xxory(&mut self, x: u8, y: u8)
        requires
            x < 16,
            y < 16,
        ensures
            final(self)@ == old(self)@.set_x_xxory(x, y),
            final(self).last_tick == old(self).last_tick,
    {
        let vx = self.register[x as usize];
        let vy = self.register[y as usize];
        self.register[x as usize] = vx ^ vy;
    }

    /// `8xy4`: `Vx = (Vx + Vy) mod 256`; `VF` is 1 if and only if the sum is
    /// more than 255.
    pub fn add_y_to_x(&mut self, x: u8, y: u8)
        requires
            x < 16,
            y < 16,
        ensures
            final(self)@ == old(self)@.add_y_to_x(x, y),
            final(self).register[0xF] == 1 <==> old(self).register[x as int] + old(self).register[y as int] > 255,
            final(self).register[0xF] == 0 <==> old(self).register[x as int] + old(self).register[y as int] <= 255,
            x != 0xF ==> final(self).register[x as int] == (old(self).register[x as int] + old(self).register[y as int]) % 256,
            final(self).last_tick == old(self).last_tick,
    {
        let vx = self.register[x as usize];
        let vy = self.register[y as usize];
        let carry = vx as u16 + vy as u16 > 255;
        self.register[x as usize] = vx.wrapping_add(vy);
        self.register[0xF] = if carry { 1 } else { 0 };
    }

    /// `8xy5`: `Vx = (Vx - Vy) mod 256`; `VF` is 1 if and only if `Vx > Vy`.
    pub fn sub_y_from_x(&mut self, x: u8, y: u8)
        requires
            x < 16,
            y < 16,
        ensures
            final(self)@ == old(self)@.sub_y_from_x(x, y),
            final(self).last_tick == old(self).last_tick,
    {
        let vx = self.register[x as usize];
        let vy = self.register[y as usize];
        self.register[0xF] = if vx > vy { 1 } else { 0 };
        self.register[x as usize] = vx.wrapping_sub(vy);
    }

    /// `8xy7`: `Vx = (Vy - Vx) mod 256`; `VF` is 1 if and only if `Vy > Vx`.
    pub fn sub_x_from_y(&mut self, x: u8, y: u8)
        requires
            x < 16,
            y < 16,
        ensures
            final(self)@ == old(self)@.sub_x_from_y(x, y),
            final(self).last_tick == old(self).last_tick,
    {
        let vx = self.register[x as usize];
        let vy = self.register[y as usize];
        self.register[0xF] = if vy > vx { 1 } else { 0 };
        self.register[x as usize] = vy.wrapping_sub(vx);
    }

    /// `8xy6`: `VF` takes the bit that the shift pushes out, the lowest of
    /// `Vx`; then register `x` is shifted right by one.
    pub fn right_shift_x(&mut self, x: u8)
        requires
            x < 16,
        ensures
            final(self)@ == old(self)@.right_shift_x(x),
            final(self).last_tick == old(self).last_tick,
    {
        let vx = self.register[x as usize];
        assert(vx & 1 == vx % 2) by (bit_vector);
        self.register[0xF] = vx & 0b0000_0001;
        let flagged = self.register[x as usize];
        assert(flagged >> 1 == flagged / 2) by (bit_vector);
        self.register[x as usize] = flagged >> 1;
    }

    /// `8xyE`: `VF` takes the bit that the shift pushes out, the highest of
    /// `Vx`; then register `x` is shifted left by one.
    pub fn left_shift_x(&mut self, x: u8)
        requires
            x < 16,
        ensures
            final(self)@ == old(self)@.left_shift_x(x),
            final(self).last_tick == old(self).last_tick,
    {
        let vx = self.register[x as usize];
        assert(vx >> 7 == vx / 128) by (bit_vector);
        self.register[0xF] = vx >> 7;
        let flagged = self.register[x as usize];
        assert(flagged << 1 == (flagged * 2) % 256) by (bit_vector);
        self.register[x as usize] = flagged << 1;
    }

    /// `Cxkk` for a byte that was drawn already: `Vx = random & kk`.
    pub fn store_random_to_x(&mut self, x: u8, kk: u8, random: u8)
        requires
            x < 16,
        ensures
            final(self)@ == old(self)@.store_random_to_x(x, kk, random),
            final(self).last_tick == old(self).last_tick,
    {
        self.register[x as usize] = random & kk;
    }

    /// `Cxkk`: draws a random byte and stores it in `Vx`, masked by `kk`.
    /// Whatever byte is drawn, no bit outside `kk` is set in `Vx`, and nothing
    /// else changes.
    pub fn store_rand_to_x(&mut self, x: u8, kk: u8)
        requires
            x < 16,
        ensures
            exists|random: u8| final(self)@ == #[trigger] old(self)@.store_random_to_x(x, kk, random),
            final(self).last_tick == old(self).last_tick,
    {
        let random = random_byte();
        self.store_random_to_x(x, kk, random);
    }


    // ----- index register and memory -----

    /// `Annn`: `I = nnn`.
    pub fn store_addres(&mut self, nnn: u16)
        ensures
            final(self)@ == old(self)@.store_addres(nnn),
            final(self).last_tick == old(self).last_tick,
    {
        self.i = nnn;
    }

    /// `Fx1E`: `I = I + Vx`.
    pub fn add_x_to_i(&mut self, x: u8)
        requires
            x < 16,
            old(self).i + old(self).register[x as int] <= u16::MAX,
        ensures
            final(self)@ == old(self)@.add_x_to_i(x),
            final(self).last_tick == old(self).last_tick,
    {
        self.i += self.register[x as usize] as u16;
    }

    /// `Fx29`: points `I` at the font glyph for `Vx`: `I = Vx * 5`.
    pub fn set_i_to_sprite_addr(&mut self, x: u8)
        requires
            x < 16,
        ensures
            final(self)@ == old(self)@.set_i_to_sprite_addr(x),
            final(self).last_tick == old(self).last_tick,
    {
        let vx = self.register[x as usize];
        let sprite_length: u16 = 5;
        self.i = vx as u16 * sprite_length;
    }

    /// `Fx33`: writes the decimal digits of `Vx` to memory: hundreds at `I`,
    /// tens at `I + 1`, ones at `I + 2`.
    pub fn bcd_from_x_to_i(&mut self, x: u8)
        requires
            x < 16,
            old(self).i + 2 < RAM,
        ensures
            final(self)@ == old(self)@.bcd_from_x_to_i(x),
            final(self).last_tick == old(self).last_tick,
    {
        let decimal = self.register[x as usize];
        let base = self.i as usize;
        self.memory[base] = decimal / 100;
        self.memory[base + 1] = (decimal / 10) % 10;
        self.memory[base + 2] = decimal % 10;
    }

    /// `Fx55`: copies `V0` to `Vx`, `Vx` included, to memory from `I` on.
    /// `I` keeps its value.
    pub fn store_registers_to_memory(&mut self, x: u8)
        requires
            x < 16,
            old(self).i + x < RAM,
        ensures
            final(self)@ == old(self)@.store_registers_to_memory(x),
            final(self).last_tick == old(self).last_tick,
    {
        let base = self.i as usize;
        let mut j: usize = 0;
        while j <= x as usize
            invariant
                j <= x + 1,
                x < 16,
                base == old(self).i,
                base + x < RAM,
                forall|a: int|
                    0 <= a < 4096 ==> self.memory[a] == if base <= a < base + j {
                        old(self).register[a - base]
                    } else {
                        old(self).memory[a]
                    },
                self.register == old(self).register,
                self.program_counter == old(self).program_counter,
                self.stack == old(self).stack,
                self.stack_pointer == old(self).stack_pointer,
                self.i == old(self).i,
                self.delay_timer == old(self).delay_timer,
                self.sound_timer == old(self).sound_timer,
                self.pixels == old(self).pixels,
                self.keypad == old(self).keypad,
                self.tick_carry == old(self).tick_carry,
                self.last_tick == old(self).last_tick,
            decreases x + 1 - j,
        {
            self.memory[base + j] = self.register[j];
            j += 1;
        }
        assert(self@.memory =~= old(self)@.store_registers_to_memory(x).memory);
    }

    /// `Fx65`: fills `V0` to `Vx`, `Vx` included, from memory at `I` on.
    /// `I` keeps its value.
    pub fn read_memory_to_registers(&mut self, x: u8)
        requires
            x < 16,
            old(self).i + x < RAM,
        ensures
            final(self)@ == old(self)@.read_memory_to_registers(x),
            final(self).last_tick == old(self).last_tick,
    {
        let base = self.i as usize;
        let mut j: usize = 0;
        while j <= x as usize
            invariant
                j <= x + 1,
                x < 16,
                base == old(self).i,
                base + x < RAM,
                forall|k: int|
                    0 <= k < 16 ==> self.register[k] == if k < j {
                        old(self).memory[base + k]
                    } else {
                        old(self).register[k]
                    },
                self.memory == old(self).memory,
                self.program_counter == old(self).program_counter,
                self.stack == old(self).stack,
                self.stack_pointer == old(self).stack_pointer,
                self.i == old(self).i,
                self.delay_timer == old(self).delay_timer,
                self.sound_timer == old(self).sound_timer,
                self.pixels == old(self).pixels,
                self.keypad == old(self).keypad,
                self.tick_carry == old(self).tick_carry,
                self.last_tick == old(self).last_tick,
            decreases x + 1 - j,
        {
            self.register[j] = self.memory[base + j];
            j += 1;
        }
        assert(self@.registers =~= old(self)@.read_memory_to_registers(x).registers);
    }

    // ----- timers and keys -----

    /// `Fx07`: `Vx` = the delay timer.
    pub fn store_delayt_to_x(&mut self, x: u8)
        requires
            x < 16,
        ensures
            final(self)@ == old(self)@.store_delayt_to_x(x),
            final(self).last_tick == old(self).last_tick,
    {
        self.register[x as usize] = self.delay_timer;
    }

    /// `Fx15`: sets the delay timer to `Vx`.
    pub fn set_delayt(&mut self, x: u8)
        requires
            x < 16,
        ensures
            final(self)@ == old(self)@.set_delayt(x),
            final(self).last_tick == old(self).last_tick,
    {
        let vx = self.register[x as usize];
        self.delay_timer = vx;
    }

    /// `Fx18`: sets the sound timer to `Vx`.
    pub fn set_soundt(&mut self, x: u8)
        requires
            x < 16,
        ensures
            final(self)@ == old(self)@.set_soundt(x),
            final(self).last_tick == old(self).last_tick,
    {
        let vx = self.register[x as usize];
        self.sound_timer = vx;
    }

    /// `Ex9E`: skips the next instruction if key `Vx` is down.
    pub fn skip_if_pressed(&mut self, x: u8)
        requires
            x < 16,
            old(self).register[x as int] < 16,
            old(self).program_counter + 2 <= usize::MAX,
        ensures
            final(self)@ == old(self)@.skip_if_pressed(x),
            final(self).last_tick == old(self).last_tick,
    {
        let key_wanted = self.register[x as usize] as usize;
        if self.keypad[key_wanted] {
            self.program_counter_increase();
        }
    }

    /// `ExA1`: skips the next instruction if key `Vx` is up.
    pub fn skip_if_not_pressed(&mut self, x: u8)
        requires
            x < 16,
            old(self).register[x as int] < 16,
            old(self).program_counter + 2 <= usize::MAX,
        ensures
            final(self)@ == old(self)@.skip_if_not_pressed(x),
            final(self).last_tick == old(self).last_tick,
    {
        let key_wanted = self.register[x as usize] as usize;
        if !self.keypad[key_wanted] {
            self.program_counter_increase();
        }
    }

    /// `Fx0A`: waits for a key. With a key down, `Vx` takes the lowest such
    /// key. With none, the program counter goes back by one instruction, so
    /// that the instruction is met again on the next cycle.
    pub fn wait_for_press(&mut self, x: u8)
        requires
            x < 16,
            old(self)@.what_key_is_pressed() is None ==> old(self).program_counter >= 2,
        ensures
            final(self)@ == old(self)@.wait_for_press(x),
            final(self).last_tick == old(self).last_tick,
    {
        match self.what_key_is_pressed() {
            Some(key) => {
                self.register[x as usize] = key;
            },
            None => self.program_counter_decrease(),
        }
    }

    /// Lets `elapsed` more microseconds pass for the timers: each counts down
    /// once for every whole period that has run out since it last counted,
    /// and stops at zero; what is left of the time is carried to the next
    /// call.
    pub fn advance_timers(&mut self, elapsed: u128)
        ensures
            final(self)@ == old(self)@.tick(elapsed as int),
            final(self).last_tick == old(self).last_tick,
    {
        let period = TIMER_RATE as u128;
        let whole = elapsed / period;
        let rest = elapsed % period;
        let sum = self.tick_carry as u128 + rest;
        let ticks = whole + sum / period;
        assert(ticks == (self.tick_carry + elapsed) / (TIMER_RATE as int)
            && sum % period == (self.tick_carry + elapsed) % (TIMER_RATE as int));
        self.tick_carry = (sum % period) as u64;
        self.delay_timer = if ticks >= self.delay_timer as u128 {
            0
        } else {
            self.delay_timer - ticks as u8
        };
        self.sound_timer = if ticks >= self.sound_timer as u128 {
            0
        } else {
            self.sound_timer - ticks as u8
        };
    }

    // ----- the frame buffer -----

    /// `Dxyn`: draws the `n`-row sprite at `I` with its corner at
    /// (`Vx mod 64`, `Vy mod 32`): each of its bits is combined by exclusive
    /// or with the pixel under it, and what leaves the screen on one side
    /// comes back on the other. `VF` is 1 if any pixel went from set to clear
    /// in the whole drawing, else 0. The corner is read before `VF` is
    /// written.
    pub fn draw_a_sprite(&mut self, x: u8, y: u8, n: u8)
        requires
            x < 16,
            y < 16,
            n < 16,
            old(self).i + n <= RAM,
        ensures
            final(self)@ == old(self)@.draw_a_sprite(x, y, n),
            old(self).wf() ==> final(self).wf(),
            final(self).last_tick == old(self).last_tick,
    {
        let vx = self.register[x as usize] as usize;
        let vy = self.register[y as usize] as usize;
        let base = self.i as usize;
        let ghost s = self@;
        let mut collision = false;
        let mut sprite_step: usize = 0;
        proof {
            lemma_draw_ends(s, x, y, n);
            assert(forall|p: u8| #[trigger] (p ^ 0) == p) by (bit_vector);
        }
        while sprite_step < n as usize
            invariant
                sprite_step <= n < 16,
                x < 16,
                y < 16,
                s == old(self)@,
                vx == s.vx(x),
                vy == s.vx(y),
                base == s.index,
                base + n <= RAM,
                forall|row: int, col: int|
                    0 <= row < 32 && 0 <= col < 64 ==> #[trigger] self.pixels[row][col]
                        == s.pixels[row][col] ^ s.sprite_bit_so_far(
                        x,
                        y,
                        n,
                        sprite_step as int,
                        0,
                        row,
                        col,
                    ),
                collision == s.collides_so_far(x, y, n, sprite_step as int, 0),
                self.memory == old(self).memory,
                self.register == old(self).register,
                self.program_counter == old(self).program_counter,
                self.stack == old(self).stack,
                self.stack_pointer == old(self).stack_pointer,
                self.i == old(self).i,
                self.delay_timer == old(self).delay_timer,
                self.sound_timer == old(self).sound_timer,
                self.keypad == old(self).keypad,
                self.tick_carry == old(self).tick_carry,
                self.last_tick == old(self).last_tick,
            decreases n - sprite_step,
        {
            let row = (vy + sprite_step) % HEIGHT;
            let line = self.memory[base + sprite_step];
            let mut bit: u8 = 0;
            while bit < 8
                invariant
                    bit <= 8,
                    sprite_step < n < 16,
                    x < 16,
                    y < 16,
                    s == old(self)@,
                    vx == s.vx(x),
                    vy == s.vx(y),
                    base == s.index,
                    row == s.sprite_row(y, sprite_step as int),
                    line == s.memory[s.index + sprite_step],
                    forall|r: int, c: int|
                        0 <= r < 32 && 0 <= c < 64 ==> #[trigger] self.pixels[r][c]
                            == s.pixels[r][c] ^ s.sprite_bit_so_far(
                            x,
                            y,
                            n,
                            sprite_step as int,
                            bit as int,
                            r,
                            c,
                        ),
                    collision == s.collides_so_far(x, y, n, sprite_step as int, bit as int),
                    self.memory == old(self).memory,
                    self.register == old(self).register,
                    self.program_counter == old(self).program_counter,
                    self.stack == old(self).stack,
                    self.stack_pointer == old(self).stack_pointer,
                    self.i == old(self).i,
                    self.delay_timer == old(self).delay_timer,
                    self.sound_timer == old(self).sound_timer,
                    self.keypad == old(self).keypad,
                    self.tick_carry == old(self).tick_carry,
                    self.last_tick == old(self).last_tick,
                decreases 8 - bit,
            {
                let sprite_bit = (line >> (7 - bit)) & 1;
                let col = (vx + bit as usize) % WIDTH;
                let old_pixel = self.pixels[row][col];
                proof {
                    lemma_draw_one_bit(s, x, y, n, sprite_step as int, bit as int);
                    assert(forall|p: u8| #[trigger] (p ^ 0) == p) by (bit_vector);
                }
                self.pixels[row][col] = old_pixel ^ sprite_bit;
                if old_pixel == 1 && sprite_bit == 1 {
                    collision = true;
                }
                bit += 1;
            }
            proof {
                lemma_draw_row_done(s, x, y, n, sprite_step as int);
            }
            sprite_step += 1;
        }
        self.register[0xF] = if collision { 1 } else { 0 };
        proof {
            lemma_draw_ends(s, x, y, n);
            assert(self@.pixels =~~= s.draw_a_sprite(x, y, n).pixels);
            if s.wf() {
                lemma_draw_keeps_pixels_binary(s, x, y, n);
            }
        }
    }

    // ----- one cycle -----

    /// One cycle with the outside world given: fetches the instruction at the
    /// program counter, decodes it, carries it out, moves the program counter
    /// on (a jump or a call has set it already) and lets the timers see
    /// `elapsed` more microseconds. `random` is the byte for the random
    /// instruction.
    ///
    /// `Ok` means the instruction was carried out. `UnimplementedOpcode`
    /// reports a word without a handler: the cycle was completed as if the
    /// word did nothing. Every other error leaves the machine untouched.
    pub fn step_with(&mut self, random: u8, elapsed: u128) -> (r: Result<(), CpuError>)
        ensures
            (final(self)@, r) == old(self)@.step(random, elapsed as int),
            r matches Err(e) && !e.recoverable() ==> final(self)@ == old(self)@,
            old(self).wf() ==> final(self).wf(),
            final(self).last_tick == old(self).last_tick,
    {
        if self.program_counter > RAM - 2 {
            return Err(CpuError::AddressOutOfRange);
        }
        let opcode = self.next_opcode();
        let ins = decode(opcode);
        let x = ins.x;
        let y = ins.y;
        let d = ins.d;
        let nnn = ins.nnn;
        let kk = ins.kk;
        let mut report: Result<(), CpuError> = Ok(());
        let mut moved_on = ins.c == 0x1 || ins.c == 0x2 || ins.c == 0xB;
        match (ins.c, x, y, d) {
            (0x0, 0x0, 0xE, 0x0) => self.screen_clear(),
            (0x0, 0x0, 0xE, 0xE) => {
                match self.return_from_subroutine() {
                    Ok(()) => {},
                    Err(e) => {
                        return Err(e);
                    },
                }
            },
            (0x1, _, _, _) => self.jump_to_subroutine(nnn),
            (0x2, _, _, _) => {
                match self.call_subroutine(nnn) {
                    Ok(()) => {},
                    Err(e) => {
                        return Err(e);
                    },
                }
            },
            (0x3, _, _, _) => self.skip_if_x(x, kk),
            (0x4, _, _, _) => self.skip_if_not_x(x, kk),
            (0x5, _, _, 0x0) => self.skip_if_x_eq_y(x, y),
            (0x6, _, _, _) => self.store_to_x(x, kk),
            (0x7, _, _, _) => self.add_to_x(x, kk),
            (0x8, _, _, 0x0) => self.store_y_to_x(x, y),
            (0x8, _, _, 0x1) => self.set_x_xory(x, y),
            (0x8, _, _, 0x2) => self.set_x_xandy(x, y),
            (0x8, _, _, 0x3) => self.set_x_xxory(x, y),
            (0x8, _, _, 0x4) => self.add_y_to_x(x, y),
            (0x8, _, _, 0x5) => self.sub_y_from_x(x, y),
            (0x8, _, _, 0x6) => self.right_shift_x(x),
            (0x8, _, _, 0x7) => self.sub_x_from_y(x, y),
            (0x8, _, _, 0xE) => self.left_shift_x(x),
            (0x9, _, _, 0x0) => self.comparte_x_y(x, y),
            (0xA, _, _, _) => self.store_addres(nnn),
            (0xB, _, _, _) => self.jump_to_addr_and_v0(nnn),
            (0xC, _, _, _) => self.store_random_to_x(x, kk, random),
            (0xD, _, _, _) => {
                if self.i as usize + d as usize > RAM {
                    return Err(CpuError::AddressOutOfRange);
                }
                self.draw_a_sprite(x, y, d)
            },
            (0xE, _, 0x9, 0xE) => {
                if self.register[x as usize] >= 16 {
                    return Err(CpuError::KeyOutOfRange);
                }
                self.skip_if_pressed(x)
            },
            (0xE, _, 0xA, 0x1) => {
                if self.register[x as usize] >= 16 {
                    return Err(CpuError::KeyOutOfRange);
                }
                self.skip_if_not_pressed(x)
            },
            (0xF, _, 0x0, 0x7) => self.store_delayt_to_x(x),
            (0xF, _, 0x0, 0xA) => {
                // The counter moves on before the handler, whose step back
                // then always has room.
                self.program_counter_increase();
                self.wait_for_press(x);
                moved_on = true;
            },
            (0xF, _, 0x1, 0x5) => self.set_delayt(x),
            (0xF, _, 0x1, 0x8) => self.set_soundt(x),
            (0xF, _, 0x1, 0xE) => {
                if self.i as u32 + self.register[x as usize] as u32 > 0xFFFF {
                    return Err(CpuError::AddressOutOfRange);
                }
                self.add_x_to_i(x)
            },
            (0xF, _, 0x2, 0x9) => self.set_i_to_sprite_addr(x),
            (0xF, _, 0x3, 0x3) => {
                if self.i as usize + 2 >= RAM {
                    return Err(CpuError::AddressOutOfRange);
                }
                self.bcd_from_x_to_i(x)
            },
            (0xF, _, 0x5, 0x5) => {
                if self.i as usize + x as usize >= RAM {
                    return Err(CpuError::AddressOutOfRange);
                }
                self.store_registers_to_memory(x)
            },
            (0xF, _, 0x6, 0x5) => {
                if self.i as usize + x as usize >= RAM {
                    return Err(CpuError::AddressOutOfRange);
                }
                self.read_memory_to_registers(x)
            },
            _ => {
                report = Err(CpuError::UnimplementedOpcode(opcode));
            },
        }
        if !moved_on {
            self.program_counter_increase();
        }
        self.advance_timers(elapsed);
        report
    }

    /// Whether the instruction at the program counter is the random one.
    pub fn next_is_random(&self) -> (r: bool)
        ensures
            r == (0 <= self@.pc <= 4094 && decode_spec(self@.next_opcode()).c == 0xC),
    {
        self.program_counter <= RAM - 2 && decode(self.next_opcode()).c == 0xC
    }

    /// One cycle: draws a random byte if the instruction at the program
    /// counter asks for one, reads the clock, and runs `step_with` on the
    /// byte and on the time since the cycle before.
    ///
    /// The byte and the time are whatever came back, so the cycle is
    /// `step_with` for some byte and some time.
    pub fn run_next_instruction(&mut self) -> (r: Result<(), CpuError>)
        ensures
            exists|random: u8, elapsed: int|
                0 <= elapsed && (final(self)@, r) == #[trigger] old(self)@.step(random, elapsed),
            r matches Err(e) && !e.recoverable() ==> final(self)@ == old(self)@,
            old(self).wf() ==> final(self).wf(),
    {
        let random = if self.next_is_random() { random_byte() } else { 0 };
        let now = Instant::now();
        let elapsed = now.saturating_duration_since(self.last_tick).as_micros();
        self.last_tick = now;
        self.step_with(random, elapsed)
    }
}

} // verus!
