//! The mathematical model of the machine: its state as sequences and
//! integers, and what each instruction makes of a state.

use crate::error::CpuError;
use crate::instruction::decode_spec;
use crate::instruction::Instruction;
use crate::CHIP8_FONT;
use crate::PROGRAM_START;
use crate::TIMER_RATE;
use vstd::prelude::*;

verus! {

/// The state of the machine.
pub ghost struct CpuState {
    /// The 4096 bytes of memory.
    pub memory: Seq<u8>,
    /// The registers `V0` to `VF`.
    pub registers: Seq<u8>,
    /// The address of the next instruction.
    pub pc: int,
    /// The sixteen stack slots.
    pub stack: Seq<u16>,
    /// The number of stack slots in use.
    pub sp: int,
    /// The index register `I`.
    pub index: int,
    /// The delay timer.
    pub delay: int,
    /// The sound timer.
    pub sound: int,
    /// The frame buffer: 32 rows of 64 pixels, each 0 or 1.
    pub pixels: Seq<Seq<u8>>,
    /// The key latch: which of the sixteen keys are down.
    pub keys: Seq<bool>,
    /// Microseconds that have passed since the timers last counted.
    pub carry: int,
}

/// The frame buffer with every pixel clear.
pub open spec fn blank_screen() -> Seq<Seq<u8>> {
    Seq::new(32, |r: int| Seq::new(64, |c: int| 0u8))
}

/// Memory at power-on: the font table, then zeros.
pub open spec fn initial_memory() -> Seq<u8> {
    Seq::new(4096, |a: int| if a < 80 { CHIP8_FONT[a] } else { 0u8 })
}

/// `n` counted down by `ticks`, stopping at zero.
pub open spec fn count_down(n: int, ticks: int) -> int {
    if ticks >= n { 0 } else { n - ticks }
}

/// `k` is a key that is down in `keys`, and none below it is.
pub open spec fn is_lowest_key(keys: Seq<bool>, k: int) -> bool {
    &&& 0 <= k < 16
    &&& keys[k]
    &&& forall|j: int| 0 <= j < k ==> !keys[j]
}

/// The lowest key that is down in `keys`, if any is.
pub open spec fn lowest_key(keys: Seq<bool>) -> Option<u8> {
    if exists|k: int| is_lowest_key(keys, k) {
        Some((choose|k: int| is_lowest_key(keys, k)) as u8)
    } else {
        None
    }
}

impl CpuState {
    /// The shape that every state of a machine has.
    pub open spec fn wf(self) -> bool {
        &&& self.memory.len() == 4096
        &&& self.registers.len() == 16
        &&& self.stack.len() == 16
        &&& 0 <= self.sp <= 16
        &&& 0 <= self.index <= 0xFFFF
        &&& 0 <= self.delay <= 255
        &&& 0 <= self.sound <= 255
        &&& self.pixels.len() == 32
        &&& forall|r: int| 0 <= r < 32 ==> (#[trigger] self.pixels[r]).len() == 64
        &&& forall|r: int, c: int| 0 <= r < 32 && 0 <= c < 64 ==> #[trigger] self.pixels[r][c] <= 1
        &&& self.keys.len() == 16
        &&& 0 <= self.carry < TIMER_RATE
    }

    /// The state of a machine that was just created.
    pub open spec fn power_on() -> CpuState {
        CpuState {
            memory: initial_memory(),
            registers: Seq::new(16, |i: int| 0u8),
            pc: PROGRAM_START as int,
            stack: Seq::new(16, |i: int| 0u16),
            sp: 0,
            index: 0,
            delay: 0,
            sound: 0,
            pixels: blank_screen(),
            keys: Seq::new(16, |i: int| false),
            carry: 0,
        }
    }

    /// The value of register `x`.
    pub open spec fn vx(self, x: u8) -> u8 {
        self.registers[x as int]
    }

    /// This state with `value` in register `x`.
    pub open spec fn with_register(self, x: u8, value: u8) -> CpuState {
        CpuState { registers: self.registers.update(x as int, value), ..self }
    }

    /// This state with the program counter moved by `by`.
    pub open spec fn moved(self, by: int) -> CpuState {
        CpuState { pc: self.pc + by, ..self }
    }

    /// This state with the program counter two further if `taken`.
    pub open spec fn skip_if(self, taken: bool) -> CpuState {
        if taken { self.moved(2) } else { self }
    }

    // ----- loading and fetching -----

    /// Memory with `rom` copied to the program start.
    pub open spec fn load_rom(self, rom: Seq<u8>) -> CpuState {
        CpuState {
            memory: Seq::new(
                4096,
                |a: int|
                    if PROGRAM_START <= a < PROGRAM_START + rom.len() {
                        rom[a - PROGRAM_START]
                    } else {
                        self.memory[a]
                    },
            ),
            ..self
        }
    }

    /// The key latch replaced by `keys`.
    pub open spec fn load_key_map(self, keys: Seq<bool>) -> CpuState {
        CpuState { keys: keys, ..self }
    }

    /// The word at the program counter, high byte first.
    pub open spec fn next_opcode(self) -> u16 {
        (self.memory[self.pc] as int * 256 + self.memory[self.pc + 1] as int) as u16
    }

    /// The lowest key that is down, if any is.
    pub open spec fn what_key_is_pressed(self) -> Option<u8> {
        lowest_key(self.keys)
    }

    // ----- flow -----

    /// `00E0`: every pixel cleared.
    pub open spec fn screen_clear(self) -> CpuState {
        CpuState { pixels: blank_screen(), ..self }
    }

    /// `00EE`: the top stack slot leaves the stack and becomes the program
    /// counter. Meant for `sp > 0`.
    pub open spec fn return_from_subroutine(self) -> CpuState {
        CpuState { sp: self.sp - 1, pc: self.stack[self.sp - 1] as int, ..self }
    }

    /// `1nnn`: the program counter set to `nnn`.
    pub open spec fn jump_to_subroutine(self, nnn: u16) -> CpuState {
        CpuState { pc: nnn as int, ..self }
    }

    /// `2nnn`: the program counter, cut to sixteen bits, enters the stack, and
    /// `nnn` becomes the program counter. Meant for `sp < 16`.
    pub open spec fn call_subroutine(self, nnn: u16) -> CpuState {
        CpuState {
            stack: self.stack.update(self.sp, (self.pc % 0x10000) as u16),
            sp: self.sp + 1,
            pc: nnn as int,
            ..self
        }
    }

    /// `3xkk`: skip if `Vx == kk`.
    pub open spec fn skip_if_x(self, x: u8, kk: u8) -> CpuState {
        self.skip_if(self.vx(x) == kk)
    }

    /// `4xkk`: skip if `Vx != kk`.
    pub open spec fn skip_if_not_x(self, x: u8, kk: u8) -> CpuState {
        self.skip_if(self.vx(x) != kk)
    }

    /// `5xy0`: skip if `Vx == Vy`.
    pub open spec fn skip_if_x_eq_y(self, x: u8, y: u8) -> CpuState {
        self.skip_if(self.vx(x) == self.vx(y))
    }

    /// `9xy0`: skip if `Vx != Vy`.
    pub open spec fn comparte_x_y(self, x: u8, y: u8) -> CpuState {
        self.skip_if(self.vx(x) != self.vx(y))
    }

    /// `Bnnn`: the program counter set to `nnn + V0`.
    pub open spec fn jump_to_addr_and_v0(self, nnn: u16) -> CpuState {
        CpuState { pc: nnn + self.vx(0), ..self }
    }

    // ----- registers -----

    /// `6xkk`: `Vx = kk`.
    pub open spec fn store_to_x(self, x: u8, kk: u8) -> CpuState {
        self.with_register(x, kk)
    }

    /// `7xkk`: `Vx = (Vx + kk) mod 256`; `VF` is left alone.
    pub open spec fn add_to_x(self, x: u8, kk: u8) -> CpuState {
        self.with_register(x, ((self.vx(x) + kk) % 256) as u8)
    }

    /// `8xy0`: `Vx = Vy`.
    pub open spec fn store_y_to_x(self, x: u8, y: u8) -> CpuState {
        self.with_register(x, self.vx(y))
    }

    /// `8xy1`: `Vx = Vx | Vy`.
    pub open spec fn set_x_xory(self, x: u8, y: u8) -> CpuState {
        self.with_register(x, self.vx(x) | self.vx(y))
    }

    /// `8xy2`: `Vx = Vx & Vy`.
    pub open spec fn set_x_xandy(self, x: u8, y: u8) -> CpuState {
        self.with_register(x, self.vx(x) & self.vx(y))
    }

    /// `8xy3`: `Vx = Vx ^ Vy`.
    pub open spec fn set_x_xxory(self, x: u8, y: u8) -> CpuState {
        self.with_register(x, self.vx(x) ^ self.vx(y))
    }

    /// `8xy4`: `Vx = (Vx + Vy) mod 256`, then `VF` = 1 if the sum passed 255,
    /// else 0.
    pub open spec fn add_y_to_x(self, x: u8, y: u8) -> CpuState {
        let sum = self.vx(x) + self.vx(y);
        self.with_register(x, (sum % 256) as u8).with_register(
            0xF,
            if sum > 255 { 1u8 } else { 0u8 },
        )
    }

    /// `8xy5`: `VF` = 1 if `Vx > Vy`, else 0, then `Vx = (Vx - Vy) mod 256`.
    pub open spec fn sub_y_from_x(self, x: u8, y: u8) -> CpuState {
        let vx = self.vx(x);
        let vy = self.vx(y);
        self.with_register(0xF, if vx > vy { 1u8 } else { 0u8 }).with_register(
            x,
            ((vx - vy) % 256) as u8,
        )
    }

    /// `8xy7`: `VF` = 1 if `Vy > Vx`, else 0, then `Vx = (Vy - Vx) mod 256`.
    pub open spec fn sub_x_from_y(self, x: u8, y: u8) -> CpuState {
        let vx = self.vx(x);
        let vy = self.vx(y);
        self.with_register(0xF, if vy > vx { 1u8 } else { 0u8 }).with_register(
            x,
            ((vy - vx) % 256) as u8,
        )
    }

    /// `8xy6`: `VF` = the lowest bit of `Vx`, then register `x` is halved.
    /// The shift works on `Vx` alone; `Vy` plays no part.
    pub open spec fn right_shift_x(self, x: u8) -> CpuState {
        let flagged = self.with_register(0xF, self.vx(x) % 2);
        flagged.with_register(x, flagged.vx(x) / 2)
    }

    /// `8xyE`: `VF` = the highest bit of `Vx`, then register `x` is doubled
    /// modulo 256. The shift works on `Vx` alone; `Vy` plays no part.
    pub open spec fn left_shift_x(self, x: u8) -> CpuState {
        let flagged = self.with_register(0xF, self.vx(x) / 128);
        flagged.with_register(x, ((flagged.vx(x) * 2) % 256) as u8)
    }

    /// `Cxkk`: `Vx = random & kk`, for the random byte that was drawn.
    pub open spec fn store_random_to_x(self, x: u8, kk: u8, random: u8) -> CpuState {
        self.with_register(x, random & kk)
    }

    // ----- index register and memory -----

    /// `Annn`: `I = nnn`.
    pub open spec fn store_addres(self, nnn: u16) -> CpuState {
        CpuState { index: nnn as int, ..self }
    }

    /// `Fx1E`: `I = I + Vx`.
    pub open spec fn add_x_to_i(self, x: u8) -> CpuState {
        CpuState { index: self.index + self.vx(x), ..self }
    }

    /// `Fx29`: `I` = the address of the glyph for `Vx`, five bytes a glyph.
    pub open spec fn set_i_to_sprite_addr(self, x: u8) -> CpuState {
        CpuState { index: self.vx(x) * 5, ..self }
    }

    /// `Fx33`: the hundreds, tens and ones of `Vx` at `I`, `I + 1`, `I + 2`.
    pub open spec fn bcd_from_x_to_i(self, x: u8) -> CpuState {
        let v = self.vx(x);
        CpuState {
            memory: self.memory.update(self.index, v / 100).update(
                self.index + 1,
                (v / 10) % 10,
            ).update(self.index + 2, v % 10),
            ..self
        }
    }

    /// `Fx55`: `V0` to `Vx`, `Vx` included, copied to memory from `I` on.
    pub open spec fn store_registers_to_memory(self, x: u8) -> CpuState {
        CpuState {
            memory: Seq::new(
                4096,
                |a: int|
                    if self.index <= a <= self.index + x {
                        self.registers[a - self.index]
                    } else {
                        self.memory[a]
                    },
            ),
            ..self
        }
    }

    /// `Fx65`: `V0` to `Vx`, `Vx` included, filled from memory at `I` on.
    pub open spec fn read_memory_to_registers(self, x: u8) -> CpuState {
        CpuState {
            registers: Seq::new(
                16,
                |j: int| if j <= x { self.memory[self.index + j] } else { self.registers[j] },
            ),
            ..self
        }
    }

    // ----- the frame buffer -----

    /// Where the sprite's own row `dr` and column `dc` fall when its corner
    /// is at (`Vx`, `Vy`): both axes wrap.
    pub open spec fn sprite_row(self, y: u8, dr: int) -> int {
        (self.vx(y) + dr) % 32
    }

    /// See `sprite_row`.
    pub open spec fn sprite_col(self, x: u8, dc: int) -> int {
        (self.vx(x) + dc) % 64
    }

    /// The bit that an `n`-row sprite, read from memory at `I` and set down
    /// with its corner at (`Vx`, `Vy`), brings to the pixel at (`row`,
    /// `col`): the sprite's rows are the bytes from `I` on, the highest bit
    /// of a byte its leftmost pixel. Pixels that the sprite does not reach
    /// get 0.
    pub open spec fn sprite_bit(self, x: u8, y: u8, n: u8, row: int, col: int) -> u8 {
        let dr = (row - self.vx(y)) % 32;
        let dc = (col - self.vx(x)) % 64;
        if dr < n && dc < 8 {
            (self.memory[self.index + dr] >> ((7 - dc) as u8)) & 1
        } else {
            0
        }
    }

    /// Whether the sprite has a set bit on a pixel that is set.
    pub open spec fn collides(self, x: u8, y: u8, n: u8) -> bool {
        exists|row: int, col: int|
            0 <= row < 32 && 0 <= col < 64 && self.pixels[row][col] == 1
                && #[trigger] self.sprite_bit(x, y, n, row, col) == 1
    }

    /// `Dxyn`: every pixel is combined by exclusive or with the sprite's bit
    /// for it, and `VF` is 1 if any pixel went from set to clear, else 0.
    pub open spec fn draw_a_sprite(self, x: u8, y: u8, n: u8) -> CpuState {
        CpuState {
            pixels: Seq::new(
                32,
                |row: int|
                    Seq::new(
                        64,
                        |col: int| self.pixels[row][col] ^ self.sprite_bit(x, y, n, row, col),
                    ),
            ),
            registers: self.registers.update(
                0xF,
                if self.collides(x, y, n) { 1u8 } else { 0u8 },
            ),
            ..self
        }
    }

    /// `sprite_bit` while the sprite is being drawn: `rows` of its rows and
    /// `bits` pixels of the next one are down, the rest is still to come.
    pub open spec fn sprite_bit_so_far(
        self,
        x: u8,
        y: u8,
        n: u8,
        rows: int,
        bits: int,
        row: int,
        col: int,
    ) -> u8 {
        let dr = (row - self.vx(y)) % 32;
        let dc = (col - self.vx(x)) % 64;
        if dr < rows || (dr == rows && dc < bits) {
            self.sprite_bit(x, y, n, row, col)
        } else {
            0
        }
    }

    /// `collides` while the sprite is being drawn.
    pub open spec fn collides_so_far(self, x: u8, y: u8, n: u8, rows: int, bits: int) -> bool {
        exists|row: int, col: int|
            0 <= row < 32 && 0 <= col < 64 && self.pixels[row][col] == 1
                && #[trigger] self.sprite_bit_so_far(x, y, n, rows, bits, row, col) == 1
    }

    // ----- timers and keys -----

    /// `Fx07`: `Vx` = the delay timer.
    pub open spec fn store_delayt_to_x(self, x: u8) -> CpuState {
        self.with_register(x, self.delay as u8)
    }

    /// `Fx15`: the delay timer set to `Vx`.
    pub open spec fn set_delayt(self, x: u8) -> CpuState {
        CpuState { delay: self.vx(x) as int, ..self }
    }

    /// `Fx18`: the sound timer set to `Vx`.
    pub open spec fn set_soundt(self, x: u8) -> CpuState {
        CpuState { sound: self.vx(x) as int, ..self }
    }

    /// `Ex9E`: skip if key `Vx` is down.
    pub open spec fn skip_if_pressed(self, x: u8) -> CpuState {
        self.skip_if(self.keys[self.vx(x) as int])
    }

    /// `ExA1`: skip if key `Vx` is up.
    pub open spec fn skip_if_not_pressed(self, x: u8) -> CpuState {
        self.skip_if(!self.keys[self.vx(x) as int])
    }

    /// `Fx0A`: with a key down, `Vx` = the lowest such key; with none, the
    /// program counter goes back by one instruction, so that the same
    /// instruction is met again.
    pub open spec fn wait_for_press(self, x: u8) -> CpuState {
        match self.what_key_is_pressed() {
            Some(key) => self.with_register(x, key),
            None => self.moved(-2),
        }
    }

    /// The timers after `elapsed` more microseconds: one count for each whole
    /// period that has run out, none below zero, the rest carried over.
    pub open spec fn tick(self, elapsed: int) -> CpuState {
        let total = self.carry + elapsed;
        let ticks = total / (TIMER_RATE as int);
        CpuState {
            delay: count_down(self.delay, ticks),
            sound: count_down(self.sound, ticks),
            carry: total % (TIMER_RATE as int),
            ..self
        }
    }
    // ----- one cycle -----

    /// Whether `ins` is an instruction of the machine.
    pub open spec fn implemented(ins: Instruction) -> bool {
        match (ins.c, ins.x, ins.y, ins.d) {
            (0x0, 0x0, 0xE, 0x0) => true,
            (0x0, 0x0, 0xE, 0xE) => true,
            (0x0, _, _, _) => false,
            (0x5, _, _, 0x0) => true,
            (0x5, _, _, _) => false,
            (0x8, _, _, 0x0) => true,
            (0x8, _, _, 0x1) => true,
            (0x8, _, _, 0x2) => true,
            (0x8, _, _, 0x3) => true,
            (0x8, _, _, 0x4) => true,
            (0x8, _, _, 0x5) => true,
            (0x8, _, _, 0x6) => true,
            (0x8, _, _, 0x7) => true,
            (0x8, _, _, 0xE) => true,
            (0x8, _, _, _) => false,
            (0x9, _, _, 0x0) => true,
            (0x9, _, _, _) => false,
            (0xE, _, 0x9, 0xE) => true,
            (0xE, _, 0xA, 0x1) => true,
            (0xE, _, _, _) => false,
            (0xF, _, 0x0, 0x7) => true,
            (0xF, _, 0x0, 0xA) => true,
            (0xF, _, 0x1, 0x5) => true,
            (0xF, _, 0x1, 0x8) => true,
            (0xF, _, 0x1, 0xE) => true,
            (0xF, _, 0x2, 0x9) => true,
            (0xF, _, 0x3, 0x3) => true,
            (0xF, _, 0x5, 0x5) => true,
            (0xF, _, 0x6, 0x5) => true,
            (0xF, _, _, _) => false,
            _ => true,
        }
    }

    /// Why `ins` cannot be carried out in this state, if it cannot: a return
    /// with an empty stack, a call with a full one, a memory access past the
    /// end of memory, an index register that would leave its sixteen bits, a
    /// key beyond the keypad. A stack pointer beyond the sixteen slots counts
    /// as a full stack.
    pub open spec fn fault(self, ins: Instruction) -> Option<CpuError> {
        match (ins.c, ins.x, ins.y, ins.d) {
            (0x0, 0x0, 0xE, 0xE) => if self.sp == 0 {
                Some(CpuError::StackUnderflow)
            } else if self.sp > 16 {
                Some(CpuError::StackOverflow)
            } else {
                None
            },
            (0x2, _, _, _) => if self.sp >= 16 {
                Some(CpuError::StackOverflow)
            } else {
                None
            },
            (0xD, _, _, _) => if self.index + ins.d > 4096 {
                Some(CpuError::AddressOutOfRange)
            } else {
                None
            },
            (0xE, _, 0x9, 0xE) => if self.vx(ins.x) >= 16 {
                Some(CpuError::KeyOutOfRange)
            } else {
                None
            },
            (0xE, _, 0xA, 0x1) => if self.vx(ins.x) >= 16 {
                Some(CpuError::KeyOutOfRange)
            } else {
                None
            },
            (0xF, _, 0x1, 0xE) => if self.index + self.vx(ins.x) > 0xFFFF {
                Some(CpuError::AddressOutOfRange)
            } else {
                None
            },
            (0xF, _, 0x3, 0x3) => if self.index + 2 >= 4096 {
                Some(CpuError::AddressOutOfRange)
            } else {
                None
            },
            (0xF, _, 0x5, 0x5) => if self.index + ins.x >= 4096 {
                Some(CpuError::AddressOutOfRange)
            } else {
                None
            },
            (0xF, _, 0x6, 0x5) => if self.index + ins.x >= 4096 {
                Some(CpuError::AddressOutOfRange)
            } else {
                None
            },
            _ => None,
        }
    }

    /// What the handler of `ins` makes of this state, before the program
    /// counter moves on. An instruction that the machine does not have
    /// changes nothing.
    pub open spec fn perform(self, ins: Instruction, random: u8) -> CpuState {
        match (ins.c, ins.x, ins.y, ins.d) {
            (0x0, 0x0, 0xE, 0x0) => self.screen_clear(),
            (0x0, 0x0, 0xE, 0xE) => self.return_from_subroutine(),
            (0x0, _, _, _) => self,
            (0x1, _, _, _) => self.jump_to_subroutine(ins.nnn),
            (0x2, _, _, _) => self.call_subroutine(ins.nnn),
            (0x3, _, _, _) => self.skip_if_x(ins.x, ins.kk),
            (0x4, _, _, _) => self.skip_if_not_x(ins.x, ins.kk),
            (0x5, _, _, 0x0) => self.skip_if_x_eq_y(ins.x, ins.y),
            (0x5, _, _, _) => self,
            (0x6, _, _, _) => self.store_to_x(ins.x, ins.kk),
            (0x7, _, _, _) => self.add_to_x(ins.x, ins.kk),
            (0x8, _, _, 0x0) => self.store_y_to_x(ins.x, ins.y),
            (0x8, _, _, 0x1) => self.set_x_xory(ins.x, ins.y),
            (0x8, _, _, 0x2) => self.set_x_xandy(ins.x, ins.y),
            (0x8, _, _, 0x3) => self.set_x_xxory(ins.x, ins.y),
            (0x8, _, _, 0x4) => self.add_y_to_x(ins.x, ins.y),
            (0x8, _, _, 0x5) => self.sub_y_from_x(ins.x, ins.y),
            (0x8, _, _, 0x6) => self.right_shift_x(ins.x),
            (0x8, _, _, 0x7) => self.sub_x_from_y(ins.x, ins.y),
            (0x8, _, _, 0xE) => self.left_shift_x(ins.x),
            (0x8, _, _, _) => self,
            (0x9, _, _, 0x0) => self.comparte_x_y(ins.x, ins.y),
            (0x9, _, _, _) => self,
            (0xA, _, _, _) => self.store_addres(ins.nnn),
            (0xB, _, _, _) => self.jump_to_addr_and_v0(ins.nnn),
            (0xC, _, _, _) => self.store_random_to_x(ins.x, ins.kk, random),
            (0xD, _, _, _) => self.draw_a_sprite(ins.x, ins.y, ins.d),
            (0xE, _, 0x9, 0xE) => self.skip_if_pressed(ins.x),
            (0xE, _, 0xA, 0x1) => self.skip_if_not_pressed(ins.x),
            (0xE, _, _, _) => self,
            (0xF, _, 0x0, 0x7) => self.store_delayt_to_x(ins.x),
            (0xF, _, 0x0, 0xA) => self.wait_for_press(ins.x),
            (0xF, _, 0x1, 0x5) => self.set_delayt(ins.x),
            (0xF, _, 0x1, 0x8) => self.set_soundt(ins.x),
            (0xF, _, 0x1, 0xE) => self.add_x_to_i(ins.x),
            (0xF, _, 0x2, 0x9) => self.set_i_to_sprite_addr(ins.x),
            (0xF, _, 0x3, 0x3) => self.bcd_from_x_to_i(ins.x),
            (0xF, _, 0x5, 0x5) => self.store_registers_to_memory(ins.x),
            (0xF, _, 0x6, 0x5) => self.read_memory_to_registers(ins.x),
            _ => self,
        }
    }

    /// Whether the program counter moves on after the handler of `ins`: it
    /// does but after a jump or a call, which have set it.
    pub open spec fn advances(ins: Instruction) -> bool {
        ins.c != 0x1 && ins.c != 0x2 && ins.c != 0xB
    }

    /// One cycle: the instruction at the program counter is fetched, decoded
    /// and carried out, the program counter moves on, and the timers see
    /// `elapsed` more microseconds. `random` is the byte that the random
    /// instruction uses.
    ///
    /// A program counter past the last whole instruction, and every `fault`,
    /// end the cycle with the state unchanged. An instruction that the
    /// machine does not have is reported, and the cycle is completed as for
    /// an instruction that does nothing.
    pub open spec fn step(self, random: u8, elapsed: int) -> (CpuState, Result<(), CpuError>) {
        if !(0 <= self.pc <= 4094) {
            (self, Err(CpuError::AddressOutOfRange))
        } else {
            let word = self.next_opcode();
            let ins = decode_spec(word);
            match self.fault(ins) {
                Some(e) => (self, Err(e)),
                None => {
                    let done = self.perform(ins, random);
                    let next = if Self::advances(ins) { done.moved(2) } else { done };
                    (
                        next.tick(elapsed),
                        if Self::implemented(ins) {
                            Ok(())
                        } else {
                            Err(CpuError::UnimplementedOpcode(word))
                        },
                    )
                },
            }
        }
    }
}

/// On the 32 rows, going down `d` from `v` ends at `p` exactly if `p` is `d`
/// below `v`.
proof fn lemma_row_wraps(p: int, v: int, d: int)
    requires
        0 <= p < 32,
        0 <= d < 32,
        0 <= v < 256,
    ensures
        ((p - v) % 32 == d) <==> (p == (v + d) % 32),
{
}

/// On the 64 columns, going right `d` from `v` ends at `p` exactly if `p` is
/// `d` right of `v`.
proof fn lemma_col_wraps(p: int, v: int, d: int)
    requires
        0 <= p < 64,
        0 <= d < 64,
        0 <= v < 256,
    ensures
        ((p - v) % 64 == d) <==> (p == (v + d) % 64),
{
}

/// One more pixel of the sprite is down: the pixel at its place takes its
/// bit, every other pixel is as before.
pub proof fn lemma_draw_one_bit(s: CpuState, x: u8, y: u8, n: u8, dr: int, dc: int)
    requires
        0 <= dr < n,
        n < 16,
        0 <= dc < 8,
    ensures
        forall|row: int, col: int|
            0 <= row < 32 && 0 <= col < 64 ==> #[trigger] s.sprite_bit_so_far(
                x,
                y,
                n,
                dr,
                dc + 1,
                row,
                col,
            ) == if row == s.sprite_row(y, dr) && col == s.sprite_col(x, dc) {
                (s.memory[s.index + dr] >> ((7 - dc) as u8)) & 1
            } else {
                s.sprite_bit_so_far(x, y, n, dr, dc, row, col)
            },
        s.sprite_bit_so_far(x, y, n, dr, dc, s.sprite_row(y, dr), s.sprite_col(x, dc)) == 0,
        s.collides_so_far(x, y, n, dr, dc + 1) == (s.collides_so_far(x, y, n, dr, dc) || (
            s.pixels[s.sprite_row(y, dr)][s.sprite_col(x, dc)] == 1 && (s.memory[s.index + dr] >> ((7
                - dc) as u8)) & 1 == 1)),
{
    let r0 = s.sprite_row(y, dr);
    let c0 = s.sprite_col(x, dc);
    let bit = (s.memory[s.index + dr] >> ((7 - dc) as u8)) & 1;
    assert forall|row: int, col: int| 0 <= row < 32 && 0 <= col < 64 implies #[trigger] s.sprite_bit_so_far(
        x,
        y,
        n,
        dr,
        dc + 1,
        row,
        col,
    ) == if row == r0 && col == c0 {
        bit
    } else {
        s.sprite_bit_so_far(x, y, n, dr, dc, row, col)
    } by {
        lemma_row_wraps(row, s.vx(y) as int, dr);
        lemma_col_wraps(col, s.vx(x) as int, dc);
    }
    assert(s.sprite_bit_so_far(x, y, n, dr, dc, r0, c0) == 0) by {
        lemma_row_wraps(r0, s.vx(y) as int, dr);
        lemma_col_wraps(c0, s.vx(x) as int, dc);
    }
    if s.collides_so_far(x, y, n, dr, dc) {
        let (row, col) = choose|row: int, col: int|
            0 <= row < 32 && 0 <= col < 64 && s.pixels[row][col] == 1
                && #[trigger] s.sprite_bit_so_far(x, y, n, dr, dc, row, col) == 1;
        assert(s.sprite_bit_so_far(x, y, n, dr, dc + 1, row, col) == 1);
    }
    if s.pixels[r0][c0] == 1 && bit == 1 {
        assert(s.sprite_bit_so_far(x, y, n, dr, dc + 1, r0, c0) == 1);
    }
    if s.collides_so_far(x, y, n, dr, dc + 1) {
        let (row, col) = choose|row: int, col: int|
            0 <= row < 32 && 0 <= col < 64 && s.pixels[row][col] == 1
                && #[trigger] s.sprite_bit_so_far(x, y, n, dr, dc + 1, row, col) == 1;
        if !(row == r0 && col == c0) {
            assert(s.sprite_bit_so_far(x, y, n, dr, dc, row, col) == 1);
        }
    }
}

/// A row of the sprite that is down to its last pixel is a whole row down.
pub proof fn lemma_draw_row_done(s: CpuState, x: u8, y: u8, n: u8, dr: int)
    requires
        0 <= dr < n,
        n < 16,
    ensures
        forall|row: int, col: int|
            0 <= row < 32 && 0 <= col < 64 ==> #[trigger] s.sprite_bit_so_far(
                x,
                y,
                n,
                dr + 1,
                0,
                row,
                col,
            ) == s.sprite_bit_so_far(x, y, n, dr, 8, row, col),
        s.collides_so_far(x, y, n, dr + 1, 0) == s.collides_so_far(x, y, n, dr, 8),
{
    assert forall|row: int, col: int| 0 <= row < 32 && 0 <= col < 64 implies #[trigger] s.sprite_bit_so_far(
        x,
        y,
        n,
        dr + 1,
        0,
        row,
        col,
    ) == s.sprite_bit_so_far(x, y, n, dr, 8, row, col) by {}
    if s.collides_so_far(x, y, n, dr, 8) {
        let (row, col) = choose|row: int, col: int|
            0 <= row < 32 && 0 <= col < 64 && s.pixels[row][col] == 1
                && #[trigger] s.sprite_bit_so_far(x, y, n, dr, 8, row, col) == 1;
        assert(s.sprite_bit_so_far(x, y, n, dr + 1, 0, row, col) == 1);
    }
    if s.collides_so_far(x, y, n, dr + 1, 0) {
        let (row, col) = choose|row: int, col: int|
            0 <= row < 32 && 0 <= col < 64 && s.pixels[row][col] == 1
                && #[trigger] s.sprite_bit_so_far(x, y, n, dr + 1, 0, row, col) == 1;
        assert(s.sprite_bit_so_far(x, y, n, dr, 8, row, col) == 1);
    }
}

/// Before the first pixel nothing of the sprite is down; after the last row
/// all of it is.
pub proof fn lemma_draw_ends(s: CpuState, x: u8, y: u8, n: u8)
    requires
        n < 16,
    ensures
        forall|row: int, col: int|
            0 <= row < 32 && 0 <= col < 64 ==> #[trigger] s.sprite_bit_so_far(
                x,
                y,
                n,
                0,
                0,
                row,
                col,
            ) == 0,
        !s.collides_so_far(x, y, n, 0, 0),
        forall|row: int, col: int|
            0 <= row < 32 && 0 <= col < 64 ==> #[trigger] s.sprite_bit_so_far(
                x,
                y,
                n,
                n as int,
                0,
                row,
                col,
            ) == s.sprite_bit(x, y, n, row, col),
        s.collides_so_far(x, y, n, n as int, 0) == s.collides(x, y, n),
{
    if s.collides_so_far(x, y, n, n as int, 0) {
        let (row, col) = choose|row: int, col: int|
            0 <= row < 32 && 0 <= col < 64 && s.pixels[row][col] == 1
                && #[trigger] s.sprite_bit_so_far(x, y, n, n as int, 0, row, col) == 1;
        assert(s.sprite_bit(x, y, n, row, col) == 1);
    }
    if s.collides(x, y, n) {
        let (row, col) = choose|row: int, col: int|
            0 <= row < 32 && 0 <= col < 64 && s.pixels[row][col] == 1 && #[trigger] s.sprite_bit(
                x,
                y,
                n,
                row,
                col,
            ) == 1;
        assert(s.sprite_bit_so_far(x, y, n, n as int, 0, row, col) == 1);
    }
}

/// Drawing leaves every pixel 0 or 1.
pub proof fn lemma_draw_keeps_pixels_binary(s: CpuState, x: u8, y: u8, n: u8)
    requires
        s.wf(),
    ensures
        s.draw_a_sprite(x, y, n).wf(),
{
    let t = s.draw_a_sprite(x, y, n);
    assert(forall|p: u8, line: u8, k: u8| p <= 1 ==> #[trigger] (p ^ ((line >> k) & 1)) <= 1)
        by (bit_vector);
    assert(forall|p: u8| p <= 1 ==> #[trigger] (p ^ 0) <= 1) by (bit_vector);
    assert forall|r: int, c: int| 0 <= r < 32 && 0 <= c < 64 implies #[trigger] t.pixels[r][c]
        <= 1 by {
        assert(s.pixels[r][c] <= 1);
    }
}

/// Add with carry: `VF` becomes 1 exactly if `Vx + Vy` is more than 255, and
/// 0 otherwise; `Vx` becomes the sum modulo 256. (With `x` the flag register
/// itself, the flag is what stays.)
pub proof fn lemma_add_with_carry(s: CpuState, x: u8, y: u8)
    requires
        s.wf(),
        x < 16,
        y < 16,
    ensures
        s.add_y_to_x(x, y).vx(0xF) == 1 <==> s.vx(x) + s.vx(y) > 255,
        s.add_y_to_x(x, y).vx(0xF) == 0 <==> s.vx(x) + s.vx(y) <= 255,
        x != 0xF ==> s.add_y_to_x(x, y).vx(x) == (s.vx(x) + s.vx(y)) % 256,
        forall|k: u8| k < 16 && k != x && k != 0xF ==> s.add_y_to_x(x, y).vx(k) == s.vx(k),
{
}

/// Whether drawing the sprite sets a pixel that was clear.
pub open spec fn lights_a_pixel(s: CpuState, x: u8, y: u8, n: u8) -> bool {
    exists|row: int, col: int|
        0 <= row < 32 && 0 <= col < 64 && s.pixels[row][col] == 0 && #[trigger] s.sprite_bit(
            x,
            y,
            n,
            row,
            col,
        ) == 1
}

/// Drawing a sprite twice at the same place gives back the screen as it was:
/// what the first drawing set, the second clears. After the second drawing
/// `VF` is 1 exactly if the first one set a pixel that was clear.
///
/// "At the same place" is a demand: the first drawing writes `VF`, so with
/// `x` or `y` the flag register the corner may have moved.
pub proof fn lemma_draw_twice_restores(s: CpuState, x: u8, y: u8, n: u8)
    requires
        s.wf(),
        x < 16,
        y < 16,
        n < 16,
        s.draw_a_sprite(x, y, n).vx(x) == s.vx(x),
        s.draw_a_sprite(x, y, n).vx(y) == s.vx(y),
    ensures
        s.draw_a_sprite(x, y, n).draw_a_sprite(x, y, n).pixels == s.pixels,
        s.draw_a_sprite(x, y, n).draw_a_sprite(x, y, n).vx(0xF) == 1 <==> lights_a_pixel(
            s,
            x,
            y,
            n,
        ),
        s.draw_a_sprite(x, y, n).draw_a_sprite(x, y, n).vx(0xF) == 0 <==> !lights_a_pixel(
            s,
            x,
            y,
            n,
        ),
{
    let once = s.draw_a_sprite(x, y, n);
    let twice = once.draw_a_sprite(x, y, n);
    assert(forall|p: u8, b: u8| #[trigger] ((p ^ b) ^ b) == p) by (bit_vector);
    assert(forall|p: u8| p <= 1 ==> (#[trigger] (p ^ 1) == 1 <==> p == 0)) by (bit_vector);
    assert forall|row: int, col: int| 0 <= row < 32 && 0 <= col < 64 implies once.sprite_bit(
        x,
        y,
        n,
        row,
        col,
    ) == s.sprite_bit(x, y, n, row, col) by {}
    assert(twice.pixels =~~= s.pixels);
    if once.collides(x, y, n) {
        let (row, col) = choose|row: int, col: int|
            0 <= row < 32 && 0 <= col < 64 && once.pixels[row][col] == 1
                && #[trigger] once.sprite_bit(x, y, n, row, col) == 1;
        assert(s.sprite_bit(x, y, n, row, col) == 1);
        assert(s.pixels[row][col] <= 1);
        assert(s.pixels[row][col] == 0);
    }
    if lights_a_pixel(s, x, y, n) {
        let (row, col) = choose|row: int, col: int|
            0 <= row < 32 && 0 <= col < 64 && s.pixels[row][col] == 0 && #[trigger] s.sprite_bit(
                x,
                y,
                n,
                row,
                col,
            ) == 1;
        assert(once.pixels[row][col] == 1);
        assert(once.sprite_bit(x, y, n, row, col) == 1);
    }
}

/// Registers that were copied to memory and are read back with the same
/// count and the same `I` are the registers that were copied, whatever was
/// done to them in between: the round trip gives back every register.
pub proof fn lemma_dump_then_load(s: CpuState, x: u8)
    requires
        s.wf(),
        x < 16,
        s.index + x < 4096,
    ensures
        s.store_registers_to_memory(x).read_memory_to_registers(x).registers == s.registers,
        forall|t: CpuState|
            t.index == s.index && t.memory == s.store_registers_to_memory(x).memory
                && t.registers.len() == 16 ==> forall|j: int|
                0 <= j <= x ==> #[trigger] t.read_memory_to_registers(x).registers[j]
                    == s.registers[j],
{
    assert(s.store_registers_to_memory(x).read_memory_to_registers(x).registers =~= s.registers);
}

/// A call and the return from it: after the call the program counter is at
/// the subroutine and one more stack slot is in use; after the return the
/// program counter is at the instruction that follows the call, and the
/// stack pointer is what it was.
pub proof fn lemma_call_then_return(
    s: CpuState,
    nnn: u16,
    random1: u8,
    elapsed1: int,
    random2: u8,
    elapsed2: int,
)
    requires
        s.wf(),
        0 <= s.pc <= 4094,
        s.sp < 16,
        nnn <= 4094,
        s.next_opcode() == 0x2000 + nnn,
        s.memory[nnn as int] == 0x00,
        s.memory[nnn + 1] == 0xEE,
    ensures
        s.step(random1, elapsed1).1 == Ok::<(), CpuError>(()),
        s.step(random1, elapsed1).0.pc == nnn,
        s.step(random1, elapsed1).0.sp == s.sp + 1,
        s.step(random1, elapsed1).0.step(random2, elapsed2).1 == Ok::<(), CpuError>(()),
        s.step(random1, elapsed1).0.step(random2, elapsed2).0.pc == s.pc + 2,
        s.step(random1, elapsed1).0.step(random2, elapsed2).0.sp == s.sp,
{
    let call = decode_spec(s.next_opcode());
    assert(call.c == 2 && call.nnn == nnn);
    let a = s.step(random1, elapsed1).0;
    assert(a.memory == s.memory);
    assert(a.next_opcode() == 0x00EE);
    let ret = decode_spec(a.next_opcode());
    assert(ret.c == 0 && ret.x == 0 && ret.y == 0xE && ret.d == 0xE);
}

/// The stack's two refusals: a call with sixteen calls outstanding is a
/// `StackOverflow`, a return with none outstanding a `StackUnderflow`, and
/// either leaves the state as it was.
pub proof fn lemma_stack_limits(s: CpuState, random: u8, elapsed: int)
    requires
        s.wf(),
        0 <= s.pc <= 4094,
    ensures
        decode_spec(s.next_opcode()).c == 2 && s.sp == 16 ==> s.step(random, elapsed) == (
            s,
            Err::<(), CpuError>(CpuError::StackOverflow),
        ),
        decode_spec(s.next_opcode()).c == 2 && s.sp < 16 ==> s.step(random, elapsed).1 == Ok::<
            (),
            CpuError,
        >(()),
        s.next_opcode() == 0x00EE && s.sp == 0 ==> s.step(random, elapsed) == (
            s,
            Err::<(), CpuError>(CpuError::StackUnderflow),
        ),
        s.next_opcode() == 0x00EE && s.sp > 0 ==> s.step(random, elapsed).1 == Ok::<(), CpuError>(
            (),
        ),
{
    if s.next_opcode() == 0x00EE {
        let ret = decode_spec(s.next_opcode());
        assert(ret.c == 0 && ret.x == 0 && ret.y == 0xE && ret.d == 0xE);
    }
}

/// The sum of the times in `elapsed`.
pub open spec fn total_time(elapsed: Seq<int>) -> int
    decreases elapsed.len(),
{
    if elapsed.len() == 0 {
        0
    } else {
        total_time(elapsed.drop_last()) + elapsed.last()
    }
}

/// The state after the timers have seen the times in `elapsed`, one after
/// the other.
pub open spec fn tick_all(s: CpuState, elapsed: Seq<int>) -> CpuState
    decreases elapsed.len(),
{
    if elapsed.len() == 0 {
        s
    } else {
        tick_all(s, elapsed.drop_last()).tick(elapsed.last())
    }
}

/// Counting in steps is counting at once: over any run of cycles in which no
/// instruction sets them, the timers have counted down once for every whole
/// period in the time that has passed, and have stopped at zero.
pub proof fn lemma_timers_follow_the_clock(s: CpuState, elapsed: Seq<int>)
    requires
        s.wf(),
        forall|k: int| 0 <= k < elapsed.len() ==> elapsed[k] >= 0,
    ensures
        total_time(elapsed) >= 0,
        tick_all(s, elapsed).delay == count_down(
            s.delay,
            (s.carry + total_time(elapsed)) / (TIMER_RATE as int),
        ),
        tick_all(s, elapsed).sound == count_down(
            s.sound,
            (s.carry + total_time(elapsed)) / (TIMER_RATE as int),
        ),
        tick_all(s, elapsed).carry == (s.carry + total_time(elapsed)) % (TIMER_RATE as int),
        0 <= tick_all(s, elapsed).delay <= s.delay,
        0 <= tick_all(s, elapsed).sound <= s.sound,
    decreases elapsed.len(),
{
    if elapsed.len() > 0 {
        lemma_timers_follow_the_clock(s, elapsed.drop_last());
    }
}

/// A timer set to `n` and left alone is at zero after `n` cycles that are
/// each at least one period apart, and stays there; it is never below zero.
pub proof fn lemma_timers_reach_zero(s: CpuState, elapsed: Seq<int>)
    requires
        s.wf(),
        forall|k: int| 0 <= k < elapsed.len() ==> elapsed[k] >= TIMER_RATE,
    ensures
        total_time(elapsed) >= elapsed.len() * TIMER_RATE,
        elapsed.len() >= s.sound ==> tick_all(s, elapsed).sound == 0,
        elapsed.len() >= s.delay ==> tick_all(s, elapsed).delay == 0,
        tick_all(s, elapsed).sound >= 0,
        tick_all(s, elapsed).delay >= 0,
    decreases elapsed.len(),
{
    lemma_timers_follow_the_clock(s, elapsed);
    lemma_total_time_grows(elapsed);
}

/// Times that are each at least one period add up to as many periods.
proof fn lemma_total_time_grows(elapsed: Seq<int>)
    requires
        forall|k: int| 0 <= k < elapsed.len() ==> elapsed[k] >= TIMER_RATE,
    ensures
        total_time(elapsed) >= elapsed.len() * TIMER_RATE,
    decreases elapsed.len(),
{
    if elapsed.len() > 0 {
        lemma_total_time_grows(elapsed.drop_last());
    }
}

/// The same at a slightly quicker pace: with cycles at least 16.6
/// milliseconds apart, a little less than a period, two cycles more than the
/// timer's value bring it to zero.
pub proof fn lemma_timers_reach_zero_at_16_6_ms(s: CpuState, elapsed: Seq<int>)
    requires
        s.wf(),
        forall|k: int| 0 <= k < elapsed.len() ==> elapsed[k] >= 16600,
    ensures
        elapsed.len() >= s.sound + 2 ==> tick_all(s, elapsed).sound == 0,
        elapsed.len() >= s.delay + 2 ==> tick_all(s, elapsed).delay == 0,
{
    lemma_timers_follow_the_clock(s, elapsed);
    lemma_total_time_at_16_6_ms(elapsed);
}

/// Times that are each at least 16.6 milliseconds add up to as many.
proof fn lemma_total_time_at_16_6_ms(elapsed: Seq<int>)
    requires
        forall|k: int| 0 <= k < elapsed.len() ==> elapsed[k] >= 16600,
    ensures
        total_time(elapsed) >= elapsed.len() * 16600,
    decreases elapsed.len(),
{
    if elapsed.len() > 0 {
        lemma_total_time_at_16_6_ms(elapsed.drop_last());
    }
}

} // verus!
