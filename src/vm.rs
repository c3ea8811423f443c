//! Virtual machine
use vstd::prelude::*;

use crate::display::{
    blank, draw_rows, group_coordinates, rows_collide, sprite_rows, Display, DrawResult, Pixel,
    Sprite, XCoordinate, YCoordinate,
};
use crate::errors::Chip8Error;
use crate::font::{font_as_bytes, font_glyphs, FONT_SIZE, FONT_SPRITE_ROWS};
use crate::instructions::{group_addr, group_nibble, group_vregister, Addr, Instruction, VRegister};
use crate::keypad::{group_key, Key, KeyState, Keypad};
use crate::memory::{Memory, RAM_SIZE};

verus! {

broadcast use group_vregister, group_addr, group_nibble, group_key, group_coordinates, Memory::lemma_len, Display::lemma_len, Keypad::lemma_len;

/// Memory address for program (ROM) start
pub const PROGRAM_START: u16 = 0x200;

/// Memory address of the built-in font
pub const FONT_ADDR: u16 = 0x0;

/// CPU registers
///
/// General purpose `V0`..`VF`, the address register `I` and the program counter
#[derive(Debug)]
pub struct Registers {
    /// General purpose registers, indexed by register
    pub vregisters: [u8; 16],
    /// Address register `I`
    pub i: u16,
    /// Program counter
    pub pc: u16,
}

impl Registers {
    /// Creates a new instance with default values
    pub fn new() -> (r: Registers)
        ensures
            r.vregisters@ == Seq::new(16, |k: int| 0u8),
            r.i == 0,
            r.pc == PROGRAM_START,
    {
        let r = Registers { vregisters: [0u8; 16], i: 0, pc: PROGRAM_START };
        assert(r.vregisters@ =~= Seq::new(16, |k: int| 0u8));
        r
    }

    /// The value of register `reg`
    pub fn get(&self, reg: VRegister) -> (r: u8)
        ensures
            r == self.vregisters@[reg.spec_ordinal() as int],
    {
        self.vregisters[reg.ordinal() as usize]
    }

    /// Sets register `reg` to `val`
    pub fn set(&mut self, reg: VRegister, val: u8)
        ensures
            final(self).vregisters@ == old(self).vregisters@.update(reg.spec_ordinal() as int, val),
            final(self).i == old(self).i,
            final(self).pc == old(self).pc,
    {
        self.vregisters[reg.ordinal() as usize] = val;
    }
}

impl Default for Registers {
    fn default() -> (r: Registers)
        ensures
            r.vregisters@ == Seq::new(16, |k: int| 0u8),
            r.i == 0,
            r.pc == PROGRAM_START,
    {
        Registers::new()
    }
}

impl core::ops::Index<VRegister> for Registers {
    type Output = u8;

    /// The value of register `reg`
    fn index(&self, reg: VRegister) -> (r: &u8)
        ensures
            *r == self.vregisters@[reg.spec_ordinal() as int],
    {
        &self.vregisters[reg.ordinal() as usize]
    }
}

impl core::ops::IndexMut<VRegister> for Registers {
    /// The value of register `reg`, to be changed in place
    fn index_mut(&mut self, reg: VRegister) -> (r: &mut u8)
        ensures
            *r == old(self).vregisters@[reg.spec_ordinal() as int],
            final(self).vregisters@ == old(self).vregisters@.update(
                reg.spec_ordinal() as int,
                *final(r),
            ),
            final(self).i == old(self).i,
            final(self).pc == old(self).pc,
    {
        &mut self.vregisters[reg.ordinal() as usize]
    }
}

/// The state of a machine as a value
pub struct MachineState {
    /// General purpose registers, indexed by register
    pub v: Seq<u8>,
    /// Address register `I`
    pub i: u16,
    /// Program counter
    pub pc: u16,
    /// Memory, indexed by address
    pub memory: Seq<u8>,
    /// Pixels of the display
    pub display: Seq<Pixel>,
    /// State of each key, indexed by key
    pub keypad: Seq<KeyState>,
    /// The register that receives the next key press, if the machine waits for one
    pub waiting: Option<VRegister>,
}

impl MachineState {
    /// The value of register `r`
    pub open spec fn reg(self, r: VRegister) -> u8 {
        self.v[r.spec_ordinal() as int]
    }

    /// The state with register `r` set to `val`
    pub open spec fn set_reg(self, r: VRegister, val: u8) -> MachineState {
        self.with_v(self.v.update(r.spec_ordinal() as int, val))
    }

    /// The state with the general purpose registers `v`
    pub open spec fn with_v(self, v: Seq<u8>) -> MachineState {
        MachineState {
            v,
            i: self.i,
            pc: self.pc,
            memory: self.memory,
            display: self.display,
            keypad: self.keypad,
            waiting: self.waiting,
        }
    }

    /// The state with address register `i`
    pub open spec fn with_i(self, i: u16) -> MachineState {
        MachineState {
            v: self.v,
            i,
            pc: self.pc,
            memory: self.memory,
            display: self.display,
            keypad: self.keypad,
            waiting: self.waiting,
        }
    }

    /// The state with program counter `pc`
    pub open spec fn with_pc(self, pc: u16) -> MachineState {
        MachineState {
            v: self.v,
            i: self.i,
            pc,
            memory: self.memory,
            display: self.display,
            keypad: self.keypad,
            waiting: self.waiting,
        }
    }

    /// The state with memory `memory`
    pub open spec fn with_memory(self, memory: Seq<u8>) -> MachineState {
        MachineState {
            v: self.v,
            i: self.i,
            pc: self.pc,
            memory,
            display: self.display,
            keypad: self.keypad,
            waiting: self.waiting,
        }
    }

    /// The state with display pixels `display`
    pub open spec fn with_display(self, display: Seq<Pixel>) -> MachineState {
        MachineState {
            v: self.v,
            i: self.i,
            pc: self.pc,
            memory: self.memory,
            display,
            keypad: self.keypad,
            waiting: self.waiting,
        }
    }

    /// The state waiting on a key press for `waiting`
    pub open spec fn with_waiting(self, waiting: Option<VRegister>) -> MachineState {
        MachineState {
            v: self.v,
            i: self.i,
            pc: self.pc,
            memory: self.memory,
            display: self.display,
            keypad: self.keypad,
            waiting,
        }
    }
}

/// The memory a new machine starts with: the font at `FONT_ADDR`, zero elsewhere
pub open spec fn initial_memory() -> Seq<u8> {
    Seq::new(
        RAM_SIZE as nat,
        |k: int|
            if FONT_ADDR <= k < FONT_ADDR + FONT_SIZE {
                font_glyphs()[k - FONT_ADDR]
            } else {
                0u8
            },
    )
}

/// The first address outside memory among the `len` addresses from `start` on, if there is one
pub open spec fn first_out_of_range(start: u16, len: nat) -> Option<u16> {
    if len > 0 && start + len - 1 > 0x0FFF {
        Some(
            if start > 0x0FFF {
                start
            } else {
                0x1000u16
            },
        )
    } else {
        None
    }
}

/// The state after a skip instruction: the program counter passes one more instruction when
/// `condition` holds
pub open spec fn skip_if(s: MachineState, condition: bool) -> MachineState {
    if condition {
        s.with_pc(((s.pc + 2) % 0x10000) as u16)
    } else {
        s
    }
}

/// The state after an operation that writes `flag` to `VF` and then `result` to `vx`
pub open spec fn with_flag(s: MachineState, vx: VRegister, result: int, flag: int) -> MachineState {
    s.set_reg(VRegister::VF, flag as u8).set_reg(vx, result as u8)
}

/// `1` when `b` holds, `0` otherwise
pub open spec fn bit(b: bool) -> int {
    if b {
        1
    } else {
        0
    }
}

/// The rows of the `n`-row sprite that starts at address `I`
pub open spec fn sprite_at(s: MachineState, n: nat) -> Seq<Seq<Pixel>> {
    sprite_rows(Seq::new(n, |k: int| s.memory[s.i + k]))
}

/// The state after executing `instruction`, or the error it fails with
///
/// `random_byte` is the byte that `Random` masks. A failing instruction changes nothing.
pub open spec fn spec_execute(s: MachineState, instruction: Instruction, random_byte: u8) -> Result<
    MachineState,
    Chip8Error,
> {
    let unimplemented = Err(Chip8Error::UnimplementedInstruction(instruction));
    match instruction {
        Instruction::Sys(_) => unimplemented,
        Instruction::Clear => Ok(s.with_display(blank())),
        Instruction::Return => unimplemented,
        Instruction::Jump(addr) => Ok(s.with_pc(addr@)),
        Instruction::Call(_) => unimplemented,
        Instruction::SkipEqualOperand(vx, byte) => Ok(skip_if(s, s.reg(vx) == byte)),
        Instruction::SkipNotEqualOperand(vx, byte) => Ok(skip_if(s, s.reg(vx) != byte)),
        Instruction::SkipEqual(vx, vy) => Ok(skip_if(s, s.reg(vx) == s.reg(vy))),
        Instruction::LoadOperand(vx, byte) => Ok(s.set_reg(vx, byte)),
        Instruction::AddOperand(vx, byte) => Ok(s.set_reg(vx, ((s.reg(vx) + byte) % 0x100) as u8)),
        Instruction::Load(vx, vy) => Ok(s.set_reg(vx, s.reg(vy))),
        Instruction::Or(vx, vy) => Ok(s.set_reg(vx, s.reg(vx) | s.reg(vy))),
        Instruction::And(vx, vy) => Ok(s.set_reg(vx, s.reg(vx) & s.reg(vy))),
        Instruction::XOr(vx, vy) => Ok(s.set_reg(vx, s.reg(vx) ^ s.reg(vy))),
        Instruction::Add(vx, vy) => Ok(
            with_flag(
                s,
                vx,
                (s.reg(vx) + s.reg(vy)) % 0x100,
                bit(s.reg(vx) + s.reg(vy) > 0xFF),
            ),
        ),
        Instruction::Sub(vx, vy) => Ok(
            with_flag(s, vx, (s.reg(vx) - s.reg(vy)) % 0x100, bit(s.reg(vx) >= s.reg(vy))),
        ),
        Instruction::ShiftRight(vx, vy) => Ok(with_flag(s, vx, s.reg(vy) as int / 2, s.reg(vy) as int % 2)),
        Instruction::SubNegated(vx, vy) => Ok(
            with_flag(s, vx, (s.reg(vy) - s.reg(vx)) % 0x100, bit(s.reg(vy) >= s.reg(vx))),
        ),
        Instruction::ShiftLeft(vx, vy) => Ok(
            with_flag(s, vx, (s.reg(vy) * 2) % 0x100, s.reg(vy) as int / 0x80),
        ),
        Instruction::SkipNotEqual(vx, vy) => Ok(skip_if(s, s.reg(vx) != s.reg(vy))),
        Instruction::LoadI(addr) => Ok(s.with_i(addr@)),
        Instruction::LongJump(addr) => Ok(s.with_pc((s.reg(VRegister::V0) + addr@) as u16)),
        Instruction::Random(vx, byte) => Ok(s.set_reg(vx, random_byte & byte)),
        Instruction::Draw(vx, vy, n) => match first_out_of_range(s.i, n@ as nat) {
            Some(a) => Err(Chip8Error::OutOfRange(a)),
            None => {
                let rows = sprite_at(s, n@ as nat);
                let x = s.reg(vx) as int % 64;
                let y = s.reg(vy) as int % 32;
                Ok(
                    s.with_display(draw_rows(s.display, rows, x, y, n@ as nat)).set_reg(
                        VRegister::VF,
                        bit(rows_collide(s.display, rows, x, y, n@ as nat)) as u8,
                    ),
                )
            },
        },
        Instruction::SkipKeyPressed(vx) => if s.reg(vx) < 16 {
            Ok(skip_if(s, s.keypad[s.reg(vx) as int] == KeyState::Pressed))
        } else {
            Err(Chip8Error::InvalidKey(s.reg(vx)))
        },
        Instruction::SkipKeyNotPressed(vx) => if s.reg(vx) < 16 {
            Ok(skip_if(s, s.keypad[s.reg(vx) as int] == KeyState::NotPressed))
        } else {
            Err(Chip8Error::InvalidKey(s.reg(vx)))
        },
        Instruction::LoadRegisterDelayTimer(_) => unimplemented,
        Instruction::LoadKey(vx) => Ok(s.with_waiting(Some(vx))),
        Instruction::LoadDelayTimerRegister(_) => unimplemented,
        Instruction::LoadSoundTimerRegister(_) => unimplemented,
        Instruction::AddI(vx) => Ok(s.with_i(((s.i + s.reg(vx)) % 0x10000) as u16)),
        Instruction::LoadSprite(vx) => Ok(
            s.with_i((FONT_ADDR + (s.reg(vx) % 16) * FONT_SPRITE_ROWS) as u16),
        ),
        Instruction::LoadBinaryCodedDecimal(vx) => match first_out_of_range(s.i, 3) {
            Some(a) => Err(Chip8Error::OutOfRange(a)),
            None => Ok(
                s.with_memory(
                    s.memory.update(s.i as int, (s.reg(vx) / 100) as u8).update(
                        s.i + 1,
                        ((s.reg(vx) / 10) % 10) as u8,
                    ).update(s.i + 2, (s.reg(vx) % 10) as u8),
                ),
            ),
        },
        Instruction::LoadMemoryRegisters(vx) => match first_out_of_range(
            s.i,
            (vx.spec_ordinal() + 2) as nat,
        ) {
            Some(a) => Err(Chip8Error::OutOfRange(a)),
            None => Ok(
                s.with_memory(
                    Seq::new(
                        s.memory.len(),
                        |k: int|
                            if s.i <= k <= s.i + vx.spec_ordinal() {
                                s.v[k - s.i]
                            } else {
                                s.memory[k]
                            },
                    ),
                ).with_i((s.i + vx.spec_ordinal() + 1) as u16),
            ),
        },
        Instruction::LoadRegistersMemory(vx) => match first_out_of_range(
            s.i,
            (vx.spec_ordinal() + 2) as nat,
        ) {
            Some(a) => Err(Chip8Error::OutOfRange(a)),
            None => Ok(
                s.with_v(
                    Seq::new(
                        16,
                        |k: int|
                            if k <= vx.spec_ordinal() {
                                s.memory[s.i + k]
                            } else {
                                s.v[k]
                            },
                    ),
                ).with_i((s.i + vx.spec_ordinal() + 1) as u16),
            ),
        },
    }
}

/// Whether `post` and `r` are what executing `instruction` on `pre` gives: the state
/// `spec_execute` gives and `Ok`, or `pre` unchanged and the error
pub open spec fn executes(
    pre: MachineState,
    instruction: Instruction,
    random_byte: u8,
    post: MachineState,
    r: Result<(), Chip8Error>,
) -> bool {
    match spec_execute(pre, instruction, random_byte) {
        Ok(s) => r == Ok::<(), Chip8Error>(()) && post == s,
        Err(e) => r == Err::<(), Chip8Error>(e) && post == pre,
    }
}

/// Virtual machine
pub struct VM {
    /// CPU registers
    pub registers: Registers,
    /// Keypad
    pub keypad: Keypad,
    /// The register that receives the next key press, if the machine waits for one
    pub waiting_on_any_keypress: Option<VRegister>,
    /// RAM
    pub memory: Memory,
    /// Display
    pub display: Display,
}

impl View for VM {
    type V = MachineState;

    open spec fn view(&self) -> MachineState {
        MachineState {
            v: self.registers.vregisters@,
            i: self.registers.i,
            pc: self.registers.pc,
            memory: self.memory@,
            display: self.display@,
            keypad: self.keypad@,
            waiting: self.waiting_on_any_keypress,
        }
    }
}

/// Checks that the `len` addresses from `start` on all lie in memory
fn check_span(start: u16, len: u16) -> (r: Result<(), Chip8Error>)
    ensures
        match first_out_of_range(start, len as nat) {
            Some(a) => r == Err::<(), Chip8Error>(Chip8Error::OutOfRange(a)),
            None => r == Ok::<(), Chip8Error>(()),
        },
{
    if len > 0 && start as u32 + len as u32 - 1 > 0x0FFF {
        if start > 0x0FFF {
            Err(Chip8Error::OutOfRange(start))
        } else {
            Err(Chip8Error::OutOfRange(0x1000))
        }
    } else {
        Ok(())
    }
}

impl VM {
    /// Creates a machine with zeroed registers, `PC` at `PROGRAM_START`, the built-in font at
    /// `FONT_ADDR`, memory zero elsewhere, a clear display and no key pressed
    pub fn new() -> (r: VM)
        ensures
            r@.v == Seq::new(16, |k: int| 0u8),
            r@.i == 0,
            r@.pc == PROGRAM_START,
            r@.memory == initial_memory(),
            r@.display == blank(),
            r@.keypad == Seq::new(16, |k: int| KeyState::NotPressed),
            r@.waiting == None::<VRegister>,
    {
        let mut vm = VM {
            registers: Registers::new(),
            keypad: Keypad::new(),
            waiting_on_any_keypress: None,
            memory: Memory::new(),
            display: Display::new(),
        };
        let font = font_as_bytes();
        let ghost pre = vm@;
        let mut k: usize = 0;
        while k < FONT_SIZE
            invariant
                k <= FONT_SIZE,
                font@ == font_glyphs(),
                vm@.v == pre.v,
                vm@.i == pre.i,
                vm@.pc == pre.pc,
                vm@.display == pre.display,
                vm@.keypad == pre.keypad,
                vm@.waiting == pre.waiting,
                vm.memory@ == Seq::new(
                    RAM_SIZE as nat,
                    |a: int|
                        if FONT_ADDR <= a < FONT_ADDR + k {
                            font_glyphs()[a - FONT_ADDR]
                        } else {
                            0u8
                        },
                ),
            decreases FONT_SIZE - k,
        {
            let addr = Addr::from(FONT_ADDR + k as u16);
            vm.memory.write(addr, font[k]);
            proof {
                assert(vm.memory@ =~= Seq::new(
                    RAM_SIZE as nat,
                    |a: int|
                        if FONT_ADDR <= a < FONT_ADDR + k + 1 {
                            font_glyphs()[a - FONT_ADDR]
                        } else {
                            0u8
                        },
                ));
            }
            k = k + 1;
        }
        assert(vm.memory@ =~= initial_memory());
        vm
    }

    /// The value of register `r`
    fn reg(&self, r: VRegister) -> (v: u8)
        ensures
            v == self@.reg(r),
    {
        self.registers.get(r)
    }

    /// Sets register `r` to `v`
    fn set_reg(&mut self, r: VRegister, v: u8)
        ensures
            final(self)@ == old(self)@.set_reg(r, v),
    {
        self.registers.set(r, v);
    }

    /// Writes `flag` to `VF`, then `result` to `vx`
    fn write_with_flag(&mut self, vx: VRegister, result: u8, flag: u8)
        ensures
            final(self)@ == with_flag(old(self)@, vx, result as int, flag as int),
    {
        self.set_reg(VRegister::VF, flag);
        self.set_reg(vx, result);
    }

    /// `Vx = Vx + Vy` with the carry in `VF`
    fn add(&mut self, vx: VRegister, vy: VRegister)
        ensures
            final(self)@ == with_flag(
                old(self)@,
                vx,
                (old(self)@.reg(vx) + old(self)@.reg(vy)) % 0x100,
                bit(old(self)@.reg(vx) + old(self)@.reg(vy) > 0xFF),
            ),
    {
        let x = self.reg(vx);
        let y = self.reg(vy);
        let carry: u8 = if x as u16 + y as u16 > 0xFF {
            1
        } else {
            0
        };
        self.write_with_flag(vx, x.wrapping_add(y), carry);
    }

    /// `Vx = Vx - Vy` with `VF` set when no borrow occurs
    fn sub(&mut self, vx: VRegister, vy: VRegister)
        ensures
            final(self)@ == with_flag(
                old(self)@,
                vx,
                (old(self)@.reg(vx) - old(self)@.reg(vy)) % 0x100,
                bit(old(self)@.reg(vx) >= old(self)@.reg(vy)),
            ),
    {
        let x = self.reg(vx);
        let y = self.reg(vy);
        let not_borrow: u8 = if x >= y {
            1
        } else {
            0
        };
        self.write_with_flag(vx, x.wrapping_sub(y), not_borrow);
    }

    /// `Vx = Vy - Vx` with `VF` set when no borrow occurs
    fn sub_negated(&mut self, vx: VRegister, vy: VRegister)
        ensures
            final(self)@ == with_flag(
                old(self)@,
                vx,
                (old(self)@.reg(vy) - old(self)@.reg(vx)) % 0x100,
                bit(old(self)@.reg(vy) >= old(self)@.reg(vx)),
            ),
    {
        let x = self.reg(vx);
        let y = self.reg(vy);
        let not_borrow: u8 = if y >= x {
            1
        } else {
            0
        };
        self.write_with_flag(vx, y.wrapping_sub(x), not_borrow);
    }

    /// `Vx = Vy >> 1` with the bit shifted out in `VF`
    fn shift_right(&mut self, vx: VRegister, vy: VRegister)
        ensures
            final(self)@ == with_flag(
                old(self)@,
                vx,
                old(self)@.reg(vy) as int / 2,
                old(self)@.reg(vy) as int % 2,
            ),
    {
        let y = self.reg(vy);
        self.write_with_flag(vx, y / 2, y % 2);
    }

    /// `Vx = Vy << 1` with the bit shifted out in `VF`
    fn shift_left(&mut self, vx: VRegister, vy: VRegister)
        ensures
            final(self)@ == with_flag(
                old(self)@,
                vx,
                (old(self)@.reg(vy) * 2) % 0x100,
                old(self)@.reg(vy) as int / 0x80,
            ),
    {
        let y = self.reg(vy);
        self.write_with_flag(vx, ((y as u16 * 2) % 0x100) as u8, y / 0x80);
    }

    /// Passes the next instruction when `condition` holds
    fn skip_if(&mut self, condition: bool)
        ensures
            final(self)@ == skip_if(old(self)@, condition),
    {
        if condition {
            self.registers.pc = self.registers.pc.wrapping_add(2);
        }
    }

    /// Executes `instruction`
    ///
    /// `random_byte` is the byte that `Random` masks; no other instruction reads it. `Sys`,
    /// `Return`, `Call` and the timer instructions fail with `UnimplementedInstruction`; a host
    /// with a handler for `SYS` hands that opcode to it instead. Memory accesses outside
    /// `0x0` .. `0xFFF` fail with `OutOfRange` of the first such address. On an error the machine
    /// is left unchanged.
    pub fn execute_instruction(&mut self, instruction: &Instruction, random_byte: u8) -> (r: Result<
        (),
        Chip8Error,
    >)
        ensures
            executes(old(self)@, *instruction, random_byte, final(self)@, r),
    {
        let instruction = *instruction;
        match instruction {
            Instruction::Sys(..)
            | Instruction::Clear
            | Instruction::Return
            | Instruction::Jump(..)
            | Instruction::Call(..)
            | Instruction::LoadI(..)
            | Instruction::LongJump(..) => self.execute_flow(instruction, random_byte),
            Instruction::SkipEqualOperand(..)
            | Instruction::SkipNotEqualOperand(..)
            | Instruction::SkipEqual(..)
            | Instruction::SkipNotEqual(..)
            | Instruction::SkipKeyPressed(..)
            | Instruction::SkipKeyNotPressed(..) => self.execute_skip(instruction, random_byte),
            Instruction::LoadOperand(..)
            | Instruction::AddOperand(..)
            | Instruction::Load(..)
            | Instruction::Random(..) => self.execute_load_register(instruction, random_byte),
            Instruction::Or(..) | Instruction::And(..) | Instruction::XOr(..) => self.execute_bitwise(
                instruction,
                random_byte,
            ),
            Instruction::Add(..)
            | Instruction::Sub(..)
            | Instruction::ShiftRight(..)
            | Instruction::SubNegated(..)
            | Instruction::ShiftLeft(..) => self.execute_flagged(instruction, random_byte),
            Instruction::LoadRegisterDelayTimer(..)
            | Instruction::LoadKey(..)
            | Instruction::LoadDelayTimerRegister(..)
            | Instruction::LoadSoundTimerRegister(..)
            | Instruction::AddI(..)
            | Instruction::LoadSprite(..) => self.execute_misc(instruction, random_byte),
            Instruction::Draw(..) => self.execute_draw(instruction, random_byte),
            Instruction::LoadBinaryCodedDecimal(..) => self.execute_bcd(instruction, random_byte),
            Instruction::LoadMemoryRegisters(..) => self.execute_store(instruction, random_byte),
            Instruction::LoadRegistersMemory(..) => self.execute_load(instruction, random_byte),
        }
    }

    /// Executes an instruction that sets `PC` or `I` to an address, clears the display, or is
    /// not implemented
    fn execute_flow(&mut self, instruction: Instruction, random_byte: u8) -> (r: Result<
        (),
        Chip8Error,
    >)
        requires
            instruction is Sys || instruction is Clear || instruction is Return
                || instruction is Jump || instruction is Call || instruction is LoadI
                || instruction is LongJump,
        ensures
            executes(old(self)@, instruction, random_byte, final(self)@, r),
    {
        match instruction {
            Instruction::Clear => self.display.clear(),
            Instruction::Jump(addr) => self.registers.pc = addr.value(),
            Instruction::LoadI(addr) => self.registers.i = addr.value(),
            Instruction::LongJump(addr) => {
                self.registers.pc = self.reg(VRegister::V0) as u16 + addr.value();
            },
            _ => return Err(Chip8Error::UnimplementedInstruction(instruction)),
        }
        Ok(())
    }

    /// Executes an instruction that skips the next one on a condition
    fn execute_skip(&mut self, instruction: Instruction, random_byte: u8) -> (r: Result<
        (),
        Chip8Error,
    >)
        requires
            instruction is SkipEqualOperand || instruction is SkipNotEqualOperand
                || instruction is SkipEqual || instruction is SkipNotEqual
                || instruction is SkipKeyPressed || instruction is SkipKeyNotPressed,
        ensures
            executes(old(self)@, instruction, random_byte, final(self)@, r),
    {
        match instruction {
            Instruction::SkipEqualOperand(vx, byte) => {
                let x = self.reg(vx);
                self.skip_if(x == byte);
            },
            Instruction::SkipNotEqualOperand(vx, byte) => {
                let x = self.reg(vx);
                self.skip_if(x != byte);
            },
            Instruction::SkipEqual(vx, vy) => {
                let x = self.reg(vx);
                let y = self.reg(vy);
                self.skip_if(x == y);
            },
            Instruction::SkipNotEqual(vx, vy) => {
                let x = self.reg(vx);
                let y = self.reg(vy);
                self.skip_if(x != y);
            },
            Instruction::SkipKeyPressed(vx) => {
                let key = match Key::try_from(self.reg(vx)) {
                    Ok(key) => key,
                    Err(e) => return Err(e),
                };
                let pressed = self.keypad.state(key) == KeyState::Pressed;
                self.skip_if(pressed);
            },
            Instruction::SkipKeyNotPressed(vx) => {
                let key = match Key::try_from(self.reg(vx)) {
                    Ok(key) => key,
                    Err(e) => return Err(e),
                };
                let not_pressed = self.keypad.state(key) == KeyState::NotPressed;
                self.skip_if(not_pressed);
            },
            _ => unreached(),
        }
        Ok(())
    }

    /// Executes an instruction that loads a register from an operand, another register or the
    /// random byte
    fn execute_load_register(&mut self, instruction: Instruction, random_byte: u8) -> (r: Result<
        (),
        Chip8Error,
    >)
        requires
            instruction is LoadOperand || instruction is AddOperand || instruction is Load
                || instruction is Random,
        ensures
            executes(old(self)@, instruction, random_byte, final(self)@, r),
    {
        match instruction {
            Instruction::LoadOperand(vx, byte) => self.set_reg(vx, byte),
            Instruction::AddOperand(vx, byte) => {
                let x = self.reg(vx);
                let sum = x.wrapping_add(byte);
                assert(sum == (x + byte) % 0x100);
                self.set_reg(vx, sum);
            },
            Instruction::Load(vx, vy) => {
                let y = self.reg(vy);
                self.set_reg(vx, y);
            },
            Instruction::Random(vx, byte) => self.set_reg(vx, random_byte & byte),
            _ => unreached(),
        }
        Ok(())
    }

    /// Executes a bitwise instruction on two registers
    fn execute_bitwise(&mut self, instruction: Instruction, random_byte: u8) -> (r: Result<
        (),
        Chip8Error,
    >)
        requires
            instruction is Or || instruction is And || instruction is XOr,
        ensures
            executes(old(self)@, instruction, random_byte, final(self)@, r),
    {
        match instruction {
            Instruction::Or(vx, vy) => {
                let v = self.reg(vx) | self.reg(vy);
                self.set_reg(vx, v);
            },
            Instruction::And(vx, vy) => {
                let v = self.reg(vx) & self.reg(vy);
                self.set_reg(vx, v);
            },
            Instruction::XOr(vx, vy) => {
                let v = self.reg(vx) ^ self.reg(vy);
                self.set_reg(vx, v);
            },
            _ => unreached(),
        }
        Ok(())
    }

    /// Executes an arithmetic instruction that writes its flag to `VF` before its result to `Vx`
    fn execute_flagged(&mut self, instruction: Instruction, random_byte: u8) -> (r: Result<
        (),
        Chip8Error,
    >)
        requires
            instruction is Add || instruction is Sub || instruction is ShiftRight
                || instruction is SubNegated || instruction is ShiftLeft,
        ensures
            executes(old(self)@, instruction, random_byte, final(self)@, r),
    {
        match instruction {
            Instruction::Add(vx, vy) => self.add(vx, vy),
            Instruction::Sub(vx, vy) => self.sub(vx, vy),
            Instruction::ShiftRight(vx, vy) => self.shift_right(vx, vy),
            Instruction::SubNegated(vx, vy) => self.sub_negated(vx, vy),
            Instruction::ShiftLeft(vx, vy) => self.shift_left(vx, vy),
            _ => unreached(),
        }
        Ok(())
    }

    /// Executes a timer or key-wait instruction, or one that sets `I` from a register
    fn execute_misc(&mut self, instruction: Instruction, random_byte: u8) -> (r: Result<
        (),
        Chip8Error,
    >)
        requires
            instruction is LoadRegisterDelayTimer || instruction is LoadKey
                || instruction is LoadDelayTimerRegister || instruction is LoadSoundTimerRegister
                || instruction is AddI || instruction is LoadSprite,
        ensures
            executes(old(self)@, instruction, random_byte, final(self)@, r),
    {
        match instruction {
            Instruction::LoadKey(vx) => self.waiting_on_any_keypress = Some(vx),
            Instruction::AddI(vx) => {
                let x = self.reg(vx);
                self.registers.i = self.registers.i.wrapping_add(x as u16);
            },
            Instruction::LoadSprite(vx) => {
                let digit = self.reg(vx) % 16;
                self.registers.i = FONT_ADDR + digit as u16 * FONT_SPRITE_ROWS as u16;
            },
            _ => return Err(Chip8Error::UnimplementedInstruction(instruction)),
        }
        Ok(())
    }

    /// Executes `Draw`: reads the sprite at `I` and draws it at the coordinates held in `Vx` and
    /// `Vy`, setting `VF` when a pixel was erased
    fn execute_draw(&mut self, instruction: Instruction, random_byte: u8) -> (r: Result<
        (),
        Chip8Error,
    >)
        requires
            instruction is Draw,
        ensures
            executes(old(self)@, instruction, random_byte, final(self)@, r),
    {
        match instruction {
            Instruction::Draw(vx, vy, n) => {
                let count = n.value() as u16;
                let start = self.registers.i;
                match check_span(start, count) {
                    Ok(()) => {},
                    Err(e) => return Err(e),
                }
                let mut data: Vec<u8> = Vec::with_capacity(count as usize);
                let mut k: u16 = 0;
                while k < count
                    invariant
                        k <= count,
                        count < 16,
                        count > 0 ==> start + count - 1 <= 0x0FFF,
                        start == self.registers.i,
                        self@ == old(self)@,
                        data@ == Seq::new(k as nat, |j: int| self@.memory[start + j]),
                    decreases count - k,
                {
                    data.push(self.memory.read(Addr::from(start + k)));
                    proof {
                        assert(data@ =~= Seq::new((k + 1) as nat, |j: int| self@.memory[start + j]));
                    }
                    k = k + 1;
                }
                let sprite = Sprite::from_bytes(data.as_slice());
                assert(sprite@ =~= sprite_at(self@, count as nat));
                let x = XCoordinate::new(self.reg(vx) as usize);
                let y = YCoordinate::new(self.reg(vy) as usize);
                let drawn = self.display.draw(&sprite, x, y);
                let erased: u8 = match drawn {
                    DrawResult::Drawn => 0,
                    DrawResult::Overdrawn => 1,
                };
                self.set_reg(VRegister::VF, erased);
            },
            _ => unreached(),
        }
        Ok(())
    }

    /// Executes `LoadBinaryCodedDecimal`: writes the hundreds, tens and ones digits of `Vx` at
    /// `I`, `I + 1` and `I + 2`
    fn execute_bcd(&mut self, instruction: Instruction, random_byte: u8) -> (r: Result<
        (),
        Chip8Error,
    >)
        requires
            instruction is LoadBinaryCodedDecimal,
        ensures
            executes(old(self)@, instruction, random_byte, final(self)@, r),
    {
        match instruction {
            Instruction::LoadBinaryCodedDecimal(vx) => {
                let start = self.registers.i;
                match check_span(start, 3) {
                    Ok(()) => {},
                    Err(e) => return Err(e),
                }
                let num = self.reg(vx);
                self.memory.write(Addr::from(start), num / 100);
                self.memory.write(Addr::from(start + 1), (num / 10) % 10);
                self.memory.write(Addr::from(start + 2), num % 10);
            },
            _ => unreached(),
        }
        Ok(())
    }

    /// Executes `LoadMemoryRegisters`: stores `V0` ..= `Vx` at `I` onwards, then advances `I`
    /// past them
    fn execute_store(&mut self, instruction: Instruction, random_byte: u8) -> (r: Result<
        (),
        Chip8Error,
    >)
        requires
            instruction is LoadMemoryRegisters,
        ensures
            executes(old(self)@, instruction, random_byte, final(self)@, r),
    {
        match instruction {
            Instruction::LoadMemoryRegisters(vx) => {
                let last = vx.ordinal();
                let start = self.registers.i;
                match check_span(start, last as u16 + 2) {
                    Ok(()) => {},
                    Err(e) => return Err(e),
                }
                let ghost pre = self@;
                proof {
                    assert(pre.memory =~= Seq::new(
                        pre.memory.len(),
                        |a: int|
                            if start <= a < start + 0 {
                                pre.v[a - start]
                            } else {
                                pre.memory[a]
                            },
                    ));
                }
                let mut k: u8 = 0;
                while k <= last
                    invariant
                        k <= last + 1,
                        last < 16,
                        start + last + 1 <= 0x0FFF,
                        start == pre.i,
                        self@ == pre.with_memory(
                            Seq::new(
                                pre.memory.len(),
                                |a: int|
                                    if start <= a < start + k {
                                        pre.v[a - start]
                                    } else {
                                        pre.memory[a]
                                    },
                            ),
                        ),
                    decreases last + 1 - k,
                {
                    let val = self.registers.vregisters[k as usize];
                    self.memory.write(Addr::from(start + k as u16), val);
                    proof {
                        assert(self@.memory =~= Seq::new(
                            pre.memory.len(),
                            |a: int|
                                if start <= a < start + k + 1 {
                                    pre.v[a - start]
                                } else {
                                    pre.memory[a]
                                },
                        ));
                    }
                    k = k + 1;
                }
                self.registers.i = start + last as u16 + 1;
                proof {
                    let expected = Seq::new(
                        pre.memory.len(),
                        |a: int|
                            if pre.i <= a <= pre.i + vx.spec_ordinal() {
                                pre.v[a - pre.i]
                            } else {
                                pre.memory[a]
                            },
                    );
                    assert(self@.memory =~= expected);
                }
            },
            _ => unreached(),
        }
        Ok(())
    }

    /// Executes `LoadRegistersMemory`: loads `V0` ..= `Vx` from `I` onwards, then advances `I`
    /// past them
    fn execute_load(&mut self, instruction: Instruction, random_byte: u8) -> (r: Result<
        (),
        Chip8Error,
    >)
        requires
            instruction is LoadRegistersMemory,
        ensures
            executes(old(self)@, instruction, random_byte, final(self)@, r),
    {
        match instruction {
            Instruction::LoadRegistersMemory(vx) => {
                let last = vx.ordinal();
                let start = self.registers.i;
                match check_span(start, last as u16 + 2) {
                    Ok(()) => {},
                    Err(e) => return Err(e),
                }
                let ghost pre = self@;
                proof {
                    assert(pre.v =~= Seq::new(
                        16,
                        |j: int|
                            if j < 0 {
                                pre.memory[start + j]
                            } else {
                                pre.v[j]
                            },
                    ));
                }
                let mut k: u8 = 0;
                while k <= last
                    invariant
                        k <= last + 1,
                        last < 16,
                        start + last + 1 <= 0x0FFF,
                        start == pre.i,
                        self@ == pre.with_v(
                            Seq::new(
                                16,
                                |j: int|
                                    if j < k {
                                        pre.memory[start + j]
                                    } else {
                                        pre.v[j]
                                    },
                            ),
                        ),
                    decreases last + 1 - k,
                {
                    let val = self.memory.read(Addr::from(start + k as u16));
                    self.registers.vregisters[k as usize] = val;
                    proof {
                        assert(self@.v =~= Seq::new(
                            16,
                            |j: int|
                                if j < k + 1 {
                                    pre.memory[start + j]
                                } else {
                                    pre.v[j]
                                },
                        ));
                    }
                    k = k + 1;
                }
                self.registers.i = start + last as u16 + 1;
                proof {
                    let expected = Seq::new(
                        16,
                        |j: int|
                            if j <= vx.spec_ordinal() {
                                pre.memory[pre.i + j]
                            } else {
                                pre.v[j]
                            },
                    );
                    assert(self@.v =~= expected);
                }
            },
            _ => unreached(),
        }
        Ok(())
    }
}

impl Default for VM {
    fn default() -> (r: VM)
        ensures
            r@.v == Seq::new(16, |k: int| 0u8),
            r@.i == 0,
            r@.pc == PROGRAM_START,
            r@.memory == initial_memory(),
            r@.display == blank(),
            r@.keypad == Seq::new(16, |k: int| KeyState::NotPressed),
            r@.waiting == None::<VRegister>,
    {
        VM::new()
    }
}

} // verus!
