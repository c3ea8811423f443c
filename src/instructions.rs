//! Machine language and byte code instructions
use vstd::prelude::*;

use crate::errors::Chip8Error;

verus! {

/// General purpose register
#[derive(Clone, Copy, Debug, PartialEq, Eq, Structural)]
pub enum VRegister {
    V0,
    V1,
    V2,
    V3,
    V4,
    V5,
    V6,
    V7,
    V8,
    V9,
    VA,
    VB,
    VC,
    VD,
    VE,
    VF,
}

impl VRegister {
    /// The 4-bit index of the register
    #[verifier::opaque]
    pub open spec fn spec_ordinal(self) -> u8 {
        match self {
            VRegister::V0 => 0,
            VRegister::V1 => 1,
            VRegister::V2 => 2,
            VRegister::V3 => 3,
            VRegister::V4 => 4,
            VRegister::V5 => 5,
            VRegister::V6 => 6,
            VRegister::V7 => 7,
            VRegister::V8 => 8,
            VRegister::V9 => 9,
            VRegister::VA => 10,
            VRegister::VB => 11,
            VRegister::VC => 12,
            VRegister::VD => 13,
            VRegister::VE => 14,
            VRegister::VF => 15,
        }
    }

    /// The register with 4-bit index `n` (`VF` for every `n` above `0xE`)
    #[verifier::opaque]
    pub open spec fn from_ordinal(n: u8) -> VRegister {
        match n {
            0 => VRegister::V0,
            1 => VRegister::V1,
            2 => VRegister::V2,
            3 => VRegister::V3,
            4 => VRegister::V4,
            5 => VRegister::V5,
            6 => VRegister::V6,
            7 => VRegister::V7,
            8 => VRegister::V8,
            9 => VRegister::V9,
            10 => VRegister::VA,
            11 => VRegister::VB,
            12 => VRegister::VC,
            13 => VRegister::VD,
            14 => VRegister::VE,
            _ => VRegister::VF,
        }
    }

    /// Registers and their indices correspond one to one
    pub broadcast proof fn lemma_ordinal(r: VRegister)
        ensures
            #[trigger] r.spec_ordinal() < 16,
            VRegister::from_ordinal(r.spec_ordinal()) == r,
    {
        reveal(VRegister::spec_ordinal);
        reveal(VRegister::from_ordinal);
    }

    /// The register built from an index in `0x0` .. `0xF` has that index
    pub broadcast proof fn lemma_from_ordinal(n: u8)
        requires
            n < 16,
        ensures
            #[trigger] VRegister::from_ordinal(n).spec_ordinal() == n,
    {
        reveal(VRegister::spec_ordinal);
        reveal(VRegister::from_ordinal);
    }

    /// The 4-bit index of the register
    #[verifier::when_used_as_spec(spec_ordinal)]
    pub fn ordinal(self) -> (r: u8)
        ensures
            r == self.spec_ordinal(),
            r < 16,
    {
        reveal(VRegister::spec_ordinal);
        match self {
            VRegister::V0 => 0,
            VRegister::V1 => 1,
            VRegister::V2 => 2,
            VRegister::V3 => 3,
            VRegister::V4 => 4,
            VRegister::V5 => 5,
            VRegister::V6 => 6,
            VRegister::V7 => 7,
            VRegister::V8 => 8,
            VRegister::V9 => 9,
            VRegister::VA => 10,
            VRegister::VB => 11,
            VRegister::VC => 12,
            VRegister::VD => 13,
            VRegister::VE => 14,
            VRegister::VF => 15,
        }
    }

    /// Returns the registers from `V0` up to and including `upper_bound`, in order
    pub fn iter_to(upper_bound: VRegister) -> (r: Vec<VRegister>)
        ensures
            r@.len() == upper_bound.spec_ordinal() + 1,
            forall|k: int| 0 <= k < r@.len() ==> (#[trigger] r@[k]).spec_ordinal() == k,
    {
        broadcast use group_vregister;

        let upper = upper_bound.ordinal();
        let mut regs: Vec<VRegister> = Vec::new();
        let mut n: u8 = 0;
        while n <= upper
            invariant
                upper < 16,
                n <= upper + 1,
                regs@.len() == n,
                forall|k: int| 0 <= k < regs@.len() ==> (#[trigger] regs@[k]).spec_ordinal() == k,
            decreases upper + 1 - n,
        {
            match VRegister::try_from(n) {
                Ok(reg) => {
                    proof {
                        VRegister::lemma_from_ordinal(n);
                    }
                    regs.push(reg);
                },
                Err(_) => {},
            }
            n = n + 1;
        }
        regs
    }
}

pub broadcast group group_vregister {
    VRegister::lemma_ordinal,
    VRegister::lemma_from_ordinal,
}

impl TryFrom<u8> for VRegister {
    type Error = Chip8Error;

    /// Checked conversion from a register index
    fn try_from(value: u8) -> (r: Result<VRegister, Chip8Error>) {
        reveal(VRegister::from_ordinal);
        match value {
            0x0 => Ok(VRegister::V0),
            0x1 => Ok(VRegister::V1),
            0x2 => Ok(VRegister::V2),
            0x3 => Ok(VRegister::V3),
            0x4 => Ok(VRegister::V4),
            0x5 => Ok(VRegister::V5),
            0x6 => Ok(VRegister::V6),
            0x7 => Ok(VRegister::V7),
            0x8 => Ok(VRegister::V8),
            0x9 => Ok(VRegister::V9),
            0xA => Ok(VRegister::VA),
            0xB => Ok(VRegister::VB),
            0xC => Ok(VRegister::VC),
            0xD => Ok(VRegister::VD),
            0xE => Ok(VRegister::VE),
            0xF => Ok(VRegister::VF),
            _ => Err(Chip8Error::InvalidRegister(value)),
        }
    }
}

impl vstd::std_specs::convert::TryFromSpecImpl<u8> for VRegister {
    open spec fn obeys_try_from_spec() -> bool {
        true
    }

    open spec fn try_from_spec(value: u8) -> Result<VRegister, Chip8Error> {
        if value < 16 {
            Ok(VRegister::from_ordinal(value))
        } else {
            Err(Chip8Error::InvalidRegister(value))
        }
    }
}

/// First register in an instruction
pub type Vx = VRegister;

/// Second register in an instruction
pub type Vy = VRegister;

/// A byte
pub type Byte = u8;

/// Absolute memory address
///
/// Valid addresses are within `0x0` .. `0xFFF`.
#[derive(Clone, Copy, Debug, PartialEq, Eq, Structural)]
pub struct Addr(u16);

impl View for Addr {
    type V = u16;

    /// The stored value; the type invariant keeps it below `0x1000`.
    closed spec fn view(&self) -> u16 {
        (self.0 % 0x1000) as u16
    }
}

impl Addr {
    #[verifier::type_invariant]
    spec fn in_range(self) -> bool {
        self.0 < 0x1000
    }

    /// The address made of the lowest 12 bits of `bits`
    pub closed spec fn masked(bits: u16) -> Addr {
        Addr((bits % 0x1000) as u16)
    }

    /// Every address lies within `0x0` .. `0xFFF`
    pub broadcast proof fn lemma_in_range(a: Addr)
        ensures
            #[trigger] a@ < 0x1000,
    {
    }

    /// Masking keeps the lowest 12 bits
    pub broadcast proof fn lemma_masked(bits: u16)
        ensures
            #[trigger] Addr::masked(bits)@ == bits % 0x1000,
    {
    }

    /// Words that agree in their lowest 12 bits mask to the same address
    pub broadcast proof fn lemma_masked_eq(b: u16, c: u16)
        requires
            b % 0x1000 == c % 0x1000,
        ensures
            #[trigger] Addr::masked(b) == #[trigger] Addr::masked(c),
    {
    }

    /// Creates a new instance if `bits` is valid
    ///
    /// Fails with `OutOfRange` if `bits` is above `0xFFF`.
    pub fn new(bits: u16) -> (r: Result<Addr, Chip8Error>)
        ensures
            match r {
                Ok(a) => bits <= 0x0FFF && a@ == bits && a == Addr::masked(bits),
                Err(e) => bits > 0x0FFF && e == Chip8Error::OutOfRange(bits),
            },
    {
        if bits > 0x0FFF {
            Err(Chip8Error::OutOfRange(bits))
        } else {
            Ok(Addr(bits))
        }
    }

    /// The numeric value of the address
    pub fn value(self) -> (r: u16)
        ensures
            r == self@,
            r <= 0x0FFF,
    {
        proof {
            use_type_invariant(self);
        }
        self.0
    }
}

pub broadcast group group_addr {
    Addr::lemma_in_range,
    Addr::lemma_masked,
    Addr::lemma_masked_eq,
}

/// Keeps the lowest 12 bits of `bits`
fn mask_low_12(bits: u16) -> (r: u16)
    ensures
        r == bits % 0x1000,
{
    assert(bits & 0x0FFF == bits % 0x1000) by (bit_vector);
    bits & 0x0FFF
}

impl From<u16> for Addr {
    /// Keeps the lowest 12 bits of `bits`
    fn from(bits: u16) -> (r: Addr) {
        Addr(mask_low_12(bits))
    }
}

impl vstd::std_specs::convert::FromSpecImpl<u16> for Addr {
    open spec fn obeys_from_spec() -> bool {
        true
    }

    open spec fn from_spec(bits: u16) -> Addr {
        Addr::masked(bits)
    }
}

impl From<Addr> for u16 {
    fn from(addr: Addr) -> (r: u16) {
        addr.value()
    }
}

impl vstd::std_specs::convert::FromSpecImpl<Addr> for u16 {
    open spec fn obeys_from_spec() -> bool {
        true
    }

    open spec fn from_spec(addr: Addr) -> u16 {
        addr@
    }
}

impl From<Addr> for usize {
    fn from(addr: Addr) -> (r: usize) {
        addr.value() as usize
    }
}

impl vstd::std_specs::convert::FromSpecImpl<Addr> for usize {
    open spec fn obeys_from_spec() -> bool {
        true
    }

    open spec fn from_spec(addr: Addr) -> usize {
        addr@ as usize
    }
}

/// Hex digit
///
/// Valid values are within `0x0` .. `0xF`.
#[derive(Clone, Copy, Debug, PartialEq, Eq, Structural)]
pub struct Nibble(u8);

impl View for Nibble {
    type V = u8;

    /// The stored value; the type invariant keeps it below `0x10`.
    closed spec fn view(&self) -> u8 {
        (self.0 % 0x10) as u8
    }
}

impl Nibble {
    #[verifier::type_invariant]
    spec fn in_range(self) -> bool {
        self.0 < 0x10
    }

    /// The nibble made of the lowest 4 bits of `bits`
    pub closed spec fn masked(bits: u8) -> Nibble {
        Nibble((bits % 0x10) as u8)
    }

    /// Every nibble lies within `0x0` .. `0xF`
    pub broadcast proof fn lemma_in_range(n: Nibble)
        ensures
            #[trigger] n@ < 0x10,
    {
    }

    /// Masking keeps the lowest 4 bits
    pub broadcast proof fn lemma_masked(bits: u8)
        ensures
            #[trigger] Nibble::masked(bits)@ == bits % 0x10,
    {
    }

    /// Bytes that agree in their lowest 4 bits mask to the same nibble
    pub broadcast proof fn lemma_masked_eq(b: u8, c: u8)
        requires
            b % 0x10 == c % 0x10,
        ensures
            #[trigger] Nibble::masked(b) == #[trigger] Nibble::masked(c),
    {
    }

    /// The numeric value of the nibble
    pub fn value(self) -> (r: u8)
        ensures
            r == self@,
            r < 0x10,
    {
        proof {
            use_type_invariant(self);
        }
        self.0
    }
}

pub broadcast group group_nibble {
    Nibble::lemma_in_range,
    Nibble::lemma_masked,
    Nibble::lemma_masked_eq,
}

impl From<u8> for Nibble {
    /// Keeps the lowest 4 bits of `bits`
    fn from(bits: u8) -> (r: Nibble) {
        assert(bits & 0x0F == bits % 0x10) by (bit_vector);
        Nibble(bits & 0x0F)
    }
}

impl vstd::std_specs::convert::FromSpecImpl<u8> for Nibble {
    open spec fn obeys_from_spec() -> bool {
        true
    }

    open spec fn from_spec(bits: u8) -> Nibble {
        Nibble::masked(bits)
    }
}

impl From<Nibble> for usize {
    fn from(nibble: Nibble) -> (r: usize) {
        nibble.value() as usize
    }
}

impl vstd::std_specs::convert::FromSpecImpl<Nibble> for usize {
    open spec fn obeys_from_spec() -> bool {
        true
    }

    open spec fn from_spec(nibble: Nibble) -> usize {
        nibble@ as usize
    }
}

/// Byte code instruction
#[derive(Clone, Copy, Debug, PartialEq, Eq, Structural)]
pub enum Instruction {
    /// Jumps to machine routine at `Addr`
    ///
    /// `0nnn` - `SYS addr`
    Sys(Addr),
    /// Clears the display
    ///
    /// `00E0` - `CLS`
    Clear,
    /// Returns from a subroutine
    ///
    /// `00EE` - `RET`
    Return,
    /// Jumps to `Addr`
    ///
    /// `1nnn` - `JP addr`
    Jump(Addr),
    /// Calls subroutine at `Addr`
    ///
    /// `2nnn` - `CALL addr`
    Call(Addr),
    /// Skips next instruction if `Vx` equals `byte`
    ///
    /// `3xkk` - `SE Vx, byte`
    SkipEqualOperand(Vx, Byte),
    /// Skips next instruction if `Vx` is not equal to `byte`
    ///
    /// `4xkk` - `SNE Vx, byte`
    SkipNotEqualOperand(Vx, Byte),
    /// Skips next instruction if `Vx` is equal to `Vy`
    ///
    /// `5xy0` - `SE Vx, Vy`
    SkipEqual(Vx, Vy),
    /// Loads `byte` into `Vx`
    ///
    /// `6xkk` - `LD Vx, byte`
    LoadOperand(Vx, Byte),
    /// Adds `byte` to `Vx`, then stores it in `Vx`
    ///
    /// `7xkk` - `ADD Vx, byte`
    AddOperand(Vx, Byte),
    /// Loads `Vy` into `Vx`
    ///
    /// `8xy0` - `LD Vx, Vy`
    Load(Vx, Vy),
    /// Sets `Vx` to `Vx OR Vy`
    ///
    /// `8xy1` - `OR Vx, Vy`
    Or(Vx, Vy),
    /// Sets `Vx` to `Vx AND Vy`
    ///
    /// `8xy2` - `AND Vx, Vy`
    And(Vx, Vy),
    /// Sets `Vx` to `Vx XOR Vy`
    ///
    /// `8xy3` - `XOR Vx, Vy`
    XOr(Vx, Vy),
    /// Sets `Vx` to `Vx + Vy`, `VF` to carry
    ///
    /// `8xy4` - `ADD Vx, Vy`
    Add(Vx, Vy),
    /// Sets `Vx` to `Vx - Vy`, `VF` to not borrow
    ///
    /// `8xy5` - `SUB Vx, Vy`
    Sub(Vx, Vy),
    /// Sets `Vx` to `Vy SHR 1`
    ///
    /// `8xy6` - `SHR Vx {, Vy}`
    ShiftRight(Vx, Vy),
    /// Sets `Vx` to `Vy - Vx`, `VF` to not borrow
    ///
    /// `8xy7` - `SUBN Vx, Vy`
    SubNegated(Vx, Vy),
    /// Sets `Vx` to `Vy SHL 1`
    ///
    /// `8xyE` - `SHL Vx {, Vy}`
    ShiftLeft(Vx, Vy),
    /// Skips next instruction if `Vx` is not equal to `Vy`
    ///
    /// `9xy0` - `SNE Vx, Vy`
    SkipNotEqual(Vx, Vy),
    /// Loads `Addr` into register `I`
    ///
    /// `Annn` - `LD I, addr`
    LoadI(Addr),
    /// Jumps to `Addr + V0`
    ///
    /// `Bnnn` - `JP V0, addr`
    LongJump(Addr),
    /// Sets `Vx` to random number AND `kk`
    ///
    /// `Cxkk` - `RND Vx, byte`
    Random(Vx, Byte),
    /// Reads `n` bytes of memory from address `I`, draws them at the screen coordinates held in `Vx` and `Vy` and sets `VF` for erased pixels
    ///
    /// `Dxyn` - `DRW Vx, Vy, nibble`
    Draw(Vx, Vy, Nibble),
    /// Skips next instruction if key `Vx` is pressed
    ///
    /// `Ex9E` - `SKP Vx`
    SkipKeyPressed(Vx),
    /// Skips next instruction if key `Vx` is not pressed
    ///
    /// `ExA1` - `SKNP Vx`
    SkipKeyNotPressed(Vx),
    /// Sets `Vx` to delay timer value
    ///
    /// `Fx07` - `LD Vx, DT`
    LoadRegisterDelayTimer(Vx),
    /// Waits for key press and stores it in `Vx`
    ///
    /// `Fx0A` - `LD Vx, K`
    LoadKey(Vx),
    /// Sets delay timer to `Vx`
    ///
    /// `Fx15` - `LD DT, Vx`
    LoadDelayTimerRegister(Vx),
    /// Sets sound timer to `Vx`
    ///
    /// `Fx18` - `LD ST, Vx`
    LoadSoundTimerRegister(Vx),
    /// Adds `Vx` to `I`
    ///
    /// `Fx1E` - `ADD I, Vx`
    AddI(Vx),
    /// Sets `I` to the address of the font sprite for `Vx`
    ///
    /// `Fx29` - `LD F, Vx`
    LoadSprite(Vx),
    /// Stores binary-coded decimal (BCD) of `Vx` at `I`, `I`+1 and `I`+2
    ///
    /// `Fx33` - `LD B, Vx`
    LoadBinaryCodedDecimal(Vx),
    /// Stores registers `V0`..=`Vx` in memory at `I`
    ///
    /// `Fx55` - `LD [I], Vx`
    LoadMemoryRegisters(Vx),
    /// Reads registers `V0`..=`Vx` from memory at `I`
    ///
    /// `Fx65` - `LD Vx, [I]`
    LoadRegistersMemory(Vx),
}

/// The opcode family: bits 12-15
pub open spec fn opcode_family(bits: u16) -> u8 {
    (bits / 0x1000) as u8
}

/// The first register operand: bits 8-11
pub open spec fn field_x(bits: u16) -> u8 {
    ((bits / 0x100) % 0x10) as u8
}

/// The second register operand: bits 4-7
pub open spec fn field_y(bits: u16) -> u8 {
    ((bits / 0x10) % 0x10) as u8
}

/// The lowest nibble: bits 0-3
pub open spec fn field_n(bits: u16) -> u8 {
    (bits % 0x10) as u8
}

/// The low byte: bits 0-7
pub open spec fn field_kk(bits: u16) -> u8 {
    (bits % 0x100) as u8
}

/// The address operand: bits 0-11
pub open spec fn field_nnn(bits: u16) -> u16 {
    (bits % 0x1000) as u16
}

/// The instruction that `bits` encodes, or the error for a word that matches no opcode form
pub open spec fn spec_decode(bits: u16) -> Result<Instruction, Chip8Error> {
    let family = opcode_family(bits);
    let vx = VRegister::from_ordinal(field_x(bits));
    let vy = VRegister::from_ordinal(field_y(bits));
    let n = field_n(bits);
    let kk = field_kk(bits);
    let unknown = Err(Chip8Error::UnknownInstruction(bits));
    match family {
        0x0 => match field_nnn(bits) {
            0x0E0 => Ok(Instruction::Clear),
            0x0EE => Ok(Instruction::Return),
            _ => Ok(Instruction::Sys(Addr::masked(bits))),
        },
        0x1 => Ok(Instruction::Jump(Addr::masked(bits))),
        0x2 => Ok(Instruction::Call(Addr::masked(bits))),
        0x3 => Ok(Instruction::SkipEqualOperand(vx, kk)),
        0x4 => Ok(Instruction::SkipNotEqualOperand(vx, kk)),
        0x5 => match n {
            0x0 => Ok(Instruction::SkipEqual(vx, vy)),
            _ => unknown,
        },
        0x6 => Ok(Instruction::LoadOperand(vx, kk)),
        0x7 => Ok(Instruction::AddOperand(vx, kk)),
        0x8 => match n {
            0x0 => Ok(Instruction::Load(vx, vy)),
            0x1 => Ok(Instruction::Or(vx, vy)),
            0x2 => Ok(Instruction::And(vx, vy)),
            0x3 => Ok(Instruction::XOr(vx, vy)),
            0x4 => Ok(Instruction::Add(vx, vy)),
            0x5 => Ok(Instruction::Sub(vx, vy)),
            0x6 => Ok(Instruction::ShiftRight(vx, vy)),
            0x7 => Ok(Instruction::SubNegated(vx, vy)),
            0xE => Ok(Instruction::ShiftLeft(vx, vy)),
            _ => unknown,
        },
        0x9 => match n {
            0x0 => Ok(Instruction::SkipNotEqual(vx, vy)),
            _ => unknown,
        },
        0xA => Ok(Instruction::LoadI(Addr::masked(bits))),
        0xB => Ok(Instruction::LongJump(Addr::masked(bits))),
        0xC => Ok(Instruction::Random(vx, kk)),
        0xD => Ok(Instruction::Draw(vx, vy, Nibble::masked(n))),
        0xE => match kk {
            0x9E => Ok(Instruction::SkipKeyPressed(vx)),
            0xA1 => Ok(Instruction::SkipKeyNotPressed(vx)),
            _ => unknown,
        },
        0xF => match kk {
            0x07 => Ok(Instruction::LoadRegisterDelayTimer(vx)),
            0x0A => Ok(Instruction::LoadKey(vx)),
            0x15 => Ok(Instruction::LoadDelayTimerRegister(vx)),
            0x18 => Ok(Instruction::LoadSoundTimerRegister(vx)),
            0x1E => Ok(Instruction::AddI(vx)),
            0x29 => Ok(Instruction::LoadSprite(vx)),
            0x33 => Ok(Instruction::LoadBinaryCodedDecimal(vx)),
            0x55 => Ok(Instruction::LoadMemoryRegisters(vx)),
            0x65 => Ok(Instruction::LoadRegistersMemory(vx)),
            _ => unknown,
        },
        _ => unknown,
    }
}

/// The word of opcode `family` whose low 12 bits hold `addr`
pub open spec fn word_addr(family: int, addr: Addr) -> int {
    family * 0x1000 + addr@
}

/// The word of opcode `family` with first register operand `vx` and low byte `byte`
pub open spec fn word_x_byte(family: int, vx: VRegister, byte: u8) -> int {
    family * 0x1000 + vx.spec_ordinal() * 0x100 + byte
}

/// The word of opcode `family` with register operands `vx`, `vy` and low nibble `low`
pub open spec fn word_x_y(family: int, vx: VRegister, vy: VRegister, low: u8) -> int {
    family * 0x1000 + vx.spec_ordinal() * 0x100 + vy.spec_ordinal() * 0x10 + low
}

/// The 16-bit word of an instruction
pub open spec fn spec_encode(instruction: Instruction) -> int {
    match instruction {
        Instruction::Sys(addr) => word_addr(0x0, addr),
        Instruction::Clear => 0x00E0,
        Instruction::Return => 0x00EE,
        Instruction::Jump(addr) => word_addr(0x1, addr),
        Instruction::Call(addr) => word_addr(0x2, addr),
        Instruction::SkipEqualOperand(vx, byte) => word_x_byte(0x3, vx, byte),
        Instruction::SkipNotEqualOperand(vx, byte) => word_x_byte(0x4, vx, byte),
        Instruction::SkipEqual(vx, vy) => word_x_y(0x5, vx, vy, 0x0),
        Instruction::LoadOperand(vx, byte) => word_x_byte(0x6, vx, byte),
        Instruction::AddOperand(vx, byte) => word_x_byte(0x7, vx, byte),
        Instruction::Load(vx, vy) => word_x_y(0x8, vx, vy, 0x0),
        Instruction::Or(vx, vy) => word_x_y(0x8, vx, vy, 0x1),
        Instruction::And(vx, vy) => word_x_y(0x8, vx, vy, 0x2),
        Instruction::XOr(vx, vy) => word_x_y(0x8, vx, vy, 0x3),
        Instruction::Add(vx, vy) => word_x_y(0x8, vx, vy, 0x4),
        Instruction::Sub(vx, vy) => word_x_y(0x8, vx, vy, 0x5),
        Instruction::ShiftRight(vx, vy) => word_x_y(0x8, vx, vy, 0x6),
        Instruction::SubNegated(vx, vy) => word_x_y(0x8, vx, vy, 0x7),
        Instruction::ShiftLeft(vx, vy) => word_x_y(0x8, vx, vy, 0xE),
        Instruction::SkipNotEqual(vx, vy) => word_x_y(0x9, vx, vy, 0x0),
        Instruction::LoadI(addr) => word_addr(0xA, addr),
        Instruction::LongJump(addr) => word_addr(0xB, addr),
        Instruction::Random(vx, byte) => word_x_byte(0xC, vx, byte),
        Instruction::Draw(vx, vy, nibble) => word_x_y(0xD, vx, vy, nibble@),
        Instruction::SkipKeyPressed(vx) => word_x_byte(0xE, vx, 0x9E),
        Instruction::SkipKeyNotPressed(vx) => word_x_byte(0xE, vx, 0xA1),
        Instruction::LoadRegisterDelayTimer(vx) => word_x_byte(0xF, vx, 0x07),
        Instruction::LoadKey(vx) => word_x_byte(0xF, vx, 0x0A),
        Instruction::LoadDelayTimerRegister(vx) => word_x_byte(0xF, vx, 0x15),
        Instruction::LoadSoundTimerRegister(vx) => word_x_byte(0xF, vx, 0x18),
        Instruction::AddI(vx) => word_x_byte(0xF, vx, 0x1E),
        Instruction::LoadSprite(vx) => word_x_byte(0xF, vx, 0x29),
        Instruction::LoadBinaryCodedDecimal(vx) => word_x_byte(0xF, vx, 0x33),
        Instruction::LoadMemoryRegisters(vx) => word_x_byte(0xF, vx, 0x55),
        Instruction::LoadRegistersMemory(vx) => word_x_byte(0xF, vx, 0x65),
    }
}

impl Instruction {
    /// Decodes raw `bits` into a valid `Instruction`
    ///
    /// Fails with `UnknownInstruction(bits)` if `bits` match no known instruction.
    pub fn decode(bits: u16) -> (r: Result<Instruction, Chip8Error>)
        ensures
            r == spec_decode(bits),
    {
        let nnn: u16 = bits & 0x0FFF;
        let family: u8 = (bits >> 12) as u8;
        let x: u8 = ((bits >> 8) & 0x0F) as u8;
        let y: u8 = ((bits >> 4) & 0x0F) as u8;
        let n: u8 = (bits & 0x0F) as u8;
        let kk: u8 = (bits & 0xFF) as u8;
        proof {
            lemma_fields(bits);
        }
        let vx = match VRegister::try_from(x) {
            Ok(reg) => reg,
            Err(e) => return Err(e),
        };
        let vy = match VRegister::try_from(y) {
            Ok(reg) => reg,
            Err(e) => return Err(e),
        };
        let unknown = Err(Chip8Error::UnknownInstruction(bits));
        match family {
            0x0 => match nnn {
                0x0E0 => Ok(Instruction::Clear),
                0x0EE => Ok(Instruction::Return),
                _ => Ok(Instruction::Sys(Addr::from(nnn))),
            },
            0x1 => Ok(Instruction::Jump(Addr::from(nnn))),
            0x2 => Ok(Instruction::Call(Addr::from(nnn))),
            0x3 => Ok(Instruction::SkipEqualOperand(vx, kk)),
            0x4 => Ok(Instruction::SkipNotEqualOperand(vx, kk)),
            0x5 => match n {
                0x0 => Ok(Instruction::SkipEqual(vx, vy)),
                _ => unknown,
            },
            0x6 => Ok(Instruction::LoadOperand(vx, kk)),
            0x7 => Ok(Instruction::AddOperand(vx, kk)),
            0x8 => match n {
                0x0 => Ok(Instruction::Load(vx, vy)),
                0x1 => Ok(Instruction::Or(vx, vy)),
                0x2 => Ok(Instruction::And(vx, vy)),
                0x3 => Ok(Instruction::XOr(vx, vy)),
                0x4 => Ok(Instruction::Add(vx, vy)),
                0x5 => Ok(Instruction::Sub(vx, vy)),
                0x6 => Ok(Instruction::ShiftRight(vx, vy)),
                0x7 => Ok(Instruction::SubNegated(vx, vy)),
                0xE => Ok(Instruction::ShiftLeft(vx, vy)),
                _ => unknown,
            },
            0x9 => match n {
                0x0 => Ok(Instruction::SkipNotEqual(vx, vy)),
                _ => unknown,
            },
            0xA => Ok(Instruction::LoadI(Addr::from(nnn))),
            0xB => Ok(Instruction::LongJump(Addr::from(nnn))),
            0xC => Ok(Instruction::Random(vx, kk)),
            0xD => Ok(Instruction::Draw(vx, vy, Nibble::from(n))),
            0xE => match kk {
                0x9E => Ok(Instruction::SkipKeyPressed(vx)),
                0xA1 => Ok(Instruction::SkipKeyNotPressed(vx)),
                _ => unknown,
            },
            0xF => match kk {
                0x07 => Ok(Instruction::LoadRegisterDelayTimer(vx)),
                0x0A => Ok(Instruction::LoadKey(vx)),
                0x15 => Ok(Instruction::LoadDelayTimerRegister(vx)),
                0x18 => Ok(Instruction::LoadSoundTimerRegister(vx)),
                0x1E => Ok(Instruction::AddI(vx)),
                0x29 => Ok(Instruction::LoadSprite(vx)),
                0x33 => Ok(Instruction::LoadBinaryCodedDecimal(vx)),
                0x55 => Ok(Instruction::LoadMemoryRegisters(vx)),
                0x65 => Ok(Instruction::LoadRegistersMemory(vx)),
                _ => unknown,
            },
            _ => unknown,
        }
    }

    /// Encodes a valid `Instruction` into raw bits
    pub fn encode(&self) -> (r: u16)
        ensures
            r == spec_encode(*self),
    {
        let instruction = *self;
        match instruction {
            Instruction::Sys(..)
            | Instruction::Clear
            | Instruction::Return
            | Instruction::Jump(..)
            | Instruction::Call(..)
            | Instruction::LoadI(..)
            | Instruction::LongJump(..) => encode_flow(instruction),
            Instruction::SkipEqualOperand(..)
            | Instruction::SkipNotEqualOperand(..)
            | Instruction::LoadOperand(..)
            | Instruction::AddOperand(..)
            | Instruction::Random(..) => encode_immediate(instruction),
            Instruction::SkipEqual(..)
            | Instruction::Load(..)
            | Instruction::Or(..)
            | Instruction::And(..)
            | Instruction::XOr(..)
            | Instruction::Add(..)
            | Instruction::Sub(..) => encode_pair_low(instruction),
            Instruction::ShiftRight(..)
            | Instruction::SubNegated(..)
            | Instruction::ShiftLeft(..)
            | Instruction::SkipNotEqual(..)
            | Instruction::Draw(..) => encode_pair_high(instruction),
            Instruction::SkipKeyPressed(..)
            | Instruction::SkipKeyNotPressed(..)
            | Instruction::LoadRegisterDelayTimer(..)
            | Instruction::LoadKey(..)
            | Instruction::LoadDelayTimerRegister(..)
            | Instruction::LoadSoundTimerRegister(..)
            | Instruction::AddI(..)
            | Instruction::LoadSprite(..)
            | Instruction::LoadBinaryCodedDecimal(..)
            | Instruction::LoadMemoryRegisters(..)
            | Instruction::LoadRegistersMemory(..) => encode_single(instruction),
        }
    }
}

/// The fields that shifts and masks extract are the arithmetic ones
proof fn lemma_fields(bits: u16)
    ensures
        bits & 0x0FFF == field_nnn(bits),
        (bits >> 12) as u8 == opcode_family(bits),
        ((bits >> 8) & 0x0F) as u8 == field_x(bits),
        ((bits >> 4) & 0x0F) as u8 == field_y(bits),
        (bits & 0x0F) as u8 == field_n(bits),
        (bits & 0xFF) as u8 == field_kk(bits),
{
    assert(bits & 0x0FFF == bits % 0x1000) by (bit_vector);
    assert(bits >> 12 == bits / 0x1000) by (bit_vector);
    assert((bits >> 8) & 0x0F == (bits / 0x100) % 0x10) by (bit_vector);
    assert((bits >> 4) & 0x0F == (bits / 0x10) % 0x10) by (bit_vector);
    assert(bits & 0x0F == bits % 0x10) by (bit_vector);
    assert(bits & 0xFF == bits % 0x100) by (bit_vector);
}

/// The word of an instruction that names an address or no operand
fn encode_flow(instruction: Instruction) -> (r: u16)
    requires
        instruction is Sys || instruction is Clear || instruction is Return || instruction is Jump || instruction is Call || instruction is LoadI || instruction is LongJump,
    ensures
        r == spec_encode(instruction),
{
    match instruction {
        Instruction::Sys(addr) => encode_addr(0x0, addr),
        Instruction::Clear => 0x00E0,
        Instruction::Return => 0x00EE,
        Instruction::Jump(addr) => encode_addr(0x1, addr),
        Instruction::Call(addr) => encode_addr(0x2, addr),
        Instruction::LoadI(addr) => encode_addr(0xA, addr),
        Instruction::LongJump(addr) => encode_addr(0xB, addr),
        _ => unreached(),
    }
}

/// The word of an instruction with a register and an immediate byte
fn encode_immediate(instruction: Instruction) -> (r: u16)
    requires
        instruction is SkipEqualOperand || instruction is SkipNotEqualOperand || instruction is LoadOperand || instruction is AddOperand || instruction is Random,
    ensures
        r == spec_encode(instruction),
{
    match instruction {
        Instruction::SkipEqualOperand(vx, byte) => encode_x_byte(0x3, vx, byte),
        Instruction::SkipNotEqualOperand(vx, byte) => encode_x_byte(0x4, vx, byte),
        Instruction::LoadOperand(vx, byte) => encode_x_byte(0x6, vx, byte),
        Instruction::AddOperand(vx, byte) => encode_x_byte(0x7, vx, byte),
        Instruction::Random(vx, byte) => encode_x_byte(0xC, vx, byte),
        _ => unreached(),
    }
}

/// The word of an instruction with two register operands, `5xy0` .. `8xy5`
fn encode_pair_low(instruction: Instruction) -> (r: u16)
    requires
        instruction is SkipEqual || instruction is Load || instruction is Or || instruction is And || instruction is XOr || instruction is Add || instruction is Sub,
    ensures
        r == spec_encode(instruction),
{
    match instruction {
        Instruction::SkipEqual(vx, vy) => encode_x_y(0x5, vx, vy, 0x0),
        Instruction::Load(vx, vy) => encode_x_y(0x8, vx, vy, 0x0),
        Instruction::Or(vx, vy) => encode_x_y(0x8, vx, vy, 0x1),
        Instruction::And(vx, vy) => encode_x_y(0x8, vx, vy, 0x2),
        Instruction::XOr(vx, vy) => encode_x_y(0x8, vx, vy, 0x3),
        Instruction::Add(vx, vy) => encode_x_y(0x8, vx, vy, 0x4),
        Instruction::Sub(vx, vy) => encode_x_y(0x8, vx, vy, 0x5),
        _ => unreached(),
    }
}

/// The word of an instruction with two register operands, `8xy6` .. `Dxyn`
fn encode_pair_high(instruction: Instruction) -> (r: u16)
    requires
        instruction is ShiftRight || instruction is SubNegated || instruction is ShiftLeft || instruction is SkipNotEqual || instruction is Draw,
    ensures
        r == spec_encode(instruction),
{
    match instruction {
        Instruction::ShiftRight(vx, vy) => encode_x_y(0x8, vx, vy, 0x6),
        Instruction::SubNegated(vx, vy) => encode_x_y(0x8, vx, vy, 0x7),
        Instruction::ShiftLeft(vx, vy) => encode_x_y(0x8, vx, vy, 0xE),
        Instruction::SkipNotEqual(vx, vy) => encode_x_y(0x9, vx, vy, 0x0),
        Instruction::Draw(vx, vy, nibble) => encode_x_y(0xD, vx, vy, nibble.value()),
        _ => unreached(),
    }
}

/// The word of an instruction with one register operand
fn encode_single(instruction: Instruction) -> (r: u16)
    requires
        instruction is SkipKeyPressed || instruction is SkipKeyNotPressed || instruction is LoadRegisterDelayTimer || instruction is LoadKey || instruction is LoadDelayTimerRegister || instruction is LoadSoundTimerRegister || instruction is AddI || instruction is LoadSprite || instruction is LoadBinaryCodedDecimal || instruction is LoadMemoryRegisters || instruction is LoadRegistersMemory,
    ensures
        r == spec_encode(instruction),
{
    match instruction {
        Instruction::SkipKeyPressed(vx) => encode_x_byte(0xE, vx, 0x9E),
        Instruction::SkipKeyNotPressed(vx) => encode_x_byte(0xE, vx, 0xA1),
        Instruction::LoadRegisterDelayTimer(vx) => encode_x_byte(0xF, vx, 0x07),
        Instruction::LoadKey(vx) => encode_x_byte(0xF, vx, 0x0A),
        Instruction::LoadDelayTimerRegister(vx) => encode_x_byte(0xF, vx, 0x15),
        Instruction::LoadSoundTimerRegister(vx) => encode_x_byte(0xF, vx, 0x18),
        Instruction::AddI(vx) => encode_x_byte(0xF, vx, 0x1E),
        Instruction::LoadSprite(vx) => encode_x_byte(0xF, vx, 0x29),
        Instruction::LoadBinaryCodedDecimal(vx) => encode_x_byte(0xF, vx, 0x33),
        Instruction::LoadMemoryRegisters(vx) => encode_x_byte(0xF, vx, 0x55),
        Instruction::LoadRegistersMemory(vx) => encode_x_byte(0xF, vx, 0x65),
        _ => unreached(),
    }
}

/// The word of opcode `family` whose low 12 bits hold `addr`
fn encode_addr(family: u16, addr: Addr) -> (r: u16)
    requires
        family < 0x10,
    ensures
        r == word_addr(family as int, addr),
{
    family * 0x1000 + addr.value()
}

/// The word of opcode `family` with first register operand `vx` and low byte `byte`
fn encode_x_byte(family: u16, vx: VRegister, byte: u8) -> (r: u16)
    requires
        family < 0x10,
    ensures
        r == word_x_byte(family as int, vx, byte),
{
    family * 0x1000 + vx.ordinal() as u16 * 0x100 + byte as u16
}

/// The word of opcode `family` with register operands `vx`, `vy` and low nibble `low`
fn encode_x_y(family: u16, vx: VRegister, vy: VRegister, low: u8) -> (r: u16)
    requires
        family < 0x10,
        low < 0x10,
    ensures
        r == word_x_y(family as int, vx, vy, low),
{
    family * 0x1000 + vx.ordinal() as u16 * 0x100 + vy.ordinal() as u16 * 0x10 + low as u16
}

/// A word is the sum of its fields
proof fn lemma_field_sum(bits: u16)
    ensures
        bits == opcode_family(bits) * 0x1000 + field_x(bits) * 0x100 + field_kk(bits),
        field_kk(bits) == field_y(bits) * 0x10 + field_n(bits),
        field_nnn(bits) == field_x(bits) * 0x100 + field_kk(bits),
        opcode_family(bits) < 0x10,
{
    assert(bits == (bits / 0x1000) * 0x1000 + ((bits / 0x100) % 0x10) * 0x100 + bits % 0x100)
        by (bit_vector);
    assert(bits % 0x100 == ((bits / 0x10) % 0x10) * 0x10 + bits % 0x10) by (bit_vector);
    assert(bits % 0x1000 == ((bits / 0x100) % 0x10) * 0x100 + bits % 0x100) by (bit_vector);
    assert(bits / 0x1000 < 0x10) by (bit_vector);
}

/// Encoding inverts decoding: every word that decodes is the encoding of what it decodes to.
pub proof fn lemma_decode_encode(bits: u16)
    ensures
        match spec_decode(bits) {
            Ok(instruction) => spec_encode(instruction) == bits,
            Err(_) => true,
        },
{
    broadcast use group_vregister, group_addr, group_nibble;

    lemma_field_sum(bits);
}

} // verus!
