use chip_8::display::{Pixel, XCoordinate, YCoordinate};
use chip_8::errors::Chip8Error;
use chip_8::font::FONT_SPRITE_ROWS;
use chip_8::instructions::Instruction::{
    Add, AddI, AddOperand, And, Draw, Load, LoadI, LoadKey, LoadMemoryRegisters, LoadOperand,
    LoadRegistersMemory, LongJump, Or, ShiftLeft, ShiftRight, SkipKeyNotPressed, SkipKeyPressed,
    Sub, SubNegated, XOr,
};
use chip_8::instructions::VRegister::{
    V0, V1, V2, V3, V4, V5, V6, V7, V8, V9, VA, VB, VC, VD, VE, VF,
};
use chip_8::instructions::{Addr, Instruction, VRegister};
use chip_8::keypad::Key::Key4;
use chip_8::keypad::KeyState::{NotPressed, Pressed};
use chip_8::vm::{Registers, FONT_ADDR, VM};
use rand::rngs::mock::StepRng;
use rand::Rng;

/// Glyph of the digit `F` in the built-in font
const SPRITE_F: [u8; 5] = [0b11110000, 0b10000000, 0b11110000, 0b10000000, 0b10000000];

fn test_vm_default() -> VM {
    VM::new()
}

/// Executes `instruction` with the byte that a step generator starting at 4 draws
fn execute(vm: &mut VM, instruction: &Instruction) -> Result<(), Chip8Error> {
    let mut rng = StepRng::new(4, 0);
    vm.execute_instruction(instruction, rng.gen())
}

#[test]
fn vregisters_set_get() {
    let mut registers = Registers::new();
    println!("Created registers: {:?}", registers);

    registers[V0] = 42;

    assert_eq!(registers[V0], 42, "register value get equals set");
}

#[test]
fn vm_execute_instruction_sys_default() -> Result<(), Chip8Error> {
    let mut vm = VM::default();

    let res = execute(&mut vm, &Instruction::Sys(0x0FFF.into()));

    assert_eq!(
        res,
        Err(Chip8Error::UnimplementedInstruction(
            Instruction::Sys(0x0FFF.into())
        ))
    );
    Ok(())
}

#[test]
fn vm_execute_instruction_jump() -> Result<(), Chip8Error> {
    let mut vm = test_vm_default();
    vm.registers.pc = 0x0;

    execute(&mut vm, &Instruction::Jump(0x0FFF.into()))?;

    assert_eq!(vm.registers.pc, 0x0FFF);
    Ok(())
}

#[test]
fn vm_execute_instruction_skipequaloperand() -> Result<(), Chip8Error> {
    let mut vm = test_vm_default();
    vm.registers.pc = 0x0;
    vm.registers[V0] = 0xFF;

    execute(&mut vm, &Instruction::SkipEqualOperand(V0, 0xFF))?;

    assert_eq!(vm.registers.pc, 0x0002);
    Ok(())
}

#[test]
fn vm_execute_instruction_skipnotequaloperand() -> Result<(), Chip8Error> {
    let mut vm = test_vm_default();
    vm.registers.pc = 0x0;
    vm.registers[V0] = 0xFF;

    execute(&mut vm, &Instruction::SkipNotEqualOperand(V0, 0xEE))?;

    assert_eq!(vm.registers.pc, 0x0002);
    Ok(())
}

#[test]
fn vm_execute_instruction_skipequal() -> Result<(), Chip8Error> {
    let mut vm = test_vm_default();
    vm.registers.pc = 0x0;
    vm.registers[V0] = 0xFF;
    vm.registers[VF] = 0xFF;

    execute(&mut vm, &Instruction::SkipEqual(V0, VF))?;

    assert_eq!(vm.registers.pc, 0x0002);
    Ok(())
}

#[test]
fn vm_execute_instruction_load_operand() -> Result<(), Chip8Error> {
    let mut vm = test_vm_default();
    vm.registers[V2] = 0xEE;

    execute(&mut vm, &LoadOperand(V2, 0xFF))?;

    assert_eq!(vm.registers[V2], 0xFF, "register V2");
    assert_eq!(vm.registers[VF], 0, "overflow");
    Ok(())
}


#[test]
fn vm_execute_instruction_add_operand() -> Result<(), Chip8Error> {
    let mut vm = test_vm_default();
    vm.registers[V2] = 0x00;

    execute(&mut vm, &AddOperand(V2, 0xFF))?;

    assert_eq!(vm.registers[V2], 0xFF, "register V2");
    assert_eq!(vm.registers[VF], 0, "overflow");
    Ok(())
}


#[test]
fn vm_execute_instruction_add_operand_wrapping() -> Result<(), Chip8Error> {
    let mut vm = test_vm_default();
    vm.registers[V2] = 0xFF;

    execute(&mut vm, &AddOperand(V2, 0x01))?;

    assert_eq!(vm.registers[V2], 0x00, "register V2");
    assert_eq!(vm.registers[VF], 0, "overflow");
    Ok(())
}


#[test]
fn vm_execute_instruction_load() -> Result<(), Chip8Error> {
    let mut vm = test_vm_default();
    vm.registers[V2] = 0x00;
    vm.registers[V3] = 0xFF;

    execute(&mut vm, &Load(V2, V3))?;

    assert_eq!(vm.registers[V2], 0xFF, "register V2");
    assert_eq!(vm.registers[V3], 0xFF, "register V3");
    assert_eq!(vm.registers[VF], 0, "overflow");
    Ok(())
}


#[test]
fn vm_execute_instruction_or() -> Result<(), Chip8Error> {
    let mut vm = test_vm_default();
    vm.registers[V2] = 0x01;
    vm.registers[V3] = 0x10;

    execute(&mut vm, &Or(V2, V3))?;

    assert_eq!(vm.registers[V2], 0x11, "register V2");
    assert_eq!(vm.registers[VF], 0, "overflow");
    Ok(())
}


#[test]
fn vm_execute_instruction_and() -> Result<(), Chip8Error> {
    let mut vm = test_vm_default();
    vm.registers[V2] = 0x01;
    vm.registers[V3] = 0x11;

    execute(&mut vm, &And(V2, V3))?;

    assert_eq!(vm.registers[V2], 0x01, "register V2");
    assert_eq!(vm.registers[VF], 0, "overflow");
    Ok(())
}


#[test]
fn vm_execute_instruction_xor() -> Result<(), Chip8Error> {
    let mut vm = test_vm_default();
    vm.registers[V2] = 0x01;
    vm.registers[V3] = 0x11;

    execute(&mut vm, &XOr(V2, V3))?;

    assert_eq!(vm.registers[V2], 0x10, "register V2");
    assert_eq!(vm.registers[VF], 0, "overflow");
    Ok(())
}


#[test]
fn vm_execute_instruction_add() -> Result<(), Chip8Error> {
    let mut vm = test_vm_default();
    vm.registers[V2] = 0xFE;
    vm.registers[V3] = 0x01;

    execute(&mut vm, &Add(V2, V3))?;

    assert_eq!(vm.registers[V2], 0xFF, "register V2");
    assert_eq!(vm.registers[V3], 0x01, "register V3");
    assert_eq!(vm.registers[VF], 0, "overflow");
    Ok(())
}


#[test]
fn vm_execute_instruction_add_overflow() -> Result<(), Chip8Error> {
    let mut vm = test_vm_default();
    vm.registers[V2] = 0xFF;
    vm.registers[V3] = 0x01;

    execute(&mut vm, &Add(V2, V3))?;

    assert_eq!(vm.registers[V2], 0x00, "register V2");
    assert_eq!(vm.registers[V3], 0x01, "register V3");
    assert_eq!(vm.registers[VF], 1, "overflow");
    Ok(())
}


#[test]
fn vm_execute_instruction_sub() -> Result<(), Chip8Error> {
    let mut vm = test_vm_default();
    vm.registers[V2] = 0x3;
    vm.registers[V3] = 0x2;

    execute(&mut vm, &Sub(V2, V3))?;

    assert_eq!(vm.registers[V2], 0x1, "register V2");
    assert_eq!(vm.registers[V3], 0x2, "register V3");
    assert_eq!(vm.registers[VF], 1, "overflow");
    Ok(())
}


#[test]
fn vm_execute_instruction_sub_borrow() -> Result<(), Chip8Error> {
    let mut vm = test_vm_default();
    vm.registers[V2] = 0x3;
    vm.registers[V3] = 0x4;

    execute(&mut vm, &Sub(V2, V3))?;

    assert_eq!(vm.registers[V2], 0xFF, "register V2");
    assert_eq!(vm.registers[V3], 0x4, "register V3");
    assert_eq!(vm.registers[VF], 0, "overflow");
    Ok(())
}


#[test]
fn vm_execute_instruction_shiftright() -> Result<(), Chip8Error> {
    let mut vm = test_vm_default();
    vm.registers[V2] = 0b00;
    vm.registers[V3] = 0b10;

    execute(&mut vm, &ShiftRight(V2, V3))?;

    assert_eq!(vm.registers[V2], 0b01, "register V2");
    assert_eq!(vm.registers[V3], 0b10, "register V3");
    assert_eq!(vm.registers[VF], 0, "overflow");
    Ok(())
}


#[test]
fn vm_execute_instruction_shiftright_inplace() -> Result<(), Chip8Error> {
    let mut vm = test_vm_default();
    vm.registers[V2] = 0b10;

    execute(&mut vm, &ShiftRight(V2, V2))?;

    assert_eq!(vm.registers[V2], 0b01, "register V2");
    assert_eq!(vm.registers[VF], 0, "overflow");
    Ok(())
}


#[test]
fn vm_execute_instruction_shiftright_inplace_overflow() -> Result<(), Chip8Error> {
    let mut vm = test_vm_default();
    vm.registers[V2] = 0b1111_1111;

    execute(&mut vm, &ShiftRight(V2, V2))?;

    assert_eq!(vm.registers[V2], 0b0111_1111, "register V2");
    assert_eq!(vm.registers[VF], 1, "overflow");
    Ok(())
}


#[test]
fn vm_execute_instruction_subnegated() -> Result<(), Chip8Error> {
    let mut vm = test_vm_default();
    vm.registers[V2] = 0x2;
    vm.registers[V3] = 0x3;

    execute(&mut vm, &SubNegated(V2, V3))?;

    assert_eq!(vm.registers[V2], 0x1, "register V2");
    assert_eq!(vm.registers[V3], 0x3, "register V3");
    assert_eq!(vm.registers[VF], 1, "overflow");
    Ok(())
}


#[test]
fn vm_execute_instruction_subnegated_borrow() -> Result<(), Chip8Error> {
    let mut vm = test_vm_default();
    vm.registers[V2] = 0x5;
    vm.registers[V3] = 0x3;

    execute(&mut vm, &SubNegated(V2, V3))?;

    assert_eq!(vm.registers[V2], 0xFE, "register V2");
    assert_eq!(vm.registers[V3], 0x3, "register V3");
    assert_eq!(vm.registers[VF], 0, "overflow");
    Ok(())
}


#[test]
fn vm_execute_instruction_shiftleft() -> Result<(), Chip8Error> {
    let mut vm = test_vm_default();
    vm.registers[V2] = 0b00;
    vm.registers[V3] = 0b01;

    execute(&mut vm, &ShiftLeft(V2, V3))?;

    assert_eq!(vm.registers[V2], 0b10, "register V2");
    assert_eq!(vm.registers[V3], 0b01, "register V3");
    assert_eq!(vm.registers[VF], 0, "overflow");
    Ok(())
}


#[test]
fn vm_execute_instruction_shiftleft_inplace() -> Result<(), Chip8Error> {
    let mut vm = test_vm_default();
    vm.registers[V2] = 0b0111_0111;

    execute(&mut vm, &ShiftLeft(V2, V2))?;

    assert_eq!(vm.registers[V2], 0b1110_1110, "register V2");
    assert_eq!(vm.registers[VF], 0, "overflow");
    Ok(())
}


#[test]
fn vm_execute_instruction_shiftleft_inplace_overflow() -> Result<(), Chip8Error> {
    let mut vm = test_vm_default();
    vm.registers[V2] = 0b1111_0111;

    execute(&mut vm, &ShiftLeft(V2, V2))?;

    assert_eq!(vm.registers[V2], 0b1110_1110, "register V2");
    assert_eq!(vm.registers[VF], 1, "overflow");
    Ok(())
}


#[test]
fn vm_execute_instruction_skipnotequal() -> Result<(), Chip8Error> {
    let mut vm = test_vm_default();
    vm.registers.pc = 0x0;
    vm.registers[V0] = 0xFF;
    vm.registers[VF] = 0xEE;

    execute(&mut vm, &Instruction::SkipNotEqual(V0, VF))?;

    assert_eq!(vm.registers.pc, 0x0002);
    Ok(())
}

#[test]
fn vm_execute_instruction_loadi() -> Result<(), Chip8Error> {
    let mut vm = test_vm_default();
    vm.registers.i = 0xF0F0;

    execute(&mut vm, &LoadI(0x0AAA.into()))?;

    assert_eq!(vm.registers.i, 0x0AAA);
    Ok(())
}

#[test]
fn vm_execute_instruction_longjump() -> Result<(), Chip8Error> {
    let mut vm = test_vm_default();
    vm.registers.pc = 0x0111;
    vm.registers[V0] = 0x11;

    execute(&mut vm, &LongJump(0x0111.into()))?;

    assert_eq!(vm.registers.pc, 0x0122);
    Ok(())
}

#[test]
fn vm_execute_instruction_skipkeypressed() -> Result<(), Chip8Error> {
    let mut vm = test_vm_default();
    vm.registers.pc = 0x0111;
    vm.registers[V6] = 0x4;
    vm.keypad[Key4] = Pressed;

    execute(&mut vm, &SkipKeyPressed(V6))?;

    assert_eq!(vm.registers.pc, 0x0113);
    Ok(())
}

#[test]
fn vm_execute_instruction_skipkeynotpressed() -> Result<(), Chip8Error> {
    let mut vm = test_vm_default();
    vm.registers.pc = 0x0111;
    vm.registers[V6] = 0x4;
    vm.keypad[Key4] = NotPressed;

    execute(&mut vm, &SkipKeyNotPressed(V6))?;

    assert_eq!(vm.registers.pc, 0x0113);
    Ok(())
}

#[test]
fn vm_execute_instruction_loadkey() -> Result<(), Chip8Error> {
    let mut vm = test_vm_default();
    vm.waiting_on_any_keypress = None;

    execute(&mut vm, &LoadKey(V6))?;

    assert_eq!(vm.waiting_on_any_keypress, Some(V6));
    Ok(())
}

#[test]
fn vm_execute_instruction_addi() -> Result<(), Chip8Error> {
    let mut vm = test_vm_default();
    vm.registers[V0] = 0x1;
    vm.registers.i = 0x0AAA;

    execute(&mut vm, &AddI(V0))?;

    assert_eq!(vm.registers.i, 0x0AAB);
    Ok(())
}

#[test]
fn vm_execute_instruction_random() -> Result<(), Chip8Error> {
    let mut rng = StepRng::new(0b1000_0000, 0);
    let mut vm = VM::new();
    vm.registers[V0] = 0x00;

    vm.execute_instruction(&Instruction::Random(V0, 0b1100_0000), rng.gen())?;

    assert_eq!(vm.registers[V0], 0b1000_0000);
    Ok(())
}

#[test]
fn vm_execute_instruction_draw() -> Result<(), Chip8Error> {
    let mut vm = test_vm_default();
    vm.registers[V0] = 0xF;
    vm.registers[V1] = 0x0;
    vm.registers.i = 0x0111;
    vm.memory.write((0x0111 + 0).into(), 0b11111111);
    vm.memory.write((0x0111 + 1).into(), 0b10000000);
    vm.memory.write((0x0111 + 2).into(), 0b11111100);
    vm.memory.write((0x0111 + 3).into(), 0b10000000);
    vm.memory.write((0x0111 + 4).into(), 0b10000000);

    execute(&mut vm, &Instruction::Draw(V0, V1, 5.into()))?;
    execute(&mut vm, &Instruction::Draw(V0, V1, 5.into()))?;

    assert!(vm.registers[VF] != 0);
    Ok(())
}

#[test]
fn vm_execute_instruction_loadsprite() -> Result<(), Chip8Error> {
    let mut vm = test_vm_default();
    vm.registers[V0] = 0xF;

    execute(&mut vm, &Instruction::LoadSprite(V0))?;

    // This is actually an implementation detail
    assert_eq!(
        vm.registers.i,
        FONT_ADDR + 0xF * FONT_SPRITE_ROWS as u16
    );
    let mut sprite_data = vec![];
    for offs in 0..FONT_SPRITE_ROWS {
        let addr = Addr::new(vm.registers.i + offs as u16)?;
        let row = vm.memory.read(addr);
        sprite_data.push(row);
    }
    assert_eq!(sprite_data[..], SPRITE_F);
    Ok(())
}

#[test]
fn vm_execute_instruction_loadbinarycodeddecimal() -> Result<(), Chip8Error> {
    let mut vm = test_vm_default();
    vm.registers[V0] = 123;
    vm.registers.i = 0x0111;

    execute(&mut vm, &Instruction::LoadBinaryCodedDecimal(V0))?;

    assert_eq!(vm.memory.read((0x0111 + 0x0).into()), 1);
    assert_eq!(vm.memory.read((0x0111 + 0x1).into()), 2);
    assert_eq!(vm.memory.read((0x0111 + 0x2).into()), 3);
    Ok(())
}

#[test]
fn vm_execute_instruction_loadmemoryregisters_all() -> Result<(), Chip8Error> {
    let mut vm = test_vm_default();
    vm.registers[V0] = 0x0;
    vm.registers[V1] = 0x1;
    vm.registers[V2] = 0x2;
    vm.registers[V3] = 0x3;
    vm.registers[V4] = 0x4;
    vm.registers[V5] = 0x5;
    vm.registers[V6] = 0x6;
    vm.registers[V7] = 0x7;
    vm.registers[V8] = 0x8;
    vm.registers[V9] = 0x9;
    vm.registers[VA] = 0xA;
    vm.registers[VB] = 0xB;
    vm.registers[VC] = 0xC;
    vm.registers[VD] = 0xD;
    vm.registers[VE] = 0xE;
    vm.registers[VF] = 0xF;
    vm.registers.i = 0x0111;

    execute(&mut vm, &LoadMemoryRegisters(VF))?;

    assert_eq!(vm.memory.read((0x0111 + 0x0).into()), 0x0);
    assert_eq!(vm.memory.read((0x0111 + 0x1).into()), 0x1);
    assert_eq!(vm.memory.read((0x0111 + 0x2).into()), 0x2);
    assert_eq!(vm.memory.read((0x0111 + 0x3).into()), 0x3);
    assert_eq!(vm.memory.read((0x0111 + 0x4).into()), 0x4);
    assert_eq!(vm.memory.read((0x0111 + 0x5).into()), 0x5);
    assert_eq!(vm.memory.read((0x0111 + 0x6).into()), 0x6);
    assert_eq!(vm.memory.read((0x0111 + 0x7).into()), 0x7);
    assert_eq!(vm.memory.read((0x0111 + 0x8).into()), 0x8);
    assert_eq!(vm.memory.read((0x0111 + 0x9).into()), 0x9);
    assert_eq!(vm.memory.read((0x0111 + 0xA).into()), 0xA);
    assert_eq!(vm.memory.read((0x0111 + 0xB).into()), 0xB);
    assert_eq!(vm.memory.read((0x0111 + 0xC).into()), 0xC);
    assert_eq!(vm.memory.read((0x0111 + 0xD).into()), 0xD);
    assert_eq!(vm.memory.read((0x0111 + 0xE).into()), 0xE);
    assert_eq!(vm.memory.read((0x0111 + 0xF).into()), 0xF);
    assert_eq!(vm.registers.i, 0x0111 + 0xF + 1);
    Ok(())
}

#[test]
fn vm_execute_instruction_loadmemoryregisters_one() -> Result<(), Chip8Error> {
    let mut vm = test_vm_default();
    vm.registers[V0] = 0xAA;
    vm.registers[V1] = 0xBB;
    vm.registers.i = 0x0111;

    execute(&mut vm, &LoadMemoryRegisters(V0))?;

    assert_eq!(vm.memory.read((0x0111 + 0).into()), 0xAA);
    assert_eq!(vm.memory.read((0x0111 + 1).into()), 0x00);
    assert_eq!(vm.registers.i, 0x0111 + 1);
    Ok(())
}

#[test]
fn vm_execute_instruction_loadregistersmemory_all() -> Result<(), Chip8Error> {
    let mut vm = test_vm_default();
    vm.registers.i = 0x0111;
    vm.memory.write((0x0111 + 0x0).into(), 0x0);
    vm.memory.write((0x0111 + 0x1).into(), 0x1);
    vm.memory.write((0x0111 + 0x2).into(), 0x2);
    vm.memory.write((0x0111 + 0x3).into(), 0x3);
    vm.memory.write((0x0111 + 0x4).into(), 0x4);
    vm.memory.write((0x0111 + 0x5).into(), 0x5);
    vm.memory.write((0x0111 + 0x6).into(), 0x6);
    vm.memory.write((0x0111 + 0x7).into(), 0x7);
    vm.memory.write((0x0111 + 0x8).into(), 0x8);
    vm.memory.write((0x0111 + 0x9).into(), 0x9);
    vm.memory.write((0x0111 + 0xA).into(), 0xA);
    vm.memory.write((0x0111 + 0xB).into(), 0xB);
    vm.memory.write((0x0111 + 0xC).into(), 0xC);
    vm.memory.write((0x0111 + 0xD).into(), 0xD);
    vm.memory.write((0x0111 + 0xE).into(), 0xE);
    vm.memory.write((0x0111 + 0xF).into(), 0xF);

    execute(&mut vm, &LoadRegistersMemory(VF))?;

    assert_eq!(vm.registers[V0], 0x0);
    assert_eq!(vm.registers[V1], 0x1);
    assert_eq!(vm.registers[V2], 0x2);
    assert_eq!(vm.registers[V3], 0x3);
    assert_eq!(vm.registers[V4], 0x4);
    assert_eq!(vm.registers[V5], 0x5);
    assert_eq!(vm.registers[V6], 0x6);
    assert_eq!(vm.registers[V7], 0x7);
    assert_eq!(vm.registers[V8], 0x8);
    assert_eq!(vm.registers[V9], 0x9);
    assert_eq!(vm.registers[VA], 0xA);
    assert_eq!(vm.registers[VB], 0xB);
    assert_eq!(vm.registers[VC], 0xC);
    assert_eq!(vm.registers[VD], 0xD);
    assert_eq!(vm.registers[VE], 0xE);
    assert_eq!(vm.registers[VF], 0xF);
    assert_eq!(vm.registers.i, 0x0111 + 0xF + 1);
    Ok(())
}

#[test]
fn vm_execute_instruction_loadregistersmemory_one() -> Result<(), Chip8Error> {
    let mut vm = test_vm_default();
    vm.registers.i = 0x0111;
    vm.memory.write((0x0111 + 0x0).into(), 0x0);
    vm.memory.write((0x0111 + 0x1).into(), 0x1);

    execute(&mut vm, &LoadRegistersMemory(V0))?;

    assert_eq!(vm.registers[V0], 0x0);
    assert_eq!(vm.registers[V1], 0x0);
    assert_eq!(vm.registers.i, 0x0111 + 1);
    Ok(())
}

#[test]
fn vm_new_loads_font_and_program_start() {
    let vm = VM::new();

    assert_eq!(vm.registers.pc, 0x200);
    assert_eq!(vm.registers.i, 0);
    assert_eq!(vm.memory.read(0x0000.into()), 0b11110000);
    assert_eq!(vm.memory.read(0x0005.into()), 0b00100000);
    for offs in 0..5u16 {
        assert_eq!(vm.memory.read((75 + offs).into()), SPRITE_F[offs as usize]);
    }
    assert_eq!(vm.memory.read(80.into()), 0);
    assert_eq!(vm.memory.read(0x0FFF.into()), 0);
    assert_eq!(vm.waiting_on_any_keypress, None);
}

#[test]
fn vm_execute_instruction_sub_equal_sets_flag() -> Result<(), Chip8Error> {
    let mut vm = test_vm_default();
    vm.registers[V2] = 0x5;
    vm.registers[V3] = 0x5;

    execute(&mut vm, &Sub(V2, V3))?;

    assert_eq!(vm.registers[V2], 0x0);
    assert_eq!(vm.registers[VF], 1);
    Ok(())
}

#[test]
fn vm_execute_instruction_add_into_flag_register_keeps_result() -> Result<(), Chip8Error> {
    let mut vm = test_vm_default();
    vm.registers[VF] = 0xFF;
    vm.registers[V1] = 0x02;

    execute(&mut vm, &Add(VF, V1))?;

    assert_eq!(vm.registers[VF], 0x01);
    Ok(())
}

#[test]
fn vm_execute_instruction_shiftleft_from_other_register() -> Result<(), Chip8Error> {
    let mut vm = test_vm_default();
    vm.registers[V2] = 0x00;
    vm.registers[V3] = 0b1000_0001;

    execute(&mut vm, &ShiftLeft(V2, V3))?;

    assert_eq!(vm.registers[V2], 0b0000_0010);
    assert_eq!(vm.registers[V3], 0b1000_0001);
    assert_eq!(vm.registers[VF], 1);
    Ok(())
}

#[test]
fn vm_execute_instruction_unimplemented() {
    let mut vm = test_vm_default();
    let unimplemented = [
        Instruction::Return,
        Instruction::Call(0x0300.into()),
        Instruction::LoadRegisterDelayTimer(V1),
        Instruction::LoadDelayTimerRegister(V1),
        Instruction::LoadSoundTimerRegister(V1),
    ];
    for instruction in unimplemented {
        let pc = vm.registers.pc;
        assert_eq!(
            execute(&mut vm, &instruction),
            Err(Chip8Error::UnimplementedInstruction(instruction))
        );
        assert_eq!(vm.registers.pc, pc);
    }
}

#[test]
fn vm_execute_instruction_skip_wraps_program_counter() -> Result<(), Chip8Error> {
    let mut vm = test_vm_default();
    vm.registers.pc = 0xFFFE;
    vm.registers[V0] = 0x12;

    execute(&mut vm, &Instruction::SkipEqualOperand(V0, 0x12))?;

    assert_eq!(vm.registers.pc, 0x0000);
    Ok(())
}

#[test]
fn vm_execute_instruction_skip_not_taken() -> Result<(), Chip8Error> {
    let mut vm = test_vm_default();
    vm.registers.pc = 0x0300;
    vm.registers[V0] = 0x12;
    vm.registers[V1] = 0x12;

    execute(&mut vm, &Instruction::SkipNotEqual(V0, V1))?;
    execute(&mut vm, &Instruction::SkipEqualOperand(V0, 0x13))?;

    assert_eq!(vm.registers.pc, 0x0300);
    Ok(())
}

#[test]
fn vm_execute_instruction_skipkeypressed_invalid_key() {
    let mut vm = test_vm_default();
    vm.registers[V6] = 0x10;

    assert_eq!(execute(&mut vm, &SkipKeyPressed(V6)), Err(Chip8Error::InvalidKey(0x10)));
    assert_eq!(execute(&mut vm, &SkipKeyNotPressed(V6)), Err(Chip8Error::InvalidKey(0x10)));
    assert_eq!(vm.registers.pc, 0x200);
}

#[test]
fn vm_execute_instruction_addi_wraps() -> Result<(), Chip8Error> {
    let mut vm = test_vm_default();
    vm.registers[V0] = 0x2;
    vm.registers.i = 0xFFFF;

    execute(&mut vm, &AddI(V0))?;

    assert_eq!(vm.registers.i, 0x0001);
    Ok(())
}

#[test]
fn vm_execute_instruction_longjump_largest() -> Result<(), Chip8Error> {
    let mut vm = test_vm_default();
    vm.registers[V0] = 0xFF;

    execute(&mut vm, &LongJump(0x0FFF.into()))?;

    assert_eq!(vm.registers.pc, 0x10FE);
    Ok(())
}

#[test]
fn vm_execute_instruction_loadsprite_uses_low_nibble() -> Result<(), Chip8Error> {
    let mut vm = test_vm_default();
    vm.registers[V3] = 0x1A;

    execute(&mut vm, &Instruction::LoadSprite(V3))?;

    assert_eq!(vm.registers.i, 0xA * 5);
    Ok(())
}

#[test]
fn vm_execute_instruction_bcd_digits() -> Result<(), Chip8Error> {
    let mut vm = test_vm_default();
    vm.registers.i = 0x0300;
    vm.registers[V1] = 255;

    execute(&mut vm, &Instruction::LoadBinaryCodedDecimal(V1))?;

    assert_eq!(vm.memory.read(0x0300.into()), 2);
    assert_eq!(vm.memory.read(0x0301.into()), 5);
    assert_eq!(vm.memory.read(0x0302.into()), 5);

    vm.registers[V1] = 7;
    execute(&mut vm, &Instruction::LoadBinaryCodedDecimal(V1))?;

    assert_eq!(vm.memory.read(0x0300.into()), 0);
    assert_eq!(vm.memory.read(0x0301.into()), 0);
    assert_eq!(vm.memory.read(0x0302.into()), 7);
    Ok(())
}

#[test]
fn vm_execute_instruction_bcd_out_of_range() {
    let mut vm = test_vm_default();
    vm.registers.i = 0x0FFE;
    vm.registers[V1] = 123;

    let res = execute(&mut vm, &Instruction::LoadBinaryCodedDecimal(V1));

    assert_eq!(res, Err(Chip8Error::OutOfRange(0x1000)));
    assert_eq!(vm.memory.read(0x0FFE.into()), 0);
    assert_eq!(vm.memory.read(0x0FFF.into()), 0);
}

#[test]
fn vm_execute_instruction_loadmemoryregisters_out_of_range() {
    let mut vm = test_vm_default();
    vm.registers[V0] = 0xAA;
    vm.registers.i = 0x0FF0;

    let res = execute(&mut vm, &LoadMemoryRegisters(VF));

    assert_eq!(res, Err(Chip8Error::OutOfRange(0x1000)));
    assert_eq!(vm.memory.read(0x0FF0.into()), 0);
    assert_eq!(vm.registers.i, 0x0FF0);
}

#[test]
fn vm_execute_instruction_loadregistersmemory_out_of_range() {
    let mut vm = test_vm_default();
    vm.registers.i = 0x2000;

    let res = execute(&mut vm, &LoadRegistersMemory(V0));

    assert_eq!(res, Err(Chip8Error::OutOfRange(0x2000)));
    assert_eq!(vm.registers.i, 0x2000);
}

#[test]
fn vm_execute_instruction_loadmemoryregisters_block_end() -> Result<(), Chip8Error> {
    let mut vm = test_vm_default();
    for (offs, reg) in all_registers().iter().enumerate() {
        vm.registers[*reg] = 0x10 + offs as u8;
    }
    vm.registers.i = 0x0111;

    execute(&mut vm, &LoadMemoryRegisters(VF))?;

    for offs in 0..16u16 {
        assert_eq!(vm.memory.read((0x0111 + offs).into()), 0x10 + offs as u8);
    }
    assert_eq!(vm.memory.read(0x0121.into()), 0);
    assert_eq!(vm.memory.read(0x0110.into()), 0);
    assert_eq!(vm.registers.i, 0x0121);
    Ok(())
}

fn all_registers() -> [VRegister; 16] {
    [V0, V1, V2, V3, V4, V5, V6, V7, V8, V9, VA, VB, VC, VD, VE, VF]
}

#[test]
fn vm_execute_instruction_draw_out_of_range() {
    let mut vm = test_vm_default();
    vm.registers.i = 0x0FFE;
    vm.registers[VF] = 0x42;

    let res = execute(&mut vm, &Draw(V0, V1, 5.into()));

    assert_eq!(res, Err(Chip8Error::OutOfRange(0x1000)));
    assert_eq!(vm.registers[VF], 0x42);
}

#[test]
fn vm_execute_instruction_draw_empty_sprite() -> Result<(), Chip8Error> {
    let mut vm = test_vm_default();
    vm.registers.i = 0xFFFF;
    vm.registers[VF] = 0x42;

    execute(&mut vm, &Draw(V0, V1, 0.into()))?;

    assert_eq!(vm.registers[VF], 0);
    Ok(())
}

#[test]
fn vm_execute_instruction_draw_then_clear() -> Result<(), Chip8Error> {
    let mut vm = test_vm_default();
    vm.registers[V0] = 70;
    vm.registers[V1] = 33;
    vm.registers.i = 0x0111;
    vm.memory.write(0x0111.into(), 0b1000_0000);

    execute(&mut vm, &Draw(V0, V1, 1.into()))?;

    assert_eq!(vm.registers[VF], 0);
    assert_eq!(vm.display.pixel(XCoordinate::new(6), YCoordinate::new(1)), Pixel::On);

    execute(&mut vm, &Instruction::Clear)?;

    assert_eq!(vm.display.pixel(XCoordinate::new(6), YCoordinate::new(1)), Pixel::Off);
    Ok(())
}

#[test]
fn vm_execute_instruction_random_masks() -> Result<(), Chip8Error> {
    let mut vm = test_vm_default();

    vm.execute_instruction(&Instruction::Random(V4, 0x0F), 0xAB)?;

    assert_eq!(vm.registers[V4], 0x0B);
    Ok(())
}

#[test]
fn vm_execute_instruction_logic() -> Result<(), Chip8Error> {
    let mut vm = test_vm_default();
    vm.registers[V2] = 0b1100;
    vm.registers[V3] = 0b1010;

    execute(&mut vm, &Or(V2, V3))?;
    assert_eq!(vm.registers[V2], 0b1110);
    execute(&mut vm, &And(V2, V3))?;
    assert_eq!(vm.registers[V2], 0b1010);
    execute(&mut vm, &XOr(V2, V3))?;
    assert_eq!(vm.registers[V2], 0b0000);
    execute(&mut vm, &Load(V4, V3))?;
    assert_eq!(vm.registers[V4], 0b1010);
    execute(&mut vm, &LoadOperand(V5, 0x77))?;
    execute(&mut vm, &AddOperand(V5, 0x90))?;
    assert_eq!(vm.registers[V5], 0x07);
    execute(&mut vm, &LoadI(0x0ABC.into()))?;
    assert_eq!(vm.registers.i, 0x0ABC);
    execute(&mut vm, &LoadKey(V9))?;
    assert_eq!(vm.waiting_on_any_keypress, Some(V9));
    assert_eq!(vm.registers[VF], 0);
    Ok(())
}

#[test]
fn registers_get_set() {
    let mut registers = Registers::new();

    registers.set(VC, 0x99);

    assert_eq!(registers.get(VC), 0x99);
    assert_eq!(registers[VC], 0x99);
    assert_eq!(registers.get(VB), 0);
    assert_eq!(registers.pc, 0x200);
}

#[test]
fn vm_execute_decoded_word() -> Result<(), Chip8Error> {
    let mut vm = test_vm_default();
    vm.registers[VA] = 0xF0;
    vm.registers[VB] = 0x20;

    let instruction = Instruction::decode(0x8AB4)?;
    execute(&mut vm, &instruction)?;

    assert_eq!(vm.registers[VA], 0x10);
    assert_eq!(vm.registers[VF], 1);
    Ok(())
}
