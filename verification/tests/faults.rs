use chip8_core::layout::FONTSET;
use chip8_core::{Emu, Fault};

/// A machine with `program` loaded, after `steps` successful steps.
fn machine_after(program: &[u8], steps: usize) -> Emu {
    let mut emu = Emu::new();
    assert_eq!(emu.load(program), Ok(()));
    for _ in 0..steps {
        assert_eq!(emu.tick(), Ok(()));
    }
    emu
}

/// Everything that can be seen of a machine.
fn snapshot(emu: &Emu) -> (u16, Vec<u8>, Vec<u8>, u16, u16, Vec<u16>, Vec<bool>, u8, u8, Vec<bool>) {
    (
        emu.get_pc(),
        emu.get_ram().to_vec(),
        emu.get_v_reg().to_vec(),
        emu.get_i_reg(),
        emu.get_sp(),
        emu.get_stack().to_vec(),
        emu.get_keys().to_vec(),
        emu.get_dt(),
        emu.get_st(),
        emu.get_display().to_vec(),
    )
}

/// Steps once more, expects `fault`, and checks that nothing has changed.
fn expect_fault(emu: &mut Emu, fault: Fault) {
    let before = snapshot(emu);
    assert_eq!(emu.tick(), Err(fault));
    assert_eq!(snapshot(emu), before);
    // the fault is not transient
    assert_eq!(emu.tick(), Err(fault));
    assert_eq!(snapshot(emu), before);
}

#[test]
fn words_that_are_no_instruction() {
    let words: [u16; 22] = [
        0x0001, 0x00E1, 0x00EF, 0x0123, 0x0FFF, 0x5001, 0x512F, 0x8008, 0x8129, 0x812A, 0x812B,
        0x812C, 0x812D, 0x812F, 0x9001, 0x9ABF, 0xE09F, 0xE0A0, 0xE000, 0xF000, 0xF10B, 0xFFFF,
    ];
    for word in words {
        let mut emu = machine_after(&[(word >> 8) as u8, word as u8], 0);
        expect_fault(&mut emu, Fault::UnknownInstruction { word, addr: 0x200 });
    }
}

#[test]
fn every_word_of_class_f_but_nine_is_unknown() {
    let known = [0x07, 0x0A, 0x15, 0x18, 0x1E, 0x29, 0x33, 0x55, 0x65];
    for low in 0..=255u8 {
        // I = 0x300 first, so that the known ones can be carried out
        let mut emu = machine_after(&[0xA3, 0x00, 0xF0, low], 1);
        emu.keypress(1, true);
        let res = emu.tick();
        if known.contains(&low) {
            assert_eq!(res, Ok(()));
        } else {
            let word = 0xF000 | low as u16;
            assert_eq!(res, Err(Fault::UnknownInstruction { word, addr: 0x202 }));
            assert_eq!(emu.get_pc(), 0x202);
        }
    }
}

#[test]
fn unknown_instruction_names_its_address() {
    // jump to 0x20A, where 0x5AB3 stands
    let program = [0x12, 0x0A, 0, 0, 0, 0, 0, 0, 0, 0, 0x5A, 0xB3];
    let mut emu = machine_after(&program, 1);
    expect_fault(&mut emu, Fault::UnknownInstruction { word: 0x5AB3, addr: 0x20A });
}

#[test]
fn return_with_an_empty_stack() {
    let mut emu = machine_after(&[0x00, 0xEE], 0);
    expect_fault(&mut emu, Fault::StackUnderflow);
}

#[test]
fn return_after_the_last_call_has_returned() {
    // 0x200: call 0x204; 0x202: ret; 0x204: ret
    let mut emu = machine_after(&[0x22, 0x04, 0x00, 0xEE, 0x00, 0xEE], 2);
    assert_eq!((emu.get_pc(), emu.get_sp()), (0x202, 0));
    expect_fault(&mut emu, Fault::StackUnderflow);
}

#[test]
fn seventeenth_nested_call() {
    // a subroutine that calls itself
    let mut emu = machine_after(&[0x22, 0x00], 16);
    assert_eq!(emu.get_sp(), 16);
    assert_eq!(emu.get_stack(), [0x202; 16]);
    expect_fault(&mut emu, Fault::StackOverflow);
    assert_eq!(emu.get_sp(), 16);
    assert_eq!(emu.get_pc(), 0x200);
}

#[test]
fn fetch_at_the_last_byte_of_memory() {
    let mut emu = machine_after(&[0x1F, 0xFF], 1);
    assert_eq!(emu.get_pc(), 0xFFF);
    expect_fault(&mut emu, Fault::BadRead { addr: 0xFFF, len: 2 });
}

#[test]
fn fetch_of_the_last_word_of_memory_is_fine() {
    let mut program = vec![0u8; 4096 - 0x200];
    program[0] = 0x1F;
    program[1] = 0xFE;
    program[0xFFE - 0x200] = 0x6B;
    program[0xFFF - 0x200] = 0x2A;
    let mut emu = machine_after(&program, 2);
    assert_eq!(emu.get_v_reg()[0xB], 0x2A);
    assert_eq!(emu.get_pc(), 0x1000);
    expect_fault(&mut emu, Fault::BadRead { addr: 0x1000, len: 2 });
}

#[test]
fn running_off_the_end_of_a_return_address() {
    let mut emu = Emu::new();
    emu.push(0xFFFF);
    assert_eq!(emu.load(&[0x00, 0xEE]), Ok(()));
    assert_eq!(emu.tick(), Ok(()));
    assert_eq!(emu.get_pc(), 0xFFFF);
    expect_fault(&mut emu, Fault::BadRead { addr: 0xFFFF, len: 2 });
}

#[test]
fn draw_from_beyond_memory() {
    // I = 0xFFC, five rows: the last one is at 0x1000
    let mut emu = machine_after(&[0xAF, 0xFC, 0xD0, 0x05], 1);
    expect_fault(&mut emu, Fault::BadRead { addr: 0xFFC, len: 5 });
    // four rows fit
    let mut emu = machine_after(&[0xAF, 0xFC, 0xD0, 0x04], 1);
    assert_eq!(emu.tick(), Ok(()));
}

#[test]
fn draw_of_no_rows_reads_nothing() {
    // I = 0xFFF + 0xFF, far beyond memory
    let mut emu = machine_after(&[0xAF, 0xFF, 0x61, 0xFF, 0xF1, 0x1E, 0x6F, 0x09, 0xD0, 0x00], 4);
    assert_eq!(emu.get_i_reg(), 0x10FE);
    assert_eq!(emu.tick(), Ok(()));
    assert_eq!(emu.get_v_reg()[0xF], 0);
    assert_eq!(emu.get_display(), [false; 2048]);
}

#[test]
fn decimal_digits_below_the_load_address() {
    // I = 0 on a new machine: the font is there
    let mut emu = machine_after(&[0x60, 0x7B, 0xF0, 0x33], 1);
    expect_fault(&mut emu, Fault::BadWrite { addr: 0, len: 3 });
    assert_eq!(&emu.get_ram()[..80], &FONTSET[..]);
    let mut emu = machine_after(&[0xA1, 0xFF, 0xF0, 0x33], 1);
    expect_fault(&mut emu, Fault::BadWrite { addr: 0x1FF, len: 3 });
    let mut emu = machine_after(&[0xA2, 0x00, 0x60, 0x7B, 0xF0, 0x33], 3);
    assert_eq!(&emu.get_ram()[0x200..0x203], &[1, 2, 3]);
    assert_eq!(emu.tick(), Ok(()));
}

#[test]
fn decimal_digits_at_the_end_of_memory() {
    let mut emu = machine_after(&[0xAF, 0xFE, 0xF0, 0x33], 1);
    expect_fault(&mut emu, Fault::BadWrite { addr: 0xFFE, len: 3 });
    let emu = machine_after(&[0xAF, 0xFD, 0x60, 0xEA, 0xF0, 0x33], 3);
    assert_eq!(&emu.get_ram()[0xFFD..], &[2, 3, 4]);
}

#[test]
fn store_below_the_load_address() {
    let mut emu = machine_after(&[0xA1, 0xFF, 0xF0, 0x55], 1);
    expect_fault(&mut emu, Fault::BadWrite { addr: 0x1FF, len: 1 });
    let mut emu = machine_after(&[0xA0, 0x50, 0xFF, 0x55], 1);
    expect_fault(&mut emu, Fault::BadWrite { addr: 0x50, len: 16 });
}

#[test]
fn store_beyond_memory_writes_nothing() {
    // V0 = 0xAA, V1 = 0xBB, I = 0xFFF, store V0 and V1
    let mut emu = machine_after(&[0x60, 0xAA, 0x61, 0xBB, 0xAF, 0xFF, 0xF1, 0x55], 3);
    expect_fault(&mut emu, Fault::BadWrite { addr: 0xFFF, len: 2 });
    assert_eq!(emu.get_ram()[0xFFF], 0);
    // V0 alone fits
    let emu = machine_after(&[0x60, 0xAA, 0x61, 0xBB, 0xAF, 0xFF, 0xF0, 0x55], 4);
    assert_eq!(emu.get_ram()[0xFFF], 0xAA);
}

#[test]
fn load_registers_from_beyond_memory_reads_nothing() {
    let mut emu = machine_after(&[0x60, 0xAA, 0x61, 0xBB, 0xAF, 0xFF, 0xF1, 0x65], 3);
    expect_fault(&mut emu, Fault::BadRead { addr: 0xFFF, len: 2 });
    assert_eq!(&emu.get_v_reg()[..2], &[0xAA, 0xBB]);
    let emu = machine_after(&[0x60, 0xAA, 0x61, 0xBB, 0xAF, 0xFF, 0xF0, 0x65], 4);
    assert_eq!(&emu.get_v_reg()[..2], &[0, 0xBB]);
}

#[test]
fn load_registers_may_read_the_font() {
    let emu = machine_after(&[0xA0, 0x00, 0xF1, 0x65], 2);
    assert_eq!(&emu.get_v_reg()[..2], &[0xF0, 0x90]);
}

#[test]
fn key_instructions_with_a_key_that_does_not_exist() {
    let mut emu = machine_after(&[0x65, 0x10, 0xE5, 0x9E], 1);
    expect_fault(&mut emu, Fault::BadKey { key: 0x10 });
    let mut emu = machine_after(&[0x65, 0xFF, 0xE5, 0xA1], 1);
    expect_fault(&mut emu, Fault::BadKey { key: 0xFF });
    let mut emu = machine_after(&[0x65, 0x0F, 0xE5, 0xA1], 1);
    assert_eq!(emu.tick(), Ok(()));
}

#[test]
fn too_large_a_program_leaves_the_machine_alone() {
    let mut emu = machine_after(&[0x60, 0x01], 1);
    let before = snapshot(&emu);
    assert_eq!(emu.load(&vec![0xFF; 5000]), Err(Fault::ProgramTooLarge { size: 5000 }));
    assert_eq!(snapshot(&emu), before);
}

#[test]
fn no_step_writes_below_the_load_address() {
    // a program that stores, draws, calls and computes, run for a while
    let program = [
        0x60, 0x3F, 0x61, 0x1F, 0xA2, 0x20, 0xF1, 0x55, 0xF0, 0x33, 0xA0, 0x00, 0xD0, 0x1F, 0x22,
        0x12, 0x12, 0x00, 0x70, 0x07, 0x81, 0x04, 0x00, 0xEE,
    ];
    let mut emu = machine_after(&program, 0);
    let low = emu.get_ram()[..0x200].to_vec();
    for _ in 0..500 {
        assert_eq!(emu.tick(), Ok(()));
        assert_eq!(&emu.get_ram()[..0x200], &low[..]);
    }
}
