use gameboy_wasm::gameboy::Gameboy;
use gameboy_wasm::registers::split_word;

fn console() -> Gameboy {
    let mut cart = vec![0u8; 0x8000];
    cart[0x147] = 0;
    Gameboy::new(&vec![0u8; 0x100], cart)
}

fn load(gb: &mut Gameboy, program: &[u8]) {
    for (i, b) in program.iter().enumerate() {
        gb.write_memory(0xC000 + i as u16, *b);
    }
    gb.set_pc(0xC000);
}

fn run(gb: &mut Gameboy) {
    let op = gb.read_memory(gb.get_pc());
    gb.execute_instruction(op);
}

#[test]
fn word_bytes_roundtrip() {
    assert_eq!(split_word(0xBEEF), (0xBE, 0xEF));
    let gb = console();
    assert_eq!(gb.machine.registers.combine_two_bytes(0xBE, 0xEF), 0xBEEF);
}

#[test]
fn write_leaves_neighbours() {
    let mut gb = console();
    gb.write_memory(0xC000, 1);
    gb.write_memory(0xC001, 2);
    gb.write_memory(0xC000, 3);
    assert_eq!(gb.read_memory(0xC000), 3);
    assert_eq!(gb.read_memory(0xC001), 2);
}

#[test]
fn inc_then_dec_restores_register() {
    for start in [0x00u8, 0x0F, 0x7F, 0xFF] {
        let mut gb = console();
        load(&mut gb, &[0x04, 0x05]);
        gb.set_b(start);
        run(&mut gb);
        run(&mut gb);
        assert_eq!(gb.get_b(), start);
    }
}

#[test]
fn rotations_undo_each_other() {
    let mut gb = console();
    // RLC B, RRC B, SWAP B, SWAP B
    load(&mut gb, &[0xCB, 0x00, 0xCB, 0x08, 0xCB, 0x30, 0xCB, 0x30]);
    gb.set_b(0x96);
    run(&mut gb);
    assert_eq!(gb.get_b(), 0x2D);
    run(&mut gb);
    assert_eq!(gb.get_b(), 0x96);
    run(&mut gb);
    assert_eq!(gb.get_b(), 0x69);
    run(&mut gb);
    assert_eq!(gb.get_b(), 0x96);
}

#[test]
fn rl_then_rr_restores_value() {
    let mut gb = console();
    // RL C, RR C
    load(&mut gb, &[0xCB, 0x11, 0xCB, 0x19]);
    gb.set_c(0xA5);
    gb.set_flag_c(false);
    run(&mut gb);
    assert_eq!(gb.get_c(), 0x4A);
    assert!(gb.get_flag_c());
    run(&mut gb);
    assert_eq!(gb.get_c(), 0xA5);
}

#[test]
fn set_then_bit_and_res_then_bit() {
    let mut gb = console();
    // SET 3,D ; BIT 3,D ; RES 3,D ; BIT 3,D
    load(&mut gb, &[0xCB, 0xDA, 0xCB, 0x5A, 0xCB, 0x9A, 0xCB, 0x5A]);
    gb.set_d(0x00);
    run(&mut gb);
    assert_eq!(gb.get_d(), 0x08);
    run(&mut gb);
    assert!(!gb.get_flag_z());
    run(&mut gb);
    assert_eq!(gb.get_d(), 0x00);
    run(&mut gb);
    assert!(gb.get_flag_z());
}

#[test]
fn push_then_pop_pair_restores_registers() {
    let mut gb = console();
    // PUSH DE ; LD DE,0 ; POP DE
    load(&mut gb, &[0xD5, 0x11, 0x00, 0x00, 0xD1]);
    gb.set_sp(0xDFF0);
    gb.set_d(0x12);
    gb.set_e(0x34);
    run(&mut gb);
    run(&mut gb);
    assert_eq!((gb.get_d(), gb.get_e()), (0, 0));
    run(&mut gb);
    assert_eq!((gb.get_d(), gb.get_e()), (0x12, 0x34));
    assert_eq!(gb.get_sp(), 0xDFF0);
}

#[test]
fn ly_never_leaves_its_range() {
    let mut gb = console();
    for _ in 0..400 {
        gb.inc_ly();
        assert!(gb.ly() <= 153);
    }
}

#[test]
fn only_di_ei_reti_change_ime() {
    let mut gb = console();
    // NOP ; INC A ; LD B,5 ; PUSH BC ; POP AF ; DI ; EI
    load(&mut gb, &[0x00, 0x3C, 0x06, 0x05, 0xC5, 0xF1, 0xF3, 0xFB]);
    gb.set_sp(0xDFF0);
    gb.machine.registers.f.ime = false;
    for _ in 0..5 {
        run(&mut gb);
        assert!(!gb.get_flag_ime());
    }
    gb.machine.registers.f.ime = true;
    run(&mut gb);
    assert!(!gb.get_flag_ime());
    run(&mut gb);
    assert!(gb.get_flag_ime());
}

#[test]
fn low_rom_bank_writes_never_select_bank_zero() {
    let mut cart = vec![0u8; 0x10000];
    cart[0x147] = 1;
    let mut gb = Gameboy::new(&vec![0u8; 0x100], cart);
    gb.write_memory(0x6000, 0);
    gb.write_memory(0x4000, 0x20);
    gb.write_memory(0x2000, 0xE0);
    assert_eq!(gb.get_rom_bank(), 0x20);
    gb.write_memory(0x4000, 0x00);
    gb.write_memory(0x2000, 0x00);
    assert_eq!(gb.get_rom_bank(), 1);
}
