use gameboy_wasm::gameboy::Gameboy;
use gameboy_wasm::names::opcode_name;

fn cartridge(mbc_code: u8, size: usize) -> Vec<u8> {
    let mut c = vec![0u8; size];
    c[0x147] = mbc_code;
    c
}

fn console() -> Gameboy {
    let boot = vec![0u8; 0x100];
    Gameboy::new(&boot, cartridge(0, 0x8000))
}

/// Loads a program at 0xC000 (work RAM) and points PC at it.
fn load(gb: &mut Gameboy, program: &[u8]) {
    for (i, b) in program.iter().enumerate() {
        gb.write_memory(0xC000 + i as u16, *b);
    }
    gb.set_pc(0xC000);
}

fn run(gb: &mut Gameboy) {
    let pc = gb.get_pc();
    let op = gb.read_memory(pc);
    gb.execute_instruction(op);
}

fn flags(gb: &Gameboy) -> (bool, bool, bool, bool) {
    (gb.get_flag_z(), gb.get_flag_n(), gb.get_flag_h(), gb.get_flag_c())
}

#[test]
fn add_sets_zero_half_carry_and_carry() {
    let mut gb = console();
    load(&mut gb, &[0x80]);
    gb.set_a(0x3A);
    gb.set_b(0xC6);
    run(&mut gb);
    assert_eq!(gb.get_a(), 0x00);
    assert_eq!(flags(&gb), (true, false, true, true));
    assert_eq!(gb.get_pc(), 0xC001);
}

#[test]
fn adc_adds_the_carry() {
    let mut gb = console();
    load(&mut gb, &[0x8B]);
    gb.set_a(0xE1);
    gb.set_e(0x0F);
    gb.set_flag_c(true);
    run(&mut gb);
    assert_eq!(gb.get_a(), 0xF1);
    assert_eq!(flags(&gb), (false, false, true, false));
}

#[test]
fn sub_borrows() {
    let mut gb = console();
    load(&mut gb, &[0x90]);
    gb.set_a(0x3E);
    gb.set_b(0x3F);
    run(&mut gb);
    assert_eq!(gb.get_a(), 0xFF);
    assert_eq!(flags(&gb), (false, true, true, true));
}

#[test]
fn sbc_subtracts_the_carry() {
    let mut gb = console();
    load(&mut gb, &[0x9C]);
    gb.set_a(0x3B);
    gb.set_h(0x2A);
    gb.set_flag_c(true);
    run(&mut gb);
    assert_eq!(gb.get_a(), 0x10);
    assert_eq!(flags(&gb), (false, true, false, false));
}

#[test]
fn logic_operations() {
    let mut gb = console();
    load(&mut gb, &[0xA1, 0xB2, 0xAB, 0xFE, 0x3F]);
    gb.set_a(0x5A);
    gb.set_c(0x3F);
    gb.set_d(0x80);
    gb.set_e(0x9A);
    run(&mut gb); // AND C
    assert_eq!(gb.get_a(), 0x1A);
    assert_eq!(flags(&gb), (false, false, true, false));
    run(&mut gb); // OR D
    assert_eq!(gb.get_a(), 0x9A);
    assert_eq!(flags(&gb), (false, false, false, false));
    run(&mut gb); // XOR E
    assert_eq!(gb.get_a(), 0x00);
    assert_eq!(flags(&gb), (true, false, false, false));
    run(&mut gb); // CP 0x3F
    assert_eq!(gb.get_a(), 0x00);
    assert_eq!(flags(&gb), (false, true, true, true));
    assert_eq!(gb.get_pc(), 0xC005);
}

#[test]
fn inc_wraps_to_zero() {
    let mut gb = console();
    load(&mut gb, &[0x04]);
    gb.set_b(0xFF);
    gb.set_flag_c(true);
    run(&mut gb);
    assert_eq!(gb.get_b(), 0x00);
    assert_eq!(flags(&gb), (true, false, true, true));
}

#[test]
fn dec_borrows_from_bit_four() {
    let mut gb = console();
    load(&mut gb, &[0x0D]);
    gb.set_c(0x10);
    run(&mut gb);
    assert_eq!(gb.get_c(), 0x0F);
    assert_eq!(flags(&gb), (false, true, true, false));
}

#[test]
fn inc_through_hl() {
    let mut gb = console();
    load(&mut gb, &[0x34]);
    gb.set_h(0xC1);
    gb.set_l(0x00);
    gb.write_memory(0xC100, 0x0F);
    run(&mut gb);
    assert_eq!(gb.read_memory(0xC100), 0x10);
    assert_eq!(flags(&gb), (false, false, true, false));
}

#[test]
fn loads_between_registers_and_immediates() {
    let mut gb = console();
    load(&mut gb, &[0x3E, 0x42, 0x57, 0x21, 0x34, 0x12, 0x36, 0x99]);
    run(&mut gb); // LD A, 0x42
    run(&mut gb); // LD D, A
    run(&mut gb); // LD HL, 0x1234
    assert_eq!(gb.get_a(), 0x42);
    assert_eq!(gb.get_d(), 0x42);
    assert_eq!((gb.get_h(), gb.get_l()), (0x12, 0x34));
    gb.set_h(0xC2);
    gb.set_l(0x00);
    run(&mut gb); // LD (HL), 0x99
    assert_eq!(gb.read_memory(0xC200), 0x99);
    assert_eq!(gb.get_pc(), 0xC008);
}

#[test]
fn load_and_step_hl() {
    let mut gb = console();
    load(&mut gb, &[0x22, 0x32, 0x2A]);
    gb.set_a(0x77);
    gb.set_h(0xC3);
    gb.set_l(0x00);
    run(&mut gb); // LD (HL+), A
    assert_eq!(gb.read_memory(0xC300), 0x77);
    assert_eq!((gb.get_h(), gb.get_l()), (0xC3, 0x01));
    run(&mut gb); // LD (HL-), A
    assert_eq!(gb.read_memory(0xC301), 0x77);
    assert_eq!((gb.get_h(), gb.get_l()), (0xC3, 0x00));
    gb.set_a(0);
    run(&mut gb); // LD A, (HL+)
    assert_eq!(gb.get_a(), 0x77);
    assert_eq!((gb.get_h(), gb.get_l()), (0xC3, 0x01));
}

#[test]
fn high_page_loads() {
    let mut gb = console();
    load(&mut gb, &[0xE0, 0x80, 0xF0, 0x81, 0xE2]);
    gb.set_a(0x5C);
    gb.write_memory(0xFF81, 0x66);
    run(&mut gb); // LD (FF80), A
    assert_eq!(gb.read_memory(0xFF80), 0x5C);
    run(&mut gb); // LD A, (FF81)
    assert_eq!(gb.get_a(), 0x66);
    gb.set_c(0x82);
    run(&mut gb); // LD (FF00+C), A
    assert_eq!(gb.read_memory(0xFF82), 0x66);
    assert_eq!(gb.get_pc(), 0xC005);
}

#[test]
fn relative_jumps() {
    let mut gb = console();
    load(&mut gb, &[0x18, 0xFE]);
    run(&mut gb); // JR -2: back onto itself
    assert_eq!(gb.get_pc(), 0xC000);

    let mut gb = console();
    load(&mut gb, &[0x20, 0x05]);
    gb.set_flag_z(true);
    run(&mut gb); // JR NZ not taken
    assert_eq!(gb.get_pc(), 0xC002);
}

#[test]
fn relative_jump_by_minus_128_moves_forward() {
    let mut gb = console();
    load(&mut gb, &[0x18, 0x80]);
    run(&mut gb);
    assert_eq!(gb.get_pc(), 0xC002 + 128);
}

#[test]
fn call_and_return() {
    let mut gb = console();
    load(&mut gb, &[0xCD, 0x00, 0xC4]);
    gb.write_memory(0xC400, 0xC9);
    gb.set_sp(0xDFF0);
    run(&mut gb); // CALL C400
    assert_eq!(gb.get_pc(), 0xC400);
    assert_eq!(gb.get_sp(), 0xDFEE);
    assert_eq!(gb.read_memory(0xDFEF), 0xC0);
    assert_eq!(gb.read_memory(0xDFEE), 0x03);
    run(&mut gb); // RET
    assert_eq!(gb.get_pc(), 0xC003);
    assert_eq!(gb.get_sp(), 0xDFF0);
    // popping clears the stack bytes
    assert_eq!(gb.read_memory(0xDFEF), 0x00);
    assert_eq!(gb.read_memory(0xDFEE), 0x00);
}

#[test]
fn push_and_pop_af() {
    let mut gb = console();
    load(&mut gb, &[0xF5, 0xC1]);
    gb.set_sp(0xDFF0);
    gb.set_a(0x12);
    gb.set_flag_z(true);
    gb.set_flag_c(true);
    run(&mut gb); // PUSH AF
    run(&mut gb); // POP BC
    assert_eq!((gb.get_b(), gb.get_c()), (0x12, 0x90));
    assert_eq!(gb.get_sp(), 0xDFF0);
}

#[test]
fn pop_af_takes_flags_from_the_low_byte() {
    let mut gb = console();
    load(&mut gb, &[0xF1]);
    gb.set_sp(0xDFF0);
    gb.write_memory(0xDFF0, 0x60);
    gb.write_memory(0xDFF1, 0xAB);
    run(&mut gb);
    assert_eq!(gb.get_a(), 0xAB);
    assert_eq!(flags(&gb), (false, true, true, false));
}

#[test]
fn restart_pushes_and_jumps() {
    let mut gb = console();
    load(&mut gb, &[0xEF]);
    gb.set_sp(0xDFF0);
    run(&mut gb); // RST 28
    assert_eq!(gb.get_pc(), 0x28);
    assert_eq!(gb.read_memory(0xDFEE), 0x01);
    assert_eq!(gb.read_memory(0xDFEF), 0xC0);
}

#[test]
fn sixteen_bit_arithmetic() {
    let mut gb = console();
    load(&mut gb, &[0x09, 0x0B, 0x33]);
    gb.set_h(0x0F);
    gb.set_l(0xFF);
    gb.set_b(0x00);
    gb.set_c(0x01);
    gb.set_flag_z(true);
    run(&mut gb); // ADD HL, BC
    assert_eq!((gb.get_h(), gb.get_l()), (0x10, 0x00));
    assert_eq!(flags(&gb), (true, false, true, false));
    run(&mut gb); // DEC BC
    assert_eq!((gb.get_b(), gb.get_c()), (0x00, 0x00));
    gb.set_sp(0xFFFF);
    run(&mut gb); // INC SP
    assert_eq!(gb.get_sp(), 0x0000);
}

#[test]
fn stack_pointer_offsets() {
    let mut gb = console();
    load(&mut gb, &[0xE8, 0x01, 0xF8, 0xFF]);
    gb.set_sp(0x00FF);
    run(&mut gb); // ADD SP, 1
    assert_eq!(gb.get_sp(), 0x0100);
    assert_eq!(flags(&gb), (false, false, true, true));
    run(&mut gb); // LD HL, SP-1
    assert_eq!((gb.get_h(), gb.get_l()), (0x00, 0xFF));
    assert_eq!(flags(&gb), (false, false, false, false));
}

#[test]
fn decimal_adjust_after_addition() {
    let mut gb = console();
    load(&mut gb, &[0xC6, 0x27, 0x27]);
    gb.set_a(0x15);
    run(&mut gb); // ADD A, 0x27
    assert_eq!(gb.get_a(), 0x3C);
    run(&mut gb); // DAA
    assert_eq!(gb.get_a(), 0x42);
    assert_eq!(flags(&gb), (false, false, false, false));
}

#[test]
fn flag_instructions() {
    let mut gb = console();
    load(&mut gb, &[0x2F, 0x37, 0x3F]);
    gb.set_a(0x35);
    run(&mut gb); // CPL
    assert_eq!(gb.get_a(), 0xCA);
    assert_eq!(flags(&gb), (false, true, true, false));
    run(&mut gb); // SCF
    assert_eq!(flags(&gb), (false, false, false, true));
    run(&mut gb); // CCF
    assert_eq!(flags(&gb), (false, false, false, false));
}

#[test]
fn accumulator_rotations() {
    let mut gb = console();
    load(&mut gb, &[0x07, 0x0F, 0x17, 0x1F]);
    gb.set_a(0x85);
    run(&mut gb); // RLCA
    assert_eq!(gb.get_a(), 0x0B);
    assert!(gb.get_flag_c());
    run(&mut gb); // RRCA
    assert_eq!(gb.get_a(), 0x85);
    assert!(gb.get_flag_c());
    run(&mut gb); // RLA with carry in
    assert_eq!(gb.get_a(), 0x0B);
    assert!(gb.get_flag_c());
    gb.set_a(0x00);
    run(&mut gb); // RRA with carry in
    assert_eq!(gb.get_a(), 0x80);
    assert_eq!(flags(&gb), (false, false, false, false));
}

#[test]
fn prefixed_shifts_and_bits() {
    let mut gb = console();
    load(&mut gb, &[0xCB, 0x00, 0xCB, 0x37, 0xCB, 0x28, 0xCB, 0x3E, 0xCB, 0x7E, 0xCB, 0xC6, 0xCB, 0x8F]);
    gb.set_b(0x80);
    run(&mut gb); // RLC B
    assert_eq!(gb.get_b(), 0x01);
    assert_eq!(flags(&gb), (false, false, false, true));
    gb.set_a(0xF0);
    run(&mut gb); // SWAP A
    assert_eq!(gb.get_a(), 0x0F);
    assert_eq!(flags(&gb), (false, false, false, false));
    run(&mut gb); // SRA B
    assert_eq!(gb.get_b(), 0x00);
    assert_eq!(flags(&gb), (true, false, false, true));
    gb.set_h(0xC5);
    gb.set_l(0x00);
    gb.write_memory(0xC500, 0x01);
    run(&mut gb); // SRL (HL)
    assert_eq!(gb.read_memory(0xC500), 0x00);
    assert_eq!(flags(&gb), (true, false, false, true));
    run(&mut gb); // BIT 7, (HL)
    assert_eq!(flags(&gb), (true, false, true, true));
    run(&mut gb); // SET 0, (HL)
    assert_eq!(gb.read_memory(0xC500), 0x01);
    gb.set_a(0xFF);
    run(&mut gb); // RES 1, A
    assert_eq!(gb.get_a(), 0xFD);
    assert_eq!(gb.get_pc(), 0xC00E);
}

#[test]
fn interrupt_enable_instructions() {
    let mut gb = console();
    load(&mut gb, &[0xF3, 0xFB]);
    run(&mut gb);
    assert!(!gb.get_flag_ime());
    run(&mut gb);
    assert!(gb.get_flag_ime());
}

#[test]
fn dd_prefix_forms() {
    let mut gb = console();
    load(&mut gb, &[0xDD, 0xDD]);
    run(&mut gb);
    assert_eq!(gb.get_pc(), 0xC001);

    let mut gb = console();
    load(&mut gb, &[0xDD, 0xD9]);
    gb.set_sp(0xDFF0);
    gb.write_memory(0xDFF0, 0x34);
    gb.write_memory(0xDFF1, 0x12);
    gb.machine.registers.f.ime = false;
    run(&mut gb);
    assert_eq!(gb.get_pc(), 0x1234);
    assert!(gb.get_flag_ime());
}

#[test]
fn store_stack_pointer() {
    let mut gb = console();
    load(&mut gb, &[0x08, 0x00, 0xC6]);
    gb.set_sp(0xBEEF);
    run(&mut gb);
    assert_eq!(gb.read_memory(0xC600), 0xEF);
    assert_eq!(gb.read_memory(0xC601), 0xBE);
    assert_eq!(gb.get_pc(), 0xC003);
}

#[test]
fn opcode_names() {
    assert_eq!(opcode_name(0xAF), "XOR A");
    assert_eq!(opcode_name(0xCB), "CB function");
    assert_eq!(opcode_name(0xE3), "???");
}
