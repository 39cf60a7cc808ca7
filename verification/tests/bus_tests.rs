use gameboy_wasm::emulator::get_mbc_from_memory;
use gameboy_wasm::gameboy::Gameboy;

fn banked_console() -> Gameboy {
    let boot = vec![0u8; 0x100];
    let mut cart = vec![0u8; 0x10000];
    cart[0x147] = 1;
    cart[0x4000] = 0x11;
    cart[0x8000] = 0x22;
    cart[0xC000] = 0x33;
    Gameboy::new(&boot, cart)
}

fn plain_console() -> Gameboy {
    let boot = vec![0u8; 0x100];
    let mut cart = vec![0u8; 0x8000];
    cart[0x147] = 0;
    cart[0x4000] = 0x5A;
    Gameboy::new(&boot, cart)
}

#[test]
fn rom_bank_one_is_mapped_at_start() {
    let gb = banked_console();
    assert_eq!(gb.get_mbc(), 1);
    assert_eq!(gb.get_rom_bank(), 1);
    assert_eq!(gb.read_memory(0x4000), 0x11);
}

#[test]
fn plain_cartridge_reads_second_half() {
    let mut gb = plain_console();
    assert_eq!(gb.get_mbc(), 0);
    assert_eq!(gb.read_memory(0x4000), 0x5A);
    // Without a controller, bank writes change nothing.
    gb.write_memory(0x2000, 2);
    assert_eq!(gb.get_rom_bank(), 1);
    assert_eq!(gb.read_memory(0x4000), 0x5A);
}

#[test]
fn switching_rom_banks() {
    let mut gb = banked_console();
    gb.write_memory(0x2000, 2);
    assert_eq!(gb.get_rom_bank(), 2);
    assert_eq!(gb.read_memory(0x4000), 0x22);
    gb.write_memory(0x3FFF, 3);
    assert_eq!(gb.read_memory(0x4000), 0x33);
    // Bank 0 selects bank 1.
    gb.write_memory(0x2000, 0);
    assert_eq!(gb.get_rom_bank(), 1);
    assert_eq!(gb.read_memory(0x4000), 0x11);
    // The bank offset wraps at 64 KiB: bank 5 reads like bank 1.
    gb.write_memory(0x2000, 5);
    assert_eq!(gb.get_rom_bank(), 5);
    assert_eq!(gb.read_memory(0x4000), 0x11);
}

#[test]
fn high_rom_bank_bits_in_rom_banking_mode() {
    let mut gb = banked_console();
    gb.write_memory(0x6000, 0); // ROM banking mode
    assert!(gb.get_is_rom_banking_enabled());
    gb.write_memory(0x4000, 0x20);
    assert_eq!(gb.get_rom_bank(), 0x21);
    gb.write_memory(0x2000, 0x02);
    assert_eq!(gb.get_rom_bank(), 0x22);
}

#[test]
fn cartridge_ram_needs_enabling() {
    let mut gb = banked_console();
    assert!(!gb.get_is_ram_enabled());
    gb.write_memory(0xA005, 0x77);
    assert_eq!(gb.read_memory(0xA005), 0x00);
    gb.write_memory(0x0000, 0x0A);
    assert!(gb.get_is_ram_enabled());
    gb.write_memory(0xA005, 0x77);
    assert_eq!(gb.read_memory(0xA005), 0x77);
    // Other values than 0x?A and 0x?0 leave the setting alone.
    gb.write_memory(0x1000, 0x35);
    assert!(gb.get_is_ram_enabled());
    gb.write_memory(0x1000, 0x50);
    assert!(!gb.get_is_ram_enabled());
    gb.write_memory(0xA005, 0x12);
    assert_eq!(gb.read_memory(0xA005), 0x77);
}

#[test]
fn ram_banks_in_ram_banking_mode() {
    let mut gb = banked_console();
    gb.write_memory(0x0000, 0x0A);
    gb.write_memory(0xA000, 0x01);
    gb.write_memory(0x6000, 1); // RAM banking mode
    assert!(!gb.get_is_rom_banking_enabled());
    gb.write_memory(0x4000, 0x06);
    assert_eq!(gb.get_ram_bank(), 2);
    assert_eq!(gb.read_memory(0xA000), 0x00);
    gb.write_memory(0xA000, 0x02);
    assert_eq!(gb.machine.ram_bank_memory[0x4000], 0x02);
    // Back to ROM banking mode: RAM bank 0 again.
    gb.write_memory(0x6000, 0);
    assert_eq!(gb.get_ram_bank(), 0);
    assert_eq!(gb.read_memory(0xA000), 0x01);
}

#[test]
fn mbc2_enable_depends_on_address_bit() {
    let boot = vec![0u8; 0x100];
    let mut cart = vec![0u8; 0x10000];
    cart[0x147] = 5;
    let mut gb = Gameboy::new(&boot, cart);
    assert_eq!(gb.get_mbc(), 2);
    gb.write_memory(0x0010, 0x0A);
    assert!(!gb.get_is_ram_enabled());
    gb.write_memory(0x0000, 0x0A);
    assert!(gb.get_is_ram_enabled());
    gb.write_memory(0x2000, 0x13);
    assert_eq!(gb.get_rom_bank(), 3);
}

#[test]
fn ly_is_cleared_by_a_write_and_unusable_area_is_ignored() {
    let mut gb = plain_console();
    gb.machine.memory[0xFF44] = 0x42;
    gb.write_memory(0xFF44, 0x99);
    assert_eq!(gb.read_memory(0xFF44), 0x00);
    gb.write_memory(0xFEA0, 0x55);
    assert_eq!(gb.read_memory(0xFEA0), 0x00);
    gb.write_memory(0xC123, 0x55);
    assert_eq!(gb.read_memory(0xC123), 0x55);
}

#[test]
fn joypad_reads_selected_group() {
    let mut gb = plain_console();
    gb.write_memory(0xFF00, 0x20); // directional keys selected
    assert_eq!(gb.read_memory(0xFF00), 0xDF);
    gb.joypad_key_pressed(0x01);
    assert_eq!(gb.machine.joypad_state, 0xFE);
    assert_eq!(gb.read_memory(0xFF00), 0xDE);
    gb.write_memory(0xFF00, 0x10); // standard keys selected
    gb.joypad_key_pressed(0x20);
    assert_eq!(gb.machine.joypad_state, 0xDE);
    assert_eq!(gb.read_memory(0xFF00), 0xED);
}

#[test]
fn key_press_requests_joypad_interrupt_once() {
    let mut gb = plain_console();
    gb.machine.memory[0xFF00] = 0x10;
    gb.joypad_key_pressed(0x02);
    assert_eq!(gb.read_memory(0xFF0F) & 0x10, 0x10);
    gb.machine.memory[0xFF0F] = 0;
    // Already pressed: no new request.
    gb.joypad_key_pressed(0x02);
    assert_eq!(gb.read_memory(0xFF0F), 0);
    gb.joypad_key_released(0x02);
    assert_eq!(gb.machine.joypad_state, 0xFF);
}

#[test]
fn controller_type_from_header() {
    let mut memory = vec![0u8; 0x10000];
    for (code, mbc) in [(0u8, 0u8), (1, 1), (2, 1), (3, 1), (0x13, 1), (5, 2), (6, 2)] {
        memory[0x147] = code;
        assert_eq!(get_mbc_from_memory(&memory), mbc);
    }
}
