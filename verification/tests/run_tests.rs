use gameboy_wasm::emulator::{gameboy_from_serializable, mbc_code_supported, try_from_serializable};
use gameboy_wasm::gameboy::Gameboy;
use gameboy_wasm::run::{RunIteration, RunNext, SoundUpdate, StepFault};
use gameboy_wasm::sound::{decode_square1, has_wave_duty};

fn cartridge() -> Vec<u8> {
    let mut cart = vec![0u8; 0x8000];
    cart[0x147] = 0;
    cart
}

fn console() -> Gameboy {
    Gameboy::new(&vec![0u8; 0x100], cartridge())
}

fn load(gb: &mut Gameboy, program: &[u8]) {
    for (i, b) in program.iter().enumerate() {
        gb.machine.memory[0xC000 + i] = *b;
    }
    gb.set_pc(0xC000);
}

#[test]
fn execute_opcode_runs_one_instruction() {
    let mut gb = console();
    load(&mut gb, &[0x00, 0x3C]);
    assert_eq!(gb.execute_opcode(), Ok(SoundUpdate::Unchanged));
    assert_eq!(gb.get_pc(), 0xC001);
    assert_eq!(gb.total_cycle(), 4);
    assert_eq!(gb.execute_opcode(), Ok(SoundUpdate::Unchanged));
    assert_eq!(gb.get_a(), 1);
    assert_eq!(gb.total_cycle(), 8);
}

#[test]
fn unknown_opcode_stops_the_program() {
    let mut gb = console();
    load(&mut gb, &[0xE3]);
    assert_eq!(gb.execute_opcode(), Err(StepFault::UnknownInstruction(0xE3)));
    let pre = [0u8; 5];
    assert!(matches!(gb.execute_opcodes_iteration(&pre), Err(StepFault::UnknownInstruction(0xE3))));
}

#[test]
fn sound_register_write_restarts_channel_one() {
    let mut gb = console();
    gb.machine.memory[0xFF26] = 0x80;
    gb.machine.memory[0xFF13] = 0x10;
    load(&mut gb, &[0xE0, 0x12]); // LDH (0x12), A
    gb.set_a(0xF3);
    let expected = decode_square1(0x00, 0x00, 0xF3, 0x10, 0x00);
    assert_eq!(gb.execute_opcode(), Ok(SoundUpdate::Reset(expected)));
    assert_eq!(expected.volume(), 15);
    assert_eq!(expected.envelop_shift_num(), 3);
    assert_eq!(expected.fr(), 0x80);
}

#[test]
fn silent_channel_change_needs_no_restart() {
    let mut gb = console();
    gb.machine.memory[0xFF26] = 0x00;
    load(&mut gb, &[0xE0, 0x12]);
    gb.set_a(0xF3);
    assert_eq!(gb.execute_opcode(), Ok(SoundUpdate::Unchanged));
}

#[test]
fn sweep_time_without_wave_duty_is_refused() {
    let mut gb = console();
    gb.machine.memory[0xFF10] = 0x10;
    load(&mut gb, &[0xE0, 0x12]);
    gb.set_a(0x10);
    assert_eq!(gb.execute_opcode(), Err(StepFault::ImproperWaveDuty));
}

#[test]
fn channel_one_decoding() {
    let c = decode_square1(0x4B, 0xC7, 0x5A, 0xAB, 0xC5);
    assert_eq!(c.sweep_time_raw, 0x40);
    assert!(c.is_sweep_increase());
    assert_eq!(c.sweep_shift_num(), 3);
    assert_eq!(c.sound_length_raw, 0x07);
    assert_eq!(c.volume(), 5);
    assert!(c.is_envelop_increase());
    assert_eq!(c.envelop_shift_num(), 2);
    assert_eq!(c.fr(), (0xAB << 3) | 5);
    assert!(c.is_restart());
    assert!(c.is_use_length());
}

#[test]
fn channel_change_detection() {
    let gb = console();
    assert!(!gb.is_channel1_changed(0, 0, 0, 0, 0));
    assert!(gb.is_channel1_changed(0, 0, 0, 0, 1));
}

#[test]
fn counted_loop_iteration() {
    let mut gb = console();
    load(&mut gb, &[0x00]);
    let pre = [0u8; 5];
    let it = gb.execute_opcodes_iteration(&pre).unwrap();
    assert!(!it.draw);
    assert_eq!(it.sound, SoundUpdate::Unchanged);
    assert_eq!(gb.get_pc(), 0xC001);
    // The sound registers are compared with the values given, not the current ones.
    gb.machine.memory[0xFF26] = 0x80;
    gb.machine.memory[0xFF12] = 0xF0;
    gb.machine.memory[0xFF13] = 0x01;
    gb.machine.memory[0xC001] = 0x00;
    let it = gb.execute_opcodes_iteration(&pre).unwrap();
    assert!(matches!(it.sound, SoundUpdate::Reset(_)));
}

#[test]
fn free_loop_stops_when_not_running_or_paused() {
    let mut gb = console();
    load(&mut gb, &[0x00]);
    let stop = RunIteration { serial: None, next: RunNext::Stop };
    assert_eq!(gb.run_iteration(0, 1000), Ok(stop));
    assert_eq!(gb.get_pc(), 0xC000);
    gb.start_running();
    gb.pause_cpu();
    assert!(gb.cpu_paused());
    assert_eq!(gb.run_iteration(0, 1000), Ok(stop));
    gb.start_cpu();
    assert_eq!(gb.run_iteration(0, 1000), Ok(RunIteration { serial: None, next: RunNext::Continue }));
    assert_eq!(gb.get_pc(), 0xC001);
}

#[test]
fn free_loop_respects_cycle_budget() {
    let mut gb = console();
    load(&mut gb, &[0x00, 0x00]);
    gb.start_running();
    assert_eq!(gb.run_iteration(0, 0).unwrap().next, RunNext::Stop);
    assert_eq!(gb.get_pc(), 0xC001);
}

#[test]
fn free_loop_reports_serial_bytes() {
    let mut gb = console();
    load(&mut gb, &[0x00]);
    gb.start_running();
    gb.machine.memory[0xFF01] = b'A';
    gb.machine.memory[0xFF02] = 0x81;
    let it = gb.run_iteration(0, 1000).unwrap();
    assert_eq!(it.serial, Some(b'A'));
    assert_eq!(gb.read_memory(0xFF02), 0);
}

#[test]
fn free_loop_stops_to_draw() {
    let mut gb = console();
    load(&mut gb, &[0x00]);
    gb.start_running();
    gb.machine.memory[0xFF40] = 0x80;
    gb.should_draw = true;
    assert_eq!(gb.run_iteration(0, 1000).unwrap().next, RunNext::DrawAndStop);
    assert!(!gb.should_draw);
}

#[test]
fn break_point_stops_the_console() {
    let mut gb = console();
    load(&mut gb, &[0x00, 0x00]);
    gb.start_running();
    gb.set_break_point(0xC001);
    gb.run_iteration(0, 1000).unwrap();
    assert!(!gb.is_running());
    gb.toggle_is_running();
    assert!(gb.is_running());
    gb.stop_running();
    assert!(!gb.is_running());
}

#[test]
fn halt_without_ime_runs_the_next_instruction() {
    let mut gb = console();
    load(&mut gb, &[0x76, 0x3C]);
    gb.machine.registers.f.ime = false;
    gb.start_running();
    gb.run_iteration(0, 1000).unwrap();
    assert!(gb.is_halt);
    assert_eq!(gb.get_a(), 1);
    assert_eq!(gb.get_pc(), 0xC001);
}

#[test]
fn boot_rom_is_unmapped_before_its_last_write() {
    let mut boot = vec![0u8; 0x100];
    boot[0xFE] = 0xE0;
    boot[0xFF] = 0x50;
    boot[0x10] = 0x77;
    let mut cart = cartridge();
    cart[0x10] = 0x99;
    let mut gb = Gameboy::new(&boot, cart);
    assert_eq!(gb.read_memory(0x10), 0x77);
    gb.set_pc(0xFE);
    gb.set_a(0x01);
    gb.start_running();
    gb.run_iteration(0, 1000).unwrap();
    assert_eq!(gb.read_memory(0x10), 0x99);
    assert_eq!(gb.read_memory(0xFF50), 0x01);
}

#[test]
fn break_points_are_a_set_in_insertion_order() {
    let mut gb = console();
    gb.set_break_point(0x100);
    gb.set_break_point(0x200);
    gb.set_break_point(0x100);
    assert_eq!(gb.get_break_points(), vec![0x100, 0x200]);
    assert!(gb.has_break_point(0x200));
    gb.remove_break_point(0x100);
    assert_eq!(gb.get_break_points(), vec![0x200]);
    assert!(!gb.has_break_point(0x100));
    gb.remove_break_point(0x300);
    assert_eq!(gb.get_break_points(), vec![0x200]);
}

#[test]
fn fresh_console_state() {
    let gb = console();
    assert_eq!(gb.get_pc(), 0);
    assert_eq!(gb.get_sp(), 0xFFFF);
    assert!(gb.get_flag_ime());
    assert!(!gb.is_running());
    assert_eq!(gb.machine.joypad_state, 0xFF);
    assert_eq!((gb.background_width(), gb.background_height()), (255, 255));
    assert_eq!((gb.screen_width(), gb.screen_height()), (160, 144));
    assert_eq!(gb.image_data.len(), 0x800 / 2 * 32);
}

#[test]
fn saved_state_restores_the_console() {
    let mut gb = console();
    load(&mut gb, &[0x3C, 0x3C]);
    gb.execute_opcode().unwrap();
    gb.set_break_point(0xC002);
    gb.machine.memory[0xD000] = 0xAB;
    gb.set_vram_cycle(77);
    let saved = gb.to_serializable();
    let restored = gameboy_from_serializable(saved, cartridge());
    assert_eq!((restored.get_pc(), restored.get_sp()), (gb.get_pc(), gb.get_sp()));
    assert_eq!(restored.get_flag_ime(), gb.get_flag_ime());
    assert_eq!(restored.machine.memory, gb.machine.memory);
    assert_eq!(restored.total_cycle(), gb.total_cycle());
    assert_eq!(restored.vram_cycle(), 77);
    assert_eq!(restored.get_break_points(), vec![0xC002]);
    assert_eq!(restored.get_a(), 1);
    assert_eq!(restored.get_rom_bank(), 1);
}

#[test]
fn sound_status_bits() {
    let mut gb = console();
    gb.machine.memory[0xFF26] = 0x87;
    assert!(gb.is_sound_all_on());
    assert!(gb.is_sound_4_on());
    assert!(gb.is_sound_3_on());
    assert!(!gb.is_sound_2_all_on());
    assert!(!gb.is_sound_1_on());
    gb.machine.memory[0xFF26] = 0x08;
    assert!(!gb.is_sound_all_on());
    assert!(!gb.is_sound_4_on());
}

#[test]
fn lcd_register_getters() {
    let mut gb = console();
    gb.machine.memory[0xFF40] = 0xFF;
    gb.machine.memory[0xFF41] = 0x7C;
    gb.machine.memory[0xFF42] = 3;
    gb.machine.memory[0xFF43] = 4;
    gb.machine.memory[0xFF4A] = 5;
    gb.machine.memory[0xFF4B] = 6;
    gb.machine.memory[0x9C00] = 0x42;
    assert_eq!(gb.get_lcd(), 0xFF);
    assert!(gb.is_window_display_enable());
    assert!(gb.is_obj_display_enable());
    assert!(gb.is_bg_display());
    assert!(gb.ly_conincidence_interrupt_enabled());
    assert!(gb.oam_interrupt_enabled());
    assert!(gb.vblank_interrupt_enabled());
    assert!(gb.hblank_interrupt_enabled());
    assert!(gb.is_conincidence_flag_on());
    assert_eq!((gb.get_scroll_y(), gb.get_scroll_x()), (3, 4));
    assert_eq!((gb.get_window_y(), gb.get_window_x()), (5, 6));
    assert_eq!(gb.bg_map()[0], 0x42);
    assert_eq!(gb.window_map()[0], 0x42);
    assert_eq!(gb.background_map_1()[0], 0);
    assert_eq!(gb.get_oam().len(), 160);
    assert_eq!(gb.obj_char_map_bytes().len(), 0x1000);
    assert_eq!(gb.memory_range(0xFF42, 0xFF44), vec![3, 4]);
}

#[test]
fn interrupt_enable_getters() {
    let mut gb = console();
    gb.machine.memory[0xFFFF] = 0x15;
    assert!(gb.get_interrupt_enabled_vblank());
    assert!(!gb.get_interrupt_enabled_lcd());
    assert!(gb.get_interrupt_enabled_timer());
    assert!(!gb.get_interrupt_enabled_serial());
    assert!(gb.get_interrupt_enabled_joypad());
}

#[test]
fn building_refuses_unsupported_cartridges() {
    let boot = vec![0u8; 0x100];
    assert!(Gameboy::try_new(&boot, vec![0u8; 0x7FFF]).is_none());
    let mut cart = vec![0u8; 0x8000];
    cart[0x147] = 0x04;
    assert!(Gameboy::try_new(&boot, cart.clone()).is_none());
    cart[0x147] = 0x01;
    assert!(Gameboy::try_new(&boot, cart.clone()).is_none());
    cart[0x147] = 0x00;
    assert!(Gameboy::try_new(&boot, cart).is_some());
    let mut big = vec![0u8; 0x10000];
    big[0x147] = 0x13;
    assert_eq!(Gameboy::try_new(&boot, big).unwrap().get_mbc(), 1);
    assert!(mbc_code_supported(6));
    assert!(!mbc_code_supported(7));
}

#[test]
fn restoring_refuses_bad_saved_states() {
    let gb = console();
    let mut saved = gb.to_serializable();
    saved.memory.pop();
    assert!(try_from_serializable(saved, cartridge()).is_none());
    let mut saved = gb.to_serializable();
    saved.memory[0x147] = 0x20;
    assert!(try_from_serializable(saved, cartridge()).is_none());
    let saved = gb.to_serializable();
    assert!(try_from_serializable(saved, vec![0u8; 0x100]).is_none());
    let saved = gb.to_serializable();
    assert!(try_from_serializable(saved, cartridge()).is_some());
}

#[test]
fn wave_duty_selectors() {
    assert!(has_wave_duty(0x00));
    assert!(has_wave_duty(0x4F));
    assert!(has_wave_duty(0x8F));
    assert!(!has_wave_duty(0x10));
    assert!(!has_wave_duty(0x70));
}
