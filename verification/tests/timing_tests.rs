use gameboy_wasm::gameboy::{is_cycle_known, CycleRegister, Gameboy};

fn console() -> Gameboy {
    let boot = vec![0u8; 0x100];
    let mut cart = vec![0u8; 0x8000];
    cart[0x147] = 0;
    Gameboy::new(&boot, cart)
}

#[test]
fn timer_frequency_follows_tac() {
    let mut gb = console();
    for (tac, freq, clocks) in [(0u8, 4096usize, 1024usize), (1, 262144, 16), (2, 65536, 64), (3, 16384, 256)] {
        gb.machine.memory[0xFF07] = tac | 0x04;
        assert_eq!(gb.timer_frequency(), freq);
        assert_eq!(gb.timer_cycle_to_cpu_clock(), clocks);
        assert!(gb.is_timer_enabled());
    }
    gb.machine.memory[0xFF07] = 0x03;
    assert!(!gb.is_timer_enabled());
}

#[test]
fn timer_and_cpu_clock_are_quotients() {
    let mut gb = console();
    gb.machine.memory[0xFF07] = 0x01;
    gb.total_cycle_num = 1_000_000;
    assert_eq!(gb.timer(), 3);
    assert_eq!(gb.timer, 3);
    gb.timer = 100;
    assert_eq!(gb.cpu_clock(), 6);
    assert_eq!(gb.cpu_clock, 6);
}

#[test]
fn timer_counter_ticks_every_sixteen_clocks() {
    let mut gb = console();
    gb.machine.memory[0xFF07] = 0x05; // enabled, 262144 Hz
    gb.machine.memory[0xFF05] = 0x10;
    for _ in 0..3 {
        gb.update_timer(0x00);
    }
    assert_eq!(gb.timer_counter_memory(), 0x10);
    assert_eq!(gb.timer_cycle(), 12);
    gb.update_timer(0x00);
    assert_eq!(gb.timer_counter_memory(), 0x11);
    assert_eq!(gb.timer_cycle(), 0);
}

#[test]
fn timer_overflow_reloads_and_requests_interrupt() {
    let mut gb = console();
    gb.machine.memory[0xFF07] = 0x05;
    gb.machine.memory[0xFF05] = 0xFF;
    gb.machine.memory[0xFF06] = 0x42;
    gb.set_timer_cycle(12);
    gb.update_timer(0x00);
    assert_eq!(gb.timer_counter_memory(), 0x42);
    assert_eq!(gb.read_memory(0xFF0F) & 0x04, 0x04);
}

#[test]
fn disabled_timer_clears_accumulated_cycles() {
    let mut gb = console();
    gb.machine.memory[0xFF07] = 0x01;
    gb.set_timer_cycle(10);
    gb.update_timer(0x00);
    assert_eq!(gb.timer_cycle(), 0);
}

#[test]
fn instruction_cycles_with_special_cases() {
    let mut gb = console();
    assert_eq!(gb.instruction_cycles(0x00), 4);
    assert_eq!(gb.instruction_cycles(0x08), 20);
    assert_eq!(gb.instruction_cycles(0xCD), 12);
    gb.machine.memory[0xC001] = 0x06;
    gb.set_pc(0xC000);
    assert_eq!(gb.instruction_cycles(0xCB), 16);
    gb.machine.memory[0xC001] = 0x46;
    assert_eq!(gb.instruction_cycles(0xCB), 16);
    gb.machine.memory[0xC001] = 0x0E;
    assert_eq!(gb.instruction_cycles(0xCB), 8);
    gb.machine.memory[0xC001] = 0x11;
    assert_eq!(gb.instruction_cycles(0xCB), 8);
    gb.set_flag_z(true);
    assert_eq!(gb.instruction_cycles(0xCC), 24);
    assert_eq!(gb.instruction_cycles(0xC4), 12);
    gb.set_flag_z(false);
    assert_eq!(gb.instruction_cycles(0xCC), 12);
    assert_eq!(gb.instruction_cycles(0xC4), 24);
}

#[test]
fn unknown_cycle_counts() {
    for op in [0xC4u8, 0xCB, 0xCC, 0x00, 0x76] {
        assert!(is_cycle_known(op));
    }
    for op in [0xDBu8, 0xDD, 0xE3, 0xE4, 0xEB, 0xEC, 0xED, 0xFC] {
        assert!(!is_cycle_known(op));
    }
}

#[test]
fn cycles_go_to_the_chosen_counter() {
    let mut gb = console();
    gb.add_cycles(0x08, CycleRegister::CpuCycle);
    gb.add_cycles(0x01, CycleRegister::VramCycle);
    gb.add_cycles(0x00, CycleRegister::TimerCycle);
    assert_eq!(gb.total_cycle(), 20);
    assert_eq!(gb.vram_cycle(), 12);
    assert_eq!(gb.timer_cycle(), 4);
    gb.set_vram_cycle(0xFFFC);
    gb.add_cycles(0x00, CycleRegister::VramCycle);
    assert_eq!(gb.vram_cycle(), 0);
}

#[test]
fn ly_wraps_and_enters_vblank() {
    let mut gb = console();
    gb.machine.memory[0xFF44] = 143;
    gb.inc_ly();
    assert_eq!(gb.ly(), 144);
    assert_eq!(gb.read_memory(0xFF0F) & 0x01, 0x01);
    assert!(gb.should_draw);
    gb.machine.memory[0xFF44] = 153;
    gb.inc_ly();
    assert_eq!(gb.ly(), 0);
}

#[test]
fn lcd_off_forces_vblank_status() {
    let mut gb = console();
    gb.machine.memory[0xFF40] = 0x00;
    gb.machine.memory[0xFF41] = 0x86;
    gb.machine.memory[0xFF44] = 77;
    gb.set_lcd_status();
    assert_eq!(gb.read_memory(0xFF41), 0x85);
    assert_eq!(gb.ly(), 0);
    assert_eq!(gb.vram_cycle(), 456);
    assert!(!gb.is_lcd_display_enable());
}

#[test]
fn lcd_status_mode_and_coincidence() {
    let mut gb = console();
    gb.machine.memory[0xFF40] = 0x80;
    gb.machine.memory[0xFF41] = 0x20;
    gb.machine.memory[0xFF44] = 10;
    gb.machine.memory[0xFF45] = 10;
    gb.set_vram_cycle(100);
    gb.set_lcd_status();
    assert_eq!(gb.read_memory(0xFF41), 0x26);
    assert_eq!(gb.read_memory(0xFF0F) & 0x02, 0x02);
    assert!(gb.should_draw);
}

#[test]
fn lcd_status_hblank_and_vblank_lines() {
    let mut gb = console();
    gb.machine.memory[0xFF40] = 0x80;
    gb.machine.memory[0xFF41] = 0x07;
    gb.machine.memory[0xFF44] = 3;
    gb.machine.memory[0xFF45] = 9;
    gb.set_vram_cycle(10);
    gb.set_lcd_status();
    assert_eq!(gb.read_memory(0xFF41), 0x00);
    assert_eq!(gb.read_memory(0xFF0F), 0x00);
    gb.machine.memory[0xFF44] = 150;
    gb.set_lcd_status();
    assert_eq!(gb.read_memory(0xFF41), 0x01);
}

#[test]
fn stat_mode_bits_through_bit_vectors() {
    let mut gb = console();
    gb.machine.memory[0xFF41] = 0xF8;
    gb.set_lcd_mode_to_vblank();
    assert_eq!(gb.read_memory(0xFF41), 0xF9);
    gb.set_lcd_mode_with_gpu_cycle(10);
    assert_eq!(gb.read_memory(0xFF41), 0xFA);
    gb.set_lcd_mode_with_gpu_cycle(100);
    assert_eq!(gb.read_memory(0xFF41), 0xFB);
    gb.set_lcd_mode_with_gpu_cycle(300);
    assert_eq!(gb.read_memory(0xFF41), 0xF8);
}

#[test]
fn gpu_work_advances_lines() {
    let mut gb = console();
    gb.machine.memory[0xFF40] = 0x80;
    gb.machine.memory[0xFF44] = 5;
    gb.set_vram_cycle(450);
    gb.cycle_based_gpu_operation(0x01); // 12 cycles
    assert_eq!(gb.ly(), 6);
    assert_eq!(gb.vram_cycle(), 6);
    gb.machine.memory[0xFF40] = 0x00;
    gb.machine.memory[0xFF41] = 0x02;
    gb.cycle_based_gpu_operation(0x00);
    assert_eq!(gb.read_memory(0xFF41), 0x01);
    assert_eq!(gb.ly(), 6);
}

#[test]
fn interrupt_is_serviced_by_priority_and_enable() {
    let mut gb = console();
    gb.set_pc(0x1234);
    gb.set_sp(0xDFFE);
    gb.machine.memory[0xFF0F] = 0x05;
    gb.machine.memory[0xFFFF] = 0x04;
    gb.is_halt = true;
    gb.execute_interuption();
    assert_eq!(gb.get_pc(), 0x50);
    assert_eq!(gb.get_sp(), 0xDFFC);
    assert_eq!(gb.read_memory(0xDFFD), 0x12);
    assert_eq!(gb.read_memory(0xDFFC), 0x34);
    assert_eq!(gb.read_memory(0xFF0F), 0x01);
    assert!(!gb.get_flag_ime());
    assert!(!gb.is_halt);
}

#[test]
fn no_interrupt_without_ime_but_halt_ends() {
    let mut gb = console();
    gb.machine.registers.f.ime = false;
    gb.set_pc(0x1234);
    gb.machine.memory[0xFF0F] = 0x01;
    gb.machine.memory[0xFFFF] = 0x01;
    gb.is_halt = true;
    gb.execute_interuption();
    assert_eq!(gb.get_pc(), 0x1234);
    assert_eq!(gb.read_memory(0xFF0F), 0x01);
    assert!(!gb.is_halt);
}

#[test]
fn requests_set_interrupt_flags() {
    let mut gb = console();
    gb.request_vblank();
    gb.request_lcd_interrupt();
    gb.request_timer_interrupt();
    gb.request_joypad_interrupt();
    assert_eq!(gb.read_memory(0xFF0F), 0x17);
    assert!(gb.should_draw);
}
