//! Building a console from a boot ROM and a cartridge, saving and restoring its
//! state, sprites and sound channel 1 as the registers describe them.

use vstd::prelude::*;
use crate::registers::{Registers, Flag};
use crate::machine::{
    Machine, mbc_of_code, lemma_bus_write_frame, lemma_bus_read_regs, MEMORY_SIZE, RAM_BANK_MEMORY_SIZE,
};
use crate::gameboy::{
    Gameboy, GameboyModel, gameboy_wf, mem, BACKGROUND_WIDTH, BACKGROUND_HEIGHT, SCREEN_WIDTH,
    SCREEN_HEIGHT,
};
use crate::render::{Sprite, pixels_to_image_data, image_data_spec};
use crate::sound::{Channel, square1_ok, square1_spec, decode_square1};

verus! {

broadcast use {lemma_bus_write_frame, lemma_bus_read_regs};

/// The initial address space: the boot ROM, then the cartridge from 0x100 to 0x8000,
/// zero-filled (or cut) to 64 KiB.
pub open spec fn memory_image(boot_rom: Seq<u8>, cartridge: Seq<u8>) -> Seq<u8> {
    let full = boot_rom + cartridge.subrange(0x100, 0x8000);
    Seq::new(MEMORY_SIZE as nat, |i: int| if i < full.len() { full[i] } else { 0u8 })
}

/// The registers at power-on: all zero, IME set, SP 0xFFFF.
pub open spec fn initial_registers() -> Registers {
    Registers {
        a: 0,
        b: 0,
        c: 0,
        d: 0,
        e: 0,
        h: 0,
        l: 0,
        f: Flag { z: false, n: false, h: false, c: false, ime: true },
        sp: 0xffff,
        pc: 0,
    }
}

/// Whether a console can be built over this memory and cartridge: the memory is 64
/// KiB, its cartridge type is supported, and every ROM bank read stays in the
/// cartridge image.
pub open spec fn loadable(memory: Seq<u8>, cartridge: Seq<u8>) -> bool {
    &&& memory.len() == MEMORY_SIZE
    &&& mbc_of_code(memory[0x147]) is Some
    &&& (cartridge.len() >= 0x10000 || (mbc_of_code(memory[0x147]) == Some(0u8) && cartridge.len() >= 0x8000))
}

/// The state of a freshly built console.
pub open spec fn fresh_model(g: GameboyModel, regs: Registers, memory: Seq<u8>, cartridge: Seq<u8>) -> bool {
    &&& g.background_width == BACKGROUND_WIDTH && g.background_height == BACKGROUND_HEIGHT
    &&& g.screen_width == SCREEN_WIDTH && g.screen_height == SCREEN_HEIGHT
    &&& g.machine.regs == regs
    &&& g.machine.memory == memory
    &&& g.machine.cartridge == cartridge
    &&& g.machine.ram == Seq::new(RAM_BANK_MEMORY_SIZE as nat, |i: int| 0u8)
    &&& Some(g.machine.mbc) == mbc_of_code(memory[0x147])
    &&& g.machine.rom_bank == 1
    &&& g.machine.ram_bank == 0
    &&& !g.machine.ram_enabled
    &&& !g.machine.rom_banking
    &&& g.machine.joypad == 0xff
    &&& !g.is_running
    &&& !g.is_halt
    &&& !g.should_draw
    &&& !g.cpu_paused
    &&& g.image_data == image_data_spec(memory.subrange(0x8000, 0x8800))
}

/// A saved console state.
pub struct SerializedGameboy {
    pub registers: Registers,
    pub total_cycle_num: usize,
    pub vram_cycle_num: u16,
    pub timer_cycle_num: usize,
    pub timer: usize,
    pub cpu_clock: usize,
    pub break_points: Vec<u16>,
    pub memory: Vec<u8>,
}

/// The mathematical content of a [`SerializedGameboy`].
pub ghost struct SavedModel {
    pub registers: Registers,
    pub total_cycle_num: usize,
    pub vram_cycle_num: u16,
    pub timer_cycle_num: usize,
    pub timer: usize,
    pub cpu_clock: usize,
    pub break_points: Seq<u16>,
    pub memory: Seq<u8>,
}

impl View for SerializedGameboy {
    type V = SavedModel;

    open spec fn view(&self) -> SavedModel {
        SavedModel {
            registers: self.registers,
            total_cycle_num: self.total_cycle_num,
            vram_cycle_num: self.vram_cycle_num,
            timer_cycle_num: self.timer_cycle_num,
            timer: self.timer,
            cpu_clock: self.cpu_clock,
            break_points: self.break_points@,
            memory: self.memory@,
        }
    }
}

/// What a saved state keeps of a console: registers, cycle counters, timer values,
/// break points and the address space.
pub open spec fn save_spec(g: GameboyModel) -> SavedModel {
    SavedModel {
        registers: g.machine.regs,
        total_cycle_num: g.total_cycle_num,
        vram_cycle_num: g.vram_cycle_num,
        timer_cycle_num: g.timer_cycle_num,
        timer: g.timer,
        cpu_clock: g.cpu_clock,
        break_points: g.break_points,
        memory: g.machine.memory,
    }
}

/// Whether `g` is the console built from saved state `s` and a cartridge image: a
/// fresh console over the saved registers and address space, with the saved counters,
/// timer values and break points.
pub open spec fn restored_from(g: GameboyModel, s: SavedModel, cartridge: Seq<u8>) -> bool {
    &&& fresh_model(g, s.registers, s.memory, cartridge)
    &&& g.total_cycle_num == s.total_cycle_num
    &&& g.vram_cycle_num == s.vram_cycle_num
    &&& g.timer_cycle_num == s.timer_cycle_num
    &&& g.timer == s.timer
    &&& g.cpu_clock == s.cpu_clock
    &&& g.break_points == s.break_points
}

/// The state of a console just built from a boot ROM and a cartridge image.
pub open spec fn powered_on(g: GameboyModel, boot_rom: Seq<u8>, cartridge: Seq<u8>) -> bool {
    &&& fresh_model(g, initial_registers(), memory_image(boot_rom, cartridge), cartridge)
    &&& g.total_cycle_num == 0 && g.vram_cycle_num == 0 && g.timer_cycle_num == 0
    &&& g.timer == 0 && g.cpu_clock == 0
    &&& g.break_points == Seq::<u16>::empty()
}

/// Whether a cartridge type code is supported.
pub fn mbc_code_supported(code: u8) -> (r: bool)
    ensures
        r == mbc_of_code(code) is Some,
{
    code == 0 || code == 1 || code == 2 || code == 3 || code == 0x13 || code == 5 || code == 6
}

/// The controller type from the cartridge header in memory.
pub fn get_mbc_from_memory(memory: &Vec<u8>) -> (r: u8)
    requires
        memory@.len() > 0x147,
        mbc_of_code(memory@[0x147]) is Some,
    ensures
        Some(r) == mbc_of_code(memory@[0x147]),
{
    let code = memory[0x0147];
    if code == 0 {
        0
    } else if code == 1 || code == 2 || code == 3 || code == 0x13 {
        1
    } else {
        2
    }
}

/// The initial address space (see [`memory_image`]).
pub fn build_memory(boot_rom: &[u8], cartridge: &Vec<u8>) -> (r: Vec<u8>)
    requires
        cartridge@.len() >= 0x8000,
    ensures
        r@ == memory_image(boot_rom@, cartridge@),
{
    let ghost full = boot_rom@ + cartridge@.subrange(0x100, 0x8000);
    let mut full_memory: Vec<u8> = Vec::new();
    let mut i: usize = 0;
    while i < boot_rom.len() && i < MEMORY_SIZE
        invariant
            i <= boot_rom@.len(),
            i <= MEMORY_SIZE,
            cartridge@.len() >= 0x8000,
            full == boot_rom@ + cartridge@.subrange(0x100, 0x8000),
            full_memory@ == full.take(i as int),
        decreases boot_rom@.len() - i,
    {
        full_memory.push(boot_rom[i]);
        i = i + 1;
        assert(full_memory@ =~= full.take(i as int));
    }
    let mut j: usize = 0x100;
    while j < 0x8000 && full_memory.len() < MEMORY_SIZE
        invariant
            0x100 <= j <= 0x8000,
            cartridge@.len() >= 0x8000,
            full_memory@.len() <= MEMORY_SIZE,
            full == boot_rom@ + cartridge@.subrange(0x100, 0x8000),
            full_memory@.len() < MEMORY_SIZE ==> full_memory@.len() == boot_rom@.len() + (j - 0x100),
            full_memory@ == full.take(full_memory@.len() as int),
            full_memory@.len() <= full.len(),
        decreases 0x8000 - j,
    {
        full_memory.push(cartridge[j]);
        j = j + 1;
        assert(full_memory@ =~= full.take(full_memory@.len() as int));
    }
    assert(full_memory@.len() == MEMORY_SIZE || full_memory@.len() >= full.len());
    assert forall|k: int| 0 <= k < full_memory@.len() implies #[trigger] full_memory@[k] == (if k < full.len() { full[k] } else { 0u8 }) by {
        assert(full_memory@[k] == full.take(full_memory@.len() as int)[k]);
    }
    while full_memory.len() < MEMORY_SIZE
        invariant
            full_memory@.len() <= MEMORY_SIZE,
            full_memory@.len() == MEMORY_SIZE || full_memory@.len() >= full.len(),
            forall|k: int| 0 <= k < full_memory@.len() ==> #[trigger] full_memory@[k] == (if k < full.len() { full[k] } else { 0u8 }),
        decreases MEMORY_SIZE - full_memory@.len(),
    {
        full_memory.push(0);
    }
    assert(full_memory@ =~= memory_image(boot_rom@, cartridge@));
    full_memory
}

/// A zero-filled buffer.
fn zeroed(n: usize) -> (r: Vec<u8>)
    ensures
        r@ == Seq::new(n as nat, |i: int| 0u8),
{
    let mut v: Vec<u8> = Vec::new();
    let mut i: usize = 0;
    while i < n
        invariant
            i <= n,
            v@ =~= Seq::new(i as nat, |k: int| 0u8),
        decreases n - i,
    {
        v.push(0);
        i = i + 1;
    }
    v
}

/// Builds a console around an address space and a cartridge image.
fn assemble(registers: Registers, memory: Vec<u8>, cartridge: Vec<u8>) -> (r: Gameboy)
    requires
        loadable(memory@, cartridge@),
    ensures
        gameboy_wf(r@),
        fresh_model(r@, registers, memory@, cartridge@),
        r@.total_cycle_num == 0 && r@.vram_cycle_num == 0 && r@.timer_cycle_num == 0,
        r@.timer == 0 && r@.cpu_clock == 0,
        r@.break_points == Seq::<u16>::empty(),
        r.background_width == BACKGROUND_WIDTH && r.background_height == BACKGROUND_HEIGHT,
        r.screen_width == SCREEN_WIDTH && r.screen_height == SCREEN_HEIGHT,
{
    let mut pixel_byte_vec: Vec<u8> = Vec::new();
    let mut i: usize = 0x8000;
    while i < 0x8800
        invariant
            0x8000 <= i <= 0x8800,
            memory@.len() == MEMORY_SIZE,
            pixel_byte_vec@ == memory@.subrange(0x8000, i as int),
        decreases 0x8800 - i,
    {
        pixel_byte_vec.push(memory[i]);
        i = i + 1;
        assert(pixel_byte_vec@ =~= memory@.subrange(0x8000, i as int));
    }
    let image_data = pixels_to_image_data(pixel_byte_vec);
    let mbc = get_mbc_from_memory(&memory);
    let ram_bank_memory = zeroed(RAM_BANK_MEMORY_SIZE);
    let machine = Machine {
        registers,
        memory,
        cartridge,
        ram_bank_memory,
        mbc,
        rom_bank: 1,
        ram_bank: 0,
        is_ram_enabled: false,
        is_rom_banking_enabled: false,
        joypad_state: 0xff,
    };
    Gameboy {
        background_width: BACKGROUND_WIDTH,
        background_height: BACKGROUND_HEIGHT,
        screen_width: SCREEN_WIDTH,
        screen_height: SCREEN_HEIGHT,
        image_data,
        machine,
        total_cycle_num: 0,
        vram_cycle_num: 0,
        timer_cycle_num: 0,
        timer: 0,
        cpu_clock: 0,
        is_running: false,
        is_halt: false,
        should_draw: false,
        break_points: Vec::new(),
        cpu_paused: false,
    }
}

impl Gameboy {
    /// A console at power-on with the boot ROM mapped at 0 and the cartridge's first
    /// 32 KiB behind it.
    pub fn new(boot_rom: &[u8], cartridge: Vec<u8>) -> (r: Gameboy)
        requires
            cartridge@.len() >= 0x8000,
            loadable(memory_image(boot_rom@, cartridge@), cartridge@),
        ensures
            gameboy_wf(r@),
            powered_on(r@, boot_rom@, cartridge@),
    {
        let full_memory = build_memory(boot_rom, &cartridge);
        let registers = Registers {
            a: 0,
            b: 0,
            c: 0,
            d: 0,
            e: 0,
            f: Flag { z: false, n: false, h: false, c: false, ime: true },
            h: 0,
            l: 0,
            sp: 0xffff,
            pc: 0x000,
        };
        assemble(registers, full_memory, cartridge)
    }

    /// A console at power-on, or `None` when the cartridge is shorter than 32 KiB, its
    /// type code is not supported, or a bank-switching cartridge is shorter than 64 KiB.
    pub fn try_new(boot_rom: &[u8], cartridge: Vec<u8>) -> (r: Option<Gameboy>)
        ensures
            r is Some <==> cartridge@.len() >= 0x8000 && loadable(memory_image(boot_rom@, cartridge@), cartridge@),
            r matches Some(g) ==> gameboy_wf(g@) && powered_on(g@, boot_rom@, cartridge@),
    {
        if cartridge.len() < 0x8000 {
            return None;
        }
        let memory = build_memory(boot_rom, &cartridge);
        let code = memory[0x147];
        if !mbc_code_supported(code) {
            return None;
        }
        if cartridge.len() < 0x10000 && code != 0 {
            return None;
        }
        Some(Gameboy::new(boot_rom, cartridge))
    }

    /// The state to save.
    pub fn to_serializable(&self) -> (r: SerializedGameboy)
        ensures
            r@ == save_spec(self@),
    {
        SerializedGameboy {
            registers: self.machine.registers,
            total_cycle_num: self.total_cycle_num,
            vram_cycle_num: self.vram_cycle_num,
            timer_cycle_num: self.timer_cycle_num,
            timer: self.timer,
            cpu_clock: self.cpu_clock,
            break_points: self.break_points.clone(),
            memory: self.machine.memory.clone(),
        }
    }

    /// Image data of the background/window tile data; also kept as the console's image data.
    pub fn char_map_to_image_data(&mut self) -> (r: Vec<u8>)
        requires
            gameboy_wf(old(self)@),
        ensures
            r@ == image_data_spec(if mem(old(self)@, 0xff40) & 0x10 == 0x10 {
                old(self)@.machine.memory.subrange(0x8000, 0x9000)
            } else {
                old(self)@.machine.memory.subrange(0x8800, 0x9800)
            }),
            final(self)@ == (GameboyModel { image_data: r@, ..old(self)@ }),
    {
        let pixels_vec = self.bg_window_char_map_bytes();
        let new_image_data = pixels_to_image_data(pixels_vec);
        self.image_data = new_image_data.clone();
        new_image_data
    }

    /// The 40 sprites of the object attribute memory.
    pub fn all_sprites(&self) -> (r: Vec<Sprite>)
        requires
            gameboy_wf(self@),
        ensures
            r@.len() == 40,
            forall|i: int| 0 <= i < 40 ==> #[trigger] r@[i] == sprite_spec(self@.machine.memory, 0xfe00 + 4 * i),
    {
        let oam_vec = self.get_oam();
        let mut all_sprites: Vec<Sprite> = Vec::new();
        let mut idx: usize = 0;
        while idx < oam_vec.len()
            invariant
                idx <= 160,
                idx % 4 == 0,
                oam_vec@ == self@.machine.memory.subrange(0xfe00, 0xfea0),
                self@.machine.memory.len() == MEMORY_SIZE,
                all_sprites@.len() == idx / 4,
                forall|i: int| 0 <= i < all_sprites@.len() ==> #[trigger] all_sprites@[i] == sprite_spec(self@.machine.memory, 0xfe00 + 4 * i),
            decreases 160 - idx,
        {
            let y = oam_vec[idx];
            let x = oam_vec[idx + 1];
            let pattern_num = oam_vec[idx + 2];
            let attributes = oam_vec[idx + 3];
            let sprite = Sprite {
                y,
                x,
                pattern_num,
                attributes,
                priority: attributes & 0b10000000 == 0b10000000,
                y_flip: attributes & 0b01000000 == 0b01000000,
                x_flip: attributes & 0b00100000 == 0b00100000,
                palette_num: attributes & 0b00010000 == 0b00010000,
            };
            all_sprites.push(sprite);
            idx = idx + 4;
        }
        all_sprites
    }

    /// Sound channel 1 decoded from NR10..NR14.
    pub fn square1(&self) -> (r: Channel)
        requires
            gameboy_wf(self@),
            square1_ok(mem(self@, 0xff10)),
        ensures
            r == channel1_spec(self@),
    {
        decode_square1(
            self.machine.memory[0xff10],
            self.machine.memory[0xff11],
            self.machine.memory[0xff12],
            self.machine.memory[0xff13],
            self.machine.memory[0xff14],
        )
    }

    /// Whether any of NR10..NR14 differs from the given earlier values.
    pub fn is_channel1_changed(&self, pre_ff10: u8, pre_ff11: u8, pre_ff12: u8, pre_ff13: u8, pre_ff14: u8) -> (r: bool)
        requires
            gameboy_wf(self@),
        ensures
            r == (self@.machine.memory.subrange(0xff10, 0xff15) != seq![pre_ff10, pre_ff11, pre_ff12, pre_ff13, pre_ff14]),
    {
        let m = &self.machine.memory;
        let r = pre_ff10 != m[0xff10] || pre_ff11 != m[0xff11] || pre_ff12 != m[0xff12] || pre_ff13 != m[0xff13]
            || pre_ff14 != m[0xff14];
        proof {
            let s = self@.machine.memory.subrange(0xff10, 0xff15);
            let t = seq![pre_ff10, pre_ff11, pre_ff12, pre_ff13, pre_ff14];
            if !r {
                assert(s =~= t);
            } else {
                assert(s != t) by {
                    if s == t {
                        assert(s[0] == t[0] && s[1] == t[1] && s[2] == t[2] && s[3] == t[3] && s[4] == t[4]);
                    }
                }
            }
        }
        r
    }

    /// Whether channel 1 should be (re)started: sound on, nonzero volume and frequency.
    pub fn sound_dirty_flag_check_s1(&self) -> (r: bool)
        requires
            gameboy_wf(self@),
            square1_ok(mem(self@, 0xff10)),
        ensures
            r == sound_dirty_spec(self@),
    {
        let is_volume_non_zero = self.square1().volume() > 0;
        let is_frequency_non_zero = self.square1().fr() > 0;
        self.is_sound_all_on() && is_volume_non_zero && is_frequency_non_zero
    }
}

/// Builds a console from a saved state and a cartridge image; the controller state
/// starts over (bank 1, RAM off, joypad released).
pub fn gameboy_from_serializable(serializeable: SerializedGameboy, cartridge: Vec<u8>) -> (r: Gameboy)
    requires
        loadable(serializeable.memory@, cartridge@),
    ensures
        gameboy_wf(r@),
        restored_from(r@, serializeable@, cartridge@),
{
    let SerializedGameboy { registers, total_cycle_num, vram_cycle_num, timer_cycle_num, timer, cpu_clock, break_points, memory } = serializeable;
    let mut gameboy = assemble(registers, memory, cartridge);
    gameboy.total_cycle_num = total_cycle_num;
    gameboy.vram_cycle_num = vram_cycle_num;
    gameboy.timer_cycle_num = timer_cycle_num;
    gameboy.timer = timer;
    gameboy.cpu_clock = cpu_clock;
    gameboy.break_points = break_points;
    gameboy
}

/// The sprite described by the four OAM bytes at `base`.
pub open spec fn sprite_spec(memory: Seq<u8>, base: int) -> Sprite {
    let attributes = memory[base + 3];
    Sprite {
        y: memory[base],
        x: memory[base + 1],
        pattern_num: memory[base + 2],
        attributes,
        priority: attributes & 0x80 == 0x80,
        y_flip: attributes & 0x40 == 0x40,
        x_flip: attributes & 0x20 == 0x20,
        palette_num: attributes & 0x10 == 0x10,
    }
}

/// Channel 1 of a console state.
pub open spec fn channel1_spec(g: GameboyModel) -> Channel {
    square1_spec(mem(g, 0xff10), mem(g, 0xff11), mem(g, 0xff12), mem(g, 0xff13), mem(g, 0xff14))
}

/// Whether channel 1 should be (re)started.
pub open spec fn sound_dirty_spec(g: GameboyModel) -> bool {
    mem(g, 0xff26) & 0x80 == 0x80 && channel1_spec(g).volume > 0 && channel1_spec(g).fr > 0
}

/// A console from a saved state, or `None` when the saved address space is not 64 KiB,
/// its cartridge type code is not supported, or the cartridge image is too short for it.
pub fn try_from_serializable(serializeable: SerializedGameboy, cartridge: Vec<u8>) -> (r: Option<Gameboy>)
    ensures
        r is Some <==> loadable(serializeable@.memory, cartridge@),
        r matches Some(g) ==> gameboy_wf(g@) && restored_from(g@, serializeable@, cartridge@),
{
    if serializeable.memory.len() != MEMORY_SIZE {
        return None;
    }
    let code = serializeable.memory[0x147];
    if !mbc_code_supported(code) {
        return None;
    }
    if cartridge.len() < 0x10000 && !(code == 0 && cartridge.len() >= 0x8000) {
        return None;
    }
    Some(gameboy_from_serializable(serializeable, cartridge))
}

} // verus!
