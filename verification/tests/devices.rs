use dmgemu::bus::{HardwareRegister, MemoryBus};
use dmgemu::cart::{Cartridge, CartridgeHeader};
use dmgemu::cpu::CpuContext;
use dmgemu::dma::DMA;
use dmgemu::emu::Emulator;
use dmgemu::interrupts::{get_hadler_address, isolate_rightmost_one, InterruptFlag, InterruptLine, InterruptRequest};
use dmgemu::lcd::{LcdMode, Palette, DEFAULT_COLORS, LCD};
use dmgemu::ppu::{Sprite, PPU};
use dmgemu::timer::{TacRegister, Timer};

fn cartridge(data: Vec<u8>) -> Cartridge {
    let header = CartridgeHeader::load(&data).unwrap();
    Cartridge { file: String::new(), size: data.len() as u32, data, header }
}

#[test]
fn timer_overflows_after_two_periods() {
    let mut timer = Timer::new();
    let mut line = InterruptLine::new();
    timer.write(0xFF04, 0x12);
    assert_eq!(timer.div, 0);
    timer.write(0xFF07, 0x05);
    timer.write(0xFF05, 0xFE);
    for _ in 0..16 {
        timer.tick(&mut line);
    }
    assert_eq!(timer.tima, 0xFF);
    assert!(line.interrupt_flag.is_empty());
    for _ in 0..16 {
        timer.tick(&mut line);
    }
    assert_eq!(timer.tima, 0x00);
    assert_eq!(line.interrupt_flag.bits(), 0x04);
    assert_eq!(timer.div, 32);
}

#[test]
fn timer_reloads_from_modulo() {
    let mut timer = Timer::new();
    let mut line = InterruptLine::new();
    timer.write(0xFF04, 0);
    timer.write(0xFF06, 0xAB);
    timer.write(0xFF07, 0x05);
    timer.write(0xFF05, 0xFF);
    for _ in 0..15 {
        timer.tick(&mut line);
    }
    assert_eq!(timer.tima, 0xFF);
    timer.tick(&mut line);
    assert_eq!(timer.tima, 0xAB);
    assert!(line.interrupt_flag.timer);
}

#[test]
fn timer_rates_select_their_bit() {
    // rate 00 counts every 1024 clock cycles, 01 every 16, 10 every 64, 11 every 256
    for (tac, period) in [(0x04u8, 1024u32), (0x05, 16), (0x06, 64), (0x07, 256)] {
        let mut timer = Timer::new();
        let mut line = InterruptLine::new();
        timer.write(0xFF04, 0);
        timer.write(0xFF07, tac);
        for _ in 0..period - 1 {
            timer.tick(&mut line);
        }
        assert_eq!(timer.tima, 0, "tac {:02X}", tac);
        timer.tick(&mut line);
        assert_eq!(timer.tima, 1, "tac {:02X}", tac);
    }
}

#[test]
fn disabled_timer_does_not_count() {
    let mut timer = Timer::new();
    let mut line = InterruptLine::new();
    timer.write(0xFF04, 0);
    timer.write(0xFF07, 0x01);
    for _ in 0..4096 {
        timer.tick(&mut line);
    }
    assert_eq!(timer.tima, 0);
    assert_eq!(timer.read(0xFF04), 0x10);
    assert_eq!(timer.read(0xFF07), 0x01);
}

#[test]
fn timer_registers_read_back() {
    let mut timer = Timer::new();
    assert_eq!(timer.read(0xFF04), 0xAC);
    timer.write(0xFF05, 0x11);
    timer.write(0xFF06, 0x22);
    timer.write(0xFF07, 0xFF);
    assert_eq!(timer.read(0xFF05), 0x11);
    assert_eq!(timer.read(0xFF06), 0x22);
    assert_eq!(timer.read(0xFF07), 0x07);
    assert_eq!(TacRegister::from_bits_truncate(0xFD).bits(), 0x05);
}

#[test]
fn rightmost_one_is_isolated() {
    assert_eq!(isolate_rightmost_one(0), 0);
    for f in 1..=255u8 {
        let r = isolate_rightmost_one(f);
        assert_eq!(r.count_ones(), 1);
        assert_eq!(r, 1 << f.trailing_zeros());
    }
}

#[test]
fn highest_priority_is_the_lowest_bit() {
    for bits in 0..32u8 {
        let flags = InterruptFlag::from_bits_truncate(bits);
        assert_eq!(flags.bits(), bits);
        assert_eq!(flags.highest_priority().bits(), isolate_rightmost_one(bits));
    }
    assert_eq!(InterruptFlag::from_bits_truncate(0xFF).bits(), 0x1F);
    assert_eq!(get_hadler_address(InterruptFlag::from_bits_truncate(0x01)), 0x40);
    assert_eq!(get_hadler_address(InterruptFlag::from_bits_truncate(0x02)), 0x48);
    assert_eq!(get_hadler_address(InterruptFlag::from_bits_truncate(0x04)), 0x50);
    assert_eq!(get_hadler_address(InterruptFlag::from_bits_truncate(0x08)), 0x58);
    assert_eq!(get_hadler_address(InterruptFlag::from_bits_truncate(0x10)), 0x60);
    assert_eq!(get_hadler_address(InterruptFlag::from_bits_truncate(0x1C)), 0x50);
}

#[test]
fn interrupt_line_collects_requests() {
    let mut line = InterruptLine::new();
    assert!(line.interrupt_flag.is_empty());
    line.request_interrupt(InterruptFlag::timer());
    line.request_interrupt(InterruptFlag::vblank());
    line.request_interrupt(InterruptFlag::timer());
    assert_eq!(line.interrupt_flag.bits(), 0x05);
    assert!(line.interrupt_enable.is_empty());
    assert_eq!(InterruptFlag::lcd().bits(), 0x02);
    assert_eq!(InterruptFlag::empty().bits(), 0x00);
}

#[test]
fn palette_slots_follow_the_byte() {
    let mut lcd = LCD::new();
    for b in 0..=255u8 {
        lcd.write(HardwareRegister::BGP, b);
        lcd.write(HardwareRegister::OBP0, b);
        lcd.write(HardwareRegister::OBP1, b);
        for i in 0..4usize {
            let shade = DEFAULT_COLORS[((b >> (2 * i)) & 3) as usize];
            assert_eq!(lcd.bg_colors.color(i), shade);
            if i > 0 {
                assert_eq!(lcd.sp0_colors.color(i), shade);
                assert_eq!(lcd.sp1_colors.color(i), shade);
            }
        }
        assert_eq!(lcd.sp0_colors.color(0), DEFAULT_COLORS[0]);
        assert_eq!(lcd.sp1_colors.color(0), DEFAULT_COLORS[0]);
        assert_eq!(lcd.read(HardwareRegister::BGP), b);
        assert_eq!(lcd.read(HardwareRegister::OBP0), b);
        assert_eq!(lcd.read(HardwareRegister::OBP1), b);
    }
    assert_eq!(Palette::from_indices(0xE4).c3, 0xFF000000);
}

#[test]
fn display_registers_read_back() {
    let mut lcd = LCD::new();
    assert_eq!(lcd.read(HardwareRegister::LCDC), 0x91);
    assert_eq!(lcd.read(HardwareRegister::BGP), 0xFC);
    assert_eq!(lcd.get_bg_map_area(), 0x9800);
    assert_eq!(lcd.get_win_map_area(), 0x9800);
    assert_eq!(lcd.get_bgw_data_area(), 0x8000);
    assert_eq!(lcd.get_sprite_height(), 8);
    assert!(!lcd.is_window_visible());
    lcd.write(HardwareRegister::LCDC, 0x6C);
    assert_eq!(lcd.read(HardwareRegister::LCDC), 0x6C);
    assert_eq!(lcd.get_bg_map_area(), 0x9C00);
    assert_eq!(lcd.get_win_map_area(), 0x9C00);
    assert_eq!(lcd.get_bgw_data_area(), 0x8800);
    assert_eq!(lcd.get_sprite_height(), 16);
    assert!(lcd.is_window_visible());
    lcd.write(HardwareRegister::WX, 167);
    assert!(!lcd.is_window_visible());
    lcd.write(HardwareRegister::WX, 166);
    lcd.write(HardwareRegister::WY, 144);
    assert!(!lcd.is_window_visible());
    lcd.write(HardwareRegister::SCX, 3);
    lcd.write(HardwareRegister::SCY, 4);
    lcd.write(HardwareRegister::LYC, 5);
    assert_eq!(lcd.read(HardwareRegister::SCX), 3);
    assert_eq!(lcd.read(HardwareRegister::SCY), 4);
    assert_eq!(lcd.read(HardwareRegister::LYC), 5);
    assert_eq!(lcd.read(HardwareRegister::WX), 166);
    assert_eq!(lcd.read(HardwareRegister::WY), 144);
}

#[test]
fn status_keeps_its_low_three_bits() {
    let mut lcd = LCD::new();
    lcd.set_mode(LcdMode::XFER);
    assert_eq!(lcd.get_mode(), LcdMode::XFER);
    lcd.write(HardwareRegister::STAT, 0xFC);
    assert_eq!(lcd.read(HardwareRegister::STAT), 0x7B);
    assert_eq!(lcd.get_mode(), LcdMode::XFER);
    lcd.write(HardwareRegister::STAT, 0x00);
    assert_eq!(lcd.read(HardwareRegister::STAT), 0x03);
    // the scanline counter is not written from outside
    lcd.write(HardwareRegister::LY, 0x55);
    assert_eq!(lcd.read(HardwareRegister::LY), 0);
    assert_eq!(LcdMode::from(2u8), LcdMode::OAM);
    assert_eq!(LcdMode::from(7u8), LcdMode::XFER);
}

#[test]
fn register_addresses() {
    assert_eq!(HardwareRegister::from_u16(0xFF00), Some(HardwareRegister::P1_JOYP));
    assert_eq!(HardwareRegister::from_u16(0xFF46), Some(HardwareRegister::DMA));
    assert_eq!(HardwareRegister::from_u16(0xFFFF), Some(HardwareRegister::IE));
    assert_eq!(HardwareRegister::from_u16(0xFF03), None);
    assert_eq!(HardwareRegister::from_u16(0x1234), None);
    for address in 0xFF00..=0xFFFFu16 {
        if let Some(register) = HardwareRegister::from_u16(address) {
            assert_eq!(register.address(), address);
        }
    }
}

#[test]
fn bus_reads_by_region() {
    let mut data = vec![0u8; 0x8000];
    data[0x0000] = 0x11;
    data[0x7FFF] = 0x22;
    let mut bus = MemoryBus::from_rom(Some(cartridge(data)));
    assert_eq!(bus.read(0x0000), 0x11);
    assert_eq!(bus.read(0x7FFF), 0x22);
    // a write to the cartridge does not show
    bus.write(0x0000, 0x99);
    assert_eq!(bus.read(0x0000), 0x11);
    // beyond the end of the cartridge
    assert_eq!(bus.read(0xA000), 0xFF);
    for address in [0x8000u16, 0x9FFF, 0xC000, 0xDFFF, 0xFE00, 0xFE9F, 0xFF00, 0xFF80, 0xFFFE, 0xFFFF] {
        bus.write(address, 0x5A);
        assert_eq!(bus.read(address), 0x5A, "address {:04X}", address);
    }
    for address in [0xE000u16, 0xFDFF, 0xFEA0, 0xFEFF] {
        bus.write(address, 0x5A);
        assert_eq!(bus.read(address), 0x00, "address {:04X}", address);
    }
    bus.write16(0xC100, 0xBEEF);
    assert_eq!(bus.read(0xC100), 0xEF);
    assert_eq!(bus.read(0xC101), 0xBE);
    assert_eq!(bus.read16(0xC100), 0xBEEF);
    bus.write_register(HardwareRegister::SB, 0x41);
    assert_eq!(bus.read_register(HardwareRegister::SB), 0x41);
    assert_eq!(bus.read(0xFF01), 0x41);
}

#[test]
fn bus_without_cartridge_reads_ff() {
    let mut bus = MemoryBus::new();
    assert_eq!(bus.read(0x0100), 0xFF);
    assert_eq!(bus.read(0xC000), 0x00);
    let mut data = vec![0u8; 0x8000];
    data[0x0100] = 0x42;
    bus.set_rom(Some(cartridge(data)));
    assert_eq!(bus.read(0x0100), 0x42);
}

#[test]
fn new_machine_is_cleared() {
    let mut emulator = Emulator::new();
    assert_eq!(emulator.ticks(), 0);
    assert!(emulator.is_well_formed());
    assert!(emulator.has_budget());
    assert!(!emulator.dma.is_active());
    assert!(emulator.debug_msg.is_empty());
    assert!(emulator.bus.rom.is_none());
    assert_eq!(emulator.get_interrupt(), None);
    for address in [0x8000u16, 0x9FFF, 0xC000, 0xDFFF, 0xFE00, 0xFE9F, 0xFF00, 0xFF80, 0xFFFE, 0xFFFF] {
        assert_eq!(emulator.peek(address), 0x00, "address {:04X}", address);
    }
    // no cartridge is in
    assert_eq!(emulator.peek(0x0100), 0xFF);
    assert_eq!(emulator.peek(0xFF04), 0xAC);
    assert_eq!(emulator.peek(0xFF40), 0x91);
    assert_eq!(emulator.peek(0xFF41), 0x02);
    assert_eq!(emulator.peek(0xFF47), 0xFC);
}

#[test]
fn machine_reads_back_what_was_written() {
    let mut emulator = Emulator::new();
    for address in [0x8000u16, 0x9ABC, 0x9FFF, 0xC000, 0xD123, 0xDFFF, 0xFF80, 0xFFFE] {
        let value = (address >> 4) as u8 ^ 0xA5;
        let before = emulator.ticks();
        emulator.write_cycle(address, value);
        assert_eq!(emulator.ticks(), before + 4);
        assert_eq!(emulator.peek(address), value, "address {:04X}", address);
        assert_eq!(emulator.read_cycle(address), value, "address {:04X}", address);
        assert_eq!(emulator.ticks(), before + 8);
    }
}

#[test]
fn machine_routes_registers_to_devices() {
    let mut emulator = Emulator::new();
    emulator.write_cycle(0xFF06, 0x77);
    assert_eq!(emulator.timer.tma, 0x77);
    assert_eq!(emulator.peek(0xFF06), 0x77);
    emulator.write_cycle(0xFF04, 0x55);
    // the write clears the divider, and its cycle counts four
    assert_eq!(emulator.timer.div, 4);
    emulator.write_cycle(0xFFFF, 0xFF);
    assert_eq!(emulator.peek(0xFFFF), 0x1F);
    emulator.write_cycle(0xFF0F, 0xE1);
    assert_eq!(emulator.peek(0xFF0F), 0x01);
    assert_eq!(emulator.get_interrupt(), Some(InterruptFlag::vblank()));
    emulator.ack_interrupt(&InterruptFlag::vblank());
    assert_eq!(emulator.peek(0xFF0F), 0x00);
    assert_eq!(emulator.get_interrupt(), None);
    emulator.write_cycle(0xFF42, 0x12);
    assert_eq!(emulator.ppu.lcd.scroll_y, 0x12);
    assert_eq!(emulator.peek(0xFF42), 0x12);
    // a register that no device owns keeps what was written
    emulator.write_cycle(0xFF00, 0x30);
    assert_eq!(emulator.peek(0xFF00), 0x30);
    // echo RAM reads as zero
    emulator.write_cycle(0xE000, 0x30);
    assert_eq!(emulator.peek(0xE000), 0x00);
}

#[test]
fn serial_byte_is_sent_when_control_asks() {
    let mut emulator = Emulator::new();
    emulator.write_cycle(0xFF01, 0x41);
    assert!(emulator.debug_msg.is_empty());
    emulator.write_cycle(0xFF02, 0x80);
    assert!(emulator.debug_msg.is_empty());
    emulator.write_cycle(0xFF02, 0x81);
    assert_eq!(emulator.debug_msg, vec![0x41]);
    assert_eq!(emulator.peek(0xFF01), 0x41);
    assert_eq!(emulator.peek(0xFF02), 0x81);
    emulator.write_cycle(0xFF01, 0x42);
    assert_eq!(emulator.debug_msg, vec![0x41]);
    emulator.write_cycle(0xFF02, 0x81);
    assert_eq!(emulator.debug_msg, vec![0x41, 0x42]);
}

#[test]
fn dma_copies_a_page_after_two_cycles() {
    let mut emulator = Emulator::new();
    for i in 0..160u16 {
        emulator.write_cycle(0xC100 + i, (i as u8).wrapping_mul(3).wrapping_add(1));
    }
    emulator.write_cycle(0xFE00, 0x77);
    assert_eq!(emulator.peek(0xFE00), 0x77);

    // the write starts the transfer, and its own cycle is the first of the delay
    emulator.write_cycle(0xFF46, 0xC1);
    assert!(emulator.dma.is_active());
    assert_eq!(emulator.peek(0xFE00), 0xFF);
    emulator.tick_cycle();
    assert_eq!(emulator.ppu.oam_read(0), 0x77);
    // a write to object attribute memory is dropped while the transfer runs
    emulator.write_cycle(0xFE10, 0x99);
    assert_eq!(emulator.ppu.oam_read(0), 0x01);
    assert_eq!(emulator.ppu.oam_read(0x10), 0x00);
    for n in 1..160u16 {
        assert!(emulator.dma.is_active(), "after {} bytes", n);
        emulator.tick_cycle();
        assert_eq!(emulator.ppu.oam_read(n), (n as u8).wrapping_mul(3).wrapping_add(1));
    }
    assert!(!emulator.dma.is_active());
    for i in 0..160u16 {
        assert_eq!(emulator.peek(0xFE00 + i), (i as u8).wrapping_mul(3).wrapping_add(1));
    }
}

#[test]
fn idle_dma_does_nothing() {
    let mut dma = DMA::new();
    let bus = MemoryBus::new();
    let mut ppu = PPU::new();
    ppu.oam_write(0xFE05, 0x12);
    dma.tick_cycle(&bus, &mut ppu);
    assert!(!dma.is_active());
    assert_eq!(ppu.oam_read(5), 0x12);
    dma.start(0x80);
    assert!(dma.is_active());
    assert_eq!(dma.start_delay, 2);
    assert_eq!(dma.byte, 0);
    assert_eq!(dma.value, 0x80);
}

#[test]
fn object_memory_is_read_by_field() {
    let mut ppu = PPU::new();
    ppu.oam_write(0xFE04, 1);
    ppu.oam_write(0xFE05, 2);
    ppu.oam_write(0x0006, 3);
    ppu.oam_write(0x0007, 0xF0);
    assert_eq!(ppu.oam_ram[1], Sprite { y: 1, x: 2, tile_index: 3, flags: 0xF0 });
    assert_eq!(ppu.oam_read(0x0004), 1);
    assert_eq!(ppu.oam_read(0xFE05), 2);
    assert_eq!(ppu.oam_read(0xFE06), 3);
    assert_eq!(ppu.oam_read(0xFE07), 0xF0);
    assert_eq!(Sprite::new(), Sprite { y: 0, x: 0, tile_index: 0, flags: 0 });
    ppu.vram_write(0x9FFF, 0x42);
    assert_eq!(ppu.vram_read(0x9FFF), 0x42);
}

#[test]
fn a_frame_has_154_lines_of_456_dots() {
    let mut ppu = PPU::new();
    let mut line = InterruptLine::new();
    assert_eq!(ppu.lcd.get_mode(), LcdMode::OAM);
    for _ in 0..79 {
        ppu.tick(&mut line);
    }
    assert_eq!(ppu.lcd.get_mode(), LcdMode::OAM);
    ppu.tick(&mut line);
    assert_eq!(ppu.lcd.get_mode(), LcdMode::XFER);
    for _ in 80..455 {
        ppu.tick(&mut line);
    }
    assert_eq!(ppu.lcd.get_mode(), LcdMode::HBLANK);
    assert_eq!(ppu.lcd.ly, 0);
    ppu.tick(&mut line);
    assert_eq!(ppu.lcd.get_mode(), LcdMode::OAM);
    assert_eq!(ppu.lcd.ly, 1);

    for _ in 0..456 * 143 - 1 {
        ppu.tick(&mut line);
    }
    assert_eq!(ppu.lcd.ly, 143);
    assert!(!line.interrupt_flag.vblank);
    assert_eq!(ppu.get_current_frame(), 0);
    ppu.tick(&mut line);
    assert_eq!(ppu.lcd.ly, 144);
    assert_eq!(ppu.lcd.get_mode(), LcdMode::VBLANK);
    assert!(line.interrupt_flag.vblank);
    assert!(!line.interrupt_flag.lcd);
    assert_eq!(ppu.get_current_frame(), 1);

    for _ in 0..456 * 10 - 1 {
        ppu.tick(&mut line);
    }
    assert_eq!(ppu.lcd.ly, 153);
    assert_eq!(ppu.lcd.get_mode(), LcdMode::VBLANK);
    ppu.tick(&mut line);
    assert_eq!(ppu.lcd.ly, 0);
    assert_eq!(ppu.lcd.get_mode(), LcdMode::OAM);
    assert_eq!(ppu.get_current_frame(), 1);
}

#[test]
fn status_interrupts_follow_their_selects() {
    let mut ppu = PPU::new();
    let mut line = InterruptLine::new();
    // LYC and horizontal blank are selected
    ppu.lcd_write(HardwareRegister::STAT, 0x48);
    ppu.lcd_write(HardwareRegister::LYC, 1);
    let mut dots = 0;
    while ppu.lcd.get_mode() != LcdMode::HBLANK {
        assert!(!line.interrupt_flag.lcd);
        ppu.tick(&mut line);
        dots += 1;
    }
    assert!(dots < 456);
    assert!(line.interrupt_flag.lcd);
    line.interrupt_flag = InterruptFlag::empty();
    while ppu.lcd.ly == 0 {
        assert!(!line.interrupt_flag.lcd);
        ppu.tick(&mut line);
    }
    assert!(line.interrupt_flag.lcd);
    assert_eq!(ppu.lcd_read(HardwareRegister::STAT) & 0x04, 0x04);
    while ppu.lcd.ly == 1 {
        ppu.tick(&mut line);
    }
    assert_eq!(ppu.lcd_read(HardwareRegister::STAT) & 0x04, 0x00);
}

#[test]
fn a_line_shows_background_and_object() {
    let mut ppu = PPU::new();
    let mut line = InterruptLine::new();
    // tile 0, row 0: colour index 1 everywhere
    ppu.vram_write(0x8000, 0xFF);
    ppu.vram_write(0x8001, 0x00);
    // tile 1, row 0: colour index 3 everywhere
    ppu.vram_write(0x8010, 0xFF);
    ppu.vram_write(0x8011, 0xFF);
    ppu.lcd_write(HardwareRegister::LCDC, 0x93);
    // object 0 at column 16 of the screen, on line 0, with tile 1
    ppu.oam_write(0, 16);
    ppu.oam_write(1, 24);
    ppu.oam_write(2, 1);
    ppu.oam_write(3, 0);
    // object 1 is not on line 0
    ppu.oam_write(4, 17);
    ppu.oam_write(5, 80);
    ppu.oam_write(6, 1);
    for _ in 0..456 {
        ppu.tick(&mut line);
    }
    assert_eq!(ppu.lcd.ly, 1);
    for x in 0..160usize {
        let expected = if (16..24).contains(&x) { 0xFF000000 } else { 0xFFAAAAAA };
        assert_eq!(ppu.video_buffer_read(x), expected, "column {}", x);
    }
    // the second line of tile 0 is empty: shade 0, and the second object on it
    for _ in 0..456 {
        ppu.tick(&mut line);
    }
    assert_eq!(ppu.video_buffer_read(160), 0xFFFFFFFF);
    assert_eq!(ppu.video_buffer_read(160 + 72), 0xFF000000);
}

#[test]
fn objects_of_a_line_are_sorted_by_column() {
    let mut ppu = PPU::new();
    let mut line = InterruptLine::new();
    let columns = [50u8, 20, 50, 0, 90, 20, 10, 60, 70, 80, 30, 40, 5];
    for (i, x) in columns.iter().enumerate() {
        ppu.oam_write((i * 4) as u16, 16);
        ppu.oam_write((i * 4 + 1) as u16, *x);
        ppu.oam_write((i * 4 + 2) as u16, i as u8);
    }
    ppu.tick(&mut line);
    // the object in column 0 is left out, and of the rest the first ten are taken
    let found: Vec<(u8, u8)> = ppu.line_sprites.iter().map(|s| (s.x, s.tile_index)).collect();
    assert_eq!(
        found,
        vec![(10, 6), (20, 1), (20, 5), (30, 10), (50, 0), (50, 2), (60, 7), (70, 8), (80, 9), (90, 4)]
    );
}

#[test]
fn line_0_is_compared_with_lyc_at_the_end_of_a_frame() {
    let mut ppu = PPU::new();
    let mut line = InterruptLine::new();
    // the comparison is selected, and LYC is 0
    ppu.lcd_write(HardwareRegister::STAT, 0x40);
    ppu.lcd_write(HardwareRegister::LYC, 0);
    for _ in 0..456 * 154 - 1 {
        ppu.tick(&mut line);
    }
    assert_eq!(ppu.lcd.ly, 153);
    assert_eq!(ppu.lcd.get_mode(), LcdMode::VBLANK);
    assert!(!ppu.lcd.lcds.lyc_equal_ly);
    assert!(!line.interrupt_flag.lcd);
    ppu.tick(&mut line);
    assert_eq!(ppu.lcd.ly, 0);
    assert_eq!(ppu.lcd.get_mode(), LcdMode::OAM);
    assert!(ppu.lcd.lcds.lyc_equal_ly);
    assert_eq!(ppu.lcd_read(HardwareRegister::STAT) & 0x07, 0x06);
    assert!(line.interrupt_flag.lcd);
    assert_eq!(ppu.window_line, 0);
    // one line later the two differ again
    line.interrupt_flag = InterruptFlag::empty();
    for _ in 0..456 {
        ppu.tick(&mut line);
    }
    assert_eq!(ppu.lcd.ly, 1);
    assert!(!ppu.lcd.lcds.lyc_equal_ly);
    assert!(!line.interrupt_flag.lcd);
}

#[test]
fn increment_ly_wraps_after_line_153() {
    let mut ppu = PPU::new();
    let mut line = InterruptLine::new();
    ppu.lcd_write(HardwareRegister::STAT, 0x40);
    ppu.lcd_write(HardwareRegister::LYC, 0);
    ppu.lcd.ly = 152;
    ppu.increment_ly(&mut line);
    assert_eq!(ppu.lcd.ly, 153);
    assert!(!ppu.lcd.lcds.lyc_equal_ly);
    assert!(line.interrupt_flag.is_empty());
    ppu.increment_ly(&mut line);
    assert_eq!(ppu.lcd.ly, 0);
    assert!(ppu.lcd.lcds.lyc_equal_ly);
    assert!(line.interrupt_flag.lcd);
    // without the select the flag is set and nothing is raised
    let mut ppu = PPU::new();
    let mut line = InterruptLine::new();
    ppu.lcd.ly = 153;
    ppu.increment_ly(&mut line);
    assert_eq!(ppu.lcd.ly, 0);
    assert!(ppu.lcd.lcds.lyc_equal_ly);
    assert!(line.interrupt_flag.is_empty());
}

#[test]
fn window_line_counts_the_lines_of_the_window() {
    let mut ppu = PPU::new();
    let mut line = InterruptLine::new();
    // the window is on, at line 2
    ppu.lcd_write(HardwareRegister::LCDC, 0xB1);
    ppu.lcd_write(HardwareRegister::WY, 2);
    ppu.lcd_write(HardwareRegister::WX, 7);
    ppu.increment_ly(&mut line);
    ppu.increment_ly(&mut line);
    assert_eq!((ppu.lcd.ly, ppu.window_line), (2, 0));
    ppu.increment_ly(&mut line);
    assert_eq!((ppu.lcd.ly, ppu.window_line), (3, 1));
    ppu.lcd_write(HardwareRegister::WX, 167);
    ppu.increment_ly(&mut line);
    assert_eq!((ppu.lcd.ly, ppu.window_line), (4, 1));
}

#[test]
fn increment_ly_compares_with_lyc() {
    let mut ppu = PPU::new();
    let mut line = InterruptLine::new();
    ppu.lcd_write(HardwareRegister::LYC, 2);
    ppu.lcd_write(HardwareRegister::STAT, 0x40);
    ppu.increment_ly(&mut line);
    assert_eq!(ppu.lcd.ly, 1);
    assert!(!ppu.lcd.lcds.lyc_equal_ly);
    assert!(line.interrupt_flag.is_empty());
    ppu.increment_ly(&mut line);
    assert_eq!(ppu.lcd.ly, 2);
    assert!(ppu.lcd.lcds.lyc_equal_ly);
    assert!(line.interrupt_flag.lcd);
    assert_eq!(ppu.window_line, 0);
}
