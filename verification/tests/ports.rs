use nes_core::memory::Memory;
use nes_core::ppu::{mirror_address, next_address, Mirroring, NmiPhase, NMI_DELAY, PPU};

struct Flat {
    bytes: Vec<u8>,
}

impl Memory for Flat {
    fn read(&mut self, addr: u16) -> u8 {
        self.bytes[addr as usize]
    }

    fn write(&mut self, addr: u16, value: u8) {
        self.bytes[addr as usize] = value;
    }
}

impl Default for Flat {
    fn default() -> Flat {
        Flat { bytes: vec![0; 0x10000] }
    }
}

fn unit(mirroring: Mirroring) -> PPU<Flat> {
    PPU::new(Flat { bytes: vec![0; 0x10000] }, mirroring)
}

#[test]
fn palette_write_is_read_back() {
    let mut ppu = unit(Mirroring::Horizontal);
    for addr in 0..32u16 {
        ppu.write_palette(addr, addr as u8 + 1);
        assert_eq!(ppu.read_palette(addr), addr as u8 + 1);
    }
}

#[test]
fn palette_mirrors_background_slots() {
    let mut ppu = unit(Mirroring::Horizontal);
    ppu.write_palette(0x10, 0x2A);
    assert_eq!(ppu.read_palette(0x00), 0x2A);
    assert_eq!(ppu.read_palette(0x10), 0x2A);
    ppu.write_palette(0x04, 0x17);
    assert_eq!(ppu.read_palette(0x14), 0x17);
    ppu.write_palette(0x1C, 0x05);
    assert_eq!(ppu.read_palette(0x0C), 0x05);
    ppu.write_palette(0x11, 0x33);
    assert_eq!(ppu.read_palette(0x01), 0x00);
    assert_eq!(ppu.read_palette(0x11), 0x33);
}

#[test]
fn palette_address_is_taken_modulo_32() {
    let mut ppu = unit(Mirroring::Horizontal);
    ppu.write_palette(0x3F05, 0x21);
    assert_eq!(ppu.read_palette(0x05), 0x21);
    assert_eq!(ppu.read_palette(0x25), 0x21);
}

#[test]
fn power_on_state() {
    let ppu = unit(Mirroring::Vertical);
    assert_eq!(ppu.cycle, 340);
    assert_eq!(ppu.scanline, 240);
    assert_eq!(ppu.frame, 0);
    assert_eq!(ppu.v, 0);
    assert_eq!(ppu.t, 0);
    assert_eq!(ppu.w, 0);
    assert!(!ppu.nmi_occurred);
    assert!(ppu.oam_data.iter().all(|b| *b == 0));
    assert!(ppu.name_table_data.iter().all(|b| *b == 0));
    assert!(ppu.palette_data.iter().all(|b| *b == 0));
    assert_eq!(ppu.front.pixel(0, 0), [0, 0, 0, 0]);
    assert_eq!(ppu.back.pixel(255, 239), [0, 0, 0, 0]);
    assert_eq!(ppu.dma_page, None);
}

#[test]
fn status_read_clears_vblank_and_toggle() {
    let mut ppu = unit(Mirroring::Horizontal);
    ppu.nmi_occurred = true;
    ppu.w = 1;
    ppu.register = 0xFF;
    let value = ppu.read_register(0x2002);
    assert_eq!(value, 0x9F);
    assert!(!ppu.nmi_occurred);
    assert_eq!(ppu.w, 0);
    let again = ppu.read_register(0x2002);
    assert_eq!(again, 0x1F);
    assert!(!ppu.nmi_occurred);
    assert_eq!(ppu.w, 0);
}

#[test]
fn status_shows_sprite_flags_in_bits_5_and_6() {
    let mut ppu = unit(Mirroring::Horizontal);
    ppu.flag_sprite_overflow = 1;
    assert_eq!(ppu.read_status(), 0x20);
    ppu.flag_sprite_overflow = 0;
    ppu.flag_sprite_zero_hit = 1;
    assert_eq!(ppu.read_status(), 0x40);
    ppu.write_register(0x2003, 0x0A);
    assert_eq!(ppu.read_status(), 0x4A);
}

#[test]
fn scroll_writes_fill_t_and_fine_x() {
    let mut ppu = unit(Mirroring::Horizontal);
    ppu.write_register(0x2005, 0x7D);
    assert_eq!(ppu.t, 0x000F);
    assert_eq!(ppu.x, 5);
    assert_eq!(ppu.w, 1);
    ppu.write_register(0x2005, 0x5E);
    assert_eq!(ppu.t, 0x616F);
    assert_eq!(ppu.w, 0);
    assert_eq!(ppu.v, 0);
}

#[test]
fn two_scroll_writes_then_two_address_writes() {
    let mut ppu = unit(Mirroring::Horizontal);
    ppu.write_register(0x2005, 0x7D);
    ppu.write_register(0x2005, 0x5E);
    ppu.write_register(0x2006, 0x3D);
    assert_eq!(ppu.w, 1);
    ppu.write_register(0x2006, 0xF0);
    assert_eq!(ppu.w, 0);
    assert_eq!(ppu.v, 0x3DF0);
    assert_eq!(ppu.t, 0x3DF0);
    assert_eq!(ppu.x, 5);

    ppu.write_register(0x2005, 0xFF);
    ppu.write_register(0x2005, 0xFF);
    ppu.write_register(0x2006, 0xFF);
    ppu.write_register(0x2006, 0x01);
    assert_eq!(ppu.w, 0);
    assert_eq!(ppu.v, 0x3F01);
}

#[test]
fn control_write_decodes_fields() {
    let mut ppu = unit(Mirroring::Horizontal);
    ppu.write_register(0x2000, 0x93);
    assert_eq!(ppu.flag_name_table, 3);
    assert_eq!(ppu.flag_increment, 0);
    assert_eq!(ppu.flag_sprite_table, 0);
    assert_eq!(ppu.flag_background_table, 1);
    assert_eq!(ppu.flag_sprite_size, 0);
    assert_eq!(ppu.flag_master_slave, 0);
    assert!(ppu.nmi_output);
    assert_eq!(ppu.t, 0x0C00);
    ppu.write_register(0x2000, 0x6C);
    assert_eq!(ppu.flag_name_table, 0);
    assert_eq!(ppu.flag_increment, 1);
    assert_eq!(ppu.flag_sprite_table, 1);
    assert_eq!(ppu.flag_background_table, 0);
    assert_eq!(ppu.flag_sprite_size, 1);
    assert_eq!(ppu.flag_master_slave, 1);
    assert!(!ppu.nmi_output);
    assert_eq!(ppu.t, 0x0000);
}

#[test]
fn mask_write_decodes_one_flag_per_bit() {
    let mut ppu = unit(Mirroring::Horizontal);
    ppu.write_register(0x2001, 0b0100_1001);
    assert_eq!(ppu.flag_gray_scale, 1);
    assert_eq!(ppu.flag_show_left_background, 0);
    assert_eq!(ppu.flag_show_left_sprites, 0);
    assert_eq!(ppu.flag_show_background, 1);
    assert_eq!(ppu.flag_show_sprites, 0);
    assert_eq!(ppu.flag_red_tint, 0);
    assert_eq!(ppu.flag_green_tint, 1);
    assert_eq!(ppu.flag_blue_tint, 0);
    ppu.write_register(0x2001, 0b1011_0110);
    assert_eq!(ppu.flag_gray_scale, 0);
    assert_eq!(ppu.flag_show_left_background, 1);
    assert_eq!(ppu.flag_show_left_sprites, 1);
    assert_eq!(ppu.flag_show_background, 0);
    assert_eq!(ppu.flag_show_sprites, 1);
    assert_eq!(ppu.flag_red_tint, 1);
    assert_eq!(ppu.flag_green_tint, 0);
    assert_eq!(ppu.flag_blue_tint, 1);
}

#[test]
fn reset_puts_counters_back_and_clears_ports() {
    let mut ppu = unit(Mirroring::Horizontal);
    ppu.write_register(0x2000, 0xFF);
    ppu.write_register(0x2001, 0xFF);
    ppu.write_register(0x2003, 0x44);
    ppu.write_palette(3, 9);
    ppu.cycle = 12;
    ppu.scanline = 100;
    ppu.frame = 77;
    ppu.reset();
    assert_eq!(ppu.cycle, 340);
    assert_eq!(ppu.scanline, 240);
    assert_eq!(ppu.frame, 0);
    assert_eq!(ppu.flag_name_table, 0);
    assert_eq!(ppu.flag_increment, 0);
    assert_eq!(ppu.flag_sprite_table, 0);
    assert_eq!(ppu.flag_background_table, 0);
    assert_eq!(ppu.flag_sprite_size, 0);
    assert_eq!(ppu.flag_master_slave, 0);
    assert!(!ppu.nmi_output);
    assert_eq!(ppu.flag_gray_scale, 0);
    assert_eq!(ppu.flag_show_background, 0);
    assert_eq!(ppu.flag_show_sprites, 0);
    assert_eq!(ppu.flag_red_tint, 0);
    assert_eq!(ppu.flag_green_tint, 0);
    assert_eq!(ppu.flag_blue_tint, 0);
    assert_eq!(ppu.oam_addr, 0);
    assert_eq!(ppu.read_palette(3), 9);
}

#[test]
fn sprite_memory_port_moves_cursor_and_wraps() {
    let mut ppu = unit(Mirroring::Horizontal);
    ppu.write_register(0x2003, 0xFE);
    ppu.write_register(0x2004, 0x11);
    ppu.write_register(0x2004, 0x22);
    ppu.write_register(0x2004, 0x33);
    assert_eq!(ppu.oam_addr, 1);
    assert_eq!(ppu.oam_data[0xFE], 0x11);
    assert_eq!(ppu.oam_data[0xFF], 0x22);
    assert_eq!(ppu.oam_data[0x00], 0x33);
}

#[test]
fn sprite_memory_read_masks_attribute_bytes() {
    let mut ppu = unit(Mirroring::Horizontal);
    ppu.write_register(0x2003, 0x01);
    ppu.write_register(0x2004, 0xFF);
    ppu.write_register(0x2004, 0xFF);
    ppu.write_register(0x2003, 0x01);
    assert_eq!(ppu.read_register(0x2004), 0xFF);
    ppu.write_register(0x2003, 0x02);
    assert_eq!(ppu.read_register(0x2004), 0xE3);
    assert_eq!(ppu.oam_addr, 0x02);
}

#[test]
fn data_port_reads_are_one_behind() {
    let mut ppu = unit(Mirroring::Horizontal);
    ppu.write_register(0x2006, 0x21);
    ppu.write_register(0x2006, 0x08);
    ppu.write_register(0x2007, 0x55);
    ppu.write_register(0x2007, 0x66);
    assert_eq!(ppu.v, 0x210A);
    ppu.write_register(0x2006, 0x21);
    ppu.write_register(0x2006, 0x08);
    assert_eq!(ppu.read_register(0x2007), 0x00);
    assert_eq!(ppu.read_register(0x2007), 0x55);
    assert_eq!(ppu.read_register(0x2007), 0x66);
    assert_eq!(ppu.v, 0x210B);
}

#[test]
fn data_port_steps_by_32_when_asked() {
    let mut ppu = unit(Mirroring::Horizontal);
    ppu.write_register(0x2000, 0x04);
    ppu.write_register(0x2006, 0x20);
    ppu.write_register(0x2006, 0x00);
    ppu.write_register(0x2007, 0x01);
    assert_eq!(ppu.v, 0x2020);
    ppu.write_register(0x2007, 0x02);
    assert_eq!(ppu.v, 0x2040);
    assert_eq!(ppu.name_table_data[0x00], 0x01);
    assert_eq!(ppu.name_table_data[0x20], 0x02);
}

#[test]
fn data_port_reads_palette_at_once_and_primes_buffer_from_below() {
    let mut ppu = unit(Mirroring::Horizontal);
    ppu.write_register(0x2006, 0x2F);
    ppu.write_register(0x2006, 0x01);
    ppu.write_register(0x2007, 0x77);
    ppu.write_register(0x2006, 0x3F);
    ppu.write_register(0x2006, 0x01);
    ppu.write_register(0x2007, 0x2C);
    ppu.write_register(0x2006, 0x3F);
    ppu.write_register(0x2006, 0x01);
    assert_eq!(ppu.read_register(0x2007), 0x2C);
    assert_eq!(ppu.buffer_data, 0x77);
    assert_eq!(ppu.v, 0x3F02);
}

#[test]
fn data_port_reaches_pattern_tables_on_the_cartridge() {
    let mut ppu = unit(Mirroring::Horizontal);
    ppu.memory.bytes[0x0123] = 0x99;
    ppu.write_register(0x2006, 0x01);
    ppu.write_register(0x2006, 0x23);
    assert_eq!(ppu.read_register(0x2007), 0x00);
    assert_eq!(ppu.read_register(0x2007), 0x99);
    ppu.write_register(0x2006, 0x01);
    ppu.write_register(0x2006, 0x30);
    ppu.write_register(0x2007, 0x42);
    assert_eq!(ppu.memory.bytes[0x0130], 0x42);
}

#[test]
fn video_address_stays_within_15_bits() {
    assert_eq!(next_address(0x7FFF, 0), 0x0000);
    assert_eq!(next_address(0x7FF0, 1), 0x0010);
    assert_eq!(next_address(0x2000, 0), 0x2001);
    assert_eq!(next_address(0x2000, 1), 0x2020);
}

#[test]
fn name_tables_mirror_by_mode() {
    assert_eq!(mirror_address(Mirroring::Horizontal, 0x2005), 0x2005);
    assert_eq!(mirror_address(Mirroring::Horizontal, 0x2405), 0x2005);
    assert_eq!(mirror_address(Mirroring::Horizontal, 0x2805), 0x2405);
    assert_eq!(mirror_address(Mirroring::Horizontal, 0x2C05), 0x2405);
    assert_eq!(mirror_address(Mirroring::Vertical, 0x2405), 0x2405);
    assert_eq!(mirror_address(Mirroring::Vertical, 0x2805), 0x2005);
    assert_eq!(mirror_address(Mirroring::Vertical, 0x2C05), 0x2405);
    assert_eq!(mirror_address(Mirroring::Single0, 0x2C05), 0x2005);
    assert_eq!(mirror_address(Mirroring::Single1, 0x2005), 0x2405);
    assert_eq!(mirror_address(Mirroring::Four, 0x2C05), 0x2C05);
    assert_eq!(mirror_address(Mirroring::Horizontal, 0x3405), 0x2005);

    let mut ppu = unit(Mirroring::Vertical);
    ppu.write_vram(0x2003, 0x12);
    assert_eq!(ppu.read_vram(0x2803), 0x12);
    assert_eq!(ppu.read_vram(0x2403), 0x00);
    assert_eq!(ppu.read_vram(0x6003), 0x12);
    let mut ppu = unit(Mirroring::Horizontal);
    ppu.write_vram(0x2003, 0x12);
    assert_eq!(ppu.read_vram(0x2403), 0x12);
    assert_eq!(ppu.read_vram(0x2803), 0x00);
}

#[test]
fn write_to_an_unknown_port_only_latches() {
    let mut ppu = unit(Mirroring::Horizontal);
    ppu.write_register(0x2002, 0x1B);
    assert_eq!(ppu.register, 0x1B);
    assert_eq!(ppu.read_register(0x2000), 0);
    assert_eq!(ppu.read_register(0x2002), 0x1B);
    assert_eq!(ppu.v, 0);
    assert_eq!(ppu.oam_addr, 0);
}

#[test]
fn dma_port_records_the_page_once() {
    let mut ppu = unit(Mirroring::Horizontal);
    ppu.write_register(0x4014, 0x02);
    assert_eq!(ppu.register, 0x02);
    assert_eq!(ppu.take_dma(), Some(0x02));
    assert_eq!(ppu.take_dma(), None);
}

#[test]
fn interrupt_edge_is_delivered_after_the_countdown() {
    let mut ppu = unit(Mirroring::Horizontal);
    assert_eq!(ppu.nmi_phase(), NmiPhase::Idle);
    ppu.write_register(0x2000, 0x80);
    assert_eq!(ppu.nmi_phase(), NmiPhase::Idle);
    ppu.nmi_occurred = true;
    ppu.nmi_change();
    assert_eq!(ppu.nmi_delay, NMI_DELAY);
    assert_eq!(ppu.nmi_phase(), NmiPhase::Delayed);
    for _ in 0..14 {
        assert!(!ppu.nmi_countdown());
    }
    assert_eq!(ppu.nmi_phase(), NmiPhase::Armed);
    assert!(ppu.nmi_countdown());
    assert_eq!(ppu.nmi_phase(), NmiPhase::Fired);
    assert!(!ppu.nmi_countdown());
    ppu.nmi_change();
    assert_eq!(ppu.nmi_delay, 0);
}

#[test]
fn interrupt_edge_is_cancelled_by_a_status_read() {
    let mut ppu = unit(Mirroring::Horizontal);
    ppu.write_register(0x2000, 0x80);
    ppu.nmi_occurred = true;
    ppu.nmi_change();
    for _ in 0..5 {
        assert!(!ppu.nmi_countdown());
    }
    ppu.read_register(0x2002);
    for _ in 0..10 {
        assert!(!ppu.nmi_countdown());
    }
    assert_eq!(ppu.nmi_phase(), NmiPhase::Idle);
}

#[test]
fn interrupt_needs_a_rising_edge() {
    let mut ppu = unit(Mirroring::Horizontal);
    ppu.nmi_occurred = true;
    ppu.nmi_change();
    assert_eq!(ppu.nmi_delay, 0);
    ppu.write_register(0x2000, 0x80);
    assert_eq!(ppu.nmi_delay, NMI_DELAY);
    ppu.write_register(0x2000, 0x80);
    for _ in 0..15 {
        ppu.nmi_countdown();
    }
    ppu.write_register(0x2000, 0x80);
    assert_eq!(ppu.nmi_delay, 0);
}

#[test]
fn default_unit_is_at_power_on() {
    let ppu: PPU<Flat> = PPU::default();
    assert_eq!(ppu.mirroring, Mirroring::Horizontal);
    assert_eq!(ppu.cycle, 340);
    assert_eq!(ppu.scanline, 240);
    assert_eq!(ppu.frame, 0);
    assert_eq!(ppu.oam_addr, 0);
    assert_eq!(ppu.register, 0);
    assert!(ppu.oam_data.iter().all(|b| *b == 0));
}

#[test]
fn the_unit_is_a_bus_of_its_own_address_space() {
    let mut ppu = unit(Mirroring::Vertical);
    Memory::write(&mut ppu, 0x2805, 0x31);
    assert_eq!(Memory::read(&mut ppu, 0x2005), 0x31);
    Memory::write(&mut ppu, 0x3F10, 0x0F);
    assert_eq!(Memory::read(&mut ppu, 0x3F00), 0x0F);
    assert_eq!(Memory::read(&mut ppu, 0x7F00), 0x0F);
    Memory::write(&mut ppu, 0x1FFF, 0x80);
    assert_eq!(ppu.memory.bytes[0x1FFF], 0x80);
    assert_eq!(Memory::read(&mut ppu, 0x5FFF), 0x80);
}
