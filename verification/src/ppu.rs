//! The picture unit: its memories, its scroll and address registers, and the
//! ports through which the processor reaches them.
//!
//! Every port access is a total function on the unit's state. Its contract
//! names the state it leaves behind with a spec function (`after_...`), so
//! that sequences of accesses can be reasoned about without running them.

use vstd::prelude::*;
use vstd::array::spec_array_update;
use crate::bits::{
    lemma_addr_keeps_15_bits, lemma_control_keeps_15_bits, lemma_flag_widths,
    lemma_fields_are_digits, lemma_scroll_keeps_15_bits, lemma_scroll_layout,
    lemma_scroll_then_addr, lemma_zero_fields,
};
use crate::frame::Frame;
use crate::memory::Memory;

verus! {

/// Countdown that a rising interrupt edge starts before it reaches the
/// processor.
pub const NMI_DELAY: u8 = 15;

/// How the four logical name tables fold onto the unit's 2 KiB.
#[derive(Clone, Copy, Debug, PartialEq, Eq, Structural)]
pub enum Mirroring {
    Horizontal,
    Vertical,
    Single0,
    Single1,
    Four,
}

/// Where the interrupt line stands between the flags changing and the
/// processor seeing the edge.
#[derive(Clone, Copy, Debug, PartialEq, Eq, Structural)]
pub enum NmiPhase {
    /// Line low, nothing pending.
    Idle,
    /// An edge was seen; more than one countdown step is left.
    Delayed,
    /// The next countdown step delivers the edge if the line is still high.
    Armed,
    /// Line high and the edge already delivered (or cancelled and raised
    /// again without a new edge).
    Fired,
}

/// Physical name table that logical table `table` (0 to 3) folds onto.
pub open spec fn mirror_table(mode: Mirroring, table: int) -> int {
    match mode {
        Mirroring::Horizontal => table / 2,
        Mirroring::Vertical => table % 2,
        Mirroring::Single0 => 0,
        Mirroring::Single1 => 1,
        Mirroring::Four => table,
    }
}

/// Address in `0x2000..0x3000` that a name-table address mirrors to.
pub open spec fn spec_mirror_address(mode: Mirroring, addr: u16) -> int {
    0x2000 + mirror_table(mode, ((addr % 0x1000) / 0x400) as int) * 0x400 + addr % 0x400
}

/// Offset of a name-table address within the unit's 2 KiB.
pub open spec fn name_table_index(mode: Mirroring, addr: u16) -> int {
    spec_mirror_address(mode, addr) % 2048
}

/// Index into the 32-entry palette table that `addr` selects: the address
/// modulo 32, with the entries at 16, 20, 24 and 28 folded onto the
/// background slots 0, 4, 8 and 12.
pub open spec fn palette_index(addr: u16) -> int {
    let a = addr % 32;
    if a >= 16 && a % 4 == 0 {
        a - 16
    } else {
        a as int
    }
}

/// The video address after one data-port access: advanced by 1, or by 32
/// when the increment flag is set, within 15 bits.
pub open spec fn spec_next_address(v: u16, increment: u8) -> u16 {
    ((v + (if increment == 0 { 1int } else { 32int })) % 0x8000) as u16
}

/// Address in `0x2000..0x3000` that a name-table address mirrors to.
pub fn mirror_address(mode: Mirroring, addr: u16) -> (mirrored: u16)
    ensures
        mirrored == spec_mirror_address(mode, addr),
        0x2000 <= mirrored < 0x3000,
{
    let a: u16 = addr % 0x1000;
    let table: u16 = a / 0x400;
    let offset: u16 = a % 0x400;
    let physical: u16 = match mode {
        Mirroring::Horizontal => table / 2,
        Mirroring::Vertical => table % 2,
        Mirroring::Single0 => 0,
        Mirroring::Single1 => 1,
        Mirroring::Four => table,
    };
    0x2000 + physical * 0x400 + offset
}

/// The video address after one data-port access.
#[verifier::when_used_as_spec(spec_next_address)]
pub fn next_address(v: u16, increment: u8) -> (next: u16)
    ensures
        next == spec_next_address(v, increment),
        next < 0x8000,
{
    let step: u32 = if increment == 0 {
        1
    } else {
        32
    };
    ((v as u32 + step) % 0x8000) as u16
}

/// The picture unit. `memory` is the cartridge side of its address space
/// (the pattern tables below `0x2000`).
pub struct PPU<M: Memory> {
    pub memory: M,
    pub mirroring: Mirroring,
    pub cycle: u16,
    pub scanline: u16,
    pub frame: u64,
    pub palette_data: [u8; 32],
    pub name_table_data: [u8; 2048],
    pub oam_data: [u8; 256],
    pub front: Frame,
    pub back: Frame,
    // scroll and address registers
    pub v: u16,
    pub t: u16,
    pub x: u8,
    pub w: u8,
    pub f: u8,
    /// Last byte written to any port.
    pub register: u8,
    // interrupt line
    pub nmi_occurred: bool,
    pub nmi_output: bool,
    pub nmi_previous: bool,
    pub nmi_delay: u8,
    // background fetch latches
    pub name_table_byte: u8,
    pub attribute_table_byte: u8,
    pub low_tile_byte: u8,
    pub high_tile_byte: u8,
    pub tile_data: u64,
    // sprites selected for the current line
    pub sprite_count: u8,
    pub sprite_patterns: [u32; 8],
    pub sprite_positions: [u8; 8],
    pub sprite_priorities: [u8; 8],
    pub sprite_indexes: [u8; 8],
    // control port
    pub flag_name_table: u8,
    pub flag_increment: u8,
    pub flag_sprite_table: u8,
    pub flag_background_table: u8,
    pub flag_sprite_size: u8,
    pub flag_master_slave: u8,
    // mask port
    pub flag_gray_scale: u8,
    pub flag_show_left_background: u8,
    pub flag_show_left_sprites: u8,
    pub flag_show_background: u8,
    pub flag_show_sprites: u8,
    pub flag_red_tint: u8,
    pub flag_green_tint: u8,
    pub flag_blue_tint: u8,
    // status port
    pub flag_sprite_zero_hit: u8,
    pub flag_sprite_overflow: u8,
    /// Cursor into `oam_data`.
    pub oam_addr: u8,
    /// Read buffer of the data port.
    pub buffer_data: u8,
    /// Page that the last write to the DMA port asked to be copied, until
    /// the bus takes it.
    pub dma_page: Option<u8>,
}

impl<M: Memory> PPU<M> {
    /// The ranges that every reachable state keeps.
    pub open spec fn wf(self) -> bool {
        &&& self.memory.inv()
        &&& self.cycle <= 340
        &&& self.scanline <= 261
        &&& self.v < 0x8000
        &&& self.t < 0x8000
        &&& self.x < 8
        &&& self.w <= 1
        &&& self.f <= 1
        &&& self.nmi_delay <= NMI_DELAY
        &&& self.sprite_count <= 8
        &&& self.flag_name_table <= 3
        &&& self.flag_increment <= 1
        &&& self.flag_sprite_table <= 1
        &&& self.flag_background_table <= 1
        &&& self.flag_sprite_size <= 1
        &&& self.flag_master_slave <= 1
        &&& self.flag_gray_scale <= 1
        &&& self.flag_show_left_background <= 1
        &&& self.flag_show_left_sprites <= 1
        &&& self.flag_show_background <= 1
        &&& self.flag_show_sprites <= 1
        &&& self.flag_red_tint <= 1
        &&& self.flag_green_tint <= 1
        &&& self.flag_blue_tint <= 1
        &&& self.flag_sprite_zero_hit <= 1
        &&& self.flag_sprite_overflow <= 1
    }

    // ---------------------------------------------------------------
    // power-on and reset

    /// Whether this is the state that power-on leaves: memories cleared,
    /// every register and latch zero, both frames black, and the counters
    /// where a reset puts them.
    pub open spec fn is_power_on(self, memory: M, mirroring: Mirroring) -> bool {
        &&& self.memory == memory
        &&& self.mirroring == mirroring
        &&& self.cycle == 340
        &&& self.scanline == 240
        &&& self.frame == 0
        &&& forall|i: int| 0 <= i < 32 ==> self.palette_data[i] == 0
        &&& forall|i: int| 0 <= i < 2048 ==> self.name_table_data[i] == 0
        &&& forall|i: int| 0 <= i < 256 ==> self.oam_data[i] == 0
        &&& self.front@ == Frame::black()
        &&& self.back@ == Frame::black()
        &&& self.v == 0
        &&& self.t == 0
        &&& self.x == 0
        &&& self.w == 0
        &&& self.f == 0
        &&& self.register == 0
        &&& !self.nmi_occurred
        &&& !self.nmi_output
        &&& !self.nmi_previous
        &&& self.nmi_delay == 0
        &&& self.name_table_byte == 0
        &&& self.attribute_table_byte == 0
        &&& self.low_tile_byte == 0
        &&& self.high_tile_byte == 0
        &&& self.tile_data == 0
        &&& self.sprite_count == 0
        &&& forall|i: int| 0 <= i < 8 ==> self.sprite_patterns[i] == 0
        &&& forall|i: int| 0 <= i < 8 ==> self.sprite_positions[i] == 0
        &&& forall|i: int| 0 <= i < 8 ==> self.sprite_priorities[i] == 0
        &&& forall|i: int| 0 <= i < 8 ==> self.sprite_indexes[i] == 0
        &&& self.flag_name_table == 0
        &&& self.flag_increment == 0
        &&& self.flag_sprite_table == 0
        &&& self.flag_background_table == 0
        &&& self.flag_sprite_size == 0
        &&& self.flag_master_slave == 0
        &&& self.flag_gray_scale == 0
        &&& self.flag_show_left_background == 0
        &&& self.flag_show_left_sprites == 0
        &&& self.flag_show_background == 0
        &&& self.flag_show_sprites == 0
        &&& self.flag_red_tint == 0
        &&& self.flag_green_tint == 0
        &&& self.flag_blue_tint == 0
        &&& self.flag_sprite_zero_hit == 0
        &&& self.flag_sprite_overflow == 0
        &&& self.oam_addr == 0
        &&& self.buffer_data == 0
        &&& self.dma_page is None
    }

    /// The unit at power-on, wired to the cartridge side `memory`.
    pub fn new(memory: M, mirroring: Mirroring) -> (ppu: Self)
        ensures
            ppu.is_power_on(memory, mirroring),
            memory.inv() ==> ppu.wf(),
    {
        PPU {
            memory,
            mirroring,
            cycle: 340,
            scanline: 240,
            frame: 0,
            palette_data: [0u8;32],
            name_table_data: [0u8;2048],
            oam_data: [0u8;256],
            front: Frame::new(),
            back: Frame::new(),
            v: 0,
            t: 0,
            x: 0,
            w: 0,
            f: 0,
            register: 0,
            nmi_occurred: false,
            nmi_output: false,
            nmi_previous: false,
            nmi_delay: 0,
            name_table_byte: 0,
            attribute_table_byte: 0,
            low_tile_byte: 0,
            high_tile_byte: 0,
            tile_data: 0,
            sprite_count: 0,
            sprite_patterns: [0u32;8],
            sprite_positions: [0u8;8],
            sprite_priorities: [0u8;8],
            sprite_indexes: [0u8;8],
            flag_name_table: 0,
            flag_increment: 0,
            flag_sprite_table: 0,
            flag_background_table: 0,
            flag_sprite_size: 0,
            flag_master_slave: 0,
            flag_gray_scale: 0,
            flag_show_left_background: 0,
            flag_show_left_sprites: 0,
            flag_show_background: 0,
            flag_show_sprites: 0,
            flag_red_tint: 0,
            flag_green_tint: 0,
            flag_blue_tint: 0,
            flag_sprite_zero_hit: 0,
            flag_sprite_overflow: 0,
            oam_addr: 0,
            buffer_data: 0,
            dma_page: None,
        }
    }

    /// The state after a reset.
    pub open spec fn after_reset(self) -> Self {
        (PPU { cycle: 340, scanline: 240, frame: 0, ..self }).after_write_control(
            0,
        ).after_write_mask(0).after_write_oam_addr(0)
    }

    /// Reset: the counters return to the start of vertical blank, and the
    /// control, mask and sprite-address ports are written with zero. The
    /// memories are left as they are.
    #[verifier::rlimit(50)]
    pub fn reset(&mut self)
        ensures
            *final(self) == old(self).after_reset(),
            final(self).cycle == 340,
            final(self).scanline == 240,
            final(self).frame == 0,
            final(self).control_is_zero(),
            final(self).mask_is_zero(),
            final(self).oam_addr == 0,
            final(self).palette_data == old(self).palette_data,
            final(self).name_table_data == old(self).name_table_data,
            final(self).oam_data == old(self).oam_data,
            old(self).wf() ==> final(self).wf(),
    {
        proof {
            lemma_zero_fields();
        }
        self.cycle = 340;
        self.scanline = 240;
        self.frame = 0;
        self.write_control(0);
        self.write_mask(0);
        self.write_oam_addr(0);
    }

    /// Every field that the control port decodes is zero.
    pub open spec fn control_is_zero(self) -> bool {
        &&& self.flag_name_table == 0
        &&& self.flag_increment == 0
        &&& self.flag_sprite_table == 0
        &&& self.flag_background_table == 0
        &&& self.flag_sprite_size == 0
        &&& self.flag_master_slave == 0
        &&& !self.nmi_output
    }

    /// Every field that the mask port decodes is zero.
    pub open spec fn mask_is_zero(self) -> bool {
        &&& self.flag_gray_scale == 0
        &&& self.flag_show_left_background == 0
        &&& self.flag_show_left_sprites == 0
        &&& self.flag_show_background == 0
        &&& self.flag_show_sprites == 0
        &&& self.flag_red_tint == 0
        &&& self.flag_green_tint == 0
        &&& self.flag_blue_tint == 0
    }

    // ---------------------------------------------------------------
    // interrupt line

    /// Level of the interrupt line.
    pub open spec fn nmi_line(self) -> bool {
        self.nmi_output && self.nmi_occurred
    }

    /// Where the interrupt line stands.
    pub open spec fn spec_nmi_phase(self) -> NmiPhase {
        if self.nmi_delay > 1 {
            NmiPhase::Delayed
        } else if self.nmi_delay == 1 {
            NmiPhase::Armed
        } else if self.nmi_line() {
            NmiPhase::Fired
        } else {
            NmiPhase::Idle
        }
    }

    /// The state after the line's level is sampled: a rising edge starts the
    /// countdown, and the level is remembered.
    pub open spec fn after_nmi_change(self) -> Self {
        PPU {
            nmi_delay: if self.nmi_line() && !self.nmi_previous {
                NMI_DELAY
            } else {
                self.nmi_delay
            },
            nmi_previous: self.nmi_line(),
            ..self
        }
    }

    /// The state after one countdown step.
    pub open spec fn after_nmi_countdown(self) -> Self {
        PPU {
            nmi_delay: if self.nmi_delay > 0 {
                (self.nmi_delay - 1) as u8
            } else {
                0
            },
            ..self
        }
    }

    /// Whether a countdown step in this state delivers the interrupt.
    pub open spec fn nmi_fires(self) -> bool {
        self.nmi_delay == 1 && self.nmi_line()
    }

    /// Where the interrupt line stands.
    pub fn nmi_phase(&self) -> (phase: NmiPhase)
        ensures
            phase == self.spec_nmi_phase(),
    {
        if self.nmi_delay > 1 {
            NmiPhase::Delayed
        } else if self.nmi_delay == 1 {
            NmiPhase::Armed
        } else if self.nmi_output && self.nmi_occurred {
            NmiPhase::Fired
        } else {
            NmiPhase::Idle
        }
    }

    /// Samples the interrupt line after either of its flags may have changed.
    pub fn nmi_change(&mut self)
        ensures
            *final(self) == old(self).after_nmi_change(),
            old(self).wf() ==> final(self).wf(),
    {
        let nmi = self.nmi_output && self.nmi_occurred;
        if nmi && !self.nmi_previous {
            self.nmi_delay = NMI_DELAY;
        }
        self.nmi_previous = nmi;
    }

    /// One step of the countdown. Returns whether the edge reaches the
    /// processor now: only when the countdown ends on a line that is still
    /// high.
    pub fn nmi_countdown(&mut self) -> (fired: bool)
        ensures
            fired == old(self).nmi_fires(),
            *final(self) == old(self).after_nmi_countdown(),
            old(self).wf() ==> final(self).wf(),
    {
        if self.nmi_delay > 0 {
            self.nmi_delay = self.nmi_delay - 1;
            self.nmi_delay == 0 && self.nmi_output && self.nmi_occurred
        } else {
            false
        }
    }

    // ---------------------------------------------------------------
    // palette

    /// The palette entry that `addr` selects.
    pub open spec fn palette_value(self, addr: u16) -> u8 {
        self.palette_data[palette_index(addr)]
    }

    /// The state after a palette write: the entry that `addr` selects holds
    /// `value`.
    pub open spec fn after_write_palette(self, addr: u16, value: u8) -> Self {
        PPU {
            palette_data: spec_array_update(self.palette_data, palette_index(addr), value),
            ..self
        }
    }

    /// Reads the palette entry that `addr` selects.
    pub fn read_palette(&self, addr: u16) -> (value: u8)
        ensures
            value == self.palette_value(addr),
    {
        let mut a: u16 = addr % 32;
        if a >= 16 && a % 4 == 0 {
            a = a - 16;
        }
        self.palette_data[a as usize]
    }

    /// Writes the palette entry that `addr` selects.
    pub fn write_palette(&mut self, addr: u16, value: u8)
        ensures
            *final(self) == old(self).after_write_palette(addr, value),
            final(self).palette_value(addr) == value,
            old(self).wf() ==> final(self).wf(),
    {
        let mut a: u16 = addr % 32;
        if a >= 16 && a % 4 == 0 {
            a = a - 16;
        }
        self.palette_data[a as usize] = value;
    }

    // ---------------------------------------------------------------
    // the unit's own address space

    /// The byte at `addr` of the unit's address space: pattern tables on the
    /// cartridge, then the mirrored name tables, then the palette.
    pub open spec fn vram_value(self, addr: u16) -> u8 {
        let a: u16 = addr % 0x4000;
        if a < 0x2000 {
            self.memory.read_value(a)
        } else if a < 0x3F00 {
            self.name_table_data[name_table_index(self.mirroring, a)]
        } else {
            self.palette_value(a)
        }
    }

    /// The state after a read of `addr`: only the cartridge may change.
    pub open spec fn after_vram_read(self, addr: u16) -> Self {
        let a: u16 = addr % 0x4000;
        if a < 0x2000 {
            PPU { memory: self.memory.after_read(a), ..self }
        } else {
            self
        }
    }

    /// The state after a write to `addr` of the unit's address space: to the
    /// cartridge, to a name table, or to the palette.
    pub open spec fn after_vram_write(self, addr: u16, value: u8) -> Self {
        let a: u16 = addr % 0x4000;
        if a < 0x2000 {
            PPU { memory: self.memory.after_write(a, value), ..self }
        } else if a < 0x3F00 {
            PPU {
                name_table_data: spec_array_update(
                    self.name_table_data,
                    name_table_index(self.mirroring, a),
                    value,
                ),
                ..self
            }
        } else {
            self.after_write_palette(a, value)
        }
    }

    /// Reads one byte of the unit's address space.
    pub fn read_vram(&mut self, addr: u16) -> (value: u8)
        ensures
            value == old(self).vram_value(addr),
            *final(self) == old(self).after_vram_read(addr),
            old(self).wf() ==> final(self).wf(),
    {
        let a: u16 = addr % 0x4000;
        if a < 0x2000 {
            self.memory.read(a)
        } else if a < 0x3F00 {
            let i: u16 = mirror_address(self.mirroring, a) % 2048;
            self.name_table_data[i as usize]
        } else {
            self.read_palette(a)
        }
    }

    /// Writes one byte of the unit's address space.
    pub fn write_vram(&mut self, addr: u16, value: u8)
        ensures
            *final(self) == old(self).after_vram_write(addr, value),
            old(self).wf() ==> final(self).wf(),
    {
        let a: u16 = addr % 0x4000;
        if a < 0x2000 {
            self.memory.write(a, value);
        } else if a < 0x3F00 {
            let i: u16 = mirror_address(self.mirroring, a) % 2048;
            self.name_table_data[i as usize] = value;
        } else {
            self.write_palette(a, value);
        }
    }

    // ---------------------------------------------------------------
    // control port

    /// The state after a write to the control port.
    pub open spec fn after_write_control(self, value: u8) -> Self {
        (PPU {
            flag_name_table: value & 3,
            flag_increment: (value >> 2) & 1,
            flag_sprite_table: (value >> 3) & 1,
            flag_background_table: (value >> 4) & 1,
            flag_sprite_size: (value >> 5) & 1,
            flag_master_slave: (value >> 6) & 1,
            nmi_output: (value >> 7) & 1 == 1,
            t: (self.t & 0xF3FF) | (((value & 3) as u16) << 10),
            ..self
        }).after_nmi_change()
    }

    /// Control port: decodes the six fields, sets the interrupt enable and
    /// samples the line, and copies the name-table select into bits 10 and 11
    /// of `t`.
    pub fn write_control(&mut self, value: u8)
        ensures
            *final(self) == old(self).after_write_control(value),
            old(self).wf() ==> final(self).wf(),
    {
        proof {
            lemma_flag_widths(value);
            if self.t < 0x8000 {
                lemma_control_keeps_15_bits(self.t, value);
            }
        }
        self.flag_name_table = value & 3;
        self.flag_increment = (value >> 2) & 1;
        self.flag_sprite_table = (value >> 3) & 1;
        self.flag_background_table = (value >> 4) & 1;
        self.flag_sprite_size = (value >> 5) & 1;
        self.flag_master_slave = (value >> 6) & 1;
        self.nmi_output = (value >> 7) & 1 == 1;
        self.nmi_change();
        self.t = (self.t & 0xF3FF) | (((value & 3) as u16) << 10);
    }

    // ---------------------------------------------------------------
    // mask port

    /// The state after a write to the mask port.
    pub open spec fn after_write_mask(self, value: u8) -> Self {
        PPU {
            flag_gray_scale: value & 1,
            flag_show_left_background: (value >> 1) & 1,
            flag_show_left_sprites: (value >> 2) & 1,
            flag_show_background: (value >> 3) & 1,
            flag_show_sprites: (value >> 4) & 1,
            flag_red_tint: (value >> 5) & 1,
            flag_green_tint: (value >> 6) & 1,
            flag_blue_tint: (value >> 7) & 1,
            ..self
        }
    }

    /// Mask port: one flag per bit, from grayscale in bit 0 to the blue tint
    /// in bit 7.
    pub fn write_mask(&mut self, value: u8)
        ensures
            *final(self) == old(self).after_write_mask(value),
            old(self).wf() ==> final(self).wf(),
    {
        proof {
            lemma_flag_widths(value);
        }
        self.flag_gray_scale = value & 1;
        self.flag_show_left_background = (value >> 1) & 1;
        self.flag_show_left_sprites = (value >> 2) & 1;
        self.flag_show_background = (value >> 3) & 1;
        self.flag_show_sprites = (value >> 4) & 1;
        self.flag_red_tint = (value >> 5) & 1;
        self.flag_green_tint = (value >> 6) & 1;
        self.flag_blue_tint = (value >> 7) & 1;
    }

    // ---------------------------------------------------------------
    // status port

    /// The byte that the status port shows: the low five bits of the last
    /// byte written to any port, sprite overflow in bit 5, sprite-zero hit in
    /// bit 6 and the vertical-blank flag in bit 7.
    pub open spec fn status_value(self) -> u8 {
        (self.register & 0x1F) | (self.flag_sprite_overflow << 5) | (self.flag_sprite_zero_hit
            << 6) | (if self.nmi_occurred {
            0x80u8
        } else {
            0u8
        })
    }

    /// The state after a read of the status port: the vertical-blank flag and
    /// the write toggle are clear, and the interrupt line is sampled.
    pub open spec fn after_read_status(self) -> Self {
        PPU { w: 0, ..(PPU { nmi_occurred: false, ..self }).after_nmi_change() }
    }

    /// Status port. Whatever the state before, the read clears the
    /// vertical-blank flag and the write toggle.
    pub fn read_status(&mut self) -> (value: u8)
        ensures
            value == old(self).status_value(),
            *final(self) == old(self).after_read_status(),
            !final(self).nmi_occurred,
            final(self).w == 0,
            old(self).wf() ==> final(self).wf(),
    {
        let mut result: u8 = self.register & 0x1F;
        result = result | (self.flag_sprite_overflow << 5);
        result = result | (self.flag_sprite_zero_hit << 6);
        result = result | (if self.nmi_occurred {
            0x80u8
        } else {
            0u8
        });
        self.nmi_occurred = false;
        self.nmi_change();
        self.w = 0;
        result
    }

    // ---------------------------------------------------------------
    // sprite memory ports

    /// The state after a write to the sprite-address port.
    pub open spec fn after_write_oam_addr(self, value: u8) -> Self {
        PPU { oam_addr: value, ..self }
    }

    /// Sprite-address port: sets the cursor into sprite memory.
    pub fn write_oam_addr(&mut self, value: u8)
        ensures
            *final(self) == old(self).after_write_oam_addr(value),
            old(self).wf() ==> final(self).wf(),
    {
        self.oam_addr = value;
    }

    /// The byte under the cursor; in the attribute byte of an entry (the
    /// third of each four) the three bits that do not exist read as zero.
    pub open spec fn oam_value(self) -> u8 {
        let data = self.oam_data[self.oam_addr as int];
        if self.oam_addr % 4 == 2 {
            data & 0xE3
        } else {
            data
        }
    }

    /// Sprite-data port, read: the byte under the cursor. The cursor stays.
    pub fn read_oam_data(&self) -> (value: u8)
        ensures
            value == self.oam_value(),
    {
        let data: u8 = self.oam_data[self.oam_addr as usize];
        if self.oam_addr % 4 == 2 {
            data & 0xE3
        } else {
            data
        }
    }

    /// The state after a write to the sprite-data port.
    pub open spec fn after_write_oam_data(self, value: u8) -> Self {
        PPU {
            oam_data: spec_array_update(self.oam_data, self.oam_addr as int, value),
            oam_addr: ((self.oam_addr + 1) % 256) as u8,
            ..self
        }
    }

    /// Stores under the cursor and moves the cursor on, wrapping after 255.
    pub fn write_oam_data(&mut self, value: u8)
        ensures
            *final(self) == old(self).after_write_oam_data(value),
            old(self).wf() ==> final(self).wf(),
    {
        self.oam_data[self.oam_addr as usize] = value;
        self.oam_addr = if self.oam_addr == 255 {
            0
        } else {
            self.oam_addr + 1
        };
    }

    // ---------------------------------------------------------------
    // scroll port

    /// The state after a write to the scroll port.
    pub open spec fn after_write_scroll(self, value: u8) -> Self {
        if self.w == 0 {
            PPU {
                t: (self.t & 0xFFE0) | ((value as u16) >> 3),
                x: value & 0x07,
                w: 1,
                ..self
            }
        } else {
            PPU {
                t: (((self.t & 0x8FFF) | (((value as u16) & 0x07) << 12)) & 0xFC1F) | (((
                value as u16) & 0xF8) << 2),
                w: 0,
                ..self
            }
        }
    }

    /// Scroll port. The first write of a pair sets coarse x in `t` and fine
    /// x; the second sets fine y and coarse y in `t`.
    pub fn write_scroll(&mut self, value: u8)
        ensures
            *final(self) == old(self).after_write_scroll(value),
            old(self).wf() ==> final(self).wf(),
    {
        proof {
            lemma_flag_widths(value);
            if self.t < 0x8000 {
                lemma_scroll_keeps_15_bits(self.t, value);
            }
        }
        if self.w == 0 {
            // t: ........ ...HGFED = d: HGFED...
            // x:               CBA = d: .....CBA
            self.t = (self.t & 0xFFE0) | ((value as u16) >> 3);
            self.x = value & 0x07;
            self.w = 1;
        } else {
            // t: .CBA..HG FED..... = d: HGFEDCBA
            self.t = (self.t & 0x8FFF) | (((value as u16) & 0x07) << 12);
            self.t = (self.t & 0xFC1F) | (((value as u16) & 0xF8) << 2);
            self.w = 0;
        }
    }

    // ---------------------------------------------------------------
    // address port

    /// The state after a write to the address port.
    pub open spec fn after_write_addr(self, value: u8) -> Self {
        if self.w == 0 {
            PPU { t: (self.t & 0x80FF) | (((value as u16) & 0x3F) << 8), w: 1, ..self }
        } else {
            PPU {
                t: (self.t & 0xFF00) | (value as u16),
                v: (self.t & 0xFF00) | (value as u16),
                w: 0,
                ..self
            }
        }
    }

    /// Address port. The first write of a pair sets the high six bits of `t`
    /// and clears bit 14; the second sets the low byte and copies `t` to `v`.
    pub fn write_addr(&mut self, value: u8)
        ensures
            *final(self) == old(self).after_write_addr(value),
            old(self).wf() ==> final(self).wf(),
    {
        proof {
            if self.t < 0x8000 {
                lemma_addr_keeps_15_bits(self.t, value);
            }
        }
        if self.w == 0 {
            // t: ..FEDCBA ........ = d: ..FEDCBA
            // t: .X...... ........ = 0
            self.t = (self.t & 0x80FF) | (((value as u16) & 0x3F) << 8);
            self.w = 1;
        } else {
            // t: ........ HGFEDCBA = d: HGFEDCBA
            // v                    = t
            self.t = (self.t & 0xFF00) | (value as u16);
            self.v = self.t;
            self.w = 0;
        }
    }

    // ---------------------------------------------------------------
    // data port

    /// Whether `v` addresses the palette, which the data port reads
    /// unbuffered.
    pub open spec fn data_in_palette(self) -> bool {
        self.v % 0x4000 >= 0x3F00
    }

    /// The byte that a read of the data port returns: the read buffer, or
    /// for a palette address the palette entry itself.
    pub open spec fn data_value(self) -> u8 {
        if self.data_in_palette() {
            self.vram_value(self.v)
        } else {
            self.buffer_data
        }
    }

    /// The state after a read of the data port: the buffer takes the byte
    /// at `v`, or for a palette address the name-table byte `0x1000` below,
    /// and `v` moves on.
    pub open spec fn after_read_data(self) -> Self {
        let primed = if self.data_in_palette() {
            PPU { buffer_data: self.vram_value((self.v - 0x1000) as u16), ..self }
        } else {
            PPU { buffer_data: self.vram_value(self.v), ..self.after_vram_read(self.v) }
        };
        PPU { v: spec_next_address(self.v, self.flag_increment), ..primed }
    }

    /// Data port, read: buffered, except for the palette.
    #[verifier::rlimit(50)]
    pub fn read_data(&mut self) -> (value: u8)
        ensures
            value == old(self).data_value(),
            *final(self) == old(self).after_read_data(),
            old(self).wf() ==> final(self).wf(),
    {
        let addr: u16 = self.v;
        let mut value: u8 = self.read_vram(addr);
        if addr % 0x4000 < 0x3F00 {
            let buffered: u8 = self.buffer_data;
            self.buffer_data = value;
            value = buffered;
        } else {
            self.buffer_data = self.read_vram(addr - 0x1000);
        }
        self.v = next_address(addr, self.flag_increment);
        value
    }

    /// The state after a write to the data port.
    pub open spec fn after_write_data(self, value: u8) -> Self {
        PPU {
            v: spec_next_address(self.v, self.flag_increment),
            ..self.after_vram_write(self.v, value)
        }
    }

    /// Data port write: straight through to the address in `v`, then `v`
    /// moves on.
    pub fn write_data(&mut self, value: u8)
        ensures
            *final(self) == old(self).after_write_data(value),
            old(self).wf() ==> final(self).wf(),
    {
        let addr: u16 = self.v;
        self.write_vram(addr, value);
        self.v = next_address(addr, self.flag_increment);
    }

    // ---------------------------------------------------------------
    // sprite DMA port

    /// The state after a write to the DMA port.
    pub open spec fn after_write_dma(self, value: u8) -> Self {
        PPU { dma_page: Some(value), ..self }
    }

    /// DMA port: records the page to copy. The bus that owns the source
    /// memory carries the copy out (see `take_dma`).
    pub fn write_dma(&mut self, value: u8)
        ensures
            *final(self) == old(self).after_write_dma(value),
            old(self).wf() ==> final(self).wf(),
    {
        self.dma_page = Some(value);
    }

    /// Hands over the page of a pending DMA request, once.
    pub fn take_dma(&mut self) -> (page: Option<u8>)
        ensures
            page == old(self).dma_page,
            *final(self) == (PPU { dma_page: None, ..*old(self) }),
            old(self).wf() ==> final(self).wf(),
    {
        let page = self.dma_page;
        self.dma_page = None;
        page
    }

    // ---------------------------------------------------------------
    // port dispatch

    /// The byte that a read of port `addr` returns. Ports that cannot be
    /// read return zero.
    pub open spec fn register_value(self, addr: u16) -> u8 {
        if addr == 0x2002 {
            self.status_value()
        } else if addr == 0x2004 {
            self.oam_value()
        } else if addr == 0x2007 {
            self.data_value()
        } else {
            0
        }
    }

    /// The state after a read of port `addr`: only the status and data ports
    /// change anything.
    pub open spec fn after_read_register(self, addr: u16) -> Self {
        if addr == 0x2002 {
            self.after_read_status()
        } else if addr == 0x2007 {
            self.after_read_data()
        } else {
            self
        }
    }

    /// Reads port `addr`.
    #[verifier::rlimit(50)]
    pub fn read_register(&mut self, addr: u16) -> (value: u8)
        ensures
            value == old(self).register_value(addr),
            *final(self) == old(self).after_read_register(addr),
            old(self).wf() ==> final(self).wf(),
    {
        match addr {
            0x2002 => self.read_status(),
            0x2004 => self.read_oam_data(),
            0x2007 => self.read_data(),
            _ => 0,
        }
    }

    /// The state after a write to port `addr`: the byte is latched, then the
    /// port acts on it. A write to any other address only latches.
    pub open spec fn after_write_register(self, addr: u16, value: u8) -> Self {
        let latched = PPU { register: value, ..self };
        if addr == 0x2000 {
            latched.after_write_control(value)
        } else if addr == 0x2001 {
            latched.after_write_mask(value)
        } else if addr == 0x2003 {
            latched.after_write_oam_addr(value)
        } else if addr == 0x2004 {
            latched.after_write_oam_data(value)
        } else if addr == 0x2005 {
            latched.after_write_scroll(value)
        } else if addr == 0x2006 {
            latched.after_write_addr(value)
        } else if addr == 0x2007 {
            latched.after_write_data(value)
        } else if addr == 0x4014 {
            latched.after_write_dma(value)
        } else {
            latched
        }
    }

    /// Writes `value` to port `addr`.
    #[verifier::rlimit(50)]
    pub fn write_register(&mut self, addr: u16, value: u8)
        ensures
            *final(self) == old(self).after_write_register(addr, value),
            old(self).wf() ==> final(self).wf(),
    {
        self.register = value;
        match addr {
            0x2000 => self.write_control(value),
            0x2001 => self.write_mask(value),
            0x2003 => self.write_oam_addr(value),
            0x2004 => self.write_oam_data(value),
            0x2005 => self.write_scroll(value),
            0x2006 => self.write_addr(value),
            0x2007 => self.write_data(value),
            0x4014 => self.write_dma(value),
            _ => {},
        }
    }
}

/// The picture unit's own address space as a bus: pattern tables on the
/// cartridge, the mirrored name tables, and the palette.
impl<M: Memory> Memory for PPU<M> {
    open spec fn inv(self) -> bool {
        self.wf()
    }

    open spec fn read_value(self, addr: u16) -> u8 {
        self.vram_value(addr)
    }

    open spec fn after_read(self, addr: u16) -> Self {
        self.after_vram_read(addr)
    }

    open spec fn after_write(self, addr: u16, value: u8) -> Self {
        self.after_vram_write(addr, value)
    }

    fn read(&mut self, addr: u16) -> (value: u8) {
        self.read_vram(addr)
    }

    fn write(&mut self, addr: u16, value: u8) {
        self.write_vram(addr, value)
    }
}

impl<M: Memory + Default> Default for PPU<M> {
    /// The unit at power-on around a default cartridge, with horizontal
    /// mirroring.
    fn default() -> (ppu: Self)
        ensures
            ppu.is_power_on(ppu.memory, Mirroring::Horizontal),
            ppu.memory.inv() ==> ppu.wf(),
    {
        PPU::new(M::default(), Mirroring::Horizontal)
    }
}

/// A palette write is read back at the same address, and leaves every entry
/// that the address does not select as it was.
pub proof fn lemma_palette_write_then_read<M: Memory>(ppu: PPU<M>, addr: u16, value: u8)
    ensures
        ppu.after_write_palette(addr, value).palette_value(addr) == value,
        forall|other: u16|
            palette_index(other) != palette_index(addr) ==> #[trigger] ppu.after_write_palette(
                addr,
                value,
            ).palette_value(other) == ppu.palette_value(other),
{
}

/// The entries at 16, 20, 24 and 28 are the background slots 16 below: an
/// address that is a multiple of four, from 16 up, reads and writes the same
/// entry as the address 16 below it.
pub proof fn lemma_palette_mirror<M: Memory>(ppu: PPU<M>, addr: u16, value: u8)
    requires
        addr >= 16,
        addr % 4 == 0,
    ensures
        ppu.palette_value(addr) == ppu.palette_value((addr - 16) as u16),
        ppu.after_write_palette(addr, value) == ppu.after_write_palette(
            (addr - 16) as u16,
            value,
        ),
{
}

/// Two writes to the scroll port and then two to the address port, starting
/// with the write toggle clear, leave the toggle clear and `v` holding the
/// address bytes alone: the low six bits of the first in bits 8 to 13, the
/// second in bits 0 to 7, bit 14 zero. Fine x keeps the low three bits of the
/// first scroll byte.
#[verifier::rlimit(50)]
pub proof fn lemma_scroll_then_address<M: Memory>(ppu: PPU<M>, a: u8, b: u8, c: u8, d: u8)
    requires
        ppu.wf(),
        ppu.w == 0,
    ensures
        ({
            let end = ppu.after_write_register(0x2005, a).after_write_register(
                0x2005,
                b,
            ).after_write_register(0x2006, c).after_write_register(0x2006, d);
            &&& end.w == 0
            &&& end.v == (c % 64) * 256 + d
            &&& end.t == end.v
            &&& end.x == a & 7
        }),
{
    lemma_scroll_then_addr(ppu.t, a, b, c, d);
}

/// A read of the status port clears the vertical-blank flag and the write
/// toggle in every state, and touches no memory.
pub proof fn lemma_status_read_clears<M: Memory>(ppu: PPU<M>)
    ensures
        !ppu.after_read_register(0x2002).nmi_occurred,
        ppu.after_read_register(0x2002).w == 0,
        ppu.after_read_register(0x2002).v == ppu.v,
        ppu.after_read_register(0x2002).memory == ppu.memory,
{
}

/// How each mode folds the four name tables onto the unit's two: entry
/// `offset` of the tables at `0x2000`, `0x2400`, `0x2800` and `0x2C00` lies
/// in the first or in the second KiB.
pub proof fn lemma_mirroring(offset: u16)
    requires
        offset < 0x400,
    ensures
        name_table_index(Mirroring::Horizontal, (0x2000 + offset) as u16) == offset,
        name_table_index(Mirroring::Horizontal, (0x2400 + offset) as u16) == offset,
        name_table_index(Mirroring::Horizontal, (0x2800 + offset) as u16) == 0x400 + offset,
        name_table_index(Mirroring::Horizontal, (0x2C00 + offset) as u16) == 0x400 + offset,
        name_table_index(Mirroring::Vertical, (0x2000 + offset) as u16) == offset,
        name_table_index(Mirroring::Vertical, (0x2400 + offset) as u16) == 0x400 + offset,
        name_table_index(Mirroring::Vertical, (0x2800 + offset) as u16) == offset,
        name_table_index(Mirroring::Vertical, (0x2C00 + offset) as u16) == 0x400 + offset,
        name_table_index(Mirroring::Single0, (0x2C00 + offset) as u16) == offset,
        name_table_index(Mirroring::Single1, (0x2000 + offset) as u16) == 0x400 + offset,
        name_table_index(Mirroring::Four, (0x2000 + offset) as u16) == offset,
        name_table_index(Mirroring::Four, (0x2400 + offset) as u16) == 0x400 + offset,
        name_table_index(Mirroring::Four, (0x2800 + offset) as u16) == offset,
        name_table_index(Mirroring::Four, (0x2C00 + offset) as u16) == 0x400 + offset,
{
}

/// A write through the data port is read back through it: after the
/// address is set again, the second read returns the byte, the first having
/// returned what the buffer held. This holds of the name tables, whose
/// reads are buffered.
#[verifier::rlimit(50)]
pub proof fn lemma_data_write_then_read<M: Memory>(ppu: PPU<M>, value: u8)
    requires
        0x2000 <= ppu.v < 0x3F00,
    ensures
        ({
            let written = ppu.after_write_data(value);
            let rewound = PPU { v: ppu.v, ..written };
            &&& rewound.data_value() == ppu.buffer_data
            &&& rewound.after_read_data().buffer_data == value
            &&& PPU { v: ppu.v, ..rewound.after_read_data() }.data_value() == value
        }),
{
}

/// The control and mask fields are the binary digits of the byte written:
/// the name-table select its low two, then one digit each.
pub proof fn lemma_control_and_mask_digits<M: Memory>(ppu: PPU<M>, value: u8)
    ensures
        ({
            let control = ppu.after_write_control(value);
            &&& control.flag_name_table == value % 4
            &&& control.flag_increment == (value / 4) % 2
            &&& control.flag_sprite_table == (value / 8) % 2
            &&& control.flag_background_table == (value / 16) % 2
            &&& control.flag_sprite_size == (value / 32) % 2
            &&& control.flag_master_slave == (value / 64) % 2
            &&& control.nmi_output == (value >= 128)
        }),
        ({
            let mask = ppu.after_write_mask(value);
            &&& mask.flag_gray_scale == value % 2
            &&& mask.flag_show_left_background == (value / 2) % 2
            &&& mask.flag_show_left_sprites == (value / 4) % 2
            &&& mask.flag_show_background == (value / 8) % 2
            &&& mask.flag_show_sprites == (value / 16) % 2
            &&& mask.flag_red_tint == (value / 32) % 2
            &&& mask.flag_green_tint == (value / 64) % 2
            &&& mask.flag_blue_tint == value / 128
        }),
{
    lemma_fields_are_digits(value);
}

/// Two writes to the scroll port, starting with the write toggle clear, set
/// the scroll position: coarse and fine x from the first byte, coarse and
/// fine y from the second. The name-table select in `t` and the video
/// address `v` stay.
#[verifier::rlimit(50)]
pub proof fn lemma_scroll_position<M: Memory>(ppu: PPU<M>, a: u8, b: u8)
    requires
        ppu.wf(),
        ppu.w == 0,
    ensures
        ({
            let end = ppu.after_write_register(0x2005, a).after_write_register(0x2005, b);
            &&& end.w == 0
            &&& end.x == a % 8
            &&& end.t == (b % 8) * 4096 + ((ppu.t / 1024) % 4) * 1024 + (b / 8) * 32 + a / 8
            &&& end.v == ppu.v
        }),
{
    lemma_scroll_layout(ppu.t, a, b);
    lemma_fields_are_digits(a);
}

/// Without a rising edge of the interrupt line nothing starts the countdown,
/// and while the countdown stands at zero no step of it delivers an
/// interrupt.
pub proof fn lemma_no_edge_no_interrupt<M: Memory>(ppu: PPU<M>)
    requires
        ppu.nmi_delay == 0,
    ensures
        !ppu.nmi_fires(),
        ppu.after_nmi_countdown() == ppu,
        !(ppu.nmi_line() && !ppu.nmi_previous) ==> ppu.after_nmi_change().nmi_delay == 0,
        ppu.nmi_line() && !ppu.nmi_previous ==> ppu.after_nmi_change().nmi_delay == NMI_DELAY,
{
}

} // verus!
