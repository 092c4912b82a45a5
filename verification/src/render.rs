//! The rendering pipeline of the picture unit: the dot counter, the
//! background fetches and shift register, sprite selection for the next
//! line, the composition of one pixel, and the step that ties them together.

use vstd::prelude::*;
use vstd::array::spec_array_update;
use crate::bits::{lemma_nibble, lemma_pattern_bits};
use crate::memory::Memory;
use crate::palette::{spec_system_color, system_color};
use crate::ppu::PPU;
use crate::scroll::{
    attribute_address, attribute_bits, copy_x, copy_y, fine_y, increment_x, increment_y,
    name_table_address, pattern_address, pattern_row, spec_attribute_address,
    spec_attribute_bits, spec_copy_x, spec_copy_y, spec_fine_y, spec_increment_x,
    spec_increment_y, spec_name_table_address, spec_pattern_address, spec_pattern_row,
};

verus! {

impl<M: Memory> PPU<M> {
    // ---------------------------------------------------------------
    // where the beam is

    /// Whether the background or the sprites are shown.
    pub open spec fn rendering_enabled(self) -> bool {
        self.flag_show_background != 0 || self.flag_show_sprites != 0
    }

    /// Whether the beam is on one of the 240 lines of the picture.
    pub open spec fn on_visible_line(self) -> bool {
        self.scanline < 240
    }

    /// Whether the beam is on the line before the picture.
    pub open spec fn on_pre_line(self) -> bool {
        self.scanline == 261
    }

    /// Whether the beam is on a line on which the pipeline fetches.
    pub open spec fn on_render_line(self) -> bool {
        self.on_visible_line() || self.on_pre_line()
    }

    /// Whether the beam is on one of the 256 dots of a line of the picture.
    pub open spec fn in_visible_cycle(self) -> bool {
        1 <= self.cycle <= 256
    }

    /// Whether the beam is on a dot on which the background is fetched: the
    /// dots of the picture, and the sixteen that fetch ahead for the next line.
    pub open spec fn in_fetch_cycle(self) -> bool {
        self.in_visible_cycle() || 321 <= self.cycle <= 336
    }

    /// Whether this dot puts a pixel on the frame.
    pub open spec fn draws(self) -> bool {
        self.rendering_enabled() && self.on_visible_line() && self.in_visible_cycle()
    }

    /// Whether this dot is the first of vertical blank.
    pub open spec fn enters_vblank(self) -> bool {
        self.scanline == 241 && self.cycle == 1
    }

    /// Whether `other` stands at the same dot of the same frame, with the
    /// same two frames.
    pub open spec fn same_dot(self, other: Self) -> bool {
        &&& other.cycle == self.cycle
        &&& other.scanline == self.scanline
        &&& other.frame == self.frame
        &&& other.front == self.front
        &&& other.back == self.back
        &&& other.flag_show_background == self.flag_show_background
        &&& other.flag_show_sprites == self.flag_show_sprites
    }

    // ---------------------------------------------------------------
    // the dot counter

    /// One dot on: 341 dots to a line, 262 lines to a frame. The end of the
    /// last line advances the frame count and flips the frame parity.
    pub open spec fn after_tick(self) -> Self {
        if self.cycle < 340 {
            PPU { cycle: (self.cycle + 1) as u16, ..self }
        } else if self.scanline < 261 {
            PPU { cycle: 0, scanline: (self.scanline + 1) as u16, ..self }
        } else {
            PPU {
                cycle: 0,
                scanline: 0,
                frame: if self.frame == u64::MAX {
                    0
                } else {
                    (self.frame + 1) as u64
                },
                f: if self.f == 0 {
                    1
                } else {
                    0
                },
                ..self
            }
        }
    }

    /// Moves the dot counter one dot on.
    pub fn tick(&mut self)
        ensures
            *final(self) == old(self).after_tick(),
            final(self).cycle <= 340,
            old(self).wf() ==> final(self).wf(),
    {
        if self.cycle < 340 {
            self.cycle = self.cycle + 1;
        } else if self.scanline < 261 {
            self.cycle = 0;
            self.scanline = self.scanline + 1;
        } else {
            self.cycle = 0;
            self.scanline = 0;
            self.frame = if self.frame == u64::MAX {
                0
            } else {
                self.frame + 1
            };
            self.f = if self.f == 0 {
                1
            } else {
                0
            };
        }
    }

    // ---------------------------------------------------------------
    // background fetches

    /// The state after the tile number under `v` is fetched.
    pub open spec fn after_fetch_name_table_byte(self) -> Self {
        PPU { name_table_byte: self.vram_value(spec_name_table_address(self.v)), ..self }
    }

    /// Fetches the tile number under `v`.
    pub fn fetch_name_table_byte(&mut self)
        ensures
            *final(self) == old(self).after_fetch_name_table_byte(),
            old(self).wf() ==> final(self).wf(),
    {
        let address: u16 = name_table_address(self.v);
        self.name_table_byte = self.read_vram(address);
    }

    /// The state after the palette bits of the tile under `v` are fetched.
    pub open spec fn after_fetch_attribute_table_byte(self) -> Self {
        PPU {
            attribute_table_byte: spec_attribute_bits(
                self.v,
                self.vram_value(spec_attribute_address(self.v)),
            ),
            ..self
        }
    }

    /// Fetches the palette bits of the tile under `v`.
    pub fn fetch_attribute_table_byte(&mut self)
        ensures
            *final(self) == old(self).after_fetch_attribute_table_byte(),
            old(self).wf() ==> final(self).wf(),
    {
        let v: u16 = self.v;
        let address: u16 = attribute_address(v);
        let attribute: u8 = self.read_vram(address);
        self.attribute_table_byte = attribute_bits(v, attribute);
    }

    /// Address of the low plane of the row that the background fetches next.
    pub open spec fn background_pattern_address(self) -> u16 {
        spec_pattern_address(self.flag_background_table, self.name_table_byte, spec_fine_y(self.v))
    }

    /// The state after the low plane of the row is fetched.
    pub open spec fn after_fetch_low_tile_byte(self) -> Self {
        let address = self.background_pattern_address();
        PPU { low_tile_byte: self.vram_value(address), ..self.after_vram_read(address) }
    }

    /// Fetches the low plane of the row.
    pub fn fetch_low_tile_byte(&mut self)
        ensures
            *final(self) == old(self).after_fetch_low_tile_byte(),
            old(self).wf() ==> final(self).wf(),
    {
        let address: u16 = pattern_address(
            self.flag_background_table,
            self.name_table_byte,
            fine_y(self.v),
        );
        self.low_tile_byte = self.read_vram(address);
    }

    /// The state after the high plane of the row is fetched.
    pub open spec fn after_fetch_high_tile_byte(self) -> Self {
        let address = (self.background_pattern_address() + 8) as u16;
        PPU { high_tile_byte: self.vram_value(address), ..self.after_vram_read(address) }
    }

    /// Fetches the high plane of the row.
    pub fn fetch_high_tile_byte(&mut self)
        ensures
            *final(self) == old(self).after_fetch_high_tile_byte(),
            old(self).wf() ==> final(self).wf(),
    {
        let address: u16 = pattern_address(
            self.flag_background_table,
            self.name_table_byte,
            fine_y(self.v),
        );
        self.high_tile_byte = self.read_vram(address + 8);
    }

    /// The fetched row enters the low half of the shift register.
    pub open spec fn after_store_tile_data(self) -> Self {
        PPU {
            tile_data: self.tile_data | (spec_pattern_row(
                self.attribute_table_byte,
                self.low_tile_byte,
                self.high_tile_byte,
                false,
                8,
            ) as u64),
            ..self
        }
    }

    /// Moves the fetched row into the shift register.
    pub fn store_tile_data(&mut self)
        ensures
            *final(self) == old(self).after_store_tile_data(),
            old(self).wf() ==> final(self).wf(),
    {
        let data: u32 = pattern_row(
            self.attribute_table_byte,
            self.low_tile_byte,
            self.high_tile_byte,
            false,
        );
        self.tile_data = self.tile_data | (data as u64);
    }

    /// The background's part of one dot: on a fetch dot of a render line the
    /// shift register moves one pixel on, and the dot's place within its
    /// group of eight selects the fetch.
    pub open spec fn after_fetch_background(self) -> Self {
        if self.rendering_enabled() && self.on_render_line() && self.in_fetch_cycle() {
            let shifted = PPU { tile_data: self.tile_data << 4, ..self };
            let phase = self.cycle % 8;
            if phase == 1 {
                shifted.after_fetch_name_table_byte()
            } else if phase == 3 {
                shifted.after_fetch_attribute_table_byte()
            } else if phase == 5 {
                shifted.after_fetch_low_tile_byte()
            } else if phase == 7 {
                shifted.after_fetch_high_tile_byte()
            } else if phase == 0 {
                shifted.after_store_tile_data()
            } else {
                shifted
            }
        } else {
            self
        }
    }

    /// The background's part of one dot.
    pub fn fetch_background(&mut self)
        ensures
            *final(self) == old(self).after_fetch_background(),
            old(self).same_dot(*final(self)),
            old(self).wf() ==> final(self).wf(),
    {
        let rendering = self.flag_show_background != 0 || self.flag_show_sprites != 0;
        let render_line = self.scanline < 240 || self.scanline == 261;
        let fetch_cycle = (1 <= self.cycle && self.cycle <= 256) || (321 <= self.cycle
            && self.cycle <= 336);
        if rendering && render_line && fetch_cycle {
            self.tile_data = self.tile_data << 4;
            let phase: u16 = self.cycle % 8;
            if phase == 1 {
                self.fetch_name_table_byte();
            } else if phase == 3 {
                self.fetch_attribute_table_byte();
            } else if phase == 5 {
                self.fetch_low_tile_byte();
            } else if phase == 7 {
                self.fetch_high_tile_byte();
            } else if phase == 0 {
                self.store_tile_data();
            }
        }
    }

    /// The video address's part of one dot: the vertical bits are reloaded
    /// during dots 280 to 304 of the pre-render line; on render lines coarse
    /// x steps after each fetched tile, fine y steps at dot 256, and the
    /// horizontal bits are reloaded at dot 257.
    pub open spec fn after_scroll_step(self) -> Self {
        if !self.rendering_enabled() {
            self
        } else {
            let a = if self.on_pre_line() && 280 <= self.cycle <= 304 {
                PPU { v: spec_copy_y(self.v, self.t), ..self }
            } else {
                self
            };
            if !self.on_render_line() {
                a
            } else {
                let b = if self.in_fetch_cycle() && self.cycle % 8 == 0 {
                    PPU { v: spec_increment_x(a.v), ..a }
                } else {
                    a
                };
                let c = if self.cycle == 256 {
                    PPU { v: spec_increment_y(b.v), ..b }
                } else {
                    b
                };
                if self.cycle == 257 {
                    PPU { v: spec_copy_x(c.v, c.t), ..c }
                } else {
                    c
                }
            }
        }
    }

    /// The video address's part of one dot.
    pub fn scroll_step(&mut self)
        ensures
            *final(self) == old(self).after_scroll_step(),
            old(self).same_dot(*final(self)),
            old(self).wf() ==> final(self).wf(),
    {
        let rendering = self.flag_show_background != 0 || self.flag_show_sprites != 0;
        let pre_line = self.scanline == 261;
        let render_line = self.scanline < 240 || pre_line;
        let fetch_cycle = (1 <= self.cycle && self.cycle <= 256) || (321 <= self.cycle
            && self.cycle <= 336);
        if rendering {
            if pre_line && 280 <= self.cycle && self.cycle <= 304 {
                self.v = copy_y(self.v, self.t);
            }
            if render_line {
                if fetch_cycle && self.cycle % 8 == 0 {
                    self.v = increment_x(self.v);
                }
                if self.cycle == 256 {
                    self.v = increment_y(self.v);
                }
                if self.cycle == 257 {
                    self.v = copy_x(self.v, self.t);
                }
            }
        }
    }

    // ---------------------------------------------------------------
    // sprite selection

    /// Height of a sprite in lines.
    pub open spec fn sprite_height(self) -> int {
        if self.flag_sprite_size == 0 {
            8
        } else {
            16
        }
    }

    /// Row of sprite `i` that the current line crosses, if it is within the
    /// sprite.
    pub open spec fn sprite_row(self, i: int) -> int {
        self.scanline - self.oam_data[i * 4]
    }

    /// Whether sprite `i` (0 to 63) lies on the current line.
    pub open spec fn sprite_on_line(self, i: int) -> bool {
        0 <= self.sprite_row(i) < self.sprite_height()
    }

    /// How many of the first `n` sprites lie on the current line.
    pub open spec fn sprites_on_line(self, n: nat) -> nat
        decreases n,
    {
        if n == 0 {
            0
        } else {
            self.sprites_on_line((n - 1) as nat) + if self.sprite_on_line(n - 1) {
                1nat
            } else {
                0nat
            }
        }
    }

    /// Address of the low plane of row `row` of sprite `i`. A set bit 7 of
    /// the attribute byte turns the sprite upside down. A tall sprite takes
    /// its pattern table from bit 0 of its tile number and spans two tiles.
    pub open spec fn sprite_pattern_address(self, i: int, row: int) -> u16 {
        let tile = self.oam_data[i * 4 + 1];
        let attributes = self.oam_data[i * 4 + 2];
        let upside_down = attributes & 0x80 == 0x80;
        if self.flag_sprite_size == 0 {
            let r = if upside_down {
                7 - row
            } else {
                row
            };
            spec_pattern_address(self.flag_sprite_table, tile, r as u16)
        } else {
            let r = if upside_down {
                15 - row
            } else {
                row
            };
            if r > 7 {
                spec_pattern_address(tile & 1, ((tile & 0xFE) + 1) as u8, (r - 8) as u16)
            } else {
                spec_pattern_address(tile & 1, tile & 0xFE, r as u16)
            }
        }
    }

    /// The eight pixels of row `row` of sprite `i`: palette bits from the low
    /// two bits of the attribute byte, mirrored when its bit 6 is set.
    pub open spec fn sprite_pattern_value(self, i: int, row: int) -> u32 {
        let address = self.sprite_pattern_address(i, row);
        let attributes = self.oam_data[i * 4 + 2];
        spec_pattern_row(
            (attributes & 3) << 2,
            self.vram_value(address),
            self.after_vram_read(address).vram_value((address + 8) as u16),
            attributes & 0x40 == 0x40,
            8,
        )
    }

    /// The state after the two pattern reads of a sprite row.
    pub open spec fn after_fetch_sprite_pattern(self, i: int, row: int) -> Self {
        let address = self.sprite_pattern_address(i, row);
        self.after_vram_read(address).after_vram_read((address + 8) as u16)
    }

    /// Fetches the eight pixels of row `row` of sprite `i`.
    pub fn fetch_sprite_pattern(&mut self, i: u8, row: u8) -> (data: u32)
        requires
            i < 64,
            row < old(self).sprite_height(),
        ensures
            data == old(self).sprite_pattern_value(i as int, row as int),
            *final(self) == old(self).after_fetch_sprite_pattern(i as int, row as int),
            old(self).wf() ==> final(self).wf(),
    {
        let tile: u8 = self.oam_data[(i as usize) * 4 + 1];
        let attributes: u8 = self.oam_data[(i as usize) * 4 + 2];
        let upside_down = attributes & 0x80 == 0x80;
        proof {
            lemma_pattern_bits(tile, 0, 0, 0, 0);
            lemma_pattern_bits(attributes, 0, 0, 0, 0);
        }
        let address: u16 = if self.flag_sprite_size == 0 {
            let r: u8 = if upside_down {
                7 - row
            } else {
                row
            };
            pattern_address(self.flag_sprite_table, tile, r as u16)
        } else {
            let r: u8 = if upside_down {
                15 - row
            } else {
                row
            };
            if r > 7 {
                pattern_address(tile & 1, (tile & 0xFE) + 1, (r - 8) as u16)
            } else {
                pattern_address(tile & 1, tile & 0xFE, r as u16)
            }
        };
        let low: u8 = self.read_vram(address);
        let high: u8 = self.read_vram(address + 8);
        pattern_row((attributes & 3) << 2, low, high, attributes & 0x40 == 0x40)
    }

    /// Sprite `i`, crossed at row `row`, enters slot `slot`.
    pub open spec fn after_load_sprite(self, slot: int, i: int, row: int) -> Self {
        PPU {
            sprite_patterns: spec_array_update(
                self.sprite_patterns,
                slot,
                self.sprite_pattern_value(i, row),
            ),
            sprite_positions: spec_array_update(
                self.sprite_positions,
                slot,
                self.oam_data[i * 4 + 3],
            ),
            sprite_priorities: spec_array_update(
                self.sprite_priorities,
                slot,
                (self.oam_data[i * 4 + 2] >> 5) & 1,
            ),
            sprite_indexes: spec_array_update(self.sprite_indexes, slot, i as u8),
            ..self.after_fetch_sprite_pattern(i, row)
        }
    }

    /// Puts sprite `i`, crossed at row `row`, into slot `slot`.
    pub fn load_sprite(&mut self, slot: u8, i: u8, row: u8)
        requires
            slot < 8,
            i < 64,
            row < old(self).sprite_height(),
        ensures
            *final(self) == old(self).after_load_sprite(slot as int, i as int, row as int),
            old(self).wf() ==> final(self).wf(),
    {
        let attributes: u8 = self.oam_data[(i as usize) * 4 + 2];
        let position: u8 = self.oam_data[(i as usize) * 4 + 3];
        let pattern: u32 = self.fetch_sprite_pattern(i, row);
        self.sprite_patterns[slot as usize] = pattern;
        self.sprite_positions[slot as usize] = position;
        self.sprite_priorities[slot as usize] = (attributes >> 5) & 1;
        self.sprite_indexes[slot as usize] = i;
    }

    /// The state after the first `n` sprites are looked at: each that lies
    /// on the current line enters the next free slot while one of the eight
    /// is free.
    pub open spec fn after_sprite_scan(self, n: nat) -> Self
        decreases n,
    {
        if n == 0 {
            self
        } else {
            let scanned = self.after_sprite_scan((n - 1) as nat);
            let found = self.sprites_on_line((n - 1) as nat);
            if self.sprite_on_line(n - 1) && found < 8 {
                scanned.after_load_sprite(found as int, n - 1, self.sprite_row(n - 1))
            } else {
                scanned
            }
        }
    }

    /// Sprite selection for the current line: the first eight sprites on it
    /// fill the slots in their order in sprite memory, and a ninth raises the
    /// overflow flag.
    pub open spec fn after_evaluate_sprites(self) -> Self {
        let found = self.sprites_on_line(64);
        let scanned = self.after_sprite_scan(64);
        PPU {
            sprite_count: if found > 8 {
                8
            } else {
                found as u8
            },
            flag_sprite_overflow: if found > 8 {
                1
            } else {
                scanned.flag_sprite_overflow
            },
            ..scanned
        }
    }

    /// Whether the first `count` slots hold the first `count` sprites that
    /// lay on the line when the selection began in state `before`, in their
    /// order in sprite memory: the sprite in slot `k` lay on the line,
    /// exactly `k` sprites on the line came before it, and the slot holds its
    /// column and its priority bit.
    pub open spec fn slots_in_order(self, before: Self, count: int) -> bool {
        forall|k: int|
            0 <= k < count ==> {
                let i = #[trigger] self.sprite_indexes[k] as int;
                &&& 0 <= i < 64
                &&& before.sprite_on_line(i)
                &&& before.sprites_on_line(i as nat) == k
                &&& self.sprite_positions[k] == before.oam_data[i * 4 + 3]
                &&& self.sprite_priorities[k] == (before.oam_data[i * 4 + 2] >> 5) & 1
            }
    }

    /// What a sprite scan leaves as it was: everything but the slots and the
    /// cartridge.
    pub open spec fn same_but_slots(self, other: Self) -> bool {
        other == (PPU {
            memory: other.memory,
            sprite_patterns: other.sprite_patterns,
            sprite_positions: other.sprite_positions,
            sprite_priorities: other.sprite_priorities,
            sprite_indexes: other.sprite_indexes,
            ..self
        })
    }

    /// Selects the sprites of the current line.
    #[verifier::rlimit(50)]
    pub fn evaluate_sprites(&mut self)
        ensures
            *final(self) == old(self).after_evaluate_sprites(),
            final(self).sprite_count <= 8,
            final(self).sprite_count == if old(self).sprites_on_line(64) > 8 {
                8
            } else {
                old(self).sprites_on_line(64)
            },
            final(self).slots_in_order(*old(self), final(self).sprite_count as int),
            final(self).flag_sprite_overflow == if old(self).sprites_on_line(64) > 8 {
                1
            } else {
                old(self).flag_sprite_overflow
            },
            old(self).same_but_slots(
                PPU {
                    sprite_count: old(self).sprite_count,
                    flag_sprite_overflow: old(self).flag_sprite_overflow,
                    ..*final(self)
                },
            ),
            old(self).wf() ==> final(self).wf(),
    {
        let height: u16 = if self.flag_sprite_size == 0 {
            8
        } else {
            16
        };
        let mut count: u8 = 0;
        let mut i: u8 = 0;
        while i < 64
            invariant
                i <= 64,
                count <= i,
                height == old(self).sprite_height(),
                count == old(self).sprites_on_line(i as nat),
                *self == old(self).after_sprite_scan(i as nat),
                old(self).same_but_slots(*self),
                self.slots_in_order(*old(self), if count < 8 { count as int } else { 8 }),
                forall|k: int| 0 <= k < count && k < 8 ==> self.sprite_indexes[k] < i,
                old(self).wf() ==> self.wf(),
            decreases 64 - i,
        {
            let y: u8 = self.oam_data[(i as usize) * 4];
            if self.scanline >= y as u16 && self.scanline - (y as u16) < height {
                let row: u8 = (self.scanline - (y as u16)) as u8;
                if count < 8 {
                    self.load_sprite(count, i, row);
                }
                count = count + 1;
            }
            i = i + 1;
        }
        if count > 8 {
            count = 8;
            self.flag_sprite_overflow = 1;
        }
        self.sprite_count = count;
    }

    /// The sprites' part of one dot: at dot 257 the sprites of the line are
    /// selected, or on a line that is not visible the slots are emptied.
    pub open spec fn after_sprite_step(self) -> Self {
        if self.rendering_enabled() && self.cycle == 257 {
            if self.on_visible_line() {
                self.after_evaluate_sprites()
            } else {
                PPU { sprite_count: 0, ..self }
            }
        } else {
            self
        }
    }

    /// The sprites' part of one dot.
    pub fn sprite_step(&mut self)
        ensures
            *final(self) == old(self).after_sprite_step(),
            old(self).same_dot(*final(self)),
            old(self).wf() ==> final(self).wf(),
    {
        let rendering = self.flag_show_background != 0 || self.flag_show_sprites != 0;
        if rendering && self.cycle == 257 {
            if self.scanline < 240 {
                self.evaluate_sprites();
            } else {
                self.sprite_count = 0;
            }
        }
    }

    // ---------------------------------------------------------------
    // one pixel

    /// The background's colour at this dot, four bits: the pixel that fine x
    /// selects from the high half of the shift register, or zero when the
    /// background is off.
    pub open spec fn background_pixel_value(self) -> u8 {
        if self.flag_show_background == 0 {
            0
        } else {
            (((self.tile_data >> 32) >> (((7 - self.x % 8) * 4) as u64)) & 0x0F) as u8
        }
    }

    /// The background's colour at this dot.
    pub fn background_pixel(&self) -> (color: u8)
        ensures
            color == self.background_pixel_value(),
            color <= 15,
    {
        if self.flag_show_background == 0 {
            0
        } else {
            let shift: u8 = (7 - self.x % 8) * 4;
            proof {
                lemma_nibble(self.tile_data, 0, shift);
            }
            (((self.tile_data >> 32) >> (shift as u64)) & 0x0F) as u8
        }
    }

    /// The colour that slot `i` shows at this dot, four bits, or zero where
    /// the sprite does not reach.
    pub open spec fn sprite_color(self, i: int) -> u8 {
        let offset = (self.cycle - 1) - self.sprite_positions[i];
        if 0 <= offset <= 7 {
            ((self.sprite_patterns[i] >> (((7 - offset) * 4) as u32)) & 0x0F) as u8
        } else {
            0
        }
    }

    /// Slot and colour of the first slot from `i` on that shows an opaque
    /// pixel at this dot; `(0, 0)` if none does.
    pub open spec fn sprite_pixel_from(self, i: int) -> (u8, u8)
        decreases 8 - i,
    {
        if i < 0 || i >= 8 || i >= self.sprite_count {
            (0, 0)
        } else if self.sprite_color(i) % 4 != 0 {
            (i as u8, self.sprite_color(i))
        } else {
            self.sprite_pixel_from(i + 1)
        }
    }

    /// Slot and colour of the sprite pixel at this dot; `(0, 0)` when the
    /// sprites are off or none is opaque here.
    pub open spec fn sprite_pixel_value(self) -> (u8, u8) {
        if self.flag_show_sprites == 0 {
            (0, 0)
        } else {
            self.sprite_pixel_from(0)
        }
    }

    /// Slot and colour of the sprite pixel at this dot.
    pub fn sprite_pixel(&self) -> (found: (u8, u8))
        ensures
            found == self.sprite_pixel_value(),
            found.0 < 8,
            found.1 <= 15,
    {
        if self.flag_show_sprites == 0 {
            return (0, 0);
        }
        let mut i: u8 = 0;
        while i < 8 && i < self.sprite_count
            invariant
                i <= 8,
                self.flag_show_sprites != 0,
                self.sprite_pixel_from(0) == self.sprite_pixel_from(i as int),
            decreases 8 - i,
        {
            let position: u16 = self.sprite_positions[i as usize] as u16;
            if self.cycle >= 1 && self.cycle - 1 >= position && self.cycle - 1 - position <= 7 {
                let offset: u16 = self.cycle - 1 - position;
                let shift: u32 = ((7 - offset) * 4) as u32;
                proof {
                    lemma_nibble(0, self.sprite_patterns[i as int], shift as u8);
                }
                let color: u8 = ((self.sprite_patterns[i as usize] >> shift) & 0x0F) as u8;
                if color % 4 != 0 {
                    return (i, color);
                }
            }
            i = i + 1;
        }
        (0, 0)
    }

    /// The background's colour once the left-column mask is applied.
    pub open spec fn shown_background(self) -> u8 {
        if self.cycle - 1 < 8 && self.flag_show_left_background == 0 {
            0
        } else {
            self.background_pixel_value()
        }
    }

    /// The sprite colour once the left-column mask is applied.
    pub open spec fn shown_sprite(self) -> u8 {
        if self.cycle - 1 < 8 && self.flag_show_left_sprites == 0 {
            0
        } else {
            self.sprite_pixel_value().1
        }
    }

    /// Index into the palette table of the pixel at this dot. Where only one
    /// of background and sprite is opaque it shows; where both are, the
    /// sprite's priority bit decides; where neither is, entry 0 shows.
    pub open spec fn pixel_palette_entry(self) -> u8 {
        let background = self.shown_background();
        let sprite = self.shown_sprite();
        let slot = self.sprite_pixel_value().0;
        if background % 4 == 0 && sprite % 4 == 0 {
            0
        } else if background % 4 == 0 {
            sprite | 0x10
        } else if sprite % 4 == 0 {
            background
        } else if self.sprite_priorities[slot as int] == 0 {
            sprite | 0x10
        } else {
            background
        }
    }

    /// Whether the pixel at this dot is an opaque pixel of sprite 0 over an
    /// opaque background pixel, left of the last column.
    pub open spec fn hits_sprite_zero(self) -> bool {
        &&& self.shown_background() % 4 != 0
        &&& self.shown_sprite() % 4 != 0
        &&& self.sprite_indexes[self.sprite_pixel_value().0 as int] == 0
        &&& self.cycle - 1 < 255
    }

    /// Place in the frame, row by row, of the pixel at this dot.
    pub open spec fn pixel_position(self) -> int {
        self.scanline * 256 + (self.cycle - 1)
    }

    /// Colour of the pixel at this dot.
    pub open spec fn pixel_color(self) -> [u8; 4] {
        spec_system_color(self.palette_value(self.pixel_palette_entry() as u16))
    }

    /// What drawing a pixel changes besides the frame.
    pub open spec fn after_pixel_flags(self) -> Self {
        PPU {
            flag_sprite_zero_hit: if self.hits_sprite_zero() {
                1
            } else {
                self.flag_sprite_zero_hit
            },
            ..self
        }
    }

    /// Draws the pixel at this dot on the back frame and raises the
    /// sprite-zero flag where sprite 0 meets the background.
    #[verifier::rlimit(50)]
    pub fn render_pixel(&mut self)
        requires
            1 <= old(self).cycle <= 256,
            old(self).scanline < 240,
        ensures
            final(self).back@ == old(self).back@.update(
                old(self).pixel_position(),
                old(self).pixel_color(),
            ),
            *final(self) == (PPU { back: final(self).back, ..old(self).after_pixel_flags() }),
            old(self).wf() ==> final(self).wf(),
    {
        let x: u16 = self.cycle - 1;
        let y: u16 = self.scanline;
        let mut background: u8 = self.background_pixel();
        let (slot, sprite_color) = self.sprite_pixel();
        let mut sprite: u8 = sprite_color;
        if x < 8 && self.flag_show_left_background == 0 {
            background = 0;
        }
        if x < 8 && self.flag_show_left_sprites == 0 {
            sprite = 0;
        }
        let b = background % 4 != 0;
        let s = sprite % 4 != 0;
        let entry: u8 = if !b && !s {
            0
        } else if !b && s {
            sprite | 0x10
        } else if b && !s {
            background
        } else {
            if self.sprite_indexes[slot as usize] == 0 && x < 255 {
                self.flag_sprite_zero_hit = 1;
            }
            if self.sprite_priorities[slot as usize] == 0 {
                sprite | 0x10
            } else {
                background
            }
        };
        let color = system_color(self.read_palette(entry as u16));
        self.back.set_pixel(x as u32, y as u32, color);
    }

    // ---------------------------------------------------------------
    // vertical blank

    /// Vertical blank begins: the finished frame comes to the front, and the
    /// flag is raised.
    pub open spec fn after_set_vertical_blank(self) -> Self {
        (PPU { front: self.back, back: self.front, nmi_occurred: true, ..self }).after_nmi_change()
    }

    /// Begins vertical blank.
    pub fn set_vertical_blank(&mut self)
        ensures
            *final(self) == old(self).after_set_vertical_blank(),
            old(self).wf() ==> final(self).wf(),
    {
        std::mem::swap(&mut self.front, &mut self.back);
        self.nmi_occurred = true;
        self.nmi_change();
    }

    /// Vertical blank ends: the flag is cleared and the line sampled.
    pub open spec fn after_clear_vertical_blank(self) -> Self {
        (PPU { nmi_occurred: false, ..self }).after_nmi_change()
    }

    /// Ends vertical blank.
    pub fn clear_vertical_blank(&mut self)
        ensures
            *final(self) == old(self).after_clear_vertical_blank(),
            old(self).wf() ==> final(self).wf(),
    {
        self.nmi_occurred = false;
        self.nmi_change();
    }

    /// The blanking's part of one dot: vertical blank begins at dot 1 of line
    /// 241; at dot 1 of the pre-render line it ends and the two sprite flags
    /// are cleared.
    pub open spec fn after_blanking_step(self) -> Self {
        if self.enters_vblank() {
            self.after_set_vertical_blank()
        } else if self.on_pre_line() && self.cycle == 1 {
            PPU {
                flag_sprite_zero_hit: 0,
                flag_sprite_overflow: 0,
                ..self.after_clear_vertical_blank()
            }
        } else {
            self
        }
    }

    /// Returns whether a finished frame came to the front.
    pub fn blanking_step(&mut self) -> (frame_ready: bool)
        ensures
            frame_ready == old(self).enters_vblank(),
            *final(self) == old(self).after_blanking_step(),
            final(self).cycle == old(self).cycle,
            final(self).scanline == old(self).scanline,
            final(self).frame == old(self).frame,
            !old(self).enters_vblank() ==> final(self).back == old(self).back,
            old(self).wf() ==> final(self).wf(),
    {
        if self.scanline == 241 && self.cycle == 1 {
            self.set_vertical_blank();
            true
        } else if self.scanline == 261 && self.cycle == 1 {
            self.clear_vertical_blank();
            self.flag_sprite_zero_hit = 0;
            self.flag_sprite_overflow = 0;
            false
        } else {
            false
        }
    }

    // ---------------------------------------------------------------
    // one dot

    /// What one dot does after the pixel is drawn.
    pub open spec fn after_dot(self) -> Self {
        self.after_fetch_background().after_scroll_step().after_sprite_step().after_blanking_step()
    }

    /// Whether `next` is the state one step after this one: the counter
    /// moves one dot on; if that dot is a visible one and rendering is on,
    /// its pixel is drawn on the back frame; then the fetches, the video
    /// address, the sprites and the blanking take their turn.
    #[verifier::opaque]
    pub open spec fn steps_to(self, next: Self) -> bool {
        let ticked = self.after_tick();
        if ticked.draws() {
            &&& next.back@ == ticked.back@.update(ticked.pixel_position(), ticked.pixel_color())
            &&& next == (PPU { back: next.back, ..ticked.after_pixel_flags() }).after_dot()
        } else {
            next == ticked.after_dot()
        }
    }

    /// What a step promises of the state `next` that it leaves: it is one
    /// step on, and it stands where the counter alone would stand. Opaque,
    /// as `steps_to` is: `reveal` them to unfold a step.
    #[verifier::opaque]
    pub open spec fn stepped(self, next: Self) -> bool {
        &&& self.steps_to(next)
        &&& next.cycle == self.after_tick().cycle
        &&& next.scanline == self.after_tick().scanline
        &&& next.frame == self.after_tick().frame
    }

    /// Whether the beam stands within the 262 lines of 341 dots.
    pub open spec fn on_screen(self) -> bool {
        self.cycle <= 340 && self.scanline <= 261
    }

    /// How many finished frames the step that led to this state brought to
    /// the front: one if it began vertical blank, else none.
    pub open spec fn frames_finished(self) -> nat {
        if self.enters_vblank() {
            1
        } else {
            0
        }
    }

    /// Whether `n` steps can lead from this state to `next`, `frames` of
    /// them bringing a finished frame to the front.
    pub open spec fn runs_to(self, next: Self, n: nat, frames: nat) -> bool {
        exists|trace: Seq<Self>|
            #[trigger] is_run(trace) && trace.len() == n + 1 && trace[0] == self && trace[n as int]
                == next && frames_in(trace) == frames
    }

    /// Advances the unit by exactly one dot. Returns whether a finished frame
    /// came to the front on this dot.
    #[verifier::rlimit(50)]
    pub fn step(&mut self) -> (frame_ready: bool)
        ensures
            old(self).stepped(*final(self)),
            frame_ready == final(self).enters_vblank(),
            frame_ready == old(self).after_tick().enters_vblank(),
            final(self).cycle == old(self).after_tick().cycle,
            final(self).scanline == old(self).after_tick().scanline,
            final(self).frame == old(self).after_tick().frame,
            old(self).wf() ==> final(self).wf(),
    {
        self.tick();
        let ghost ticked = *self;
        let rendering = self.flag_show_background != 0 || self.flag_show_sprites != 0;
        if rendering && self.scanline < 240 && 1 <= self.cycle && self.cycle <= 256 {
            self.render_pixel();
        }
        let ghost drawn = *self;
        self.fetch_background();
        self.scroll_step();
        self.sprite_step();
        let frame_ready = self.blanking_step();
        proof {
            reveal(PPU::steps_to);
            reveal(PPU::stepped);
            assert(*self == drawn.after_dot());
            if ticked.draws() {
                assert(self.back == drawn.back);
                assert(drawn == (PPU { back: self.back, ..ticked.after_pixel_flags() }));
            }
        }
        frame_ready
    }

    /// Advances the unit by `dots` dots. Returns how many finished frames
    /// came to the front on the way.
    #[verifier::rlimit(50)]
    pub fn run(&mut self, dots: u64) -> (frames: u64)
        ensures
            old(self).runs_to(*final(self), dots as nat, frames as nat),
            frames <= dots,
            old(self).wf() ==> final(self).wf(),
            old(self).on_screen() ==> final(self).on_screen() && dot_index(*final(self)) == (
            dot_index(*old(self)) + dots) % 89342 && final(self).frame == frames_after(
                old(self).frame,
                (dot_index(*old(self)) + dots) / 89342,
            ) && frames == vblanks_within(dot_index(*old(self)), dots as nat),
    {
        let ghost mut trace: Seq<Self> = seq![*self];
        let mut frames: u64 = 0;
        let mut done: u64 = 0;
        while done < dots
            invariant
                done <= dots,
                frames <= done,
                is_run(trace),
                trace.len() == done + 1,
                trace[0] == *old(self),
                trace[done as int] == *self,
                frames_in(trace) == frames,
                old(self).wf() ==> self.wf(),
            decreases dots - done,
        {
            let ready: bool = self.step();
            proof {
                let longer = trace.push(*self);
                assert(longer.drop_last() == trace);
                assert forall|k: int| 0 <= k < longer.len() - 1 implies (#[trigger] longer[k]).stepped(
                    longer[k + 1],
                ) by {
                    if k < trace.len() - 1 {
                        assert(trace[k].stepped(trace[k + 1]));
                    }
                }
                trace = longer;
            }
            if ready {
                frames = frames + 1;
            }
            done = done + 1;
        }
        proof {
            if old(self).on_screen() {
                lemma_trace_moves_dots(trace);
            }
        }
        frames
    }
}

/// Dots in a frame: 262 lines of 341.
pub const DOTS_PER_FRAME: u32 = 89342;

/// The dot that begins vertical blank, counted from the start of a frame.
pub const VBLANK_DOT: u32 = 82182;

/// Place of the beam within the frame, counted in dots.
pub open spec fn dot_index<M: Memory>(ppu: PPU<M>) -> int {
    ppu.scanline * 341 + ppu.cycle
}

/// The frame count `n` frames on, modulo 2^64.
pub open spec fn frames_after(frame: u64, n: int) -> u64 {
    ((frame + n) % 0x1_0000_0000_0000_0000) as u64
}

/// How many of the `n` dots after dot `dot` begin a vertical blank.
pub open spec fn vblanks_within(dot: int, n: nat) -> int {
    (dot + n - VBLANK_DOT) / (DOTS_PER_FRAME as int) - (dot - VBLANK_DOT) / (DOTS_PER_FRAME as int)
}

/// One tick moves the beam one dot on, and wraps it at the end of a frame,
/// where the frame count goes up by one.
pub proof fn lemma_tick_moves_one_dot<M: Memory>(ppu: PPU<M>)
    requires
        ppu.on_screen(),
    ensures
        ppu.after_tick().on_screen(),
        dot_index(ppu.after_tick()) == (dot_index(ppu) + 1) % (DOTS_PER_FRAME as int),
        ppu.after_tick().frame == frames_after(
            ppu.frame,
            (dot_index(ppu) + 1) / (DOTS_PER_FRAME as int),
        ),
        ppu.after_tick().enters_vblank() <==> dot_index(ppu.after_tick()) == VBLANK_DOT,
        0 <= dot_index(ppu) < DOTS_PER_FRAME,
{
}

/// Counting one dot on, in the quotient and remainder by the length of a
/// frame.
pub proof fn lemma_next_dot(a: int)
    ensures
        ((a % 89342) + 1) % 89342 == (a + 1) % 89342,
        a / 89342 + ((a % 89342) + 1) / 89342 == (a + 1) / 89342,
        (a + 1 - 82182) / 89342 - (a - 82182) / 89342 == (if (a + 1) % 89342 == 82182 {
            1int
        } else {
            0int
        }),
{
}

/// Frame counts add up.
pub proof fn lemma_frames_after_twice(frame: u64, k: int, j: int)
    ensures
        frames_after(frames_after(frame, k), j) == frames_after(frame, k + j),
{
}

/// Whether each state of `trace` is one step after the state before it.
pub open spec fn is_run<M: Memory>(trace: Seq<PPU<M>>) -> bool {
    forall|k: int| 0 <= k < trace.len() - 1 ==> (#[trigger] trace[k]).stepped(trace[k + 1])
}

/// How many of the steps of `trace` brought a finished frame to the front.
pub open spec fn frames_in<M: Memory>(trace: Seq<PPU<M>>) -> nat
    decreases trace.len(),
{
    if trace.len() <= 1 {
        0
    } else {
        frames_in(trace.drop_last()) + trace.last().frames_finished()
    }
}

/// One step moves the beam one dot on.
#[verifier::rlimit(50)]
pub proof fn lemma_step_moves_one_dot<M: Memory>(ppu: PPU<M>, next: PPU<M>)
    requires
        ppu.on_screen(),
        ppu.stepped(next),
    ensures
        next.on_screen(),
        dot_index(next) == (dot_index(ppu) + 1) % 89342,
        next.frame == frames_after(ppu.frame, (dot_index(ppu) + 1) / 89342),
        next.frames_finished() == (if dot_index(next) == 82182 {
            1nat
        } else {
            0nat
        }),
        0 <= dot_index(ppu) < 89342,
{
    reveal(PPU::stepped);
    lemma_tick_moves_one_dot(ppu);
}

/// Where the steps of a run leave the beam and the frame count, and how
/// many frames they finish.
#[verifier::rlimit(50)]
pub proof fn lemma_trace_moves_dots<M: Memory>(trace: Seq<PPU<M>>)
    requires
        trace.len() >= 1,
        trace[0].on_screen(),
        is_run(trace),
    ensures
        trace.last().on_screen(),
        dot_index(trace.last()) == (dot_index(trace[0]) + trace.len() - 1) % 89342,
        trace.last().frame == frames_after(
            trace[0].frame,
            (dot_index(trace[0]) + trace.len() - 1) / 89342,
        ),
        frames_in(trace) == vblanks_within(dot_index(trace[0]), (trace.len() - 1) as nat),
    decreases trace.len(),
{
    let d = dot_index(trace[0]);
    if trace.len() == 1 {
        assert(0 <= d < 89342);
    } else {
        let prefix = trace.drop_last();
        let m = prefix.len() - 1;
        assert forall|k: int| 0 <= k < prefix.len() - 1 implies (#[trigger] prefix[k]).stepped(
            prefix[k + 1],
        ) by {
            assert(trace[k].stepped(trace[k + 1]));
        }
        lemma_trace_moves_dots(prefix);
        assert(trace[m].stepped(trace[m + 1]));
        lemma_step_moves_one_dot(prefix.last(), trace.last());
        lemma_next_dot(d + m);
        lemma_frames_after_twice(trace[0].frame, (d + m) / 89342, ((d + m) % 89342 + 1) / 89342);
    }
}

/// Where `n` steps leave the beam and the frame count, and how many frames
/// they finish.
#[verifier::rlimit(50)]
pub proof fn lemma_run_moves_dots<M: Memory>(ppu: PPU<M>, next: PPU<M>, n: nat, frames: nat)
    requires
        ppu.on_screen(),
        ppu.runs_to(next, n, frames),
    ensures
        next.on_screen(),
        dot_index(next) == (dot_index(ppu) + n) % (DOTS_PER_FRAME as int),
        next.frame == frames_after(ppu.frame, (dot_index(ppu) + n) / (DOTS_PER_FRAME as int)),
        frames == vblanks_within(dot_index(ppu), n),
{
    let trace = choose|trace: Seq<PPU<M>>|
        #[trigger] is_run(trace) && trace.len() == n + 1 && trace[0] == ppu && trace[n as int]
            == next && frames_in(trace) == frames;
    lemma_trace_moves_dots(trace);
}

/// Counting a whole frame on.
pub proof fn lemma_one_frame_on(d: int)
    requires
        0 <= d < 89342,
    ensures
        (d + 89342) % 89342 == d,
        (d + 89342) / 89342 == 1,
        (d + 89342 - 82182) / 89342 - (d - 82182) / 89342 == 1,
{
}

/// A place in the frame determines its line and its dot.
pub proof fn lemma_dot_index_is_injective(line: int, dot: int, other_line: int, other_dot: int)
    requires
        0 <= dot <= 340,
        0 <= other_dot <= 340,
        line * 341 + dot == other_line * 341 + other_dot,
    ensures
        line == other_line,
        dot == other_dot,
{
}

/// A full pass of 262 lines of 341 dots, from any dot, with rendering on or
/// off, brings the beam back to where it was, advances the frame count by
/// exactly one, and finishes exactly one frame.
#[verifier::rlimit(50)]
pub proof fn lemma_full_pass<M: Memory>(ppu: PPU<M>, next: PPU<M>, frames: nat)
    requires
        ppu.on_screen(),
        ppu.runs_to(next, DOTS_PER_FRAME as nat, frames),
    ensures
        next.cycle == ppu.cycle,
        next.scanline == ppu.scanline,
        next.frame == frames_after(ppu.frame, 1),
        frames == 1,
{
    lemma_run_moves_dots(ppu, next, DOTS_PER_FRAME as nat, frames);
    lemma_tick_moves_one_dot(ppu);
    lemma_one_frame_on(dot_index(ppu));
    lemma_dot_index_is_injective(
        next.scanline as int,
        next.cycle as int,
        ppu.scanline as int,
        ppu.cycle as int,
    );
}

} // verus!
