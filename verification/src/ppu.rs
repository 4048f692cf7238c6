//! The pixel-processing unit.
//!
//! A scanline takes 456 dots. In its first 80 dots the objects of the line
//! are looked up (mode 2), then its 160 pixels are put out (mode 3), and
//! the rest of the line is the horizontal blank (mode 0). After the 144
//! lines of the screen come the ten lines of the vertical blank (mode 1).
//!
//! In mode 3 a fetcher works every other dot: it reads a tile number, the
//! two bytes of the tile's line, and then, if the pixel queue has room,
//! composes eight pixels and queues them. Every dot, one pixel leaves the
//! queue for the frame buffer if the queue holds more than eight.
//!
//! Coordinates on a line are bytes and are computed modulo 256.

use std::collections::VecDeque;
use vstd::prelude::*;
use crate::bits::{has_bit, lemma_byte_bits};
use crate::bus::HardwareRegister;
use crate::cpu::alu::{bit_is_set, is_bit_set};
use crate::interrupts::{InterruptFlag, InterruptRequest};
use crate::lcd::{LcdMode, LcdStatus, LCD, XRES, YRES};

verus! {

/// The bytes of object attribute memory: forty entries of four bytes.
pub const OAM_SIZE: usize = 0xA0;

/// The bytes of video RAM, which lies at `0x8000` to `0x9FFF`.
pub const VRAM_SIZE: usize = 0x2000;

/// The lines of a frame: 144 of the screen and ten of the vertical blank.
pub const LINES_PER_FRAME: u32 = 154;

/// The dots of a line.
pub const TICKS_PER_LINE: u32 = 456;

/// An entry of the object attribute memory.
///
/// The flags: bit 7, background and window colours 1 to 3 are drawn over
/// the object; bit 6, the object is mirrored vertically; bit 5, it is
/// mirrored horizontally; bit 4, it takes its colours from `OBP1`, not from
/// `OBP0`. The low four bits mean nothing on this machine.
#[derive(Copy, Clone, Debug, PartialEq, Eq, Structural)]
pub struct Sprite {
    /// The line of the screen on which the object starts, plus 16.
    pub y: u8,
    /// The column of the screen at which the object starts, plus 8.
    pub x: u8,
    pub tile_index: u8,
    pub flags: u8,
}

impl Sprite {
    pub const PRIORITY: u8 = 0b1000_0000;
    pub const Y_FLIP: u8 = 0b0100_0000;
    pub const X_FLIP: u8 = 0b0010_0000;
    pub const DMG_PALETTE: u8 = 0b0001_0000;

    pub open spec fn bg_priority(self) -> bool {
        self.flags >= 128
    }

    pub open spec fn y_flip(self) -> bool {
        has_bit(self.flags as int, 64)
    }

    pub open spec fn x_flip(self) -> bool {
        has_bit(self.flags as int, 32)
    }

    pub open spec fn second_palette(self) -> bool {
        has_bit(self.flags as int, 16)
    }

    /// One of the four bytes of the entry: `y`, `x`, the tile, the flags.
    pub open spec fn field(self, index: int) -> u8 {
        if index == 0 {
            self.y
        } else if index == 1 {
            self.x
        } else if index == 2 {
            self.tile_index
        } else {
            self.flags
        }
    }

    /// The entry with one of its four bytes replaced.
    pub open spec fn with_field(self, index: int, value: u8) -> Sprite {
        if index == 0 {
            Sprite { y: value, ..self }
        } else if index == 1 {
            Sprite { x: value, ..self }
        } else if index == 2 {
            Sprite { tile_index: value, ..self }
        } else {
            Sprite { flags: value, ..self }
        }
    }

    /// Whether the object is on the line `ly`: its column is not zero, and
    /// its lines, `height` of them from `y` on, include `ly + 16`.
    pub open spec fn on_line(self, ly: u8, height: u8) -> bool {
        self.x != 0 && self.y <= ly + 16 && self.y + height > ly + 16
    }

    /// The column of the object in the coordinates of the fetcher.
    pub open spec fn fetch_column(self, scroll_x: u8) -> u8 {
        self.x.wrapping_sub(8).wrapping_add(scroll_x % 8)
    }

    /// Whether the object overlaps the eight columns from `fetch_x` on.
    pub open spec fn in_column(self, fetch_x: u8, scroll_x: u8) -> bool {
        let sp_x = self.fetch_column(scroll_x) as int;
        (sp_x >= fetch_x && sp_x < fetch_x + 8) || (sp_x + 8 >= fetch_x && sp_x + 8 < fetch_x + 8)
    }

    /// Where the low byte of the object's line `ly` lies in video RAM.
    pub open spec fn data_address(self, ly: u8, height: u8) -> int {
        let row = ly.wrapping_add(16).wrapping_sub(self.y).wrapping_mul(2);
        let ty = if self.y_flip() {
            ((2 * height - 2) as u8).wrapping_sub(row)
        } else {
            row
        };
        let tile = if height == 16 {
            self.tile_index - self.tile_index % 2
        } else {
            self.tile_index as int
        };
        0x8000 + tile * 16 + ty
    }
}

/// The five steps of the fetcher.
#[derive(Copy, Clone, Debug, PartialEq, Eq, Structural)]
pub enum FetchState {
    Tile,
    DataLow,
    DataHigh,
    Idle,
    Push,
}

/// The requests that one dot can raise, in the order in which they are
/// raised: the status interrupt for `LY == LYC`, the vertical blank, and the
/// status interrupt for the mode that begins.
#[derive(Copy, Clone, Debug, PartialEq, Eq, Structural)]
pub struct PpuRequests {
    pub lyc: bool,
    pub vblank: bool,
    pub stat: bool,
}

impl PpuRequests {
    pub open spec fn none() -> PpuRequests {
        PpuRequests { lyc: false, vblank: false, stat: false }
    }
}

/// The device `ctx` after the requests have been raised on it.
pub open spec fn raise_requests<I: InterruptRequest>(ctx: I, r: PpuRequests) -> I {
    let c1 = if r.lyc {
        ctx.raised(InterruptFlag::spec_lcd())
    } else {
        ctx
    };
    let c2 = if r.vblank {
        c1.raised(InterruptFlag::spec_vblank())
    } else {
        c1
    };
    if r.stat {
        c2.raised(InterruptFlag::spec_lcd())
    } else {
        c2
    }
}

/// The pixel queue and the state of the fetcher.
pub struct PixelFifo {
    pub fetch_state: FetchState,
    pub fifo: VecDeque<u32>,
    /// The pixels that have left the queue on this line.
    pub line_x: u8,
    /// The pixels that have reached the frame buffer on this line.
    pub pushed_x: u8,
    /// The column that the fetcher is at.
    pub fetch_x: u8,
    /// The tile number and the two bytes of the tile's line.
    pub bgw_fetch_data: [u8; 3],
    /// The two bytes of the line of each of up to three objects.
    pub fetch_entry_data: [u8; 6],
    pub map_y: u8,
    pub map_x: u8,
    pub tile_y: u8,
    /// The pixels that have been queued on this line.
    pub fifo_x: u8,
}

pub struct FifoView {
    pub fetch_state: FetchState,
    pub fifo: Seq<u32>,
    pub line_x: u8,
    pub pushed_x: u8,
    pub fetch_x: u8,
    pub bgw_fetch_data: Seq<u8>,
    pub fetch_entry_data: Seq<u8>,
    pub map_y: u8,
    pub map_x: u8,
    pub tile_y: u8,
    pub fifo_x: u8,
}

impl View for PixelFifo {
    type V = FifoView;

    open spec fn view(&self) -> FifoView {
        FifoView {
            fetch_state: self.fetch_state,
            fifo: self.fifo@,
            line_x: self.line_x,
            pushed_x: self.pushed_x,
            fetch_x: self.fetch_x,
            bgw_fetch_data: self.bgw_fetch_data@,
            fetch_entry_data: self.fetch_entry_data@,
            map_y: self.map_y,
            map_x: self.map_x,
            tile_y: self.tile_y,
            fifo_x: self.fifo_x,
        }
    }
}

impl PixelFifo {
    pub fn new() -> (fifo: PixelFifo)
        ensures
            fifo@ == FifoView::spec_new(),
    {
        let fifo = PixelFifo {
            fetch_state: FetchState::Tile,
            fifo: VecDeque::new(),
            line_x: 0,
            pushed_x: 0,
            fetch_x: 0,
            bgw_fetch_data: [0;3],
            fetch_entry_data: [0;6],
            map_y: 0,
            map_x: 0,
            tile_y: 0,
            fifo_x: 0,
        };
        assert(fifo@.bgw_fetch_data =~= Seq::new(3, |i: int| 0u8));
        assert(fifo@.fetch_entry_data =~= Seq::new(6, |i: int| 0u8));
        fifo
    }
}

impl FifoView {
    pub open spec fn spec_new() -> FifoView {
        FifoView {
            fetch_state: FetchState::Tile,
            fifo: Seq::empty(),
            line_x: 0,
            pushed_x: 0,
            fetch_x: 0,
            bgw_fetch_data: Seq::new(3, |i: int| 0u8),
            fetch_entry_data: Seq::new(6, |i: int| 0u8),
            map_y: 0,
            map_x: 0,
            tile_y: 0,
            fifo_x: 0,
        }
    }

    /// The fetcher at the start of the pixels of a line.
    pub open spec fn restarted(self) -> FifoView {
        FifoView { fetch_state: FetchState::Tile, line_x: 0, fetch_x: 0, pushed_x: 0, fifo_x: 0, ..self }
    }
}

/// The pixel-processing unit: video RAM, object attribute memory, the
/// display registers, the frame buffer, and the state of the line.
pub struct PPU {
    pub oam_ram: [Sprite; 40],
    pub vram: [u8; 0x2000],
    pub lcd: LCD,
    /// The frames that have been finished, modulo 2^32.
    pub current_frame: u32,
    /// The dots of the current line that have passed, modulo 2^32.
    pub line_ticks: u32,
    pub video_buffer: [u32; 23040],
    pub pixel_fifo: PixelFifo,
    /// The objects of the current line, by ascending column.
    pub line_sprites: VecDeque<Sprite>,
    /// The objects that overlap the tile that is being fetched.
    pub fetched_entries: Vec<Sprite>,
    /// The line of the window that comes next.
    pub window_line: u8,
}

pub struct PpuView {
    pub oam: Seq<Sprite>,
    pub vram: Seq<u8>,
    pub lcd: LCD,
    pub current_frame: u32,
    pub line_ticks: u32,
    pub video_buffer: Seq<u32>,
    pub pixel_fifo: FifoView,
    pub line_sprites: Seq<Sprite>,
    pub fetched_entries: Seq<Sprite>,
    pub window_line: u8,
}

impl View for PPU {
    type V = PpuView;

    open spec fn view(&self) -> PpuView {
        PpuView {
            oam: self.oam_ram@,
            vram: self.vram@,
            lcd: self.lcd,
            current_frame: self.current_frame,
            line_ticks: self.line_ticks,
            video_buffer: self.video_buffer@,
            pixel_fifo: self.pixel_fifo@,
            line_sprites: self.line_sprites@,
            fetched_entries: self.fetched_entries@,
            window_line: self.window_line,
        }
    }
}

/// The offset into object attribute memory that an address stands for: the
/// addresses from `0xFE00` on are bus addresses, the others are offsets.
pub open spec fn oam_offset(address: u16) -> int {
    if address >= 0xFE00 {
        address - 0xFE00
    } else {
        address as int
    }
}

/// Where the number of the tile at column `map_x` and line `map_y` of a tile
/// map lies: the map has 32 tiles to a row, and a tile is eight pixels wide
/// and high.
pub open spec fn tile_map_address(map_area: u16, map_x: u8, map_y: u8) -> int {
    map_area + map_x / 8 + (map_y / 8) * 32
}

/// The number of a tile counted from `0x8000`: where the tiles are at
/// `0x8800`, the tile numbers are signed, and 128 is added to them.
pub open spec fn remap_tile(tile: u8, data_area: u16) -> u8 {
    if data_area == 0x8800 {
        tile.wrapping_add(128)
    } else {
        tile
    }
}

/// The colour index of pixel `i` (0 is the leftmost) of a tile line with the
/// low bits in `lo` and the high bits in `hi`.
pub open spec fn pixel_index(lo: u8, hi: u8, i: int) -> int {
    (if bit_is_set(hi, (7 - i) as u8) { 2int } else { 0int }) + (if bit_is_set(lo, (7 - i) as u8) { 1int } else { 0int })
}

/// The place at which an object with column `x` goes into a list that is
/// sorted by column: before the first object from `from` on whose column is
/// greater, so that objects with the same column keep their order.
pub open spec fn insert_position(list: Seq<Sprite>, x: u8, from: nat) -> nat
    decreases list.len() - from,
{
    if from >= list.len() {
        list.len()
    } else if list[from as int].x > x {
        from
    } else {
        insert_position(list, x, from + 1)
    }
}

/// The objects of a line after the first `n` entries of object attribute
/// memory have been looked at: of the entries that are on the line, the
/// first that fit into a list of ten, added to `list` by ascending column.
pub open spec fn scan_sprites(list: Seq<Sprite>, oam: Seq<Sprite>, n: nat, ly: u8, height: u8) -> Seq<Sprite>
    decreases n,
{
    if n == 0 {
        list
    } else {
        let before = scan_sprites(list, oam, (n - 1) as nat, ly, height);
        let sprite = oam[n - 1];
        if before.len() < 10 && sprite.on_line(ly, height) {
            before.insert(insert_position(before, sprite.x, 0) as int, sprite)
        } else {
            before
        }
    }
}

/// Of the first `n` objects of the line, the first three that overlap the
/// eight columns from `fetch_x` on.
pub open spec fn collect_sprites(line: Seq<Sprite>, n: nat, fetch_x: u8, scroll_x: u8) -> Seq<Sprite>
    decreases n,
{
    if n == 0 {
        Seq::empty()
    } else {
        let before = collect_sprites(line, (n - 1) as nat, fetch_x, scroll_x);
        if before.len() < 3 && line[n - 1].in_column(fetch_x, scroll_x) {
            before.push(line[n - 1])
        } else {
            before
        }
    }
}

/// The colour that the collected objects from number `from` on give to the
/// pixel at column `fifo_x`: that of the first of them that covers the
/// column with a colour index other than 0 and is not hidden behind the
/// background, and `default_color` if there is none. An object is hidden if
/// it gives way to the background and the background's colour index is not
/// 0. `data` holds the two bytes of the line of each object.
pub open spec fn sprite_pixel(
    fetched: Seq<Sprite>,
    data: Seq<u8>,
    lcd: LCD,
    from: nat,
    bg_index: int,
    default_color: u32,
    fifo_x: u8,
) -> u32
    decreases fetched.len() - from,
{
    if from >= fetched.len() {
        default_color
    } else {
        let entry = fetched[from as int];
        let sp_x = entry.fetch_column(lcd.scroll_x);
        let offset = fifo_x.wrapping_sub(sp_x);
        let bit = if entry.x_flip() {
            offset as int
        } else {
            7 - offset
        };
        let index = pixel_index(data[from as int * 2], data[from as int * 2 + 1], 7 - bit);
        if sp_x + 8 >= fifo_x && offset <= 7 && index != 0 && (!entry.bg_priority() || bg_index == 0) {
            if entry.second_palette() {
                lcd.sp1_colors.spec_color(index)
            } else {
                lcd.sp0_colors.spec_color(index)
            }
        } else {
            sprite_pixel(fetched, data, lcd, from + 1, bg_index, default_color, fifo_x)
        }
    }
}

/// The colour of pixel `i` of a tile line with the low bits in `lo` and the
/// high bits in `hi`, queued at column `fifo_x`: the background's colour, or
/// colour 0 of its palette if the background is off, with the objects over
/// it if they are on.
pub open spec fn composed_pixel(
    fetched: Seq<Sprite>,
    data: Seq<u8>,
    lcd: LCD,
    lo: u8,
    hi: u8,
    i: int,
    fifo_x: u8,
) -> u32 {
    let index = pixel_index(lo, hi, i);
    let color = if lcd.lcdc.bg_window_enable {
        lcd.bg_colors.spec_color(index)
    } else {
        lcd.bg_colors.spec_color(0)
    };
    if lcd.lcdc.obj_enable {
        sprite_pixel(fetched, data, lcd, 0, index, color, fifo_x)
    } else {
        color
    }
}

impl PpuView {
    /// The sizes of the memories, and what holds between the mode, the
    /// scanline and the pixel counter: the vertical blank is on lines 144 to
    /// 153 and the other modes on lines 0 to 143; while pixels are put out,
    /// fewer than 160 of them have reached the frame buffer. The pixel queue
    /// never holds more than sixteen pixels.
    pub open spec fn wf(self) -> bool {
        &&& self.oam.len() == 40
        &&& self.vram.len() == 0x2000
        &&& self.video_buffer.len() == 23040
        &&& self.pixel_fifo.bgw_fetch_data.len() == 3
        &&& self.pixel_fifo.fetch_entry_data.len() == 6
        &&& self.pixel_fifo.fifo.len() <= 16
        &&& self.fetched_entries.len() <= 3
        &&& self.line_sprites.len() <= 10
        &&& self.window_line <= self.lcd.ly
        &&& match self.lcd.lcds.mode {
            LcdMode::VBLANK => 144 <= self.lcd.ly <= 153,
            LcdMode::XFER => self.lcd.ly <= 143 && self.pixel_fifo.pushed_x < 160,
            _ => self.lcd.ly <= 143,
        }
    }

    /// The unit at power-on: memories cleared, line 0, mode 2.
    pub open spec fn spec_new() -> PpuView {
        PpuView {
            oam: Seq::new(40, |i: int| Sprite { y: 0, x: 0, tile_index: 0, flags: 0 }),
            vram: Seq::new(0x2000, |i: int| 0u8),
            lcd: LCD { lcds: LcdStatus { mode: LcdMode::OAM, ..LCD::spec_new().lcds }, ..LCD::spec_new() },
            current_frame: 0,
            line_ticks: 0,
            video_buffer: Seq::new(23040, |i: int| 0u32),
            pixel_fifo: FifoView::spec_new(),
            line_sprites: Seq::empty(),
            fetched_entries: Seq::empty(),
            window_line: 0,
        }
    }

    /// The byte of object attribute memory at an offset of 0 to 159.
    pub open spec fn oam_byte(self, offset: int) -> u8 {
        self.oam[offset / 4].field(offset % 4)
    }

    /// The unit after a byte of object attribute memory has been written.
    pub open spec fn oam_written(self, offset: int, value: u8) -> PpuView {
        PpuView { oam: self.oam.update(offset / 4, self.oam[offset / 4].with_field(offset % 4, value)), ..self }
    }

    /// The byte of video RAM at an address of `0x8000` to `0x9FFF`.
    pub open spec fn vram_byte(self, address: int) -> u8 {
        self.vram[address - 0x8000]
    }

    pub open spec fn vram_written(self, address: int, value: u8) -> PpuView {
        PpuView { vram: self.vram.update(address - 0x8000, value), ..self }
    }

    pub open spec fn with_fifo(self, pixel_fifo: FifoView) -> PpuView {
        PpuView { pixel_fifo, ..self }
    }

    pub open spec fn with_mode(self, mode: LcdMode) -> PpuView {
        PpuView { lcd: LCD { lcds: LcdStatus { mode, ..self.lcd.lcds }, ..self.lcd }, ..self }
    }

    /// The objects of the current line are looked up and added to the list.
    pub open spec fn spec_load_line_sprites(self) -> PpuView {
        PpuView {
            line_sprites: scan_sprites(self.line_sprites, self.oam, 40, self.lcd.ly, self.lcd.spec_sprite_height()),
            ..self
        }
    }

    /// A dot of mode 2. From dot 80 on the mode is 3 and the fetcher starts
    /// anew; on dot 1 the objects of the line are looked up.
    pub open spec fn spec_tick_oam(self) -> PpuView {
        let a = if self.line_ticks >= 80 {
            self.with_mode(LcdMode::XFER).with_fifo(self.pixel_fifo.restarted())
        } else {
            self
        };
        if a.line_ticks == 1 {
            (PpuView { line_sprites: Seq::empty(), ..a }).spec_load_line_sprites()
        } else {
            a
        }
    }

    /// Whether the tile that is being fetched belongs to the window.
    pub open spec fn window_covers(self) -> bool {
        let column = self.pixel_fifo.fetch_x.wrapping_add(7);
        &&& self.lcd.spec_is_window_visible()
        &&& column >= self.lcd.win_x
        &&& column < self.lcd.win_x + 158
        &&& self.lcd.ly >= self.lcd.win_y
        &&& self.lcd.ly < self.lcd.win_y + 160
    }

    /// Where the number of the window's tile lies in video RAM.
    pub open spec fn window_tile_address(self) -> int {
        self.lcd.spec_win_map_area() + self.pixel_fifo.fetch_x.wrapping_add(7).wrapping_sub(self.lcd.win_x) / 8 + (
        self.window_line / 8) * 32
    }

    /// The number of the tile that is fetched: the window's where the
    /// window covers the column, the background's elsewhere; the one that
    /// was fetched before if background and window are off.
    pub open spec fn fetched_tile(self) -> u8 {
        let area = self.lcd.spec_bgw_data_area();
        if !self.lcd.lcdc.bg_window_enable {
            self.pixel_fifo.bgw_fetch_data[0]
        } else if self.window_covers() {
            remap_tile(self.vram_byte(self.window_tile_address()), area)
        } else {
            remap_tile(
                self.vram_byte(
                    tile_map_address(self.lcd.spec_bg_map_area(), self.pixel_fifo.map_x, self.pixel_fifo.map_y),
                ),
                area,
            )
        }
    }

    /// The first step of the fetcher: the tile number is read, the objects
    /// that overlap the tile are collected, and the fetcher moves on by
    /// eight columns.
    pub open spec fn spec_fetch_tile(self) -> PpuView {
        let f = self.pixel_fifo;
        PpuView {
            fetched_entries: if self.lcd.lcdc.obj_enable && self.line_sprites.len() > 0 {
                collect_sprites(self.line_sprites, self.line_sprites.len(), f.fetch_x, self.lcd.scroll_x)
            } else {
                Seq::empty()
            },
            pixel_fifo: FifoView {
                bgw_fetch_data: f.bgw_fetch_data.update(0, self.fetched_tile()),
                fetch_state: FetchState::DataLow,
                fetch_x: f.fetch_x.wrapping_add(8),
                ..f
            },
            ..self
        }
    }

    /// Where the low byte of the line of the fetched tile lies.
    pub open spec fn tile_data_address(self) -> int {
        self.lcd.spec_bgw_data_area() + self.pixel_fifo.bgw_fetch_data[0] * 16 + self.pixel_fifo.tile_y
    }

    /// The bytes of the objects' lines after the low bytes (`offset` 0) or
    /// the high bytes (`offset` 1) of the collected objects have been read.
    pub open spec fn spec_sprite_data(self, offset: int) -> Seq<u8> {
        Seq::new(
            6,
            |k: int|
                if k % 2 == offset && k / 2 < self.fetched_entries.len() {
                    self.vram_byte(
                        self.fetched_entries[k / 2].data_address(self.lcd.ly, self.lcd.spec_sprite_height())
                            + offset,
                    )
                } else {
                    self.pixel_fifo.fetch_entry_data[k]
                },
        )
    }

    /// The colour of pixel `i` of the fetched tile, queued at column
    /// `fifo_x`: see [`composed_pixel`].
    pub open spec fn spec_composed_pixel(self, i: int, fifo_x: u8) -> u32 {
        composed_pixel(
            self.fetched_entries,
            self.pixel_fifo.fetch_entry_data,
            self.lcd,
            self.pixel_fifo.bgw_fetch_data[1],
            self.pixel_fifo.bgw_fetch_data[2],
            i,
            fifo_x,
        )
    }

    /// Whether the fetched tile lies at or right of the first column of the
    /// line.
    pub open spec fn tile_on_line(self) -> bool {
        self.pixel_fifo.fetch_x - (8 - self.lcd.scroll_x % 8) >= 0
    }

    /// The last step of the fetcher. If the queue holds more than eight
    /// pixels nothing is done and the step is tried again; else the eight
    /// pixels of the tile are queued, if the tile is on the line.
    pub open spec fn spec_fifo_add(self) -> (PpuView, bool) {
        let f = self.pixel_fifo;
        if f.fifo.len() > 8 {
            (self, false)
        } else if self.tile_on_line() {
            (
                self.with_fifo(
                    FifoView {
                        fifo: f.fifo + Seq::new(8, |i: int| self.spec_composed_pixel(i, f.fifo_x.wrapping_add(i as u8))),
                        fifo_x: f.fifo_x.wrapping_add(8),
                        ..f
                    },
                ),
                true,
            )
        } else {
            (self, true)
        }
    }

    /// One step of the fetcher.
    pub open spec fn spec_pipeline_fetch(self) -> PpuView {
        let f = self.pixel_fifo;
        match f.fetch_state {
            FetchState::Tile => self.spec_fetch_tile(),
            FetchState::DataLow => self.with_fifo(
                FifoView {
                    bgw_fetch_data: f.bgw_fetch_data.update(1, self.vram_byte(self.tile_data_address())),
                    fetch_entry_data: self.spec_sprite_data(0),
                    fetch_state: FetchState::DataHigh,
                    ..f
                },
            ),
            FetchState::DataHigh => self.with_fifo(
                FifoView {
                    bgw_fetch_data: f.bgw_fetch_data.update(2, self.vram_byte(self.tile_data_address() + 1)),
                    fetch_entry_data: self.spec_sprite_data(1),
                    fetch_state: FetchState::Idle,
                    ..f
                },
            ),
            FetchState::Idle => self.with_fifo(FifoView { fetch_state: FetchState::Push, ..f }),
            FetchState::Push => {
                let (p, queued) = self.spec_fifo_add();
                if queued {
                    p.with_fifo(FifoView { fetch_state: FetchState::Tile, ..p.pixel_fifo })
                } else {
                    p
                }
            },
        }
    }

    /// One pixel leaves the queue, if the queue holds more than eight. The
    /// first `SCX mod 8` pixels of a line are dropped; the others go to the
    /// frame buffer, at `pushed_x + LY * 160`.
    pub open spec fn spec_push_pixel(self) -> PpuView {
        let f = self.pixel_fifo;
        if f.fifo.len() > 8 {
            let rest = f.fifo.subrange(1, f.fifo.len() as int);
            if f.line_x >= self.lcd.scroll_x % 8 {
                PpuView {
                    video_buffer: self.video_buffer.update(f.pushed_x + self.lcd.ly * 160, f.fifo[0]),
                    pixel_fifo: FifoView {
                        fifo: rest,
                        pushed_x: (f.pushed_x + 1) as u8,
                        line_x: f.line_x.wrapping_add(1),
                        ..f
                    },
                    ..self
                }
            } else {
                self.with_fifo(FifoView { fifo: rest, line_x: f.line_x.wrapping_add(1), ..f })
            }
        } else {
            self
        }
    }

    /// The work of a dot of mode 3: the place of the fetcher on the tile
    /// map is computed, the fetcher makes a step on every other dot, and a
    /// pixel leaves the queue.
    pub open spec fn spec_pipeline_process(self) -> PpuView {
        let f = self.pixel_fifo;
        let lined = self.with_fifo(
            FifoView {
                map_y: self.lcd.ly.wrapping_add(self.lcd.scroll_y),
                map_x: f.fetch_x.wrapping_add(self.lcd.scroll_x),
                tile_y: ((self.lcd.ly.wrapping_add(self.lcd.scroll_y) % 8) * 2) as u8,
                ..f
            },
        );
        (if self.line_ticks % 2 == 0 {
            lined.spec_pipeline_fetch()
        } else {
            lined
        }).spec_push_pixel()
    }

    /// A dot of mode 3. When the 160th pixel has reached the frame buffer
    /// the queue is emptied and mode 0 begins, which raises the status
    /// interrupt if `STAT` selects it.
    pub open spec fn spec_tick_xfer(self) -> (PpuView, PpuRequests) {
        let p = self.spec_pipeline_process();
        if p.pixel_fifo.pushed_x >= 160 {
            (
                p.with_fifo(FifoView { fifo: Seq::empty(), ..p.pixel_fifo }).with_mode(LcdMode::HBLANK),
                PpuRequests { stat: p.lcd.lcds.hblank_int_select, ..PpuRequests::none() },
            )
        } else {
            (p, PpuRequests::none())
        }
    }

    /// Whether the window is shown on the current line.
    pub open spec fn window_on_line(self) -> bool {
        self.lcd.spec_is_window_visible() && self.lcd.ly >= self.lcd.win_y && self.lcd.ly < self.lcd.win_y + 144
    }

    /// The end of a line: the window's line counter goes up by one if the
    /// window was shown on the line, `LY` goes up by one and returns to 0
    /// after line 153, and `STAT` tells whether the new `LY` equals `LYC`.
    /// The second component tells whether the status interrupt is raised for
    /// that: the two are equal and `STAT` selects the comparison.
    pub open spec fn spec_increment_ly(self) -> (PpuView, bool) {
        let ly = ((self.lcd.ly + 1) % 154) as u8;
        let equal = ly == self.lcd.lyc;
        (
            PpuView {
                window_line: if self.window_on_line() {
                    (self.window_line + 1) as u8
                } else {
                    self.window_line
                },
                lcd: LCD { ly, lcds: LcdStatus { lyc_equal_ly: equal, ..self.lcd.lcds }, ..self.lcd },
                ..self
            },
            equal && self.lcd.lcds.lyc_int_select,
        )
    }

    /// A dot of mode 1. At the end of a line `LY` goes on as at the end of
    /// every line; when it has returned to 0 a new frame begins in mode 2,
    /// and the window starts again at its first line.
    pub open spec fn spec_tick_vblank(self) -> (PpuView, PpuRequests) {
        if self.line_ticks >= 456 {
            let (p, lyc) = self.spec_increment_ly();
            let q = if p.lcd.ly == 0 {
                PpuView { window_line: 0, ..p.with_mode(LcdMode::OAM) }
            } else {
                p
            };
            (PpuView { line_ticks: 0, ..q }, PpuRequests { lyc, ..PpuRequests::none() })
        } else {
            (self, PpuRequests::none())
        }
    }

    /// A dot of mode 0. At the end of the line the next line begins in mode
    /// 2; after line 143 the vertical blank begins, which raises its
    /// interrupt, and the status interrupt if `STAT` selects it, and counts
    /// a frame.
    pub open spec fn spec_tick_hblank(self) -> (PpuView, PpuRequests) {
        if self.line_ticks >= 456 {
            let (p, lyc) = self.spec_increment_ly();
            if p.lcd.ly >= 144 {
                (
                    PpuView {
                        line_ticks: 0,
                        current_frame: p.current_frame.wrapping_add(1),
                        ..p.with_mode(LcdMode::VBLANK)
                    },
                    PpuRequests { lyc, vblank: true, stat: p.lcd.lcds.vblank_int_select },
                )
            } else {
                (PpuView { line_ticks: 0, ..p.with_mode(LcdMode::OAM) }, PpuRequests { lyc, ..PpuRequests::none() })
            }
        } else {
            (self, PpuRequests::none())
        }
    }

    /// One dot.
    pub open spec fn spec_tick(self) -> (PpuView, PpuRequests) {
        let p = PpuView { line_ticks: self.line_ticks.wrapping_add(1), ..self };
        match p.lcd.lcds.mode {
            LcdMode::OAM => (p.spec_tick_oam(), PpuRequests::none()),
            LcdMode::XFER => p.spec_tick_xfer(),
            LcdMode::VBLANK => p.spec_tick_vblank(),
            LcdMode::HBLANK => p.spec_tick_hblank(),
        }
    }

    /// What a write to a display register does: a write to `LY` or to the
    /// `DMA` register changes nothing here.
    pub open spec fn lcd_written(self, register: HardwareRegister, value: u8) -> PpuView {
        if register == HardwareRegister::DMA {
            self
        } else {
            PpuView { lcd: self.lcd.spec_write(register, value), ..self }
        }
    }
}

impl PPU {
    pub fn new() -> (ppu: PPU)
        ensures
            ppu@ == PpuView::spec_new(),
            ppu@.wf(),
    {
        let mut lcd = LCD::new();
        lcd.set_mode(LcdMode::OAM);

        let blank = Sprite { y: 0, x: 0, tile_index: 0, flags: 0 };
        let mut oam_ram = [blank;40];
        let mut i: usize = 0;
        while i < 40
            invariant
                i <= 40,
                forall|j: int| 0 <= j < i ==> oam_ram@[j] == blank,
            decreases 40 - i,
        {
            oam_ram[i] = blank;
            i += 1;
        }
        let ppu = PPU {
            oam_ram,
            vram: [0;0x2000],
            lcd,
            current_frame: 0,
            line_ticks: 0,
            video_buffer: [0;23040],
            pixel_fifo: PixelFifo::new(),
            line_sprites: VecDeque::new(),
            fetched_entries: Vec::new(),
            window_line: 0,
        };
        assert(ppu@.oam =~= PpuView::spec_new().oam);
        assert(ppu@.vram =~= PpuView::spec_new().vram);
        assert(ppu@.video_buffer =~= PpuView::spec_new().video_buffer);
        ppu
    }

    /// Whether the invariant of the unit holds: see [`PpuView::wf`].
    pub fn is_well_formed(&self) -> (ok: bool)
        ensures
            ok == self@.wf(),
    {
        let lines_fit = match self.lcd.lcds.mode {
            LcdMode::VBLANK => 144 <= self.lcd.ly && self.lcd.ly <= 153,
            LcdMode::XFER => self.lcd.ly <= 143 && self.pixel_fifo.pushed_x < 160,
            _ => self.lcd.ly <= 143,
        };
        self.pixel_fifo.fifo.len() <= 16 && self.fetched_entries.len() <= 3 && self.line_sprites.len() <= 10
            && self.window_line <= self.lcd.ly && lines_fit
    }

    pub fn get_current_frame(&self) -> (frame: u32)
        ensures
            frame == self@.current_frame,
    {
        self.current_frame
    }

    /// Reads a byte of object attribute memory, at a bus address or at an
    /// offset.
    pub fn oam_read(&self, address: u16) -> (value: u8)
        requires
            oam_offset(address) < 160,
        ensures
            value == self@.oam_byte(oam_offset(address)),
    {
        // Both ranges are valid, one is for DMA
        let oam_address = if address >= 0xFE00 {
            (address - 0xFE00) as usize
        } else {
            address as usize
        };

        let sprite_index = oam_address / 4;
        let sprite_field = oam_address % 4;
        let sprite = self.oam_ram[sprite_index];

        match sprite_field {
            0 => sprite.y,
            1 => sprite.x,
            2 => sprite.tile_index,
            _ => sprite.flags,
        }
    }

    /// Writes a byte of object attribute memory, at a bus address or at an
    /// offset.
    pub fn oam_write(&mut self, address: u16, value: u8)
        requires
            oam_offset(address) < 160,
        ensures
            final(self)@ == old(self)@.oam_written(oam_offset(address), value),
            old(self)@.wf() ==> final(self)@.wf(),
    {
        let oam_address = if address >= 0xFE00 {
            (address - 0xFE00) as usize
        } else {
            address as usize
        };

        let sprite_index = oam_address / 4;
        let sprite_field = oam_address % 4;
        let sprite = self.oam_ram[sprite_index];

        self.oam_ram[sprite_index] = match sprite_field {
            0 => Sprite { y: value, x: sprite.x, tile_index: sprite.tile_index, flags: sprite.flags },
            1 => Sprite { y: sprite.y, x: value, tile_index: sprite.tile_index, flags: sprite.flags },
            2 => Sprite { y: sprite.y, x: sprite.x, tile_index: value, flags: sprite.flags },
            _ => Sprite { y: sprite.y, x: sprite.x, tile_index: sprite.tile_index, flags: value },
        };
    }

    pub fn vram_read(&self, address: u16) -> (value: u8)
        requires
            0x8000 <= address <= 0x9FFF,
        ensures
            value == self@.vram_byte(address as int),
    {
        let vram_address = (address - 0x8000) as usize;
        self.vram[vram_address]
    }

    pub fn vram_write(&mut self, address: u16, value: u8)
        requires
            0x8000 <= address <= 0x9FFF,
        ensures
            final(self)@ == old(self)@.vram_written(address as int, value),
            old(self)@.wf() ==> final(self)@.wf(),
    {
        let vram_address = (address - 0x8000) as usize;
        self.vram[vram_address] = value;
    }

    pub fn lcd_read(&self, register: HardwareRegister) -> (value: u8)
        requires
            register.spec_is_lcd(),
        ensures
            value == self@.lcd.spec_read(register),
    {
        self.lcd.read(register)
    }

    /// Writes a display register. The scanline counter and the low three
    /// bits of `STAT` belong to the unit and do not change.
    pub fn lcd_write(&mut self, register: HardwareRegister, value: u8)
        requires
            register.spec_is_lcd(),
        ensures
            final(self)@ == old(self)@.lcd_written(register, value),
            old(self)@.wf() ==> final(self)@.wf(),
    {
        if register != HardwareRegister::DMA {
            self.lcd.write(register, value);
        }
    }

    pub fn video_buffer_read(&self, pixel_index: usize) -> (pixel: u32)
        requires
            pixel_index < 23040,
        ensures
            pixel == self@.video_buffer[pixel_index as int],
    {
        self.video_buffer[pixel_index]
    }

    /// Lets one dot pass, and raises on `ctx` the interrupts that the dot
    /// brings.
    pub fn tick<I: InterruptRequest>(&mut self, ctx: &mut I)
        requires
            old(self)@.wf(),
        ensures
            final(self)@ == old(self)@.spec_tick().0,
            *final(ctx) == raise_requests(*old(ctx), old(self)@.spec_tick().1),
            final(self)@.wf(),
    {
        self.line_ticks = self.line_ticks.wrapping_add(1);
        let lcd_mode = self.lcd.get_mode();

        match lcd_mode {
            LcdMode::OAM => self.tick_oam(),
            LcdMode::XFER => self.tick_xfer(ctx),
            LcdMode::VBLANK => self.tick_vblank(ctx),
            LcdMode::HBLANK => self.tick_hblank(ctx),
        }
    }

    fn load_line_sprites(&mut self)
        requires
            old(self)@.wf(),
        ensures
            final(self)@ == old(self)@.spec_load_line_sprites(),
            final(self)@.wf(),
    {
        let ly = self.lcd.ly;
        let sprite_height = self.lcd.get_sprite_height();
        let ghost start = self@;
        let mut n: usize = 0;

        while n < 40
            invariant
                n <= 40,
                start.wf(),
                self@ == (PpuView {
                    line_sprites: scan_sprites(start.line_sprites, start.oam, n as nat, ly, sprite_height),
                    ..start
                }),
                self@.line_sprites.len() <= 10,
            decreases 40 - n,
        {
            let sprite = self.oam_ram[n];
            // An object in column 0 is not visible, and a line shows ten objects at most
            if sprite.x != 0 && self.line_sprites.len() < 10 && (sprite.y as u16) <= (ly as u16) + 16 && (
            sprite.y as u16) + (sprite_height as u16) > (ly as u16) + 16 {
                // This sprite is on the current line
                let ghost list = self.line_sprites@;
                let mut i: usize = 0;
                while i < self.line_sprites.len() && self.line_sprites[i].x <= sprite.x
                    invariant
                        i <= self.line_sprites@.len(),
                        self.line_sprites@ == list,
                        insert_position(list, sprite.x, 0) == insert_position(list, sprite.x, i as nat),
                    decreases self.line_sprites@.len() - i,
                {
                    i += 1;
                }
                self.line_sprites.insert(i, sprite);
            }
            n += 1;
        }
    }

    fn tick_oam(&mut self)
        requires
            old(self)@.wf(),
            old(self)@.lcd.lcds.mode == LcdMode::OAM,
        ensures
            final(self)@ == old(self)@.spec_tick_oam(),
            final(self)@.wf(),
    {
        if self.line_ticks >= 80 {
            self.lcd.set_mode(LcdMode::XFER);

            self.pixel_fifo.fetch_state = FetchState::Tile;
            self.pixel_fifo.line_x = 0;
            self.pixel_fifo.fetch_x = 0;
            self.pixel_fifo.pushed_x = 0;
            self.pixel_fifo.fifo_x = 0;
        }
        if self.line_ticks == 1 {
            // Read all sprites on the first tick, not as in hardware
            self.line_sprites.clear();
            self.load_line_sprites();
        }
    }

    fn tick_xfer<I: InterruptRequest>(&mut self, ctx: &mut I)
        requires
            old(self)@.wf(),
            old(self)@.lcd.lcds.mode == LcdMode::XFER,
        ensures
            final(self)@ == old(self)@.spec_tick_xfer().0,
            *final(ctx) == raise_requests(*old(ctx), old(self)@.spec_tick_xfer().1),
            final(self)@.wf(),
    {
        self.pipeline_process();

        if (self.pixel_fifo.pushed_x as usize) >= XRES {
            self.pixel_fifo.fifo.clear();  // Reset pixel FIFO

            self.lcd.set_mode(LcdMode::HBLANK);

            if self.lcd.lcds.hblank_int_select {
                ctx.request_interrupt(InterruptFlag::lcd());
            }
        }
    }

    fn tick_vblank<I: InterruptRequest>(&mut self, ctx: &mut I)
        requires
            old(self)@.wf(),
            old(self)@.lcd.lcds.mode == LcdMode::VBLANK,
        ensures
            final(self)@ == old(self)@.spec_tick_vblank().0,
            *final(ctx) == raise_requests(*old(ctx), old(self)@.spec_tick_vblank().1),
            final(self)@.wf(),
    {
        if self.line_ticks >= TICKS_PER_LINE {
            self.increment_ly(ctx);

            if self.lcd.ly == 0 {
                // A new frame begins
                self.lcd.set_mode(LcdMode::OAM);
                self.window_line = 0;
            }
            self.line_ticks = 0;
        }
    }

    fn tick_hblank<I: InterruptRequest>(&mut self, ctx: &mut I)
        requires
            old(self)@.wf(),
            old(self)@.lcd.lcds.mode == LcdMode::HBLANK,
        ensures
            final(self)@ == old(self)@.spec_tick_hblank().0,
            *final(ctx) == raise_requests(*old(ctx), old(self)@.spec_tick_hblank().1),
            final(self)@.wf(),
    {
        if self.line_ticks >= TICKS_PER_LINE {
            self.increment_ly(ctx);

            if (self.lcd.ly as usize) >= YRES {
                self.lcd.set_mode(LcdMode::VBLANK);

                ctx.request_interrupt(InterruptFlag::vblank());

                if self.lcd.lcds.vblank_int_select {
                    ctx.request_interrupt(InterruptFlag::lcd());
                }
                self.current_frame = self.current_frame.wrapping_add(1);
            } else {
                self.lcd.set_mode(LcdMode::OAM);
            }
            self.line_ticks = 0;
        }
    }

    fn pipeline_process(&mut self)
        requires
            old(self)@.wf(),
            old(self)@.lcd.lcds.mode == LcdMode::XFER,
        ensures
            final(self)@ == old(self)@.spec_pipeline_process(),
            final(self)@.lcd == old(self)@.lcd,
            final(self)@.window_line == old(self)@.window_line,
            final(self)@.line_sprites == old(self)@.line_sprites,
            final(self)@.pixel_fifo.pushed_x <= 160,
            (PpuView { pixel_fifo: old(self)@.pixel_fifo, ..final(self)@ }).wf(),
    {
        let line = self.lcd.ly.wrapping_add(self.lcd.scroll_y);
        self.pixel_fifo.map_y = line;
        self.pixel_fifo.map_x = self.pixel_fifo.fetch_x.wrapping_add(self.lcd.scroll_x);
        self.pixel_fifo.tile_y = (line % 8) * 2;

        if self.line_ticks % 2 == 0 {
            // Even line
            self.pipeline_fetch();
        }
        self.pipeline_push_pixel();
    }

    /// Collects the objects of the line that overlap the tile at the
    /// fetcher's column, three at most.
    fn pipeline_load_sprite_tile(&mut self)
        requires
            old(self)@.fetched_entries.len() == 0,
        ensures
            final(self)@ == (PpuView {
                fetched_entries: collect_sprites(
                    old(self)@.line_sprites,
                    old(self)@.line_sprites.len(),
                    old(self)@.pixel_fifo.fetch_x,
                    old(self)@.lcd.scroll_x,
                ),
                ..old(self)@
            }),
            final(self)@.fetched_entries.len() <= 3,
    {
        let ghost start = self@;
        let fetch_x = self.pixel_fifo.fetch_x as u16;
        let fine = self.lcd.scroll_x % 8;
        let mut k: usize = 0;
        proof {
            assert(self@.fetched_entries =~= Seq::empty());
        }
        while k < self.line_sprites.len()
            invariant
                k <= start.line_sprites.len(),
                fetch_x == start.pixel_fifo.fetch_x,
                fine == start.lcd.scroll_x % 8,
                self@ == (PpuView {
                    fetched_entries: collect_sprites(
                        start.line_sprites,
                        k as nat,
                        start.pixel_fifo.fetch_x,
                        start.lcd.scroll_x,
                    ),
                    ..start
                }),
                self@.fetched_entries.len() <= 3,
            decreases start.line_sprites.len() - k,
        {
            let entry = self.line_sprites[k];
            let sp_x = entry.x.wrapping_sub(8).wrapping_add(fine) as u16;

            // Max checking 3 sprites per pixel
            if self.fetched_entries.len() < 3 && ((sp_x >= fetch_x && sp_x < fetch_x + 8) || (sp_x + 8 >= fetch_x
                && sp_x + 8 < fetch_x + 8)) {
                self.fetched_entries.push(entry);
            }
            k += 1;
        }
    }

    /// Reads the low (`offset` 0) or high (`offset` 1) byte of the line of
    /// each collected object.
    fn pipeline_load_sprite_data(&mut self, offset: usize)
        requires
            old(self)@.wf(),
            offset <= 1,
        ensures
            final(self)@ == old(self)@.with_fifo(
                FifoView {
                    fetch_entry_data: old(self)@.spec_sprite_data(offset as int),
                    ..old(self)@.pixel_fifo
                },
            ),
    {
        proof {
            lemma_byte_bits();
        }
        let ly = self.lcd.ly;
        let sprite_height = self.lcd.get_sprite_height();
        let ghost start = self@;
        let mut i: usize = 0;
        proof {
            assert(self@.pixel_fifo.fetch_entry_data =~= Seq::new(
                6,
                |k: int|
                    if k % 2 == offset as int && k / 2 < 0 {
                        start.spec_sprite_data(offset as int)[k]
                    } else {
                        start.pixel_fifo.fetch_entry_data[k]
                    },
            ));
        }

        while i < self.fetched_entries.len()
            invariant
                i <= start.fetched_entries.len(),
                start.wf(),
                offset <= 1,
                ly == start.lcd.ly,
                sprite_height == start.lcd.spec_sprite_height(),
                self@ == start.with_fifo(
                    FifoView {
                        fetch_entry_data: Seq::new(
                            6,
                            |k: int|
                                if k % 2 == offset as int && k / 2 < i {
                                    start.spec_sprite_data(offset as int)[k]
                                } else {
                                    start.pixel_fifo.fetch_entry_data[k]
                                },
                        ),
                        ..start.pixel_fifo
                    },
                ),
            decreases start.fetched_entries.len() - i,
        {
            let entry = self.fetched_entries[i];
            proof {
                lemma_byte_bits();
            }
            let mut ty: u8 = ly.wrapping_add(16).wrapping_sub(entry.y).wrapping_mul(2);

            if entry.flags & Sprite::Y_FLIP != 0 {
                ty = (2 * sprite_height - 2).wrapping_sub(ty);
            }
            let mut tile_index = entry.tile_index;

            if sprite_height == 16 {
                tile_index = tile_index & 0xFE;  // Remove last bit
            }
            let address: u16 = 0x8000 + (tile_index as u16) * 16 + (ty as u16) + (offset as u16);
            assert(address as int == entry.data_address(ly, sprite_height) + offset);
            let value = self.vram_read(address);
            let ghost before = self@.pixel_fifo.fetch_entry_data;
            let slot: usize = (i * 2) + offset;
            assert(slot as int % 2 == offset as int && slot as int / 2 == i as int);
            self.pixel_fifo.fetch_entry_data[slot] = value;
            proof {
                assert(before.len() == 6);
                assert(value == start.spec_sprite_data(offset as int)[slot as int]);
                assert(self@.pixel_fifo.fetch_entry_data == before.update(slot as int, value));
                let target = Seq::new(
                    6,
                    |k: int|
                        if k % 2 == offset as int && k / 2 < i + 1 {
                            start.spec_sprite_data(offset as int)[k]
                        } else {
                            start.pixel_fifo.fetch_entry_data[k]
                        },
                );
                assert(self@.pixel_fifo.fetch_entry_data =~= target);
            }
            i += 1;
        }
        proof {
            assert(self@.pixel_fifo.fetch_entry_data =~= start.spec_sprite_data(offset as int));
        }
    }

    /// Takes the tile from the window's map where the window covers the
    /// fetcher's column.
    fn pipeline_load_window_tile(&mut self)
        requires
            old(self)@.wf(),
        ensures
            final(self)@ == (if old(self)@.window_covers() {
                old(self)@.with_fifo(
                    FifoView {
                        bgw_fetch_data: old(self)@.pixel_fifo.bgw_fetch_data.update(
                            0,
                            remap_tile(
                                old(self)@.vram_byte(old(self)@.window_tile_address()),
                                old(self)@.lcd.spec_bgw_data_area(),
                            ),
                        ),
                        ..old(self)@.pixel_fifo
                    },
                )
            } else {
                old(self)@
            }),
    {
        if !self.lcd.is_window_visible() {
            return;
        }
        let column = self.pixel_fifo.fetch_x.wrapping_add(7);

        if column >= self.lcd.win_x && (column as u16) < (self.lcd.win_x as u16) + (YRES as u16) + 14 && self.lcd.ly
            >= self.lcd.win_y && (self.lcd.ly as u16) < (self.lcd.win_y as u16) + (XRES as u16) {
            let window_tile_y = (self.window_line as u16) / 8;
            let address = self.lcd.get_win_map_area() + ((column.wrapping_sub(self.lcd.win_x) / 8) as u16) + (
            window_tile_y * 32);
            let mut tile = self.vram_read(address);

            if self.lcd.get_bgw_data_area() == 0x8800 {
                // Load from the second tile set data
                // Here we convert from negative to positive indices, -128 is 0
                tile = tile.wrapping_add(128);
            }
            self.pixel_fifo.bgw_fetch_data[0] = tile;
        }
    }

    fn pipeline_fetch(&mut self)
        requires
            old(self)@.wf(),
        ensures
            final(self)@ == old(self)@.spec_pipeline_fetch(),
            final(self)@.lcd == old(self)@.lcd,
            final(self)@.pixel_fifo.pushed_x == old(self)@.pixel_fifo.pushed_x,
            final(self)@.wf(),
    {
        match self.pixel_fifo.fetch_state {
            FetchState::Tile => {
                let ghost start = self@;
                self.fetched_entries.clear();

                if self.lcd.lcdc.bg_window_enable {
                    let address = self.lcd.get_bg_map_area() + ((self.pixel_fifo.map_x as u16) / 8) + (((
                    self.pixel_fifo.map_y as u16) / 8) * 32);
                    let mut tile = self.vram_read(address);

                    if self.lcd.get_bgw_data_area() == 0x8800 {
                        // Load from the second tile set data
                        // Here we convert from negative to positive indices, -128 is 0
                        tile = tile.wrapping_add(128);
                    }
                    self.pixel_fifo.bgw_fetch_data[0] = tile;

                    self.pipeline_load_window_tile();
                }
                if self.lcd.lcdc.obj_enable && self.line_sprites.len() > 0 {
                    self.pipeline_load_sprite_tile();
                }
                self.pixel_fifo.fetch_state = FetchState::DataLow;
                self.pixel_fifo.fetch_x = self.pixel_fifo.fetch_x.wrapping_add(8);
                proof {
                    assert(self@.pixel_fifo.bgw_fetch_data =~= start.spec_fetch_tile().pixel_fifo.bgw_fetch_data);
                    assert(self@.fetched_entries =~= start.spec_fetch_tile().fetched_entries);
                }
            },
            FetchState::DataLow => {
                let address = self.lcd.get_bgw_data_area() + ((self.pixel_fifo.bgw_fetch_data[0] as u16) * 16) + (
                self.pixel_fifo.tile_y as u16);
                let value = self.vram_read(address);
                self.pipeline_load_sprite_data(0);
                self.pixel_fifo.bgw_fetch_data[1] = value;

                self.pixel_fifo.fetch_state = FetchState::DataHigh;
            },
            FetchState::DataHigh => {
                let address = self.lcd.get_bgw_data_area() + ((self.pixel_fifo.bgw_fetch_data[0] as u16) * 16) + (
                self.pixel_fifo.tile_y as u16) + 1;
                let value = self.vram_read(address);
                self.pipeline_load_sprite_data(1);
                self.pixel_fifo.bgw_fetch_data[2] = value;

                self.pixel_fifo.fetch_state = FetchState::Idle;
            },
            FetchState::Idle => {
                self.pixel_fifo.fetch_state = FetchState::Push;
            },
            FetchState::Push => {
                if self.pipeline_fifo_add() {
                    self.pixel_fifo.fetch_state = FetchState::Tile;
                }
            },
        }
    }

    fn pipeline_push_pixel(&mut self)
        requires
            old(self)@.wf(),
            old(self)@.lcd.lcds.mode == LcdMode::XFER,
        ensures
            final(self)@ == old(self)@.spec_push_pixel(),
            final(self)@.pixel_fifo.pushed_x <= 160,
    {
        if self.pixel_fifo.fifo.len() > 8 {
            // 8 pixels are required for the Pixel Rendering operation to take place
            let pixel_data = self.pixel_fifo.fifo.pop_front().unwrap();

            if self.pixel_fifo.line_x >= (self.lcd.scroll_x % 8) {
                let pixel_index = (self.pixel_fifo.pushed_x as usize) + ((self.lcd.ly as usize) * XRES);
                self.video_buffer[pixel_index] = pixel_data;
                self.pixel_fifo.pushed_x += 1;
            }
            self.pixel_fifo.line_x = self.pixel_fifo.line_x.wrapping_add(1);
        }
    }

    fn pipeline_fifo_add(&mut self) -> (queued: bool)
        requires
            old(self)@.wf(),
        ensures
            (final(self)@, queued) == old(self)@.spec_fifo_add(),
    {
        if self.pixel_fifo.fifo.len() > 8 {
            // Pixel FIFO is full
            return false;
        }
        let fine: u8 = 8 - (self.lcd.scroll_x % 8);
        let on_line = self.pixel_fifo.fetch_x >= fine;
        let ghost start = self@;
        let mut i: u8 = 0;

        while i < 8
            invariant
                i <= 8,
                start.wf(),
                start.pixel_fifo.fifo.len() <= 8,
                on_line == start.tile_on_line(),
                self@ == (if on_line {
                    start.with_fifo(
                        FifoView {
                            fifo: start.pixel_fifo.fifo + Seq::new(
                                i as nat,
                                |j: int| start.spec_composed_pixel(j, start.pixel_fifo.fifo_x.wrapping_add(j as u8)),
                            ),
                            fifo_x: start.pixel_fifo.fifo_x.wrapping_add(i),
                            ..start.pixel_fifo
                        },
                    )
                } else {
                    start
                }),
            decreases 8 - i,
        {
            let bit: u8 = 7 - i;
            let lo: usize = if is_bit_set(self.pixel_fifo.bgw_fetch_data[1], bit) { 1 } else { 0 };
            let hi: usize = if is_bit_set(self.pixel_fifo.bgw_fetch_data[2], bit) { 2 } else { 0 };
            let color_index = hi + lo;
            let mut color = self.lcd.bg_colors.color(color_index);

            if !self.lcd.lcdc.bg_window_enable {
                color = self.lcd.bg_colors.color(0);
            }
            if self.lcd.lcdc.obj_enable {
                color = self.fetch_sprite_pixels(color_index, color);
            }
            if on_line {
                let ghost before = self@.pixel_fifo.fifo;
                self.pixel_fifo.fifo.push_back(color);
                self.pixel_fifo.fifo_x = self.pixel_fifo.fifo_x.wrapping_add(1);
                proof {
                    assert(self@.pixel_fifo.fifo =~= start.pixel_fifo.fifo + Seq::new(
                        (i + 1) as nat,
                        |j: int| start.spec_composed_pixel(j, start.pixel_fifo.fifo_x.wrapping_add(j as u8)),
                    ));
                }
            }
            i += 1;
        }
        true
    }

    /// The colour that the collected objects give to the pixel that is
    /// queued next, over a background pixel of the given colour index and
    /// colour.
    fn fetch_sprite_pixels(&self, bg_color_index: usize, default_color: u32) -> (color: u32)
        requires
            self@.wf(),
        ensures
            color == sprite_pixel(
                self@.fetched_entries,
                self@.pixel_fifo.fetch_entry_data,
                self@.lcd,
                0,
                bg_color_index as int,
                default_color,
                self@.pixel_fifo.fifo_x,
            ),
    {
        proof {
            lemma_byte_bits();
        }
        let fifo_x = self.pixel_fifo.fifo_x;
        let fine = self.lcd.scroll_x % 8;
        let mut i: usize = 0;
        while i < self.fetched_entries.len()
            invariant
                i <= self@.fetched_entries.len(),
                self@.wf(),
                fifo_x == self@.pixel_fifo.fifo_x,
                fine == self@.lcd.scroll_x % 8,
                sprite_pixel(
                    self@.fetched_entries,
                    self@.pixel_fifo.fetch_entry_data,
                    self@.lcd,
                    0,
                    bg_color_index as int,
                    default_color,
                    fifo_x,
                ) == sprite_pixel(
                    self@.fetched_entries,
                    self@.pixel_fifo.fetch_entry_data,
                    self@.lcd,
                    i as nat,
                    bg_color_index as int,
                    default_color,
                    fifo_x,
                ),
            decreases self@.fetched_entries.len() - i,
        {
            let entry = self.fetched_entries[i];
            let sp_x = entry.x.wrapping_sub(8).wrapping_add(fine);
            let offset = fifo_x.wrapping_sub(sp_x);
            proof {
                lemma_byte_bits();
            }

            // The object is passed already, or not reached yet
            if (sp_x as u16) + 8 >= (fifo_x as u16) && offset <= 7 {
                let mut bit: u8 = 7 - offset;

                if entry.flags & Sprite::X_FLIP != 0 {
                    bit = offset;
                }
                let lo: usize = if is_bit_set(self.pixel_fifo.fetch_entry_data[i * 2], bit) { 1 } else { 0 };
                let hi: usize = if is_bit_set(self.pixel_fifo.fetch_entry_data[i * 2 + 1], bit) { 2 } else { 0 };
                let color_index = hi + lo;
                let bg_priority = entry.flags & Sprite::PRIORITY != 0;

                // Colour index 0 is transparent
                if color_index != 0 && (!bg_priority || bg_color_index == 0) {
                    return if entry.flags & Sprite::DMG_PALETTE != 0 {
                        self.lcd.sp1_colors.color(color_index)
                    } else {
                        self.lcd.sp0_colors.color(color_index)
                    };
                }
            }
            i += 1;
        }
        default_color
    }

    /// Ends a line. `LY` becomes `(LY + 1) mod 154`; bit 2 of `STAT` is set
    /// if the new `LY` equals `LYC` and cleared if not; the status interrupt
    /// is raised on `ctx` exactly when the two are equal and bit 6 of `STAT`
    /// is set; and the window's line counter goes up by one if the window
    /// was shown on the line that ends. Nothing else changes.
    #[verifier::rlimit(50)]
    pub fn increment_ly<I: InterruptRequest>(&mut self, ctx: &mut I)
        requires
            old(self)@.window_line < 255,
        ensures
            final(self)@ == old(self)@.spec_increment_ly().0,
            final(self)@.lcd.ly == (old(self)@.lcd.ly + 1) % 154,
            final(self)@.lcd.lcds.lyc_equal_ly == (final(self)@.lcd.ly == old(self)@.lcd.lyc),
            final(self)@.window_line == old(self)@.window_line + (if old(self)@.window_on_line() {
                1int
            } else {
                0int
            }),
            *final(ctx) == (if final(self)@.lcd.ly == old(self)@.lcd.lyc && old(self)@.lcd.lcds.lyc_int_select {
                old(ctx).raised(InterruptFlag::spec_lcd())
            } else {
                *old(ctx)
            }),
    {
        let on_line = self.lcd.is_window_visible() && self.lcd.ly >= self.lcd.win_y && (self.lcd.ly as u16) < (
        self.lcd.win_y as u16) + 144;
        // LY wraps after the last line of the frame
        let ly: u8 = (((self.lcd.ly as u32) + 1) % LINES_PER_FRAME) as u8;
        let equal = ly == self.lcd.lyc;
        let ghost start = self@;

        if on_line {
            self.window_line += 1;
        }
        self.lcd.ly = ly;
        self.lcd.lcds.lyc_equal_ly = equal;
        assert(self@.lcd == start.spec_increment_ly().0.lcd);
        assert(self@ == (PpuView { lcd: self@.lcd, window_line: self@.window_line, ..start }));

        if equal && self.lcd.lcds.lyc_int_select {
            ctx.request_interrupt(InterruptFlag::lcd());
        }
    }
}

impl Default for PPU {
    fn default() -> (ppu: PPU)
        ensures
            ppu@ == PpuView::spec_new(),
    {
        PPU::new()
    }
}

impl Sprite {
    pub fn new() -> (sprite: Sprite)
        ensures
            sprite == (Sprite { y: 0, x: 0, tile_index: 0, flags: 0 }),
    {
        Sprite { y: 0, x: 0, tile_index: 0, flags: 0 }
    }
}

impl Default for Sprite {
    fn default() -> (sprite: Sprite)
        ensures
            sprite == (Sprite { y: 0, x: 0, tile_index: 0, flags: 0 }),
    {
        Sprite::new()
    }
}

/// Whether a list of objects is in ascending order of column.
pub open spec fn sorted_by_x(list: Seq<Sprite>) -> bool {
    forall|i: int, j: int| 0 <= i < j < list.len() ==> list[i].x <= list[j].x
}

/// The place at which an object goes into a list: no object from `from` up
/// to the place has a greater column, and the object at the place has one.
pub proof fn lemma_insert_position(list: Seq<Sprite>, x: u8, from: nat)
    requires
        from <= list.len(),
    ensures
        from <= insert_position(list, x, from) <= list.len(),
        forall|i: int| from <= i < insert_position(list, x, from) ==> list[i].x <= x,
        insert_position(list, x, from) < list.len() ==> list[insert_position(list, x, from) as int].x > x,
    decreases list.len() - from,
{
    if from < list.len() && list[from as int].x <= x {
        lemma_insert_position(list, x, from + 1);
    }
}

/// An object that is put into a sorted list at its place leaves the list
/// sorted, and stands behind the objects of its own column.
pub proof fn lemma_insert_keeps_sorted(list: Seq<Sprite>, sprite: Sprite)
    requires
        sorted_by_x(list),
    ensures
        sorted_by_x(list.insert(insert_position(list, sprite.x, 0) as int, sprite)),
        forall|i: int|
            0 <= i < list.len() && list[i].x == sprite.x ==> i < insert_position(list, sprite.x, 0),
{
    lemma_insert_position(list, sprite.x, 0);
    let place = insert_position(list, sprite.x, 0) as int;
    let after = list.insert(place, sprite);
    assert forall|i: int, j: int| 0 <= i < j < after.len() implies after[i].x <= after[j].x by {
        if j < place {
            assert(after[i] == list[i] && after[j] == list[j]);
        } else if j == place {
            assert(after[i] == list[i]);
        } else if i < place {
            assert(after[i] == list[i] && after[j] == list[j - 1]);
            if place < list.len() {
                assert(list[place].x <= list[j - 1].x || place == j - 1);
            }
        } else if i == place {
            assert(after[j] == list[j - 1]);
            assert(list[place].x <= list[j - 1].x || place == j - 1);
        } else {
            assert(after[i] == list[i - 1] && after[j] == list[j - 1]);
        }
    }
    assert forall|i: int| 0 <= i < list.len() && list[i].x == sprite.x implies i < place by {
        if i >= place {
            assert(list[place].x <= list[i].x || place == i);
        }
    }
}

/// The objects of a line are at most ten, stand in ascending order of
/// column, and each of them is an entry of object attribute memory that is
/// on the line.
pub proof fn lemma_line_sprites(oam: Seq<Sprite>, n: nat, ly: u8, height: u8)
    requires
        n <= oam.len(),
    ensures
        ({
            let line = scan_sprites(Seq::empty(), oam, n, ly, height);
            &&& line.len() <= 10
            &&& line.len() <= n
            &&& sorted_by_x(line)
            &&& forall|k: int|
                0 <= k < line.len() ==> (#[trigger] line[k]).on_line(ly, height) && exists|e: int|
                    0 <= e < n && oam[e] == line[k]
        }),
    decreases n,
{
    if n > 0 {
        lemma_line_sprites(oam, (n - 1) as nat, ly, height);
        let before = scan_sprites(Seq::empty(), oam, (n - 1) as nat, ly, height);
        let sprite = oam[n - 1];
        if before.len() < 10 && sprite.on_line(ly, height) {
            lemma_insert_keeps_sorted(before, sprite);
            lemma_insert_position(before, sprite.x, 0);
            let place = insert_position(before, sprite.x, 0) as int;
            let line = before.insert(place, sprite);
            assert forall|k: int| 0 <= k < line.len() implies (#[trigger] line[k]).on_line(ly, height)
                && exists|e: int| 0 <= e < n && oam[e] == line[k] by {
                if k < place {
                    assert(line[k] == before[k]);
                    let e = choose|e: int| 0 <= e < n - 1 && oam[e] == before[k];
                    assert(oam[e] == line[k]);
                } else if k == place {
                    assert(oam[n - 1] == line[k]);
                } else {
                    assert(line[k] == before[k - 1]);
                    let e = choose|e: int| 0 <= e < n - 1 && oam[e] == before[k - 1];
                    assert(oam[e] == line[k]);
                }
            }
        } else {
            let line = before;
            assert forall|k: int| 0 <= k < line.len() implies (#[trigger] line[k]).on_line(ly, height)
                && exists|e: int| 0 <= e < n && oam[e] == line[k] by {
                let e = choose|e: int| 0 <= e < n - 1 && oam[e] == before[k];
                assert(oam[e] == line[k]);
            }
        }
    }
}

/// A dot changes neither video RAM nor object attribute memory.
pub proof fn lemma_tick_keeps_memory_of_unit(v: PpuView)
    ensures
        v.spec_tick().0.vram == v.vram,
        v.spec_tick().0.oam == v.oam,
{
    let p = PpuView { line_ticks: v.line_ticks.wrapping_add(1), ..v };
    match p.lcd.lcds.mode {
        LcdMode::XFER => {
            let f = p.pixel_fifo;
            let lined = p.with_fifo(
                FifoView {
                    map_y: p.lcd.ly.wrapping_add(p.lcd.scroll_y),
                    map_x: f.fetch_x.wrapping_add(p.lcd.scroll_x),
                    tile_y: ((p.lcd.ly.wrapping_add(p.lcd.scroll_y) % 8) * 2) as u8,
                    ..f
                },
            );
            assert(lined.spec_pipeline_fetch().vram == v.vram);
            assert(lined.spec_pipeline_fetch().oam == v.oam);
        },
        _ => {},
    }
}

} // verus!
