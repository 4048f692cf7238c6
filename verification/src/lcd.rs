//! The registers of the display: control, status, scroll and window
//! positions, the scanline counter, and the three palettes.

use vstd::prelude::*;
use crate::bits::{byte_of_bits, has_bit, lemma_byte_of_bits};
use crate::bus::HardwareRegister;

verus! {

/// The four shades, from white to black, as ARGB.
pub const DEFAULT_COLORS: [u32; 4] = [0xFFFFFFFF, 0xFFAAAAAA, 0xFF555555, 0xFF000000];

/// The number of lines of the screen.
pub const YRES: usize = 144;

/// The number of pixels of a line.
pub const XRES: usize = 160;

/// The shade with the given number, which its low two bits give.
pub open spec fn default_color(index: int) -> u32 {
    let i = index % 4;
    if i == 0 {
        0xFFFFFFFF
    } else if i == 1 {
        0xFFAAAAAA
    } else if i == 2 {
        0xFF555555
    } else {
        0xFF000000
    }
}

/// The display control register `LCDC`, bit 7 first.
#[derive(Copy, Clone, Debug, PartialEq, Eq, Structural)]
pub struct LcdControl {
    /// Bit 7: the display is on.
    pub lcd_ppu_enable: bool,
    /// Bit 6: the window's tile map is at `0x9C00`, not at `0x9800`.
    pub window_tile_map_area: bool,
    /// Bit 5: the window is shown.
    pub window_enable: bool,
    /// Bit 4: background and window tiles are at `0x8000`, not at `0x8800`.
    pub bg_window_tile_data_area: bool,
    /// Bit 3: the background's tile map is at `0x9C00`, not at `0x9800`.
    pub bg_tile_map_area: bool,
    /// Bit 2: objects are sixteen lines high, not eight.
    pub obj_size: bool,
    /// Bit 1: objects are shown.
    pub obj_enable: bool,
    /// Bit 0: background and window are shown.
    pub bg_window_enable: bool,
}

impl LcdControl {
    pub open spec fn spec_bits(self) -> u8 {
        byte_of_bits(
            self.lcd_ppu_enable,
            self.window_tile_map_area,
            self.window_enable,
            self.bg_window_tile_data_area,
            self.bg_tile_map_area,
            self.obj_size,
            self.obj_enable,
            self.bg_window_enable,
        )
    }

    pub open spec fn spec_from_bits(bits: u8) -> LcdControl {
        LcdControl {
            lcd_ppu_enable: bits >= 128,
            window_tile_map_area: has_bit(bits as int, 64),
            window_enable: has_bit(bits as int, 32),
            bg_window_tile_data_area: has_bit(bits as int, 16),
            bg_tile_map_area: has_bit(bits as int, 8),
            obj_size: has_bit(bits as int, 4),
            obj_enable: has_bit(bits as int, 2),
            bg_window_enable: bits % 2 == 1,
        }
    }

    pub fn from_bits_truncate(bits: u8) -> (control: LcdControl)
        ensures
            control == LcdControl::spec_from_bits(bits),
            control.spec_bits() == bits,
    {
        proof {
            lemma_byte_of_bits(bits);
        }
        LcdControl {
            lcd_ppu_enable: bits & 0x80 != 0,
            window_tile_map_area: bits & 0x40 != 0,
            window_enable: bits & 0x20 != 0,
            bg_window_tile_data_area: bits & 0x10 != 0,
            bg_tile_map_area: bits & 0x08 != 0,
            obj_size: bits & 0x04 != 0,
            obj_enable: bits & 0x02 != 0,
            bg_window_enable: bits & 0x01 != 0,
        }
    }

    #[verifier::when_used_as_spec(spec_bits)]
    pub fn bits(self) -> (b: u8)
        ensures
            b == self.spec_bits(),
    {
        let b7: u8 = if self.lcd_ppu_enable { 0x80 } else { 0 };
        let b6: u8 = if self.window_tile_map_area { 0x40 } else { 0 };
        let b5: u8 = if self.window_enable { 0x20 } else { 0 };
        let b4: u8 = if self.bg_window_tile_data_area { 0x10 } else { 0 };
        let b3: u8 = if self.bg_tile_map_area { 0x08 } else { 0 };
        let b2: u8 = if self.obj_size { 0x04 } else { 0 };
        let b1: u8 = if self.obj_enable { 0x02 } else { 0 };
        let b0: u8 = if self.bg_window_enable { 0x01 } else { 0 };
        b7 + b6 + b5 + b4 + b3 + b2 + b1 + b0
    }
}

/// What the display is doing on the current line.
#[derive(Copy, Clone, Debug, PartialEq, Eq, Structural)]
pub enum LcdMode {
    /// Mode 0: the rest of a line, after its pixels are out.
    HBLANK,
    /// Mode 1: the ten lines after the last line of the screen.
    VBLANK,
    /// Mode 2: the objects of the line are looked up.
    OAM,
    /// Mode 3: the pixels of the line are put out.
    XFER,
}

impl LcdMode {
    /// The number of the mode.
    pub open spec fn spec_number(self) -> u8 {
        match self {
            LcdMode::HBLANK => 0,
            LcdMode::VBLANK => 1,
            LcdMode::OAM => 2,
            LcdMode::XFER => 3,
        }
    }

    /// The mode with the number that the low two bits of `value` give.
    pub open spec fn spec_from_number(value: u8) -> LcdMode {
        if value % 4 == 0 {
            LcdMode::HBLANK
        } else if value % 4 == 1 {
            LcdMode::VBLANK
        } else if value % 4 == 2 {
            LcdMode::OAM
        } else {
            LcdMode::XFER
        }
    }

    #[verifier::when_used_as_spec(spec_number)]
    pub fn number(self) -> (n: u8)
        ensures
            n == self.spec_number(),
            n < 4,
    {
        match self {
            LcdMode::HBLANK => 0,
            LcdMode::VBLANK => 1,
            LcdMode::OAM => 2,
            LcdMode::XFER => 3,
        }
    }
}

impl From<u8> for LcdMode {
    /// The mode whose number the low two bits of `value` give.
    fn from(value: u8) -> (mode: LcdMode) {
        match value % 4 {
            0 => LcdMode::HBLANK,
            1 => LcdMode::VBLANK,
            2 => LcdMode::OAM,
            _ => LcdMode::XFER,
        }
    }
}

impl vstd::std_specs::convert::FromSpecImpl<u8> for LcdMode {
    open spec fn obeys_from_spec() -> bool {
        true
    }

    open spec fn from_spec(value: u8) -> LcdMode {
        LcdMode::spec_from_number(value)
    }
}

/// The display status register `STAT`. Bits 6 to 3 select what raises the
/// status interrupt; bit 2 tells whether `LY` equals `LYC`, and bits 1 and 0
/// give the mode. Only the display itself changes the low three bits.
#[derive(Copy, Clone, Debug, PartialEq, Eq, Structural)]
pub struct LcdStatus {
    pub lyc_int_select: bool,
    pub oam_int_select: bool,
    pub vblank_int_select: bool,
    pub hblank_int_select: bool,
    pub lyc_equal_ly: bool,
    pub mode: LcdMode,
}

impl LcdStatus {
    pub open spec fn spec_bits(self) -> u8 {
        byte_of_bits(
            false,
            self.lyc_int_select,
            self.oam_int_select,
            self.vblank_int_select,
            self.hblank_int_select,
            self.lyc_equal_ly,
            self.mode.spec_number() >= 2,
            self.mode.spec_number() % 2 == 1,
        )
    }

    /// The status after `bits` has been written to it: the four selects are
    /// taken from `bits`, the rest stays.
    pub open spec fn spec_written(self, bits: u8) -> LcdStatus {
        LcdStatus {
            lyc_int_select: has_bit(bits as int, 64),
            oam_int_select: has_bit(bits as int, 32),
            vblank_int_select: has_bit(bits as int, 16),
            hblank_int_select: has_bit(bits as int, 8),
            ..self
        }
    }

    #[verifier::when_used_as_spec(spec_bits)]
    pub fn bits(self) -> (b: u8)
        ensures
            b == self.spec_bits(),
            b % 4 == self.mode.spec_number(),
    {
        let b6: u8 = if self.lyc_int_select { 0x40 } else { 0 };
        let b5: u8 = if self.oam_int_select { 0x20 } else { 0 };
        let b4: u8 = if self.vblank_int_select { 0x10 } else { 0 };
        let b3: u8 = if self.hblank_int_select { 0x08 } else { 0 };
        let b2: u8 = if self.lyc_equal_ly { 0x04 } else { 0 };
        b6 + b5 + b4 + b3 + b2 + self.mode.number()
    }

    /// Takes the four selects from `bits` and leaves the rest.
    pub fn written(self, bits: u8) -> (status: LcdStatus)
        ensures
            status == self.spec_written(bits),
    {
        proof {
            lemma_byte_of_bits(bits);
        }
        LcdStatus {
            lyc_int_select: bits & 0x40 != 0,
            oam_int_select: bits & 0x20 != 0,
            vblank_int_select: bits & 0x10 != 0,
            hblank_int_select: bits & 0x08 != 0,
            lyc_equal_ly: self.lyc_equal_ly,
            mode: self.mode,
        }
    }
}

/// Four colours, one for each of the four colour indices of a pixel.
#[derive(Copy, Clone, Debug, PartialEq, Eq, Structural)]
pub struct Palette {
    pub c0: u32,
    pub c1: u32,
    pub c2: u32,
    pub c3: u32,
}

impl Palette {
    /// The colour of the slot that the low two bits of `index` name.
    pub open spec fn spec_color(self, index: int) -> u32 {
        let i = index % 4;
        if i == 0 {
            self.c0
        } else if i == 1 {
            self.c1
        } else if i == 2 {
            self.c2
        } else {
            self.c3
        }
    }

    /// The palette that the byte `indices` selects: slot `i` holds the shade
    /// whose number is in bits `2i + 1` and `2i` of the byte.
    pub open spec fn spec_from_indices(indices: u8) -> Palette {
        Palette {
            c0: default_color(indices as int),
            c1: default_color(indices as int / 4),
            c2: default_color(indices as int / 16),
            c3: default_color(indices as int / 64),
        }
    }

    /// The four shades in their order.
    pub open spec fn spec_default() -> Palette {
        Palette { c0: 0xFFFFFFFF, c1: 0xFFAAAAAA, c2: 0xFF555555, c3: 0xFF000000 }
    }

    pub fn color(&self, index: usize) -> (color: u32)
        requires
            index < 4,
        ensures
            color == self.spec_color(index as int),
    {
        match index {
            0 => self.c0,
            1 => self.c1,
            2 => self.c2,
            _ => self.c3,
        }
    }

    pub fn from_indices(indices: u8) -> (palette: Palette)
        ensures
            palette == Palette::spec_from_indices(indices),
    {
        proof {
            lemma_palette_bits(indices);
        }
        Palette {
            c0: DEFAULT_COLORS[(indices & 0b11) as usize],
            c1: DEFAULT_COLORS[((indices >> 2) & 0b11) as usize],
            c2: DEFAULT_COLORS[((indices >> 4) & 0b11) as usize],
            c3: DEFAULT_COLORS[((indices >> 6) & 0b11) as usize],
        }
    }
}

proof fn lemma_palette_bits(b: u8)
    by (bit_vector)
    ensures
        b & 0b11 == b % 4,
        (b >> 2u8) & 0b11 == (b / 4) % 4,
        (b >> 4u8) & 0b11 == (b / 16) % 4,
        (b >> 6u8) & 0b11 == (b / 64) % 4,
        b & 0b1111_1100 == b - b % 4,
{
}

/// The three palettes of the display.
#[derive(Copy, Clone, Debug, PartialEq, Eq, Structural)]
enum PaletteKind {
    Background,
    Object0,
    Object1,
}

pub struct LCD {
    pub lcdc: LcdControl,
    pub lcds: LcdStatus,
    pub scroll_x: u8,
    pub scroll_y: u8,
    pub ly: u8,
    pub lyc: u8,
    pub dma: u8,
    pub bg_palette: u8,
    pub obj_palette0: u8,
    pub obj_palette1: u8,
    pub win_x: u8,
    pub win_y: u8,
    pub bg_colors: Palette,
    pub sp0_colors: Palette,
    pub sp1_colors: Palette,
}

impl Default for LCD {
    fn default() -> (lcd: LCD)
        ensures
            lcd == LCD::spec_new(),
    {
        LCD::new()
    }
}

impl LCD {
    /// The display registers when the boot program has run.
    pub open spec fn spec_new() -> LCD {
        LCD {
            lcdc: LcdControl::spec_from_bits(0x91),
            lcds: LcdStatus {
                lyc_int_select: false,
                oam_int_select: false,
                vblank_int_select: false,
                hblank_int_select: false,
                lyc_equal_ly: false,
                mode: LcdMode::HBLANK,
            },
            scroll_x: 0,
            scroll_y: 0,
            ly: 0,
            lyc: 0,
            dma: 0,
            bg_palette: 0xFC,
            obj_palette0: 0xFF,
            obj_palette1: 0xFF,
            win_x: 0,
            win_y: 0,
            bg_colors: Palette::spec_default(),
            sp0_colors: Palette::spec_default(),
            sp1_colors: Palette::spec_default(),
        }
    }

    pub open spec fn spec_get_mode(&self) -> LcdMode {
        self.lcds.mode
    }

    /// Where the tile map of the background is.
    pub open spec fn spec_bg_map_area(&self) -> u16 {
        if self.lcdc.bg_tile_map_area {
            0x9C00
        } else {
            0x9800
        }
    }

    /// Where the tile map of the window is.
    pub open spec fn spec_win_map_area(&self) -> u16 {
        if self.lcdc.window_tile_map_area {
            0x9C00
        } else {
            0x9800
        }
    }

    /// Where the tiles of background and window are.
    pub open spec fn spec_bgw_data_area(&self) -> u16 {
        if self.lcdc.bg_window_tile_data_area {
            0x8000
        } else {
            0x8800
        }
    }

    /// The height of an object, in lines.
    pub open spec fn spec_sprite_height(&self) -> u8 {
        if self.lcdc.obj_size {
            16
        } else {
            8
        }
    }

    /// Whether the window can be seen: it is enabled and lies on the screen.
    pub open spec fn spec_is_window_visible(&self) -> bool {
        self.lcdc.window_enable && self.win_x <= 166 && self.win_y < 144
    }

    /// What a read of a display register gives.
    pub open spec fn spec_read(&self, register: HardwareRegister) -> u8
        recommends
            register.spec_is_lcd(),
    {
        match register {
            HardwareRegister::LCDC => self.lcdc.spec_bits(),
            HardwareRegister::STAT => self.lcds.spec_bits(),
            HardwareRegister::SCY => self.scroll_y,
            HardwareRegister::SCX => self.scroll_x,
            HardwareRegister::LY => self.ly,
            HardwareRegister::LYC => self.lyc,
            HardwareRegister::DMA => self.dma,
            HardwareRegister::BGP => self.bg_palette,
            HardwareRegister::OBP0 => self.obj_palette0,
            HardwareRegister::OBP1 => self.obj_palette1,
            HardwareRegister::WY => self.win_y,
            _ => self.win_x,
        }
    }

    /// The registers after a write. A write to `STAT` changes the four
    /// selects only, and a write to `LY` nothing. A write to a palette
    /// register sets the four colours of that palette; the object palettes
    /// take shade 0 for slot 0 whatever the byte says.
    pub open spec fn spec_write(self, register: HardwareRegister, value: u8) -> LCD
        recommends
            register.spec_is_lcd(),
            register != HardwareRegister::DMA,
    {
        match register {
            HardwareRegister::LCDC => LCD { lcdc: LcdControl::spec_from_bits(value), ..self },
            HardwareRegister::STAT => LCD { lcds: self.lcds.spec_written(value), ..self },
            HardwareRegister::SCY => LCD { scroll_y: value, ..self },
            HardwareRegister::SCX => LCD { scroll_x: value, ..self },
            HardwareRegister::LYC => LCD { lyc: value, ..self },
            HardwareRegister::BGP => LCD {
                bg_palette: value,
                bg_colors: Palette::spec_from_indices(value),
                ..self
            },
            HardwareRegister::OBP0 => LCD {
                obj_palette0: value,
                sp0_colors: Palette::spec_from_indices((value - value % 4) as u8),
                ..self
            },
            HardwareRegister::OBP1 => LCD {
                obj_palette1: value,
                sp1_colors: Palette::spec_from_indices((value - value % 4) as u8),
                ..self
            },
            HardwareRegister::WY => LCD { win_y: value, ..self },
            HardwareRegister::WX => LCD { win_x: value, ..self },
            _ => self,
        }
    }

    pub fn new() -> (lcd: LCD)
        ensures
            lcd == LCD::spec_new(),
    {
        LCD {
            lcdc: LcdControl::from_bits_truncate(0x91),
            lcds: LcdStatus {
                lyc_int_select: false,
                oam_int_select: false,
                vblank_int_select: false,
                hblank_int_select: false,
                lyc_equal_ly: false,
                mode: LcdMode::HBLANK,
            },
            scroll_x: 0,
            scroll_y: 0,
            ly: 0,
            lyc: 0,
            dma: 0,
            bg_palette: 0xFC,
            obj_palette0: 0xFF,
            obj_palette1: 0xFF,
            win_x: 0,
            win_y: 0,
            bg_colors: Palette { c0: 0xFFFFFFFF, c1: 0xFFAAAAAA, c2: 0xFF555555, c3: 0xFF000000 },
            sp0_colors: Palette { c0: 0xFFFFFFFF, c1: 0xFFAAAAAA, c2: 0xFF555555, c3: 0xFF000000 },
            sp1_colors: Palette { c0: 0xFFFFFFFF, c1: 0xFFAAAAAA, c2: 0xFF555555, c3: 0xFF000000 },
        }
    }

    #[verifier::when_used_as_spec(spec_get_mode)]
    pub fn get_mode(&self) -> (mode: LcdMode)
        ensures
            mode == self.lcds.mode,
    {
        self.lcds.mode
    }

    pub fn set_mode(&mut self, mode: LcdMode)
        ensures
            *final(self) == (LCD { lcds: LcdStatus { mode, ..old(self).lcds }, ..*old(self) }),
    {
        self.lcds.mode = mode;
    }

    #[verifier::when_used_as_spec(spec_bg_map_area)]
    pub fn get_bg_map_area(&self) -> (area: u16)
        ensures
            area == self.spec_bg_map_area(),
    {
        if self.lcdc.bg_tile_map_area {
            0x9C00
        } else {
            0x9800
        }
    }

    #[verifier::when_used_as_spec(spec_win_map_area)]
    pub fn get_win_map_area(&self) -> (area: u16)
        ensures
            area == self.spec_win_map_area(),
    {
        if self.lcdc.window_tile_map_area {
            0x9C00
        } else {
            0x9800
        }
    }

    #[verifier::when_used_as_spec(spec_bgw_data_area)]
    pub fn get_bgw_data_area(&self) -> (area: u16)
        ensures
            area == self.spec_bgw_data_area(),
    {
        if self.lcdc.bg_window_tile_data_area {
            0x8000
        } else {
            0x8800
        }
    }

    #[verifier::when_used_as_spec(spec_sprite_height)]
    pub fn get_sprite_height(&self) -> (height: u8)
        ensures
            height == self.spec_sprite_height(),
    {
        if self.lcdc.obj_size {
            16
        } else {
            8
        }
    }

    #[verifier::when_used_as_spec(spec_read)]
    pub fn read(&self, address: HardwareRegister) -> (value: u8)
        requires
            address.spec_is_lcd(),
        ensures
            value == self.spec_read(address),
    {
        match address {
            HardwareRegister::LCDC => self.lcdc.bits(),
            HardwareRegister::STAT => self.lcds.bits(),
            HardwareRegister::SCY => self.scroll_y,
            HardwareRegister::SCX => self.scroll_x,
            HardwareRegister::LY => self.ly,
            HardwareRegister::LYC => self.lyc,
            HardwareRegister::DMA => self.dma,
            HardwareRegister::BGP => self.bg_palette,
            HardwareRegister::OBP0 => self.obj_palette0,
            HardwareRegister::OBP1 => self.obj_palette1,
            HardwareRegister::WY => self.win_y,
            _ => self.win_x,
        }
    }

    pub fn write(&mut self, address: HardwareRegister, value: u8)
        requires
            address.spec_is_lcd(),
            address != HardwareRegister::DMA,
        ensures
            *final(self) == old(self).spec_write(address, value),
    {
        proof {
            lemma_palette_bits(value);
        }
        match address {
            HardwareRegister::LCDC => self.lcdc = LcdControl::from_bits_truncate(value),
            HardwareRegister::STAT => self.lcds = self.lcds.written(value),
            HardwareRegister::SCY => self.scroll_y = value,
            HardwareRegister::SCX => self.scroll_x = value,
            HardwareRegister::LYC => self.lyc = value,
            HardwareRegister::BGP => {
                self.bg_palette = value;
                self.update_palette(PaletteKind::Background, value);
            },
            HardwareRegister::OBP0 => {
                self.obj_palette0 = value;
                self.update_palette(PaletteKind::Object0, value & 0b11111100);
            },
            HardwareRegister::OBP1 => {
                self.obj_palette1 = value;
                self.update_palette(PaletteKind::Object1, value & 0b11111100);
            },
            HardwareRegister::WY => self.win_y = value,
            HardwareRegister::WX => self.win_x = value,
            _ => {},
        }
    }

    #[verifier::when_used_as_spec(spec_is_window_visible)]
    pub fn is_window_visible(&self) -> (visible: bool)
        ensures
            visible == self.spec_is_window_visible(),
    {
        self.lcdc.window_enable && self.win_x <= 166 && self.win_y < (YRES as u8)
    }

    fn update_palette(&mut self, palette: PaletteKind, color_indices: u8)
        ensures
            *final(self) == (match palette {
                PaletteKind::Background => LCD { bg_colors: Palette::spec_from_indices(color_indices), ..*old(self) },
                PaletteKind::Object0 => LCD { sp0_colors: Palette::spec_from_indices(color_indices), ..*old(self) },
                PaletteKind::Object1 => LCD { sp1_colors: Palette::spec_from_indices(color_indices), ..*old(self) },
            }),
    {
        let colors = Palette::from_indices(color_indices);
        match palette {
            PaletteKind::Background => self.bg_colors = colors,
            PaletteKind::Object0 => self.sp0_colors = colors,
            PaletteKind::Object1 => self.sp1_colors = colors,
        }
    }
}

/// After a write of `b` to a palette register, slot `i` of the palette
/// holds the shade whose number is `(b >> 2i) & 3`. For the two object
/// palettes this holds of the slots 1 to 3; their slot 0 holds shade 0.
pub proof fn lemma_palette_write(lcd: LCD, b: u8, i: int)
    requires
        0 <= i < 4,
    ensures
        ({
            let shade = if i == 0 {
                b & 3
            } else if i == 1 {
                (b >> 2u8) & 3
            } else if i == 2 {
                (b >> 4u8) & 3
            } else {
                (b >> 6u8) & 3
            };
            &&& lcd.spec_write(HardwareRegister::BGP, b).bg_colors.spec_color(i) == default_color(shade as int)
            &&& lcd.spec_write(HardwareRegister::BGP, b).bg_colors.spec_color(i) == DEFAULT_COLORS@[shade as int]
            &&& i > 0 ==> lcd.spec_write(HardwareRegister::OBP0, b).sp0_colors.spec_color(i) == default_color(
                shade as int,
            )
            &&& i > 0 ==> lcd.spec_write(HardwareRegister::OBP1, b).sp1_colors.spec_color(i) == default_color(
                shade as int,
            )
            &&& lcd.spec_write(HardwareRegister::OBP0, b).sp0_colors.spec_color(0) == default_color(0)
            &&& lcd.spec_write(HardwareRegister::OBP1, b).sp1_colors.spec_color(0) == default_color(0)
        }),
{
    lemma_palette_bits(b);
    let masked = (b - b % 4) as u8;
    assert(masked as int / 4 == b as int / 4);
    assert(masked as int / 16 == b as int / 16);
    assert(masked as int / 64 == b as int / 64);
    assert(masked % 4 == 0);
}

} // verus!
