//! What a front end needs to compute before it draws: the channels of a
//! colour, the colours of the pixels of a tile, the place of each tile in
//! the debug window, and what a batch of window events asks for.

use vstd::prelude::*;
use crate::cpu::alu::{bit_is_set, is_bit_set};
use crate::lcd::{default_color, DEFAULT_COLORS};
use crate::ppu::{PpuView, PPU};

verus! {

/// What the front end should do after it has looked at its events.
#[derive(Copy, Clone, Debug, PartialEq, Eq, Structural)]
pub enum GuiAction {
    Exit,
    Continue,
}

/// The width of the screen, in tiles.
pub const SCREEN_WIDTH: u32 = 20;

/// The height of the screen, in tiles.
pub const SCREEN_HEIGHT: u32 = 18;

/// The width of the debug window, in tiles.
pub const DEBUG_SCREEN_WIDTH: u32 = 16;

/// The height of the debug window, in tiles.
pub const DEBUG_SCREEN_HEIGHT: u32 = 24;

/// The side of the square that stands for one pixel.
pub const SCALE: u32 = 5;

/// The number of tiles that the debug window shows: those of the tile data
/// area, from `0x8000` to `0x97FF`.
pub const TILE_COUNT: u16 = 384;

/// A colour by its four channels.
#[derive(Copy, Clone, Debug, PartialEq, Eq, Structural)]
pub struct Rgba {
    pub r: u8,
    pub g: u8,
    pub b: u8,
    pub a: u8,
}

/// The channels of an ARGB colour: alpha in the highest byte, then red,
/// green, and blue in the lowest.
pub open spec fn spec_color_from_u32(color: u32) -> Rgba {
    Rgba {
        a: (color / 0x100_0000) as u8,
        r: ((color / 0x1_0000) % 256) as u8,
        g: ((color / 0x100) % 256) as u8,
        b: (color % 256) as u8,
    }
}

proof fn lemma_channels(color: u32)
    by (bit_vector)
    ensures
        (color >> 24u32) & 0xFF == color / 0x100_0000,
        (color >> 16u32) & 0xFF == (color / 0x1_0000) % 256,
        (color >> 8u32) & 0xFF == (color / 0x100) % 256,
        color & 0xFF == color % 256,
{
}

/// Splits an ARGB colour into its channels.
pub fn color_from_u32(color: u32) -> (channels: Rgba)
    ensures
        channels == spec_color_from_u32(color),
{
    proof {
        lemma_channels(color);
    }
    let a = ((color >> 24) & 0xFF) as u8;
    let r = ((color >> 16) & 0xFF) as u8;
    let g = ((color >> 8) & 0xFF) as u8;
    let b = (color & 0xFF) as u8;

    Rgba { r, g, b, a }
}

/// The shade of the pixel in row `row` and column `column` of a tile, as the
/// debug window shows it: the first byte of the row gives the high bit of
/// the shade's number and the second the low bit, the leftmost pixel being
/// bit 7.
pub open spec fn spec_tile_pixel(ppu: PpuView, tile_num: u16, row: u16, column: u16) -> u32 {
    let address = 0x8000 + tile_num * 16 + row * 2;
    let first = ppu.vram_byte(address);
    let second = ppu.vram_byte(address + 1);
    default_color(
        (if bit_is_set(first, (7 - column) as u8) { 2int } else { 0int }) + (if bit_is_set(
            second,
            (7 - column) as u8,
        ) { 1int } else { 0int }),
    )
}

/// The shade of one pixel of a tile of video RAM, which has room for 512
/// tiles.
pub fn tile_pixel(ppu: &PPU, tile_num: u16, row: u16, column: u16) -> (color: u32)
    requires
        tile_num < 512,
        row < 8,
        column < 8,
    ensures
        color == spec_tile_pixel(ppu@, tile_num, row, column),
{
    let address: u16 = 0x8000 + tile_num * 16 + row * 2;
    let b1 = ppu.vram_read(address);
    let b2 = ppu.vram_read(address + 1);
    let bit: u8 = (7 - column) as u8;
    let hi: usize = if is_bit_set(b1, bit) { 2 } else { 0 };
    let lo: usize = if is_bit_set(b2, bit) { 1 } else { 0 };
    DEFAULT_COLORS[hi + lo]
}

/// Where the tile with the given number starts in the debug window: the
/// tiles stand sixteen to a row, each eight pixels wide and high, with one
/// pixel between neighbours.
pub open spec fn spec_tile_origin(tile_num: u16) -> (int, int) {
    ((tile_num % 16) * 9 * SCALE, (tile_num / 16) * 9 * SCALE)
}

/// Where a tile starts in the debug window.
pub fn tile_origin(tile_num: u16) -> (origin: (i32, i32))
    ensures
        (origin.0 as int, origin.1 as int) == spec_tile_origin(tile_num),
{
    let scale = SCALE as i32;
    let column = (tile_num % 16) as i32;
    let row = (tile_num / 16) as i32;
    // eight pixels and a gap of one
    (column * 8 * scale + column * scale, row * 8 * scale + row * scale)
}

/// Where the square of a pixel of a tile starts, for a tile that starts at
/// `(x, y)`.
pub fn pixel_origin(x: i32, y: i32, row: u16, column: u16) -> (origin: (i32, i32))
    requires
        row < 8,
        column < 8,
        x + 7 * SCALE <= i32::MAX,
        y + 7 * SCALE <= i32::MAX,
    ensures
        origin.0 == x + column * SCALE,
        origin.1 == y + row * SCALE,
{
    let scale = SCALE as i32;
    (x + (column as i32) * scale, y + (row as i32) * scale)
}

/// The time that a frame should take, in nanoseconds: a sixtieth of a second,
/// cut to whole milliseconds.
pub const TARGET_FRAME_NS: u64 = 16_000_000;

/// What the pacing of frames asks for when a frame is done.
#[derive(Copy, Clone, Debug, PartialEq, Eq, Structural)]
pub struct FramePace {
    /// How long to sleep before the next frame, in nanoseconds.
    pub sleep_ns: u64,
    /// Whether the count of frames is to be reported, and counted anew.
    pub report: bool,
    /// The count of frames, this one included.
    pub frames: u32,
}

/// The pacing after a frame that took `frame_ns` nanoseconds, when
/// `since_report_ns` nanoseconds have passed since the last report and
/// `frames` frames were counted since then. A frame that was faster than
/// the target is followed by a sleep for the rest of the target. A report is
/// due when more than 1000 whole milliseconds have passed since the last
/// one; the count then starts again with this frame.
pub open spec fn spec_pace(frame_ns: u64, since_report_ns: u64, frames: u32) -> FramePace {
    let report = since_report_ns / 1_000_000 > 1000;
    FramePace {
        sleep_ns: if frame_ns < TARGET_FRAME_NS {
            (TARGET_FRAME_NS - frame_ns) as u64
        } else {
            0
        },
        report,
        frames: if report {
            1
        } else {
            (frames + 1) as u32
        },
    }
}

/// Decides how long to sleep after a frame and whether to report the count
/// of frames: see [`spec_pace`].
pub fn pace(frame_ns: u64, since_report_ns: u64, frames: u32) -> (r: FramePace)
    requires
        since_report_ns / 1_000_000 > 1000 || frames < u32::MAX,
    ensures
        r == spec_pace(frame_ns, since_report_ns, frames),
        r.sleep_ns + frame_ns >= TARGET_FRAME_NS,
        r.sleep_ns <= TARGET_FRAME_NS,
{
    let sleep_ns = if frame_ns < TARGET_FRAME_NS {
        TARGET_FRAME_NS - frame_ns
    } else {
        0
    };
    let report = since_report_ns / 1_000_000 > 1000;
    let counted = if report {
        0
    } else {
        frames
    };
    FramePace { sleep_ns, report, frames: counted + 1 }
}

/// What a batch of events asks for: the last event decides, and asks for the
/// exit if it is a request to quit (`true`). No event asks for nothing.
pub open spec fn spec_action_for(quits: Seq<bool>) -> GuiAction {
    if quits.len() > 0 && quits.last() {
        GuiAction::Exit
    } else {
        GuiAction::Continue
    }
}

/// What a batch of events asks for; each event is given by whether it is a
/// request to quit.
pub fn action_for(quits: &Vec<bool>) -> (action: GuiAction)
    ensures
        action == spec_action_for(quits@),
{
    let mut gui_event = GuiAction::Continue;
    let mut i: usize = 0;
    while i < quits.len()
        invariant
            i <= quits@.len(),
            gui_event == spec_action_for(quits@.take(i as int)),
        decreases quits@.len() - i,
    {
        gui_event = if quits[i] {
            GuiAction::Exit
        } else {
            GuiAction::Continue
        };
        i += 1;
    }
    assert(quits@.take(quits@.len() as int) =~= quits@);
    gui_event
}

} // verus!
