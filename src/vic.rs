use vstd::prelude::*;
use vstd::arithmetic::div_mod::lemma_add_mod_noop;
use vstd::arithmetic::div_mod::lemma_small_mod;
use vstd::arithmetic::div_mod::lemma_mod_self_0;
use crate::memory::Memory;
use crate::memory::Read;
use crate::memory::ReadError;
use crate::memory::ReadResult;
use crate::memory::Write;
use crate::memory::WriteError;
use crate::memory::WriteResult;

verus! {

pub type Color = u8;

pub const LEFT_BORDER_START: usize = 77;
pub const LEFT_BORDER_WIDTH: usize = 47;
pub const DISPLAY_WINDOW_START: usize = LEFT_BORDER_START + LEFT_BORDER_WIDTH;
pub const DISPLAY_WINDOW_WIDTH: usize = 320;
pub const RIGHT_BORDER_START: usize = DISPLAY_WINDOW_START + DISPLAY_WINDOW_WIDTH;
pub const RIGHT_BORDER_WIDTH: usize = 48;
pub const BORDER_END: usize = RIGHT_BORDER_START + RIGHT_BORDER_WIDTH;
pub const VISIBLE_PIXELS: usize = LEFT_BORDER_WIDTH + DISPLAY_WINDOW_WIDTH + RIGHT_BORDER_WIDTH;
pub const RASTER_LENGTH: usize = 65 * 8;
pub const RIGHT_BLANK_WIDTH: usize = RASTER_LENGTH - BORDER_END;

pub const TOP_BORDER_FIRST_LINE: usize = 41;
pub const TOP_BORDER_HEIGHT: usize = DISPLAY_WINDOW_FIRST_LINE - TOP_BORDER_FIRST_LINE;
pub const DISPLAY_WINDOW_FIRST_LINE: usize = 51;
pub const DISPLAY_WINDOW_HEIGHT: usize = 200;
pub const BOTTOM_BORDER_FIRST_LINE: usize = DISPLAY_WINDOW_FIRST_LINE + DISPLAY_WINDOW_HEIGHT;
pub const BLANK_AREA_FIRST_LINE: usize = 13;
pub const BLANK_AREA_HEIGHT: usize = TOP_BORDER_FIRST_LINE - BLANK_AREA_FIRST_LINE;
// The blank area's first line comes after the raster line counter rolls back
// to 0. That's why TOTAL_HEIGHT is added.
pub const BOTTOM_BORDER_HEIGHT: usize = BLANK_AREA_FIRST_LINE + TOTAL_HEIGHT
    - BOTTOM_BORDER_FIRST_LINE;
pub const VISIBLE_LINES: usize = TOP_BORDER_HEIGHT + DISPLAY_WINDOW_HEIGHT + BOTTOM_BORDER_HEIGHT;
pub const TOTAL_HEIGHT: usize = 262;  // Including vertical blank

/// Number of pixel clock ticks in a full frame.
pub const FRAME_LENGTH: usize = RASTER_LENGTH * TOTAL_HEIGHT;

/// Register addresses.
pub const BORDER_COLOR: u16 = 0xD020;
pub const BACKGROUND_COLOR_0: u16 = 0xD021;

/// Base addresses of the memory regions that the character mode reads.
pub const CHARACTER_MATRIX: u16 = 0x0400;
pub const CHARACTER_BITMAPS: u16 = 0x1000;
pub const COLOR_TABLE: u16 = 0xD800;

/// Geometry of the character matrix.
pub const TEXT_COLUMNS: u16 = 40;
pub const TEXT_ROWS: u16 = 25;
pub const CHARACTER_HEIGHT: u16 = 8;

/// The pixel mask that selects the most significant bit of a bitmap row.
pub const FIRST_PIXEL_MASK: u8 = 0b1000_0000;

/// The abstract state of the chip: raster position, color registers and the
/// character scan cursor.
pub struct VicView {
    pub x_counter: usize,
    pub raster_counter: usize,
    pub border_color: Color,
    pub background_color: Color,
    /// Offset of the current character row in the character matrix (a
    /// multiple of 40).
    pub graphics_row: u16,
    /// Current column in the character matrix.
    pub graphics_column: u16,
    /// Current row of the glyph bitmap.
    pub character_offset: u16,
    /// One-hot selector of the current bit of the glyph bitmap row.
    pub graphics_mask: u8,
}

/// The position lies inside the display window.
pub open spec fn in_display_window(raster_line: int, x: int) -> bool {
    DISPLAY_WINDOW_FIRST_LINE <= raster_line < BOTTOM_BORDER_FIRST_LINE && DISPLAY_WINDOW_START
        <= x < RIGHT_BORDER_START
}

/// Index (counted from 0 at the first display window line of the frame) of
/// the display window line whose pixels the character scan renders next.
pub open spec fn scan_line(raster_line: int, x: int) -> int {
    if DISPLAY_WINDOW_FIRST_LINE <= raster_line < BOTTOM_BORDER_FIRST_LINE {
        if x < RIGHT_BORDER_START {
            raster_line - DISPLAY_WINDOW_FIRST_LINE
        } else {
            raster_line - DISPLAY_WINDOW_FIRST_LINE + 1
        }
    } else {
        0
    }
}

/// Index, within its display window line, of the pixel that the character
/// scan renders next.
pub open spec fn scan_pixel(raster_line: int, x: int) -> int {
    if in_display_window(raster_line, x) {
        x - DISPLAY_WINDOW_START
    } else {
        0
    }
}

/// The one-hot mask that selects bit `bit` of a bitmap row, counting from the
/// most significant one.
pub open spec fn pixel_mask(bit: int) -> u8 {
    FIRST_PIXEL_MASK >> (bit as u8)
}

/// The character scan cursor that belongs to a raster position: the
/// character row (as an offset into the matrix), the column, the bitmap row and
/// the pixel mask.
pub open spec fn cursor_row(raster_line: int, x: int) -> u16 {
    ((scan_line(raster_line, x) / 8 % 25) * 40) as u16
}

pub open spec fn cursor_column(raster_line: int, x: int) -> u16 {
    (scan_pixel(raster_line, x) / 8) as u16
}

pub open spec fn cursor_offset(raster_line: int, x: int) -> u16 {
    (scan_line(raster_line, x) % 8) as u16
}

pub open spec fn cursor_mask(raster_line: int, x: int) -> u8 {
    pixel_mask(scan_pixel(raster_line, x) % 8)
}

impl VicView {
    /// The raster position is in range and the character scan cursor is the
    /// one that belongs to it.
    pub open spec fn wf(self) -> bool {
        let r = self.raster_counter as int;
        let x = self.x_counter as int;
        &&& self.x_counter < RASTER_LENGTH
        &&& self.raster_counter < TOTAL_HEIGHT
        &&& self.graphics_row == cursor_row(r, x)
        &&& self.graphics_column == cursor_column(r, x)
        &&& self.character_offset == cursor_offset(r, x)
        &&& self.graphics_mask == cursor_mask(r, x)
    }

    /// The raster position as a count of ticks since the start of the frame.
    pub open spec fn position(self) -> int {
        self.raster_counter * RASTER_LENGTH + self.x_counter
    }

    /// The state with the raster position moved to `(raster_line, x)` and the
    /// cursor that belongs there.
    pub open spec fn moved_to(self, raster_line: int, x: int) -> VicView {
        VicView {
            x_counter: x as usize,
            raster_counter: raster_line as usize,
            graphics_row: cursor_row(raster_line, x),
            graphics_column: cursor_column(raster_line, x),
            character_offset: cursor_offset(raster_line, x),
            graphics_mask: cursor_mask(raster_line, x),
            ..self
        }
    }

    /// The state after one successful tick.
    pub open spec fn advanced(self) -> VicView {
        if self.x_counter + 1 < RASTER_LENGTH {
            self.moved_to(self.raster_counter as int, self.x_counter + 1)
        } else if self.raster_counter + 1 < TOTAL_HEIGHT {
            self.moved_to(self.raster_counter + 1, 0)
        } else {
            self.moved_to(0, 0)
        }
    }

    /// The state after `n` successful ticks.
    pub open spec fn advanced_by(self, n: nat) -> VicView
        decreases n,
    {
        if n == 0 {
            self
        } else {
            self.advanced_by((n - 1) as nat).advanced()
        }
    }

    /// Index of the current cell in the character matrix and color table.
    pub open spec fn cell(self) -> int {
        self.graphics_row + self.graphics_column
    }

    pub open spec fn character_address(self) -> u16 {
        (CHARACTER_MATRIX + self.cell()) as u16
    }

    pub open spec fn bitmap_address(self, character_index: u8) -> u16 {
        (CHARACTER_BITMAPS + character_index * 8 + self.character_offset) as u16
    }

    pub open spec fn color_address(self) -> u16 {
        (COLOR_TABLE + self.cell()) as u16
    }

    /// The color of the pixel at the current position, or the error of the
    /// first memory read that fails.
    pub open spec fn pixel<GM: Read, CM: Read>(self, graphics_memory: GM, color_memory: CM) -> Result<
        Color,
        ReadError,
    > {
        if in_display_window(self.raster_counter as int, self.x_counter as int) {
            match graphics_memory.read_spec(self.character_address()) {
                Err(e) => Err(e),
                Ok(character_index) => match graphics_memory.read_spec(
                    self.bitmap_address(character_index),
                ) {
                    Err(e) => Err(e),
                    Ok(bitmap_row) => if bitmap_row & self.graphics_mask != 0 {
                        color_memory.read_spec(self.color_address())
                    } else {
                        Ok(self.background_color)
                    },
                },
            }
        } else {
            Ok(self.border_color)
        }
    }

    /// The state after writing `value` to the register at `address`, or the
    /// error for an address that is not a register.
    pub open spec fn written(self, address: u16, value: u8) -> Result<VicView, WriteError> {
        if address == BORDER_COLOR {
            Ok(VicView { border_color: value, ..self })
        } else if address == BACKGROUND_COLOR_0 {
            Ok(VicView { background_color: value, ..self })
        } else {
            Err(WriteError { address, value })
        }
    }
}

/// The state of a freshly created chip.
pub open spec fn initial_view() -> VicView {
    VicView {
        x_counter: 0,
        raster_counter: 0,
        border_color: 0,
        background_color: 0,
        graphics_row: 0,
        graphics_column: 0,
        character_offset: 0,
        graphics_mask: FIRST_PIXEL_MASK,
    }
}

/// VIC-II video chip emulator that outputs a stream of pixels. Each pixel has
/// a color from a 0..=15 range.
///
/// The color memory is shared with the rest of the machine, so the chip does
/// not own it: it is lent to each tick.
pub struct Vic<GM: Read> {
    graphics_memory: Box<GM>,
    reg_border_color: Color,
    reg_background_color: Color,
    raster_counter: usize,
    x_counter: usize,
    graphics_column: u16,
    graphics_row: u16,
    character_offset: u16,
    graphics_mask: u8,
}

impl<GM: Read> View for Vic<GM> {
    type V = VicView;

    closed spec fn view(&self) -> VicView {
        VicView {
            x_counter: self.x_counter,
            raster_counter: self.raster_counter,
            border_color: self.reg_border_color,
            background_color: self.reg_background_color,
            graphics_row: self.graphics_row,
            graphics_column: self.graphics_column,
            character_offset: self.character_offset,
            graphics_mask: self.graphics_mask,
        }
    }
}

/// The video output of [`Vic::tick`]. Note that the coordinates are raw and
/// include horizontal and vertical blanking areas; it's up to the consumer to
/// crop pixels to the viewport.
pub struct VicOutput {
    pub color: Color,
    /// Raw X coordinate (including horizontal blanking area).
    pub x: usize,
    /// Raw Y coordinate (including vertical blanking area).
    pub raster_line: usize,
}

pub type TickResult = Result<VicOutput, ReadError>;

/// Facts about the one-hot pixel masks.
proof fn lemma_pixel_mask(bit: int)
    requires
        0 <= bit < 8,
    ensures
        pixel_mask(bit) == 1 <==> bit == 7,
        bit < 7 ==> pixel_mask(bit) >> 1u8 == pixel_mask(bit + 1),
        pixel_mask(bit) & FIRST_PIXEL_MASK != 0 <==> bit == 0,
        pixel_mask(bit) != 0,
        pixel_mask(0) == FIRST_PIXEL_MASK,
{
    let b = bit as u8;
    assert(b < 8 ==> ((0x80u8 >> b) == 1 <==> b == 7)) by (bit_vector);
    assert(b < 7 ==> (0x80u8 >> b) >> 1u8 == 0x80u8 >> ((b + 1) as u8)) by (bit_vector);
    assert(b < 8 ==> ((0x80u8 >> b) & 0x80u8 != 0 <==> b == 0)) by (bit_vector);
    assert(b < 8 ==> (0x80u8 >> b) != 0) by (bit_vector);
    assert(0x80u8 >> 0u8 == 0x80u8) by (bit_vector);
    assert(bit < 7 ==> (b + 1) as u8 == (bit + 1) as u8);
}

/// How the mixed-radix cursor (bit, column, bitmap row, character row) of
/// display line `line` and pixel `p` carries into the next pixel.
proof fn lemma_scan_step(line: int, p: int)
    requires
        0 <= line < DISPLAY_WINDOW_HEIGHT,
        0 <= p < DISPLAY_WINDOW_WIDTH,
    ensures
        p % 8 < 7 ==> (p + 1) % 8 == p % 8 + 1 && (p + 1) / 8 == p / 8,
        p % 8 == 7 ==> (p + 1) % 8 == 0 && (p + 1) / 8 == p / 8 + 1,
        p % 8 == 7 && p / 8 >= 39 <==> p == 319,
        p / 8 < 40,
        line / 8 < 25,
        line % 8 < 7 ==> (line + 1) % 8 == line % 8 + 1 && (line + 1) / 8 == line / 8,
        line % 8 == 7 ==> (line + 1) % 8 == 0 && (line + 1) / 8 == line / 8 + 1,
        line % 8 == 7 ==> ((line + 1) / 8 % 25) * 40 == ((line / 8 % 25) * 40 + 40) % 1000,
{
}

impl<GM: Read> Vic<GM> {
    /// The memory that holds the character matrix and the glyph bitmaps.
    pub closed spec fn graphics_memory(&self) -> GM {
        *self.graphics_memory
    }

    pub open spec fn wf(&self) -> bool {
        self@.wf()
    }

    pub fn new(graphics_memory: Box<GM>) -> (r: Self)
        ensures
            r@ == initial_view(),
            r.wf(),
            r.graphics_memory() == *graphics_memory,
    {
        proof {
            lemma_pixel_mask(0);
        }
        Self {
            graphics_memory,
            reg_border_color: 0,
            reg_background_color: 0,
            raster_counter: 0,
            x_counter: 0,
            graphics_column: 0,
            graphics_row: 0,
            character_offset: 0,
            graphics_mask: FIRST_PIXEL_MASK,
        }
    }

    /// Resolves the color of a pixel inside the display window and moves the
    /// character scan cursor to the next pixel.
    fn background_tick<CM: Read>(&mut self, color_memory: &CM) -> (r: Result<Color, ReadError>)
        requires
            old(self).wf(),
            in_display_window(old(self)@.raster_counter as int, old(self)@.x_counter as int),
        ensures
            r == old(self)@.pixel(old(self).graphics_memory(), *color_memory),
            final(self).graphics_memory() == old(self).graphics_memory(),
            r is Ok ==> final(self)@ == (VicView {
                x_counter: old(self)@.x_counter,
                raster_counter: old(self)@.raster_counter,
                ..old(self)@.advanced()
            }),
            r is Err ==> final(self)@ == old(self)@,
    {
        let ghost v = self@;
        let ghost line = v.raster_counter - DISPLAY_WINDOW_FIRST_LINE;
        let ghost p = v.x_counter - DISPLAY_WINDOW_START;
        proof {
            lemma_pixel_mask(0);
            lemma_pixel_mask(p % 8);
            if p % 8 < 7 {
                lemma_pixel_mask(p % 8 + 1);
            }
            lemma_scan_step(line, p);
            assert(v.advanced() == v.moved_to(v.raster_counter as int, v.x_counter + 1));
        }
        let cell = self.graphics_row + self.graphics_column;
        let character_index = self.graphics_memory.read(CHARACTER_MATRIX + cell)?;
        let character_pixel_row = self.graphics_memory.read(
            CHARACTER_BITMAPS + character_index as u16 * 8 + self.character_offset,
        )?;
        let draws_graphics_pixel = character_pixel_row & self.graphics_mask != 0;
        let color = if draws_graphics_pixel {
            color_memory.read(COLOR_TABLE + cell)?
        } else {
            self.reg_background_color
        };

        // Rotate the mask right by one bit.
        self.graphics_mask = if self.graphics_mask == 1 {
            FIRST_PIXEL_MASK
        } else {
            self.graphics_mask >> 1
        };
        if self.graphics_mask & FIRST_PIXEL_MASK != 0 {
            if self.graphics_column >= TEXT_COLUMNS - 1 {
                self.graphics_column = 0;
                if self.character_offset >= CHARACTER_HEIGHT - 1 {
                    self.character_offset = 0;
                    self.graphics_row = (self.graphics_row + TEXT_COLUMNS) % (TEXT_COLUMNS
                        * TEXT_ROWS);
                } else {
                    self.character_offset += 1;
                }
            } else {
                self.graphics_column += 1;
            }
        }
        assert(self@ == (VicView {
            x_counter: v.x_counter,
            raster_counter: v.raster_counter,
            ..v.advanced()
        }));
        Ok(color)
    }

    /// Emulates a single tick of the pixel clock and returns the pixel at the
    /// current position. For simplicity, blanking and visible pixels are not
    /// distinguished: everything outside the display window has the border
    /// color.
    pub fn tick<CM: Read>(&mut self, color_memory: &CM) -> (r: TickResult)
        requires
            old(self).wf(),
        ensures
            final(self).wf(),
            final(self).graphics_memory() == old(self).graphics_memory(),
            match r {
                Ok(output) => {
                    &&& old(self)@.pixel(old(self).graphics_memory(), *color_memory) == Ok::<
                        Color,
                        ReadError,
                    >(output.color)
                    &&& output.x == old(self)@.x_counter
                    &&& output.raster_line == old(self)@.raster_counter
                    &&& final(self)@ == old(self)@.advanced()
                },
                Err(e) => {
                    &&& old(self)@.pixel(old(self).graphics_memory(), *color_memory) == Err::<
                        Color,
                        ReadError,
                    >(e)
                    &&& final(self)@ == old(self)@
                },
            },
    {
        let ghost v = self@;
        let color = if DISPLAY_WINDOW_FIRST_LINE <= self.raster_counter && self.raster_counter
            < BOTTOM_BORDER_FIRST_LINE && DISPLAY_WINDOW_START <= self.x_counter && self.x_counter
            < RIGHT_BORDER_START {
            self.background_tick(color_memory)?
        } else {
            self.reg_border_color
        };

        let output = VicOutput { x: self.x_counter, raster_line: self.raster_counter, color };

        self.x_counter += 1;
        if self.x_counter >= RASTER_LENGTH {
            self.x_counter = 0;
            self.raster_counter += 1;
            if self.raster_counter >= TOTAL_HEIGHT {
                self.raster_counter = 0;
            }
        }
        assert(self@ == v.advanced());
        Ok(output)
    }
}


impl<GM: Read> Read for Vic<GM> {
    /// No register can be read back.
    open spec fn read_spec(&self, address: u16) -> ReadResult {
        Err(ReadError { address })
    }

    fn read(&self, address: u16) -> (r: ReadResult) {
        Err(ReadError { address })
    }
}

impl<GM: Read> Write for Vic<GM> {
    fn write(&mut self, address: u16, value: u8) -> (r: WriteResult)
        ensures
            final(self).graphics_memory() == old(self).graphics_memory(),
            match old(self)@.written(address, value) {
                Ok(v) => r is Ok && final(self)@ == v,
                Err(e) => r == Err::<(), WriteError>(e) && final(self)@ == old(self)@,
            },
            old(self).wf() ==> final(self).wf(),
    {
        if address == BORDER_COLOR {
            self.reg_border_color = value;
        } else if address == BACKGROUND_COLOR_0 {
            self.reg_background_color = value;
        } else {
            return Err(WriteError { address, value });
        }
        Ok(())
    }
}

impl<GM: Read> Memory for Vic<GM> {}

/// The row on the rendered screen, counted from the first line of the top
/// border, of a raster line.
pub open spec fn screen_y_of(raster_line: int) -> int {
    (raster_line + TOTAL_HEIGHT - TOP_BORDER_FIRST_LINE) % (TOTAL_HEIGHT as int)
}

/// The raster line of a row on the rendered screen.
pub open spec fn raster_line_of(screen_y: int) -> int {
    (screen_y + TOP_BORDER_FIRST_LINE) % (TOTAL_HEIGHT as int)
}

/// Converts raster line number to Y position on the rendered screen.
pub fn raster_line_to_screen_y(index: usize) -> (r: usize)
    ensures
        r == screen_y_of(index as int),
{
    proof {
        lemma_add_mod_noop(index as int, (TOTAL_HEIGHT - TOP_BORDER_FIRST_LINE) as int, TOTAL_HEIGHT as int);
        lemma_small_mod((TOTAL_HEIGHT - TOP_BORDER_FIRST_LINE) as nat, TOTAL_HEIGHT as nat);
    }
    (index % TOTAL_HEIGHT + (TOTAL_HEIGHT - TOP_BORDER_FIRST_LINE)) % TOTAL_HEIGHT
}

/// Converts Y position on the rendered screen to raster line number.
pub fn screen_y_to_raster_line(screen_y: usize) -> (r: usize)
    ensures
        r == raster_line_of(screen_y as int),
{
    proof {
        lemma_add_mod_noop(screen_y as int, TOP_BORDER_FIRST_LINE as int, TOTAL_HEIGHT as int);
        lemma_small_mod(TOP_BORDER_FIRST_LINE as nat, TOTAL_HEIGHT as nat);
    }
    (screen_y % TOTAL_HEIGHT + TOP_BORDER_FIRST_LINE) % TOTAL_HEIGHT
}


/// One tick moves the raster position one pixel forward, wrapping at the end
/// of the frame, and keeps the registers.
proof fn lemma_advanced_position(v: VicView)
    requires
        v.wf(),
    ensures
        v.advanced().wf(),
        v.advanced().position() == (v.position() + 1) % (FRAME_LENGTH as int),
        v.advanced().border_color == v.border_color,
        v.advanced().background_color == v.background_color,
{
    if v.position() + 1 < FRAME_LENGTH {
        lemma_small_mod((v.position() + 1) as nat, FRAME_LENGTH as nat);
    } else {
        lemma_mod_self_0(FRAME_LENGTH as int);
    }
}

/// Position tracking never drifts: ticking `n` times moves the raster
/// position `n` pixels forward, modulo the length of a frame. A freshly
/// created chip is therefore at position `n` modulo the frame length, with
/// `n == raster_counter * RASTER_LENGTH + x_counter`.
pub proof fn lemma_position_tracks_ticks(v: VicView, n: nat)
    requires
        v.wf(),
    ensures
        v.advanced_by(n).wf(),
        v.advanced_by(n).position() == (v.position() + n) % (FRAME_LENGTH as int),
        v.advanced_by(n).border_color == v.border_color,
        v.advanced_by(n).background_color == v.background_color,
        v == initial_view() ==> v.advanced_by(n).position() == (n as int) % (FRAME_LENGTH as int),
    decreases n,
{
    if n == 0 {
        lemma_small_mod(v.position() as nat, FRAME_LENGTH as nat);
    } else {
        lemma_position_tracks_ticks(v, (n - 1) as nat);
        let w = v.advanced_by((n - 1) as nat);
        lemma_advanced_position(w);
        lemma_add_mod_noop(v.position() + n - 1, 1, FRAME_LENGTH as int);
        lemma_small_mod(1, FRAME_LENGTH as nat);
    }
}

/// Two well-formed states at the same raster position with the same
/// registers are the same state: the scan cursor depends on the position only.
proof fn lemma_same_position_same_view(v: VicView, w: VicView)
    requires
        v.wf(),
        w.wf(),
        v.position() == w.position(),
        v.border_color == w.border_color,
        v.background_color == w.background_color,
    ensures
        v == w,
{
    let r1 = v.raster_counter as int;
    let r2 = w.raster_counter as int;
    if r1 < r2 {
        assert(r1 * 520 + 520 <= r2 * 520) by (nonlinear_arith)
            requires
                r1 < r2,
        ;
    } else if r2 < r1 {
        assert(r2 * 520 + 520 <= r1 * 520) by (nonlinear_arith)
            requires
                r2 < r1,
        ;
    }
    assert(v.raster_counter == w.raster_counter);
    assert(v.x_counter == w.x_counter);
}

/// A full frame of ticks brings every well-formed state back to itself; in
/// particular the character scan cursor returns to where it was.
pub proof fn lemma_frame_round_trip(v: VicView)
    requires
        v.wf(),
    ensures
        v.advanced_by(FRAME_LENGTH as nat) == v,
{
    lemma_position_tracks_ticks(v, FRAME_LENGTH as nat);
    lemma_add_mod_noop(v.position(), FRAME_LENGTH as int, FRAME_LENGTH as int);
    lemma_mod_self_0(FRAME_LENGTH as int);
    lemma_small_mod(v.position() as nat, FRAME_LENGTH as nat);
    lemma_same_position_same_view(v.advanced_by(FRAME_LENGTH as nat), v);
}

/// After exactly one frame of ticks, a freshly created chip's character scan
/// cursor is back at its origin: first character row and column, first
/// bitmap row, most significant pixel.
pub proof fn lemma_scan_cursor_round_trip()
    ensures
        initial_view().advanced_by(FRAME_LENGTH as nat).graphics_row == 0,
        initial_view().advanced_by(FRAME_LENGTH as nat).graphics_column == 0,
        initial_view().advanced_by(FRAME_LENGTH as nat).character_offset == 0,
        initial_view().advanced_by(FRAME_LENGTH as nat).graphics_mask == FIRST_PIXEL_MASK,
{
    lemma_pixel_mask(0);
    lemma_frame_round_trip(initial_view());
}

/// Writing the border color register to `value` makes the next pixel outside
/// the display window have color `value`.
pub proof fn lemma_border_color_shown<GM: Read, CM: Read>(
    v: VicView,
    value: u8,
    graphics_memory: GM,
    color_memory: CM,
)
    requires
        !in_display_window(v.raster_counter as int, v.x_counter as int),
    ensures
        v.written(BORDER_COLOR, value) is Ok,
        v.written(BORDER_COLOR, value)->Ok_0.pixel(graphics_memory, color_memory) == Ok::<
            Color,
            ReadError,
        >(value),
{
}

/// Writing the background color 0 register to `value` makes a pixel inside
/// the display window whose glyph bit is 0 have color `value`.
pub proof fn lemma_background_color_shown<GM: Read, CM: Read>(
    v: VicView,
    value: u8,
    graphics_memory: GM,
    color_memory: CM,
    character_index: u8,
    bitmap_row: u8,
)
    requires
        in_display_window(v.raster_counter as int, v.x_counter as int),
        graphics_memory.read_spec(v.character_address()) == Ok::<u8, ReadError>(character_index),
        graphics_memory.read_spec(v.bitmap_address(character_index)) == Ok::<u8, ReadError>(
            bitmap_row,
        ),
        bitmap_row & v.graphics_mask == 0,
    ensures
        v.written(BACKGROUND_COLOR_0, value) is Ok,
        v.written(BACKGROUND_COLOR_0, value)->Ok_0.pixel(graphics_memory, color_memory) == Ok::<
            Color,
            ReadError,
        >(value),
{
}

/// Glyph decoding: starting at the first pixel of the display window, the
/// `k`-th tick renders bit `k` (counted from the most significant one) of the
/// first bitmap row of the glyph in cell (0, 0): the cell's color table entry
/// where the bit is 1, background color 0 where it is 0.
pub proof fn lemma_glyph_row_decoding<GM: Read, CM: Read>(
    v: VicView,
    graphics_memory: GM,
    color_memory: CM,
    k: nat,
    character_index: u8,
    bitmap_row: u8,
    color: u8,
)
    requires
        v.wf(),
        v.raster_counter == DISPLAY_WINDOW_FIRST_LINE,
        v.x_counter == DISPLAY_WINDOW_START,
        k < 8,
        graphics_memory.read_spec(CHARACTER_MATRIX) == Ok::<u8, ReadError>(character_index),
        graphics_memory.read_spec((CHARACTER_BITMAPS + character_index * 8) as u16) == Ok::<
            u8,
            ReadError,
        >(bitmap_row),
        color_memory.read_spec(COLOR_TABLE) == Ok::<u8, ReadError>(color),
    ensures
        v.advanced_by(k).pixel(graphics_memory, color_memory) == if bitmap_row & pixel_mask(k as int)
            != 0 {
            Ok::<Color, ReadError>(color)
        } else {
            Ok::<Color, ReadError>(v.background_color)
        },
{
    lemma_position_tracks_ticks(v, k);
    lemma_small_mod((v.position() + k) as nat, FRAME_LENGTH as nat);
    let w = v.advanced_by(k);
    assert(w.raster_counter == DISPLAY_WINDOW_FIRST_LINE && w.x_counter == DISPLAY_WINDOW_START
        + k);
}

} // verus!
