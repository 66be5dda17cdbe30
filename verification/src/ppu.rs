//! The text display: 64 columns and 32 rows of characters, each drawn from
//! a glyph of 7 by 9 pixels into a picture of palette colours.
//!
//! Every character cell is one word of the displayed memory: the low byte
//! selects the glyph, the low half of the high byte the colour of the
//! character, the high half the colour of its background.

use crate::bytes::{high_byte, low_byte};
use crate::mapper::{BusView, Mapper};
use crate::storage::Block;
use vstd::prelude::*;

verus! {

/// Width of the picture in pixels.
pub const INTERNAL_RESOLUTION_X: u16 = 448;

/// Height of the picture in pixels. The text takes the upper 288 rows; the
/// rest is free for whoever shows the picture.
pub const INTERNAL_RESOLUTION_Y: u16 = 470;

/// Width of a glyph in pixels.
pub const CHAR_X: u16 = 7;

/// Height of a glyph in pixels, and the number of bytes that describe it.
pub const CHAR_Y: u16 = 9;

/// Number of character columns.
pub const RESOLUTION_X: u8 = 64;

/// Number of character rows.
pub const RESOLUTION_Y: u8 = 32;

/// Number of glyphs that a character can select.
pub const GLYPHS: usize = 128;

/// Number of pixels in the picture.
pub const FRAME_SIZE: usize = 210_560;

/// The address of the first character cell.
pub const FRAMEBUFFER_START: u16 = 0x6010;

// Palette colours by name.
pub const GREEN: u8 = 10;
pub const BLUE: u8 = 9;
pub const WHITE: u8 = 15;

/// Whether bit `column` of a glyph line is set: whether the pixel in that
/// column has the character's colour.
pub open spec fn spec_bit_at(line: u8, column: u8) -> bool {
    line & (1u8 << column) != 0
}

/// Whether bit `column` of a glyph line is set.
#[verifier::when_used_as_spec(spec_bit_at)]
pub fn bit_at(line: u8, column: u8) -> (set: bool)
    requires
        column < 8,
    ensures
        set == spec_bit_at(line, column),
{
    line & (1u8 << column) != 0
}

/// The address of the character cell in column `x` and row `y`.
pub open spec fn spec_cell_address(x: u8, y: u8) -> u16 {
    (FRAMEBUFFER_START + 2 * x + 128 * y) as u16
}

/// The address of the character cell in column `x` and row `y`.
#[verifier::when_used_as_spec(spec_cell_address)]
pub fn cell_address(x: u8, y: u8) -> (address: u16)
    requires
        x < RESOLUTION_X,
        y < RESOLUTION_Y,
    ensures
        address == spec_cell_address(x, y),
        FRAMEBUFFER_START <= address < 0x700f,
{
    FRAMEBUFFER_START + 2 * (x as u16) + 128 * (y as u16)
}

/// The character in the cell in column `x` and row `y`: the low byte of the
/// cell's word.
pub open spec fn cell_char(bus: BusView, x: u8, y: u8) -> u8 {
    low_byte(bus.read_word(cell_address(x, y), 0))
}

/// What the display holds, as plain values.
pub struct PpuView {
    /// The glyphs, nine bytes each, one after the other.
    pub chars: Seq<u8>,
    /// The picture, row by row, one palette colour for each pixel.
    pub frame_buf: Seq<u8>,
}

impl PpuView {
    /// The picture has its full size.
    pub open spec fn wf(self) -> bool {
        self.frame_buf.len() == FRAME_SIZE
    }

    /// The colour of the pixel in column `x` and row `y` of the picture.
    pub open spec fn pixel(self, x: int, y: int) -> u8 {
        self.frame_buf[y * 448 + x]
    }

    /// Whether all nine bytes of the glyph that `chr` selects are there. The
    /// top bit of `chr` selects nothing.
    pub open spec fn has_glyph(self, chr: u8) -> bool {
        (chr % 128) * 9 + 9 <= self.chars.len()
    }

    /// Whether every glyph is there.
    pub open spec fn is_complete(self) -> bool {
        self.chars.len() >= GLYPHS * 9
    }

    /// Whether the glyph of every character that `bus` holds in its displayed
    /// memory is there, so that the text can be drawn.
    pub open spec fn can_show(self, bus: BusView) -> bool {
        forall|x: u8, y: u8|
            x < RESOLUTION_X && y < RESOLUTION_Y ==> self.has_glyph(#[trigger] cell_char(bus, x, y))
    }

    /// Whether the glyph of every character of `text` is there.
    pub open spec fn can_write(self, text: Seq<u8>) -> bool {
        forall|i: int| 0 <= i < text.len() ==> self.has_glyph(#[trigger] text[i])
    }

    /// The colour that glyph `chr`, drawn with colour `ch_color` on
    /// `bg_color`, has in its column `column` and row `row`.
    pub open spec fn glyph_pixel(
        self,
        chr: u8,
        column: int,
        row: int,
        ch_color: u8,
        bg_color: u8,
    ) -> u8 {
        if bit_at(self.chars[(chr % 128) * 9 + row], column as u8) {
            ch_color
        } else {
            bg_color
        }
    }

    /// The colour of pixel (`px`, `py`) after glyph `chr` is drawn into the
    /// character cell in column `x` and row `y`: inside the cell the glyph's
    /// colour, outside what was there.
    pub open spec fn char_pixel(
        self,
        px: int,
        py: int,
        x: int,
        y: int,
        chr: u8,
        ch_color: u8,
        bg_color: u8,
    ) -> u8 {
        if 7 * x <= px < 7 * x + 7 && 9 * y <= py < 9 * y + 9 {
            self.glyph_pixel(chr, px - 7 * x, py - 9 * y, ch_color, bg_color)
        } else {
            self.pixel(px, py)
        }
    }

    /// The colour of pixel (`px`, `py`) after `text` is written in colour
    /// `ch_color` on blue into row `y`, from column `x` on: inside the cells
    /// of the text the colour of the glyph of the cell's character, outside
    /// what was there.
    pub open spec fn text_pixel(
        self,
        px: int,
        py: int,
        text: Seq<u8>,
        x: int,
        y: int,
        ch_color: u8,
    ) -> u8 {
        if 7 * x <= px < 7 * (x + text.len()) && 9 * y <= py < 9 * y + 9 {
            self.glyph_pixel(text[px / 7 - x], px % 7, py % 9, ch_color, BLUE)
        } else {
            self.pixel(px, py)
        }
    }

    /// The display after glyph `chr` is drawn into the character cell in
    /// column `x` and row `y`.
    pub open spec fn draw_char_at(self, x: u8, y: u8, chr: u8, ch_color: u8, bg_color: u8) -> PpuView {
        PpuView {
            frame_buf: Seq::new(
                FRAME_SIZE as nat,
                |i: int| self.char_pixel(i % 448, i / 448, x as int, y as int, chr, ch_color, bg_color),
            ),
            ..self
        }
    }

    /// The display after `text` is written in colour `ch_color` on blue into
    /// row `y`, from column `x` on.
    pub open spec fn draw_text(self, text: Seq<u8>, x: u8, y: u8, ch_color: u8) -> PpuView {
        PpuView {
            frame_buf: Seq::new(
                FRAME_SIZE as nat,
                |i: int| self.text_pixel(i % 448, i / 448, text, x as int, y as int, ch_color),
            ),
            ..self
        }
    }

    /// The display after the text on `bus` is drawn.
    pub open spec fn tick(self, bus: BusView) -> PpuView {
        PpuView {
            frame_buf: Seq::new(
                FRAME_SIZE as nat,
                |i: int| self.screen_pixel(bus, i % 448, i / 448),
            ),
            ..self
        }
    }

    /// The colour of pixel (`px`, `py`) after the text on `bus` is drawn:
    /// in the rows of the text the colour that the pixel's character cell
    /// gives it, below them what was there.
    pub open spec fn screen_pixel(self, bus: BusView, px: int, py: int) -> u8 {
        if py < 9 * RESOLUTION_Y {
            let data = bus.read_word(cell_address((px / 7) as u8, (py / 9) as u8), 0);
            let colors = high_byte(data);
            self.glyph_pixel(low_byte(data), px % 7, py % 9, colors % 16, colors / 16)
        } else {
            self.pixel(px, py)
        }
    }
}

/// The display.
pub struct PPU {
    /// The glyphs, nine bytes each, one after the other.
    pub chars: Vec<u8>,
    /// The picture, row by row, one palette colour for each pixel.
    pub frame_buf: Block<FRAME_SIZE>,
}

impl View for PPU {
    type V = PpuView;

    open spec fn view(&self) -> PpuView {
        PpuView { chars: self.chars@, frame_buf: self.frame_buf@ }
    }
}

impl PPU {
    /// A display with the glyphs of `charset` and an all blue picture.
    pub fn new(charset: Vec<u8>) -> (ppu: PPU)
        ensures
            ppu@.chars == charset@,
            ppu@.frame_buf == Seq::new(FRAME_SIZE as nat, |i: int| BLUE),
    {
        PPU { chars: charset, frame_buf: Block::filled(BLUE) }
    }

    /// Whether all nine bytes of the glyph that `chr` selects are there.
    pub fn has_glyph(&self, chr: u8) -> (has: bool)
        ensures
            has == self@.has_glyph(chr),
    {
        (chr % 128) as usize * 9 + 9 <= self.chars.len()
    }

    /// Whether every glyph is there, so that every character can be drawn.
    pub fn is_complete(&self) -> (complete: bool)
        ensures
            complete == self@.is_complete(),
    {
        self.chars.len() >= GLYPHS * 9
    }

    /// The colour of the pixel in column `x` and row `y` of the picture.
    pub fn pixel(&self, x: u16, y: u16) -> (color: u8)
        requires
            x < INTERNAL_RESOLUTION_X,
            y < INTERNAL_RESOLUTION_Y,
        ensures
            color == self@.pixel(x as int, y as int),
    {
        self.frame_buf.get(y as usize * 448 + x as usize)
    }

    /// Draws glyph `chr` with colour `ch_color` on `bg_color` into the
    /// character cell in column `x` and row `y`. Nothing outside the cell
    /// changes.
    pub fn draw_char_at(&mut self, x: u8, y: u8, chr: u8, ch_color: u8, bg_color: u8)
        requires
            x < 64,
            y < 52,
            old(self)@.has_glyph(chr),
        ensures
            final(self)@ == old(self)@.draw_char_at(x, y, chr, ch_color, bg_color),
    {
        let lx: usize = x as usize * 7;
        let ly: usize = y as usize * 9;
        let glyph: usize = (chr % 128) as usize * 9;
        let _ = self.frame_buf.len();
        let mut row: usize = 0;
        while row < 9
            invariant
                row <= 9,
                x < 64,
                y < 52,
                lx == 7 * x,
                ly == 9 * y,
                glyph == (chr % 128) * 9,
                glyph + 9 <= self.chars.len(),
                self@.chars == old(self)@.chars,
                self@.wf(),
                forall|px: int, py: int|
                    0 <= px < 448 && 0 <= py < 470 ==> #[trigger] self@.pixel(px, py) == if lx
                        <= px < lx + 7 && ly <= py < ly + row {
                        old(self)@.glyph_pixel(chr, px - lx, py - ly, ch_color, bg_color)
                    } else {
                        old(self)@.pixel(px, py)
                    },
            decreases 9 - row,
        {
            let line = self.chars[glyph + row];
            let mut column: u8 = 0;
            while column < 7
                invariant
                    column <= 7,
                    row < 9,
                    x < 64,
                    y < 52,
                    lx == 7 * x,
                    ly == 9 * y,
                    glyph == (chr % 128) * 9,
                    line == old(self)@.chars[glyph + row],
                    self@.chars == old(self)@.chars,
                    self@.wf(),
                    forall|px: int, py: int|
                        0 <= px < 448 && 0 <= py < 470 ==> #[trigger] self@.pixel(px, py) == if lx
                            <= px < lx + 7 && (ly <= py < ly + row || (py == ly + row && px < lx
                            + column)) {
                            old(self)@.glyph_pixel(chr, px - lx, py - ly, ch_color, bg_color)
                        } else {
                            old(self)@.pixel(px, py)
                        },
                decreases 7 - column,
            {
                let color = if bit_at(line, column) {
                    ch_color
                } else {
                    bg_color
                };
                let ghost before = self@;
                let index = (ly + row) * 448 + lx + column as usize;
                self.frame_buf.set(index, color);
                assert forall|px: int, py: int| 0 <= px < 448 && 0 <= py < 470 implies #[trigger] self@.pixel(
                    px,
                    py,
                ) == if px == lx + column && py == ly + row {
                    color
                } else {
                    before.pixel(px, py)
                } by {
                    assert(py * 448 + px == index <==> (px == lx + column && py == ly + row));
                }
                column += 1;
            }
            row += 1;
        }
        proof {
            let drawn = old(self)@.draw_char_at(x, y, chr, ch_color, bg_color);
            assert forall|i: int| 0 <= i < FRAME_SIZE implies self@.frame_buf[i]
                == drawn.frame_buf[i] by {
                assert(self@.pixel(i % 448, i / 448) == self@.frame_buf[i]);
            }
            assert(self@.frame_buf =~= drawn.frame_buf);
        }
    }

    /// Writes `text` in colour `ch_color` on blue into row `y`, from column
    /// `x` on, one character in each cell. Nothing outside those cells
    /// changes.
    pub fn draw_text(&mut self, text: &Vec<u8>, x: u8, y: u8, ch_color: u8)
        requires
            x + text.len() <= 64,
            y < 52,
            old(self)@.can_write(text@),
        ensures
            final(self)@ == old(self)@.draw_text(text@, x, y, ch_color),
    {
        let _ = self.frame_buf.len();
        let mut i: usize = 0;
        while i < text.len()
            invariant
                i <= text.len(),
                x + text.len() <= 64,
                y < 52,
                self@.chars == old(self)@.chars,
                self@.can_write(text@),
                self@.wf(),
                forall|px: int, py: int|
                    0 <= px < 448 && 0 <= py < 470 ==> #[trigger] self@.pixel(px, py) == old(
                        self,
                    )@.text_pixel(px, py, text@.subrange(0, i as int), x as int, y as int, ch_color),
            decreases text.len() - i,
        {
            let ghost before = self@;
            let column: u8 = x + i as u8;
            self.draw_char_at(column, y, text[i], ch_color, BLUE);
            assert forall|px: int, py: int| 0 <= px < 448 && 0 <= py < 470 implies #[trigger] self@.pixel(
                px,
                py,
            ) == old(self)@.text_pixel(
                px,
                py,
                text@.subrange(0, i + 1),
                x as int,
                y as int,
                ch_color,
            ) by {
                assert(self@.pixel(px, py) == before.char_pixel(
                    px,
                    py,
                    column as int,
                    y as int,
                    text@[i as int],
                    ch_color,
                    BLUE,
                )) by {
                    assert((py * 448 + px) % 448 == px && (py * 448 + px) / 448 == py);
                }
                if 7 * column <= px < 7 * column + 7 && 9 * y <= py < 9 * y + 9 {
                    assert(px / 7 == column && px % 7 == px - 7 * column);
                    assert(py / 9 == y && py % 9 == py - 9 * y);
                } else if 7 * x <= px < 7 * column && 9 * y <= py < 9 * y + 9 {
                    assert(0 <= px / 7 - x < i);
                }
            }
            i += 1;
        }
        proof {
            assert(text@.subrange(0, i as int) == text@);
            let written = old(self)@.draw_text(text@, x, y, ch_color);
            assert forall|k: int| 0 <= k < FRAME_SIZE implies self@.frame_buf[k]
                == written.frame_buf[k] by {
                assert(self@.pixel(k % 448, k / 448) == self@.frame_buf[k]);
            }
            assert(self@.frame_buf =~= written.frame_buf);
        }
    }

    /// Whether the glyph of every character that `mapper` holds in its
    /// displayed memory is there, so that the text can be drawn.
    pub fn can_show(&self, mapper: &Mapper) -> (can: bool)
        ensures
            can == self@.can_show(mapper@),
    {
        let mut y: u8 = 0;
        while y < RESOLUTION_Y
            invariant
                y <= RESOLUTION_Y,
                forall|cx: u8, cy: u8|
                    cx < RESOLUTION_X && cy < y ==> self@.has_glyph(
                        #[trigger] cell_char(mapper@, cx, cy),
                    ),
            decreases RESOLUTION_Y - y,
        {
            let mut x: u8 = 0;
            while x < RESOLUTION_X
                invariant
                    x <= RESOLUTION_X,
                    y < RESOLUTION_Y,
                    forall|cx: u8, cy: u8|
                        cx < RESOLUTION_X && (cy < y || (cy == y && cx < x)) ==> self@.has_glyph(
                            #[trigger] cell_char(mapper@, cx, cy),
                        ),
                decreases RESOLUTION_X - x,
            {
                let data = mapper.read_word(cell_address(x, y));
                assert(low_byte(data) == cell_char(mapper@, x, y));
                if !self.has_glyph(low_byte(data)) {
                    return false;
                }
                x += 1;
            }
            y += 1;
        }
        true
    }

    /// Draws the text that `mapper` holds in its displayed memory: every
    /// character cell of the 64 columns and 32 rows, each with its glyph and
    /// its two colours. The picture below the text stays as it is.
    pub fn tick(&mut self, mapper: &Mapper)
        requires
            old(self)@.can_show(mapper@),
        ensures
            final(self)@ == old(self)@.tick(mapper@),
    {
        let _ = self.frame_buf.len();
        let mut y: u8 = 0;
        while y < RESOLUTION_Y
            invariant
                y <= RESOLUTION_Y,
                self@.chars == old(self)@.chars,
                self@.can_show(mapper@),
                self@.wf(),
                forall|px: int, py: int|
                    0 <= px < 448 && 0 <= py < 470 ==> #[trigger] self@.pixel(px, py) == if py < 9
                        * y {
                        old(self)@.screen_pixel(mapper@, px, py)
                    } else {
                        old(self)@.pixel(px, py)
                    },
            decreases RESOLUTION_Y - y,
        {
            let mut x: u8 = 0;
            while x < RESOLUTION_X
                invariant
                    x <= RESOLUTION_X,
                    y < RESOLUTION_Y,
                    self@.chars == old(self)@.chars,
                    self@.can_show(mapper@),
                    self@.wf(),
                    forall|px: int, py: int|
                        0 <= px < 448 && 0 <= py < 470 ==> #[trigger] self@.pixel(px, py) == if py
                            < 9 * y || (py < 9 * y + 9 && px < 7 * x) {
                            old(self)@.screen_pixel(mapper@, px, py)
                        } else {
                            old(self)@.pixel(px, py)
                        },
                decreases RESOLUTION_X - x,
            {
                let data = mapper.read_word(cell_address(x, y));
                assert(data == mapper@.read_word(cell_address(x, y), 0));
                assert(low_byte(data) == cell_char(mapper@, x, y));
                let colors = high_byte(data);
                let ghost before = self@;
                self.draw_char_at(x, y, low_byte(data), colors % 16, colors / 16);
                assert forall|px: int, py: int| 0 <= px < 448 && 0 <= py < 470 implies #[trigger] self@.pixel(
                    px,
                    py,
                ) == if py < 9 * y || (py < 9 * y + 9 && px < 7 * (x + 1)) {
                    old(self)@.screen_pixel(mapper@, px, py)
                } else {
                    old(self)@.pixel(px, py)
                } by {
                    assert(self@.pixel(px, py) == before.char_pixel(
                        px,
                        py,
                        x as int,
                        y as int,
                        low_byte(data),
                        (colors % 16) as u8,
                        (colors / 16) as u8,
                    )) by {
                        assert((py * 448 + px) % 448 == px && (py * 448 + px) / 448 == py);
                    }
                    if 7 * x <= px < 7 * x + 7 && 9 * y <= py < 9 * y + 9 {
                        assert(px / 7 == x && px % 7 == px - 7 * x);
                        assert(py / 9 == y && py % 9 == py - 9 * y);
                    }
                }
                x += 1;
            }
            y += 1;
        }
        proof {
            let shown = old(self)@.tick(mapper@);
            assert forall|i: int| 0 <= i < FRAME_SIZE implies self@.frame_buf[i]
                == shown.frame_buf[i] by {
                assert(self@.pixel(i % 448, i / 448) == self@.frame_buf[i]);
            }
            assert(self@.frame_buf =~= shown.frame_buf);
        }
    }
}

} // verus!
