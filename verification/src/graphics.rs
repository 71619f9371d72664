//! The frame buffer of the 3.27 inch display with four grey levels.
//!
//! Each pixel takes two bits, so one byte holds four pixels: the leftmost
//! pixel in the two most significant bits.  Rows follow each other, each
//! `(width + 3) / 4` bytes long.  A pixel's two bits are its grey level,
//! from 0b11 (white) to 0b00 (black), as a monochrome pixel's bit is 1 for
//! white and 0 for black.
use vstd::prelude::*;
use crate::epd3in27::{HEIGHT, WIDTH};

verus! {

/// One of the four grey levels of a pixel.
#[derive(Clone, Copy, Debug, PartialEq, Eq, Structural)]
pub enum TwoBitColor {
    White,
    /// Light grey.
    Gray1,
    /// Dark grey.
    Gray2,
    Black,
}

/// The two bits that encode a grey level.
pub open spec fn two_bit_value(c: TwoBitColor) -> u8 {
    match c {
        TwoBitColor::White => 0b11,
        TwoBitColor::Gray1 => 0b10,
        TwoBitColor::Gray2 => 0b01,
        TwoBitColor::Black => 0b00,
    }
}

/// A byte of four pixels of the same two-bit value.
pub open spec fn fill_byte(v: u8) -> u8 {
    (v << 6u8) | (v << 4u8) | (v << 2u8) | v
}

impl TwoBitColor {
    /// The two bits that encode this grey level.
    pub fn bits(self) -> (b: u8)
        ensures
            b == two_bit_value(self),
    {
        match self {
            TwoBitColor::White => 0b11,
            TwoBitColor::Gray1 => 0b10,
            TwoBitColor::Gray2 => 0b01,
            TwoBitColor::Black => 0b00,
        }
    }

    /// A full byte of four pixels of this grey level.
    pub fn get_byte_value(self) -> (b: u8)
        ensures
            b == fill_byte(two_bit_value(self)),
    {
        let v = self.bits();
        (v << 6u8) | (v << 4u8) | (v << 2u8) | v
    }
}

/// How drawing coordinates are turned before they reach the buffer.
#[derive(Clone, Copy, Debug, PartialEq, Eq, Structural)]
pub enum DisplayRotation {
    /// No rotation
    Rotate0,
    /// Rotate by 90 degrees clockwise
    Rotate90,
    /// Rotate by 180 degrees clockwise
    Rotate180,
    /// Rotate 270 degrees clockwise
    Rotate270,
}

/// Size of the frame buffer of the whole display, in bytes.
pub const BUFFER_LEN: usize = 30000;

/// Bytes per row of a buffer `width` pixels wide.
pub open spec fn row_bytes(width: int) -> int {
    (width + 3) / 4
}

/// Whether the point (`x`, `y`) lies off a `width` by `height` panel under
/// rotation `r` (turned by a quarter, the panel is `height` wide).
pub open spec fn outside_display(x: int, y: int, width: int, height: int, r: DisplayRotation) -> bool {
    ||| x < 0
    ||| y < 0
    ||| match r {
        DisplayRotation::Rotate0 | DisplayRotation::Rotate180 => x >= width || y >= height,
        DisplayRotation::Rotate90 | DisplayRotation::Rotate270 => y >= width || x >= height,
    }
}

/// The panel column and row of the point (`x`, `y`) under rotation `r`.
pub open spec fn rotate(x: int, y: int, width: int, height: int, r: DisplayRotation) -> (int, int) {
    match r {
        DisplayRotation::Rotate0 => (x, y),
        DisplayRotation::Rotate90 => (width - 1 - y, x),
        DisplayRotation::Rotate180 => (width - 1 - x, height - 1 - y),
        DisplayRotation::Rotate270 => (y, height - 1 - x),
    }
}

/// The byte that holds panel pixel (`nx`, `ny`).
pub open spec fn byte_index(nx: int, ny: int, width: int) -> int {
    nx / 4 + row_bytes(width) * ny
}

/// Where in its byte panel pixel column `nx` sits: the leftmost of four
/// pixels in the top two bits.
pub open spec fn bit_shift(nx: int) -> u8 {
    (6 - 2 * (nx % 4)) as u8
}

/// A byte with the two bits at `shift` replaced by `v`.
pub open spec fn with_bits(b: u8, shift: u8, v: u8) -> u8 {
    (b & !(3u8 << shift)) | ((v & 3u8) << shift)
}

/// The two bits of a byte at `shift`.
pub open spec fn bits_at(b: u8, shift: u8) -> u8 {
    (b >> shift) & 3u8
}

/// The two-bit value of the point (`x`, `y`) in a buffer.
pub open spec fn pixel(buf: Seq<u8>, width: int, height: int, r: DisplayRotation, x: int, y: int) -> u8 {
    let (nx, ny) = rotate(x, y, width, height, r);
    bits_at(buf[byte_index(nx, ny, width)], bit_shift(nx))
}

/// The buffer after drawing the point (`x`, `y`) with the two-bit value
/// `v`; points off the panel leave it as it is.
pub open spec fn drawn(
    buf: Seq<u8>,
    width: int,
    height: int,
    r: DisplayRotation,
    x: int,
    y: int,
    v: u8,
) -> Seq<u8> {
    if outside_display(x, y, width, height, r) {
        buf
    } else {
        let (nx, ny) = rotate(x, y, width, height, r);
        let i = byte_index(nx, ny, width);
        buf.update(i, with_bits(buf[i], bit_shift(nx), v))
    }
}

/// What a display buffer holds.
pub struct DisplayState {
    pub buffer: Seq<u8>,
    pub rotation: DisplayRotation,
}

/// Display with a full-size buffer for the 3.27 inch e-paper display, two
/// bits per pixel.
pub struct Display3in27 {
    buffer: Vec<u8>,
    rotation: DisplayRotation,
}

impl View for Display3in27 {
    type V = DisplayState;

    closed spec fn view(&self) -> DisplayState {
        DisplayState { buffer: self.buffer@, rotation: self.rotation }
    }
}

impl Display3in27 {
    /// The buffer always covers the whole display.
    #[verifier::type_invariant]
    closed spec fn full_size(self) -> bool {
        self.buffer.len() == BUFFER_LEN
    }

    /// A white display, not rotated.
    pub fn new() -> (d: Display3in27)
        ensures
            d@.buffer == Seq::new(BUFFER_LEN as nat, |i: int| 0xffu8),
            d@.rotation == DisplayRotation::Rotate0,
    {
        let mut buffer: Vec<u8> = Vec::new();
        let mut i: usize = 0;
        while i < BUFFER_LEN
            invariant
                i <= BUFFER_LEN,
                buffer@ == Seq::new(i as nat, |j: int| 0xffu8),
            decreases BUFFER_LEN - i,
        {
            buffer.push(TwoBitColor::White.get_byte_value());
            i = i + 1;
            proof {
                assert(fill_byte(0b11u8) == 0xffu8) by (bit_vector);
            }
            assert(buffer@ =~= Seq::new(i as nat, |j: int| 0xffu8));
        }
        Display3in27 { buffer, rotation: DisplayRotation::Rotate0 }
    }

    /// The buffer.
    pub fn buffer(&self) -> (b: &[u8])
        ensures
            b@ == self@.buffer,
            b@.len() == BUFFER_LEN,
    {
        proof {
            use_type_invariant(self);
        }
        self.buffer.as_slice()
    }

    /// Sets the rotation of the display.
    pub fn set_rotation(&mut self, rotation: DisplayRotation)
        ensures
            final(self)@ == (DisplayState { buffer: old(self)@.buffer, rotation: rotation }),
    {
        proof {
            use_type_invariant(&*self);
        }
        self.rotation = rotation;
    }

    /// The current rotation of the display.
    pub fn rotation(&self) -> (r: DisplayRotation)
        ensures
            r == self@.rotation,
    {
        self.rotation
    }

    /// Clears the buffer with the chosen background grey level.
    pub fn clear_buffer(&mut self, background_color: TwoBitColor)
        ensures
            final(self)@.rotation == old(self)@.rotation,
            final(self)@.buffer == Seq::new(
                BUFFER_LEN as nat,
                |i: int| fill_byte(two_bit_value(background_color)),
            ),
    {
        proof {
            use_type_invariant(&*self);
        }
        let value = background_color.get_byte_value();
        let mut buffer: Vec<u8> = Vec::new();
        let mut i: usize = 0;
        while i < BUFFER_LEN
            invariant
                i <= BUFFER_LEN,
                value == fill_byte(two_bit_value(background_color)),
                buffer@ == Seq::new(i as nat, |j: int| value),
            decreases BUFFER_LEN - i,
        {
            buffer.push(value);
            i = i + 1;
            assert(buffer@ =~= Seq::new(i as nat, |j: int| value));
        }
        self.buffer = buffer;
    }

    /// Draws the point (`x`, `y`) of a `width` by `height` panel in the
    /// grey level `color`, under the display's rotation; points off the
    /// panel are ignored.
    pub fn draw_helper(&mut self, width: u32, height: u32, x: i32, y: i32, color: TwoBitColor)
        requires
            row_bytes(width as int) * height <= old(self)@.buffer.len(),
        ensures
            final(self)@.rotation == old(self)@.rotation,
            final(self)@.buffer == drawn(
                old(self)@.buffer,
                width as int,
                height as int,
                old(self)@.rotation,
                x as int,
                y as int,
                two_bit_value(color),
            ),
    {
        proof {
            use_type_invariant(&*self);
        }
        let rotation = self.rotation;
        if x < 0 || y < 0 {
            return;
        }
        let ux = x as u32;
        let uy = y as u32;
        let outside = match rotation {
            DisplayRotation::Rotate0 | DisplayRotation::Rotate180 => ux >= width || uy >= height,
            DisplayRotation::Rotate90 | DisplayRotation::Rotate270 => uy >= width || ux >= height,
        };
        if outside {
            return;
        }
        let (nx, ny) = match rotation {
            DisplayRotation::Rotate0 => (ux, uy),
            DisplayRotation::Rotate90 => (width - 1 - uy, ux),
            DisplayRotation::Rotate180 => (width - 1 - ux, height - 1 - uy),
            DisplayRotation::Rotate270 => (uy, height - 1 - ux),
        };
        assert(rotate(x as int, y as int, width as int, height as int, rotation) == (
        nx as int, ny as int));
        let row: u32 = width / 4 + if width % 4 != 0 {
            1
        } else {
            0
        };
        assert(row == row_bytes(width as int));
        proof {
            lemma_index_in_buffer(nx as int, ny as int, width as int, height as int);
            assert(row as int * ny as int == row_bytes(width as int) * ny as int);
            assert(byte_index(nx as int, ny as int, width as int) < self.buffer.len());
            assert(self.buffer.len() <= usize::MAX);
        }
        let index: usize = (nx / 4) as usize + (row as usize) * (ny as usize);
        let shift: u8 = (6 - 2 * (nx % 4)) as u8;
        let v = color.bits();
        let old_byte = self.buffer[index];
        let new_byte = (old_byte & !(3u8 << shift)) | ((v & 3u8) << shift);
        self.buffer[index] = new_byte;
    }

    /// Draws one point of the whole display, as drawing through the
    /// display's draw target does.
    pub fn draw_pixel(&mut self, x: i32, y: i32, color: TwoBitColor)
        ensures
            final(self)@.rotation == old(self)@.rotation,
            final(self)@.buffer == drawn(
                old(self)@.buffer,
                WIDTH as int,
                HEIGHT as int,
                old(self)@.rotation,
                x as int,
                y as int,
                two_bit_value(color),
            ),
    {
        proof {
            use_type_invariant(&*self);
        }
        assert(row_bytes(WIDTH as int) * HEIGHT == BUFFER_LEN);
        self.draw_helper(WIDTH, HEIGHT, x, y, color);
    }
}

/// The byte of a panel pixel lies inside a buffer of `row_bytes(width) *
/// height` bytes.
proof fn lemma_index_in_buffer(nx: int, ny: int, width: int, height: int)
    requires
        0 <= nx < width,
        0 <= ny < height,
    ensures
        0 <= byte_index(nx, ny, width) < row_bytes(width) * height,
        0 <= row_bytes(width) * ny,
{
    let r = row_bytes(width);
    assert(nx / 4 < r);
    assert(0 <= r * ny <= r * (height - 1)) by (nonlinear_arith)
        requires
            0 <= ny <= height - 1,
            r >= 1,
    ;
    assert(r * (height - 1) == r * height - r) by (nonlinear_arith);
}

/// Two bits written at a shift read back from it, and the other pixels of
/// the byte keep their bits.
proof fn lemma_with_bits(b: u8, s: u8, t: u8, v: u8)
    requires
        s == 0 || s == 2 || s == 4 || s == 6,
        t == 0 || t == 2 || t == 4 || t == 6,
        v <= 3,
    ensures
        bits_at(with_bits(b, s, v), s) == v,
        s != t ==> bits_at(with_bits(b, s, v), t) == bits_at(b, t),
{
    assert(bits_at(with_bits(b, s, v), s) == v) by (bit_vector)
        requires
            s == 0 || s == 2 || s == 4 || s == 6,
            v <= 3,
    ;
    assert(s != t ==> bits_at(with_bits(b, s, v), t) == bits_at(b, t)) by (bit_vector)
        requires
            s == 0 || s == 2 || s == 4 || s == 6,
            t == 0 || t == 2 || t == 4 || t == 6,
    ;
}

/// Two different panel pixels never share both byte and bits.
proof fn lemma_positions_distinct(nx: int, ny: int, mx: int, my: int, width: int)
    requires
        0 <= nx < width,
        0 <= mx < width,
        0 <= ny,
        0 <= my,
        (nx, ny) != (mx, my),
    ensures
        byte_index(nx, ny, width) != byte_index(mx, my, width) || bit_shift(nx) != bit_shift(
            mx,
        ),
{
    let r = row_bytes(width);
    assert(nx / 4 < r && mx / 4 < r);
    if ny != my {
        if ny < my {
            assert(r * ny + r <= r * my) by (nonlinear_arith)
                requires
                    ny < my,
                    r >= 1,
            ;
        } else {
            assert(r * my + r <= r * ny) by (nonlinear_arith)
                requires
                    my < ny,
                    r >= 1,
            ;
        }
    }
}

/// Drawing sets the point: after drawing (`x`, `y`) on the panel with the
/// value `v`, reading (`x`, `y`) gives `v`.
pub proof fn law_draw_sets_pixel(
    buf: Seq<u8>,
    width: int,
    height: int,
    r: DisplayRotation,
    x: int,
    y: int,
    v: u8,
)
    requires
        buf.len() >= row_bytes(width) * height,
        !outside_display(x, y, width, height, r),
        v <= 3,
    ensures
        pixel(drawn(buf, width, height, r, x, y, v), width, height, r, x, y) == v,
{
    let (nx, ny) = rotate(x, y, width, height, r);
    lemma_index_in_buffer(nx, ny, width, height);
    lemma_with_bits(buf[byte_index(nx, ny, width)], bit_shift(nx), bit_shift(nx), v);
}

/// Drawing touches nothing else: after drawing (`x`, `y`), every other
/// point of the panel reads as before.
pub proof fn law_draw_keeps_other_pixels(
    buf: Seq<u8>,
    width: int,
    height: int,
    r: DisplayRotation,
    x: int,
    y: int,
    v: u8,
    x2: int,
    y2: int,
)
    requires
        buf.len() >= row_bytes(width) * height,
        !outside_display(x, y, width, height, r),
        !outside_display(x2, y2, width, height, r),
        (x, y) != (x2, y2),
        v <= 3,
    ensures
        pixel(drawn(buf, width, height, r, x, y, v), width, height, r, x2, y2) == pixel(
            buf,
            width,
            height,
            r,
            x2,
            y2,
        ),
{
    let (nx, ny) = rotate(x, y, width, height, r);
    let (mx, my) = rotate(x2, y2, width, height, r);
    lemma_index_in_buffer(nx, ny, width, height);
    lemma_index_in_buffer(mx, my, width, height);
    lemma_positions_distinct(nx, ny, mx, my, width);
    let i = byte_index(nx, ny, width);
    let j = byte_index(mx, my, width);
    if i == j {
        lemma_with_bits(buf[i], bit_shift(nx), bit_shift(mx), v);
    }
}

} // verus!
