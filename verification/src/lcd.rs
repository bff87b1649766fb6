use vstd::prelude::*;

verus! {

/// One pixel as 8-bit red, green and blue.
pub type RGB = (u8, u8, u8);

pub const PIXELS_HEIGHT: usize = 144;

pub const PIXELS_WIDTH: usize = 160;

pub const RGB_WHITE: RGB = (255, 255, 255);

pub const RGB_LIGHT_GRAY: RGB = (170, 170, 170);

pub const RGB_DARK_GRAY: RGB = (85, 85, 85);

pub const RGB_BLACK: RGB = (0, 0, 0);


/// The four fixed monochrome colors as text glyphs: white, light gray,
/// dark gray and black become space, dot, `o` and `#`; any other color
/// becomes `?`.
pub open spec fn spec_glyph(p: RGB) -> u8 {
    if p == (255u8, 255u8, 255u8) {
        32u8
    } else if p == (170u8, 170u8, 170u8) {
        46u8
    } else if p == (85u8, 85u8, 85u8) {
        111u8
    } else if p == (0u8, 0u8, 0u8) {
        35u8
    } else {
        63u8
    }
}

fn glyph(p: RGB) -> (r: u8)
    ensures
        r == spec_glyph(p),
{
    if p.0 == 255 && p.1 == 255 && p.2 == 255 {
        32
    } else if p.0 == 170 && p.1 == 170 && p.2 == 170 {
        46
    } else if p.0 == 85 && p.1 == 85 && p.2 == 85 {
        111
    } else if p.0 == 0 && p.1 == 0 && p.2 == 0 {
        35
    } else {
        63
    }
}

/// A row-major monochrome frame as text: one glyph per pixel and a newline
/// after each of the 144 rows.
pub fn render_text(frame: &Vec<RGB>) -> (r: Vec<u8>)
    requires
        frame.len() == PIXELS_HEIGHT * PIXELS_WIDTH,
    ensures
        r@.len() == PIXELS_HEIGHT * (PIXELS_WIDTH + 1),
        forall|row: int, col: int|
            0 <= row < PIXELS_HEIGHT && 0 <= col < PIXELS_WIDTH ==> r@[row * 161 + col]
                == #[trigger] spec_glyph(frame@[row * 160 + col]),
        forall|row: int| 0 <= row < PIXELS_HEIGHT ==> r@[#[trigger] (row * 161) + 160] == 10u8,
{
    let mut out: Vec<u8> = Vec::new();
    let mut row: usize = 0;
    while row < PIXELS_HEIGHT
        invariant
            row <= PIXELS_HEIGHT,
            frame.len() == PIXELS_HEIGHT * PIXELS_WIDTH,
            out@.len() == row * 161,
            forall|a: int, col: int|
                0 <= a < row && 0 <= col < PIXELS_WIDTH ==> out@[a * 161 + col]
                    == #[trigger] spec_glyph(frame@[a * 160 + col]),
            forall|a: int| 0 <= a < row ==> out@[#[trigger] (a * 161) + 160] == 10u8,
        decreases PIXELS_HEIGHT - row,
    {
        let mut col: usize = 0;
        while col < PIXELS_WIDTH
            invariant
                col <= PIXELS_WIDTH,
                row < PIXELS_HEIGHT,
                frame.len() == PIXELS_HEIGHT * PIXELS_WIDTH,
                out@.len() == row * 161 + col,
                forall|a: int, c: int|
                    0 <= a < row && 0 <= c < PIXELS_WIDTH ==> out@[a * 161 + c]
                        == #[trigger] spec_glyph(frame@[a * 160 + c]),
                forall|a: int| 0 <= a < row ==> out@[#[trigger] (a * 161) + 160] == 10u8,
                forall|c: int|
                    0 <= c < col ==> out@[row * 161 + c] == #[trigger] spec_glyph(
                        frame@[row * 160 + c],
                    ),
            decreases PIXELS_WIDTH - col,
        {
            out.push(glyph(frame[row * 160 + col]));
            col += 1;
        }
        out.push(10);
        row += 1;
    }
    out
}

/// A row-major frame as a binary image: a fixed textual header naming the
/// 160 by 144 size, then three bytes per pixel.
pub fn render_ppm(frame: &Vec<RGB>) -> (r: Vec<u8>)
    requires
        frame.len() == PIXELS_HEIGHT * PIXELS_WIDTH,
    ensures
        r@.len() == 15 + 3 * PIXELS_HEIGHT * PIXELS_WIDTH,
        forall|i: int|
            0 <= i < PIXELS_HEIGHT * PIXELS_WIDTH ==> r@[15 + 3 * i] == frame@[i].0 && r@[15 + 3
                * i + 1] == frame@[i].1 && r@[15 + 3 * i + 2] == frame@[i].2,
{
    let mut out: Vec<u8> = Vec::new();
    // The header: a type marker, the width and height, and the channel
    // maximum, each line ending in a line feed.
    out.push(80);
    out.push(54);
    out.push(10);
    out.push(49);
    out.push(54);
    out.push(48);
    out.push(32);
    out.push(49);
    out.push(52);
    out.push(52);
    out.push(10);
    out.push(50);
    out.push(53);
    out.push(53);
    out.push(10);
    let mut i: usize = 0;
    while i < PIXELS_HEIGHT * PIXELS_WIDTH
        invariant
            i <= PIXELS_HEIGHT * PIXELS_WIDTH,
            frame.len() == PIXELS_HEIGHT * PIXELS_WIDTH,
            out@.len() == 15 + 3 * i,
            forall|a: int|
                0 <= a < i ==> out@[15 + 3 * a] == frame@[a].0 && out@[15 + 3 * a + 1]
                    == frame@[a].1 && out@[15 + 3 * a + 2] == frame@[a].2,
        decreases PIXELS_HEIGHT * PIXELS_WIDTH - i,
    {
        let p = frame[i];
        out.push(p.0);
        out.push(p.1);
        out.push(p.2);
        i += 1;
    }
    out
}

} // verus!
