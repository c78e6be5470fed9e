//! The framebuffer: a 32-by-32 grid of color-index bytes mapped at
//! `0x0200..0x0600`, and the palette that names each index.
use vstd::prelude::*;

use crate::bus::Bus;

verus! {

pub const SCREEN_MEMORY_START: u16 = 0x0200;
pub const NUMBER_OF_PIXELS: usize = 0x0600 - 0x0200;
pub const NUMBER_OF_PIXELS_PER_LINE: usize = 32;

/// The palette of the framebuffer.
#[derive(Clone, Copy, PartialEq, Eq, Structural, Debug)]
pub enum Color {
    Black,
    White,
    Grey,
    Red,
    Green,
    Blue,
    Magenta,
    Yellow,
    Cyan,
}

/// The color each index byte names; every byte above 14 is cyan.
pub open spec fn spec_color_of(byte: u8) -> Color {
    if byte == 0 {
        Color::Black
    } else if byte == 1 {
        Color::White
    } else if byte == 2 || byte == 9 {
        Color::Grey
    } else if byte == 3 || byte == 10 {
        Color::Red
    } else if byte == 4 || byte == 11 {
        Color::Green
    } else if byte == 5 || byte == 12 {
        Color::Blue
    } else if byte == 6 || byte == 13 {
        Color::Magenta
    } else if byte == 7 || byte == 14 {
        Color::Yellow
    } else {
        Color::Cyan
    }
}

impl From<u8> for Color {
    fn from(byte: u8) -> (c: Color) {
        match byte {
            0 => Color::Black,
            1 => Color::White,
            2 | 9 => Color::Grey,
            3 | 10 => Color::Red,
            4 | 11 => Color::Green,
            5 | 12 => Color::Blue,
            6 | 13 => Color::Magenta,
            7 | 14 => Color::Yellow,
            _ => Color::Cyan,
        }
    }
}

impl vstd::std_specs::convert::FromSpecImpl<u8> for Color {
    open spec fn obeys_from_spec() -> bool {
        true
    }

    open spec fn from_spec(v: u8) -> Color {
        spec_color_of(v)
    }
}

impl Color {
    /// The RGB hex code of this palette color.
    pub fn hex_code(&self) -> (s: &'static str)
        ensures
            s@ == spec_hex_code(*self),
    {
        match self {
            Color::Black => "#000000",
            Color::White => "#FFFFFF",
            Color::Grey => "#7F7F7F",
            Color::Red => "#FF0000",
            Color::Green => "#00FF00",
            Color::Blue => "#0000FF",
            Color::Magenta => "#FF00FF",
            Color::Yellow => "#FFFF00",
            Color::Cyan => "#00FFFF",
        }
    }
}

/// The characters of each palette color's hex code.
pub open spec fn spec_hex_code(c: Color) -> Seq<char> {
    match c {
        Color::Black => "#000000"@,
        Color::White => "#FFFFFF"@,
        Color::Grey => "#7F7F7F"@,
        Color::Red => "#FF0000"@,
        Color::Green => "#00FF00"@,
        Color::Blue => "#0000FF"@,
        Color::Magenta => "#FF00FF"@,
        Color::Yellow => "#FFFF00"@,
        Color::Cyan => "#00FFFF"@,
    }
}

/// The framebuffer device. It keeps no state of its own: the pixel bytes
/// live in the bus memory it is mapped over, and its bus hooks do nothing.
pub struct Screen {
}

impl Screen {
    pub fn default() -> (s: Screen) {
        Screen {  }
    }

    /// The pixel rows: 32 rows of 32 color-index bytes, read straight from
    /// the mapped memory.
    pub fn get_screen_data(&self, bus: &Bus) -> (data: Vec<Vec<u8>>)
        requires
            bus@.wf(),
        ensures
            data@.len() == NUMBER_OF_PIXELS_PER_LINE,
            forall|row: int|
                0 <= row < NUMBER_OF_PIXELS_PER_LINE ==> (#[trigger] data@[row])@.len()
                    == NUMBER_OF_PIXELS_PER_LINE,
            forall|row: int, col: int|
                0 <= row < NUMBER_OF_PIXELS_PER_LINE && 0 <= col < NUMBER_OF_PIXELS_PER_LINE
                    ==> (#[trigger] data@[row]@[col]) == bus@.mem[SCREEN_MEMORY_START + row * 32
                    + col],
    {
        let mut data: Vec<Vec<u8>> = Vec::new();
        let mut row: usize = 0;
        while row < NUMBER_OF_PIXELS_PER_LINE
            invariant
                bus@.wf(),
                0 <= row <= NUMBER_OF_PIXELS_PER_LINE,
                data@.len() == row,
                forall|i: int|
                    0 <= i < row ==> (#[trigger] data@[i])@.len() == NUMBER_OF_PIXELS_PER_LINE,
                forall|i: int, j: int|
                    0 <= i < row && 0 <= j < NUMBER_OF_PIXELS_PER_LINE ==> (
                    #[trigger] data@[i]@[j]) == bus@.mem[SCREEN_MEMORY_START + i * 32 + j],
            decreases NUMBER_OF_PIXELS_PER_LINE - row,
        {
            let mut line: Vec<u8> = Vec::new();
            let mut col: usize = 0;
            while col < NUMBER_OF_PIXELS_PER_LINE
                invariant
                    bus@.wf(),
                    0 <= row < NUMBER_OF_PIXELS_PER_LINE,
                    0 <= col <= NUMBER_OF_PIXELS_PER_LINE,
                    line@.len() == col,
                    forall|j: int|
                        0 <= j < col ==> (#[trigger] line@[j]) == bus@.mem[SCREEN_MEMORY_START + row
                            * 32 + j],
                decreases NUMBER_OF_PIXELS_PER_LINE - col,
            {
                let byte = bus.memory[SCREEN_MEMORY_START as usize + row * 32 + col];
                line.push(byte);
                col = col + 1;
            }
            data.push(line);
            row = row + 1;
        }
        data
    }
}

} // verus!
