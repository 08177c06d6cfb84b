use vstd::prelude::*;
use vstd::string::StringSliceAdditionalSpecFns;

verus! {

/// The sixteen colours of the text mode palette.
#[derive(Clone, Copy, Debug, PartialEq, Eq, Structural)]
pub enum Color {
    Black,
    Blue,
    Green,
    Cyan,
    Red,
    Magenta,
    Brown,
    LightGray,
    DarkGray,
    LightBlue,
    LightGreen,
    LightCyan,
    LightRed,
    Pink,
    Yellow,
    White,
}

/// The palette index of a colour.
pub open spec fn color_index(c: Color) -> u8 {
    match c {
        Color::Black => 0,
        Color::Blue => 1,
        Color::Green => 2,
        Color::Cyan => 3,
        Color::Red => 4,
        Color::Magenta => 5,
        Color::Brown => 6,
        Color::LightGray => 7,
        Color::DarkGray => 8,
        Color::LightBlue => 9,
        Color::LightGreen => 10,
        Color::LightCyan => 11,
        Color::LightRed => 12,
        Color::Pink => 13,
        Color::Yellow => 14,
        Color::White => 15,
    }
}

impl Color {
    /// The palette index of the colour.
    pub fn index(self) -> (r: u8)
        ensures
            r == color_index(self),
    {
        match self {
            Color::Black => 0,
            Color::Blue => 1,
            Color::Green => 2,
            Color::Cyan => 3,
            Color::Red => 4,
            Color::Magenta => 5,
            Color::Brown => 6,
            Color::LightGray => 7,
            Color::DarkGray => 8,
            Color::LightBlue => 9,
            Color::LightGreen => 10,
            Color::LightCyan => 11,
            Color::LightRed => 12,
            Color::Pink => 13,
            Color::Yellow => 14,
            Color::White => 15,
        }
    }
}

/// A foreground and a background colour packed into the attribute byte of a
/// text cell: background in the high nibble, foreground in the low one.
#[derive(Clone, Copy, Debug, PartialEq, Eq, Structural)]
pub struct ColorCode(pub u8);

impl ColorCode {
    pub fn new(foreground: Color, background: Color) -> (r: ColorCode)
        ensures
            r.0 == color_index(background) * 16 + color_index(foreground),
    {
        let fg = foreground.index();
        let bg = background.index();
        assert((bg << 4u8) | fg == bg * 16 + fg) by (bit_vector)
            requires
                fg < 16,
                bg < 16,
        ;
        ColorCode((bg << 4u8) | fg)
    }
}

/// One cell of the text buffer.
#[derive(Clone, Copy, Debug, PartialEq, Eq, Structural)]
pub struct ScreenChar {
    pub ascii_character: u8,
    pub color_code: ColorCode,
}

pub const BUFFER_HEIGHT: usize = 25;

pub const BUFFER_WIDTH: usize = 80;

/// The number of cells of the text buffer.
pub const BUFFER_CELLS: usize = 2000;

/// The byte shown for a byte of text: printable ASCII and newline stay, any
/// other byte becomes a square (0xFE).
pub open spec fn screen_byte(b: u8) -> u8 {
    if (0x20 <= b && b <= 0x7e) || b == 10 {
        b
    } else {
        0xfe
    }
}

/// The console as a value: the cells row by row, the column where the next
/// byte goes on the bottom row, and the colour of new text.
pub ghost struct Screen {
    pub cells: Seq<ScreenChar>,
    pub column: nat,
    pub color: ColorCode,
}

impl Screen {
    pub open spec fn wf(self) -> bool {
        &&& self.cells.len() == BUFFER_CELLS
        &&& self.column <= BUFFER_WIDTH
    }
}

pub open spec fn blank(color: ColorCode) -> ScreenChar {
    ScreenChar { ascii_character: 0x20, color_code: color }
}

/// The screen moved up a row, with a blank bottom row and the column back at
/// its start.
pub open spec fn scrolled(v: Screen) -> Screen {
    Screen {
        cells: Seq::new(
            BUFFER_CELLS as nat,
            |i: int|
                if i < (BUFFER_CELLS - BUFFER_WIDTH) as int {
                    v.cells[i + BUFFER_WIDTH]
                } else {
                    blank(v.color)
                },
        ),
        column: 0,
        ..v
    }
}

/// The screen after the byte `b`: a newline scrolls; any other byte goes to
/// the next column of the bottom row, after a scroll when that row is full.
pub open spec fn put_byte(v: Screen, b: u8) -> Screen {
    if b == 10 {
        scrolled(v)
    } else {
        let v1 = if v.column >= BUFFER_WIDTH {
            scrolled(v)
        } else {
            v
        };
        Screen {
            cells: v1.cells.update(
                (BUFFER_CELLS - BUFFER_WIDTH) + v1.column,
                ScreenChar { ascii_character: b, color_code: v1.color },
            ),
            column: v1.column + 1,
            ..v1
        }
    }
}

/// The screen after the bytes `bs`, each shown as `screen_byte` says.
pub open spec fn put_bytes(v: Screen, bs: Seq<u8>) -> Screen
    decreases bs.len(),
{
    if bs.len() == 0 {
        v
    } else {
        put_byte(put_bytes(v, bs.drop_last()), screen_byte(bs.last()))
    }
}

/// A text console of 25 rows of 80 cells that writes on its bottom row.
pub struct Writer {
    column_position: usize,
    color_code: ColorCode,
    chars: Vec<ScreenChar>,
}

impl View for Writer {
    type V = Screen;

    closed spec fn view(&self) -> Screen {
        Screen { cells: self.chars@, column: self.column_position as nat, color: self.color_code }
    }
}

impl Writer {
    /// A blank console that writes in `color_code`.
    pub fn new(color_code: ColorCode) -> (r: Writer)
        ensures
            r@.wf(),
            r@.column == 0,
            r@.color == color_code,
            r@.cells == Seq::new(BUFFER_CELLS as nat, |i: int| blank(color_code)),
    {
        let mut chars: Vec<ScreenChar> = Vec::new();
        let mut i: usize = 0;
        while i < BUFFER_CELLS
            invariant
                i <= BUFFER_CELLS,
                chars@.len() == i,
                forall|j: int| 0 <= j < i ==> chars@[j] == blank(color_code),
            decreases BUFFER_CELLS - i,
        {
            chars.push(ScreenChar { ascii_character: 0x20, color_code });
            i = i + 1;
        }
        let r = Writer { column_position: 0, color_code, chars };
        assert(r@.cells =~= Seq::new(BUFFER_CELLS as nat, |i: int| blank(color_code)));
        r
    }

    /// The cell at `row` and `col`.
    pub fn cell(&self, row: usize, col: usize) -> (r: ScreenChar)
        requires
            self@.wf(),
            row < BUFFER_HEIGHT,
            col < BUFFER_WIDTH,
        ensures
            r == self@.cells[row * BUFFER_WIDTH + col],
    {
        self.chars[row * BUFFER_WIDTH + col]
    }

    /// Writes one byte as it is: a newline scrolls, any other byte goes to
    /// the next column of the bottom row.
    pub fn write_byte(&mut self, byte: u8)
        requires
            old(self)@.wf(),
        ensures
            final(self)@.wf(),
            final(self)@ == put_byte(old(self)@, byte),
    {
        if byte == 10 {
            self.new_line();
        } else {
            if self.column_position >= BUFFER_WIDTH {
                self.new_line();
            }
            let col = self.column_position;
            let color_code = self.color_code;
            self.chars.set(
                (BUFFER_CELLS - BUFFER_WIDTH) + col,
                ScreenChar { ascii_character: byte, color_code },
            );
            self.column_position = col + 1;
        }
    }

    /// Moves every row up by one, blanks the bottom row and starts it anew.
    fn new_line(&mut self)
        requires
            old(self)@.wf(),
        ensures
            final(self)@.wf(),
            final(self)@ == scrolled(old(self)@),
    {
        let mut i: usize = 0;
        while i < BUFFER_CELLS - BUFFER_WIDTH
            invariant
                i <= BUFFER_CELLS - BUFFER_WIDTH,
                self.chars@.len() == BUFFER_CELLS,
                self.color_code == old(self).color_code,
                self.column_position == old(self).column_position,
                forall|j: int| 0 <= j < i ==> self.chars@[j] == old(self).chars@[j + BUFFER_WIDTH],
                forall|j: int| i <= j < BUFFER_CELLS ==> self.chars@[j] == old(self).chars@[j],
            decreases BUFFER_CELLS - BUFFER_WIDTH - i,
        {
            let c = self.chars[i + BUFFER_WIDTH];
            self.chars.set(i, c);
            i = i + 1;
        }
        while i < BUFFER_CELLS
            invariant
                BUFFER_CELLS - BUFFER_WIDTH <= i <= BUFFER_CELLS,
                self.chars@.len() == BUFFER_CELLS,
                self.color_code == old(self).color_code,
                forall|j: int|
                    0 <= j < BUFFER_CELLS - BUFFER_WIDTH ==> self.chars@[j] == old(self).chars@[j
                        + BUFFER_WIDTH],
                forall|j: int|
                    BUFFER_CELLS - BUFFER_WIDTH <= j < i ==> self.chars@[j] == blank(
                        old(self).color_code,
                    ),
            decreases BUFFER_CELLS - i,
        {
            let color_code = self.color_code;
            self.chars.set(i, ScreenChar { ascii_character: 0x20, color_code });
            i = i + 1;
        }
        self.column_position = 0;
        assert(self@.cells =~= scrolled(old(self)@).cells);
    }

    /// Writes bytes of text: printable ASCII and newlines as they are, any
    /// other byte as a square.
    pub fn write_bytes(&mut self, bytes: &[u8])
        requires
            old(self)@.wf(),
        ensures
            final(self)@.wf(),
            final(self)@ == put_bytes(old(self)@, bytes@),
    {
        let mut i: usize = 0;
        while i < bytes.len()
            invariant
                self@.wf(),
                i <= bytes@.len(),
                self@ == put_bytes(old(self)@, bytes@.subrange(0, i as int)),
            decreases bytes@.len() - i,
        {
            let byte = bytes[i];
            let shown = if (0x20 <= byte && byte <= 0x7e) || byte == 10 {
                byte
            } else {
                0xfe
            };
            self.write_byte(shown);
            assert(bytes@.subrange(0, i + 1).drop_last() =~= bytes@.subrange(0, i as int));
            i = i + 1;
        }
        assert(bytes@.subrange(0, i as int) =~= bytes@);
    }

    /// Writes a string: printable ASCII and newlines as they are, any other
    /// byte of its UTF-8 form as a square.
    pub fn write_string(&mut self, s: &str)
        requires
            old(self)@.wf(),
        ensures
            final(self)@.wf(),
            final(self)@ == put_bytes(old(self)@, s.spec_bytes()),
    {
        self.write_bytes(s.as_bytes());
    }

    /// Shows `byte` at `row` and `col` without moving the column.
    pub fn put_char_at(&mut self, byte: u8, row: usize, col: usize)
        requires
            old(self)@.wf(),
            row < BUFFER_HEIGHT,
            col < BUFFER_WIDTH,
        ensures
            final(self)@.wf(),
            final(self)@ == (Screen {
                cells: old(self)@.cells.update(
                    row * BUFFER_WIDTH + col,
                    ScreenChar { ascii_character: byte, color_code: old(self)@.color },
                ),
                ..old(self)@
            }),
    {
        let color_code = self.color_code;
        self.chars.set(row * BUFFER_WIDTH + col, ScreenChar { ascii_character: byte, color_code });
    }
}

} // verus!
