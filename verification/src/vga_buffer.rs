//! The text-mode screen writer.
//!
//! A `Writer` paints bytes into a fixed 25 by 80 character grid, always on
//! the bottom row, scrolling everything up one row on a newline or when the
//! row runs full.  The grid is held as plain values; copying it into the
//! memory mapped video buffer is the surrounding program's business.

use vstd::prelude::*;
use vstd::string::StringSliceAdditionalSpecFns;

verus! {

/// Rows of the text-mode grid.
pub const BUFFER_HEIGHT: usize = 25;

/// Columns of the text-mode grid.
pub const BUFFER_WIDTH: usize = 80;

/// The sixteen colours of the text-mode palette.
#[derive(Clone, Copy, PartialEq, Eq, Structural, Debug)]
pub enum Colour {
    Black,
    Blue,
    Green,
    Cyan,
    Red,
    Magenta,
    Brown,
    LightGray,
    DarkGray,
    LightBlue,
    LightGreen,
    LightCyan,
    LightRed,
    Pink,
    Yellow,
    White,
}

/// The palette index of a colour, below sixteen.
pub open spec fn colour_value(c: Colour) -> u8 {
    match c {
        Colour::Black => 0,
        Colour::Blue => 1,
        Colour::Green => 2,
        Colour::Cyan => 3,
        Colour::Red => 4,
        Colour::Magenta => 5,
        Colour::Brown => 6,
        Colour::LightGray => 7,
        Colour::DarkGray => 8,
        Colour::LightBlue => 9,
        Colour::LightGreen => 10,
        Colour::LightCyan => 11,
        Colour::LightRed => 12,
        Colour::Pink => 13,
        Colour::Yellow => 14,
        Colour::White => 15,
    }
}

fn colour_index(c: Colour) -> (v: u8)
    ensures
        v == colour_value(c),
{
    match c {
        Colour::Black => 0,
        Colour::Blue => 1,
        Colour::Green => 2,
        Colour::Cyan => 3,
        Colour::Red => 4,
        Colour::Magenta => 5,
        Colour::Brown => 6,
        Colour::LightGray => 7,
        Colour::DarkGray => 8,
        Colour::LightBlue => 9,
        Colour::LightGreen => 10,
        Colour::LightCyan => 11,
        Colour::LightRed => 12,
        Colour::Pink => 13,
        Colour::Yellow => 14,
        Colour::White => 15,
    }
}

/// A foreground and a background colour packed into one attribute byte.
#[derive(Clone, Copy, PartialEq, Eq, Structural, Debug)]
pub struct ColourCode(pub u8);

/// The attribute byte for a pair of colours: background in the high four
/// bits, foreground in the low four.
pub open spec fn colour_code_spec(foreground: Colour, background: Colour) -> ColourCode {
    ColourCode(colour_value(background) << 4 | colour_value(foreground))
}

impl ColourCode {
    /// Pack a foreground and a background colour into one attribute byte.
    pub fn new(foreground: Colour, background: Colour) -> (c: ColourCode)
        ensures
            c == colour_code_spec(foreground, background),
    {
        let f = colour_index(foreground);
        let b = colour_index(background);
        ColourCode(b << 4 | f)
    }
}

/// One cell of the grid: a code-page byte and its colours.
#[derive(Clone, Copy, PartialEq, Eq, Structural, Debug)]
pub struct ScreenChar {
    pub ascii_character: u8,
    pub colour_code: ColourCode,
}

/// The character grid, bottom row first to be written.
struct Buffer {
    chars: Vec<Vec<ScreenChar>>,
}

/// A writer that fills the last line and shifts everything up when the line
/// runs full or a newline arrives.
pub struct Writer {
    column_position: usize,
    colour_code: ColourCode,
    buffer: Buffer,
}

/// What a `Writer` looks like to specifications: the grid of cells, the
/// cursor column on the bottom row, and the current colours.
pub struct Screen {
    pub grid: Seq<Seq<ScreenChar>>,
    pub col: nat,
    pub colour: ColourCode,
}

impl Screen {
    /// The grid has its fixed shape and the cursor sits on the bottom row,
    /// at most one step past its last column.
    pub open spec fn wf(self) -> bool {
        &&& self.grid.len() == BUFFER_HEIGHT
        &&& forall|r: int|
            0 <= r < BUFFER_HEIGHT ==> (#[trigger] self.grid[r]).len() == BUFFER_WIDTH
        &&& self.col <= BUFFER_WIDTH
    }
}

/// A blank cell: a space in the given colours.
pub open spec fn blank_char(colour: ColourCode) -> ScreenChar {
    ScreenChar { ascii_character: 0x20, colour_code: colour }
}

/// A full row of blank cells.
pub open spec fn blank_row(colour: ColourCode) -> Seq<ScreenChar> {
    Seq::new(BUFFER_WIDTH as nat, |c: int| blank_char(colour))
}

/// The screen after scrolling: every row moves up one, a blank row in the
/// writer's current colours enters at the bottom, and the cursor returns to
/// the first column.
pub open spec fn scrolled(s: Screen) -> Screen {
    Screen {
        grid: Seq::new(
            BUFFER_HEIGHT as nat,
            |r: int|
                if r < BUFFER_HEIGHT - 1 {
                    s.grid[r + 1]
                } else {
                    blank_row(s.colour)
                },
        ),
        col: 0,
        colour: s.colour,
    }
}

/// The screen after writing one byte: a newline scrolls; anything else lands
/// at the cursor on the bottom row, scrolling first if the row is full.
pub open spec fn with_byte(s: Screen, byte: u8) -> Screen {
    if byte == 0x0a {
        scrolled(s)
    } else {
        let t = if s.col >= BUFFER_WIDTH {
            scrolled(s)
        } else {
            s
        };
        Screen {
            grid: t.grid.update(
                BUFFER_HEIGHT - 1,
                t.grid[BUFFER_HEIGHT - 1].update(
                    t.col as int,
                    ScreenChar { ascii_character: byte, colour_code: s.colour },
                ),
            ),
            col: t.col + 1,
            colour: s.colour,
        }
    }
}

/// The screen after writing a whole sequence of bytes, first byte first.
pub open spec fn with_bytes(s: Screen, bytes: Seq<u8>) -> Screen
    decreases bytes.len(),
{
    if bytes.len() == 0 {
        s
    } else {
        with_bytes(with_byte(s, bytes[0]), bytes.drop_first())
    }
}

/// A byte as the screen accepts it: printable code-page bytes and the
/// newline pass through, anything else paints the replacement block `0xFE`.
pub open spec fn sanitized(byte: u8) -> u8 {
    if 0x20 <= byte <= 0x7e || byte == 0x0a {
        byte
    } else {
        0xfe
    }
}

/// Writing the bytes of a string is writing each byte after sanitizing it.
pub open spec fn with_text(s: Screen, bytes: Seq<u8>) -> Screen {
    with_bytes(s, bytes.map_values(|b: u8| sanitized(b)))
}

/// Writing one more byte continues where the previous bytes left off.
proof fn lemma_with_bytes_push(s: Screen, bytes: Seq<u8>, b: u8)
    ensures
        with_bytes(s, bytes.push(b)) == with_byte(with_bytes(s, bytes), b),
    decreases bytes.len(),
{
    reveal_with_fuel(with_bytes, 3);
    if bytes.len() == 0 {
        assert(bytes.push(b)[0] == b);
        assert(bytes.push(b).drop_first() =~= Seq::<u8>::empty());
    } else {
        assert(bytes.push(b)[0] == bytes[0]);
        assert(bytes.push(b).drop_first() =~= bytes.drop_first().push(b));
        lemma_with_bytes_push(with_byte(s, bytes[0]), bytes.drop_first(), b);
    }
}

/// A row of blank cells in the given colours, as a vector.
fn blank_row_vec(colour: ColourCode) -> (row: Vec<ScreenChar>)
    ensures
        row@ == blank_row(colour),
{
    let mut row: Vec<ScreenChar> = Vec::new();
    while row.len() < BUFFER_WIDTH
        invariant
            row@.len() <= BUFFER_WIDTH,
            forall|c: int| 0 <= c < row@.len() ==> row@[c] == blank_char(colour),
        decreases BUFFER_WIDTH - row@.len(),
    {
        row.push(ScreenChar { ascii_character: 0x20, colour_code: colour });
    }
    proof {
        assert(row@ =~= blank_row(colour));
    }
    row
}

impl View for Writer {
    type V = Screen;

    closed spec fn view(&self) -> Screen {
        Screen {
            grid: self.buffer.chars@.map_values(|row: Vec<ScreenChar>| row@),
            col: self.column_position as nat,
            colour: self.colour_code,
        }
    }
}

impl Writer {
    /// The writer's screen has its fixed shape.
    pub open spec fn wf(&self) -> bool {
        self@.wf()
    }

    /// A writer over a fresh grid, every cell holding `fill`, the cursor on
    /// the first column, writing in the given colours.
    pub fn new(colour_code: ColourCode, fill: ScreenChar) -> (w: Writer)
        ensures
            w.wf(),
            w@.col == 0,
            w@.colour == colour_code,
            forall|r: int, c: int|
                0 <= r < BUFFER_HEIGHT && 0 <= c < BUFFER_WIDTH ==> #[trigger] w@.grid[r][c]
                    == fill,
    {
        let mut chars: Vec<Vec<ScreenChar>> = Vec::new();
        while chars.len() < BUFFER_HEIGHT
            invariant
                chars@.len() <= BUFFER_HEIGHT,
                forall|r: int|
                    0 <= r < chars@.len() ==> (#[trigger] chars@[r])@.len() == BUFFER_WIDTH,
                forall|r: int, c: int|
                    0 <= r < chars@.len() && 0 <= c < BUFFER_WIDTH ==> (#[trigger] chars@[r]@[c])
                        == fill,
            decreases BUFFER_HEIGHT - chars@.len(),
        {
            let mut row: Vec<ScreenChar> = Vec::new();
            while row.len() < BUFFER_WIDTH
                invariant
                    row@.len() <= BUFFER_WIDTH,
                    forall|c: int| 0 <= c < row@.len() ==> row@[c] == fill,
                decreases BUFFER_WIDTH - row@.len(),
            {
                row.push(fill);
            }
            chars.push(row);
        }
        Writer { column_position: 0, colour_code, buffer: Buffer { chars } }
    }

    /// The cell at the given position.
    pub fn char_at(&self, row: usize, col: usize) -> (c: ScreenChar)
        requires
            self.wf(),
            row < BUFFER_HEIGHT,
            col < BUFFER_WIDTH,
        ensures
            c == self@.grid[row as int][col as int],
    {
        proof {
            assert(self@.grid[row as int] == self.buffer.chars@[row as int]@);
        }
        self.buffer.chars[row][col]
    }

    /// Write one byte at the cursor.  A newline scrolls; on a full row the
    /// writer scrolls first, then the byte lands on the fresh row.
    pub fn write_byte(&mut self, byte: u8)
        requires
            old(self).wf(),
        ensures
            final(self).wf(),
            final(self)@ == with_byte(old(self)@, byte),
    {
        if byte == 0x0a {
            self.new_line();
        } else {
            if self.column_position >= BUFFER_WIDTH {
                self.new_line();
            }
            let row = BUFFER_HEIGHT - 1;
            let col = self.column_position;
            let colour_code = self.colour_code;
            proof {
                assert(self@.grid[row as int] == self.buffer.chars@[row as int]@);
            }
            self.buffer.chars[row][col] = ScreenChar { ascii_character: byte, colour_code };
            self.column_position = col + 1;
            proof {
                assert(self@.grid =~= with_byte(old(self)@, byte).grid);
            }
        }
    }

    /// Write a string byte by byte, sanitizing each byte.
    pub fn write_string(&mut self, s: &str)
        requires
            old(self).wf(),
        ensures
            final(self).wf(),
            final(self)@ == with_text(old(self)@, s.spec_bytes()),
    {
        let bytes = s.as_bytes();
        let n = bytes.len();
        let mut i: usize = 0;
        while i < n
            invariant
                self.wf(),
                i <= n,
                n == bytes@.len(),
                bytes@ == s.spec_bytes(),
                self@ == with_bytes(
                    old(self)@,
                    bytes@.take(i as int).map_values(|b: u8| sanitized(b)),
                ),
            decreases n - i,
        {
            let b = bytes[i];
            let ghost prefix = bytes@.take(i as int).map_values(|b: u8| sanitized(b));
            if 0x20 <= b && b <= 0x7e || b == 0x0a {
                self.write_byte(b);
            } else {
                self.write_byte(0xfe);
            }
            proof {
                assert(bytes@.take(i + 1 as int).map_values(|b: u8| sanitized(b)) =~= prefix.push(
                    sanitized(bytes@[i as int]),
                ));
                lemma_with_bytes_push(old(self)@, prefix, sanitized(bytes@[i as int]));
            }
            i = i + 1;
        }
        proof {
            assert(bytes@.take(n as int) =~= bytes@);
        }
    }

    /// Scroll: every row moves up one, a blank row enters at the bottom, and
    /// the cursor returns to the first column.
    fn new_line(&mut self)
        requires
            old(self).wf(),
        ensures
            final(self).wf(),
            final(self)@ == scrolled(old(self)@),
    {
        let _dropped = self.buffer.chars.remove(0);
        let fresh = blank_row_vec(self.colour_code);
        self.buffer.chars.push(fresh);
        self.column_position = 0;
        proof {
            assert(self@.grid =~= scrolled(old(self)@).grid);
        }
    }

    /// Paint one row blank in the current colours.
    fn clear_row(&mut self, row: usize)
        requires
            old(self).wf(),
            row < BUFFER_HEIGHT,
        ensures
            final(self).wf(),
            final(self)@ == (Screen {
                grid: old(self)@.grid.update(row as int, blank_row(old(self)@.colour)),
                ..old(self)@
            }),
    {
        let fresh = blank_row_vec(self.colour_code);
        self.buffer.chars[row] = fresh;
        proof {
            assert(self@.grid =~= old(self)@.grid.update(
                row as int,
                blank_row(old(self)@.colour),
            ));
        }
    }

    /// Switch the colours used for everything written from now on.
    pub fn change_colours(&mut self, new_colour_code: ColourCode)
        requires
            old(self).wf(),
        ensures
            final(self).wf(),
            final(self)@ == (Screen { colour: new_colour_code, ..old(self)@ }),
    {
        self.colour_code = new_colour_code;
    }

    /// The colours the writer is currently using.
    pub fn get_colour(&mut self) -> (c: ColourCode)
        ensures
            *final(self) == *old(self),
            c == old(self)@.colour,
    {
        self.colour_code
    }
}

/// Write a string to the given writer.
pub fn print(writer: &mut Writer, s: &str)
    requires
        old(writer).wf(),
    ensures
        final(writer).wf(),
        final(writer)@ == with_text(old(writer)@, s.spec_bytes()),
{
    writer.write_string(s);
}

/// The screen after printing in a temporary pair of colours: the text lands
/// in those colours, and the writer's own colours come back afterwards.
pub open spec fn coloured_write(
    scr: Screen,
    bytes: Seq<u8>,
    foreground: Colour,
    background: Colour,
) -> Screen {
    let tinted = Screen { colour: colour_code_spec(foreground, background), ..scr };
    Screen { colour: scr.colour, ..with_text(tinted, bytes) }
}

/// Print a string in the given colours, then restore the writer's own.
pub fn colour_print(
    writer: &mut Writer,
    s: &str,
    foreground_colour: Colour,
    background_colour: Colour,
)
    requires
        old(writer).wf(),
    ensures
        final(writer).wf(),
        final(writer)@ == coloured_write(
            old(writer)@,
            s.spec_bytes(),
            foreground_colour,
            background_colour,
        ),
        final(writer)@.colour == old(writer)@.colour,
{
    let old_colour_code = writer.get_colour();
    let new_colour_code = ColourCode::new(foreground_colour, background_colour);
    writer.change_colours(new_colour_code);
    print(writer, s);
    writer.change_colours(old_colour_code);
}

} // verus!
