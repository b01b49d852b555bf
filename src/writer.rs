//! The writer: a cursor over the grid, with line wrap and scroll.

use crate::buffer::{
    blank_grid, cell_bits, scroll_grid, Buffer, ScreenChar, BUFFER_CELLS, BUFFER_HEIGHT,
    BUFFER_WIDTH,
};
use crate::color::{color_byte, Color, ColorCode};
use vstd::prelude::*;
use vstd::string::StringSliceAdditionalSpecFns;

verus! {

/// The byte that stands in for anything the screen cannot show.
pub const PLACEHOLDER: u8 = 0xfe;

/// The newline byte.
pub const NEWLINE: u8 = 0x0a;

/// Printable ASCII: from space to tilde.
pub open spec fn is_printable(b: u8) -> bool {
    0x20 <= b <= 0x7e
}

/// The byte that reaches the grid for input byte `b`: printable bytes and
/// newline pass unchanged, any other byte becomes the placeholder.
pub open spec fn sanitize(b: u8) -> u8 {
    if is_printable(b) || b == NEWLINE {
        b
    } else {
        PLACEHOLDER
    }
}

/// Position of the cell at (`row`, `column`) in the row-major grid.
pub open spec fn cell_index(row: int, column: int) -> int {
    row * BUFFER_WIDTH as int + column
}

/// What a writer is: its cursor, its attribute byte and the cells it has drawn.
pub struct WriterModel {
    pub row: nat,
    pub column: nat,
    pub color: u8,
    pub grid: Seq<u16>,
}

impl WriterModel {
    /// The cursor is on the screen and the grid has every cell.
    pub open spec fn wf(self) -> bool {
        &&& self.row < BUFFER_HEIGHT
        &&& self.column <= BUFFER_WIDTH
        &&& self.grid.len() == BUFFER_CELLS
    }

    /// Line advance: move down a row while one is left; on the last row
    /// scroll the grid instead and stay there. The column goes back to 0.
    pub open spec fn new_line(self) -> WriterModel {
        if self.row < BUFFER_HEIGHT - 1 {
            WriterModel { row: self.row + 1, column: 0, ..self }
        } else {
            WriterModel { column: 0, grid: scroll_grid(self.grid), ..self }
        }
    }

    /// One byte: a newline advances the line; any other byte wraps first if
    /// the row is full, then is drawn at the cursor, which moves right.
    pub open spec fn write_byte(self, b: u8) -> WriterModel {
        if b == NEWLINE {
            self.new_line()
        } else {
            let m = if self.column >= BUFFER_WIDTH {
                self.new_line()
            } else {
                self
            };
            WriterModel {
                column: m.column + 1,
                grid: m.grid.update(cell_index(m.row as int, m.column as int), cell_bits(b, m.color)),
                ..m
            }
        }
    }

    /// The bytes handed to `write_byte` one after the other.
    pub open spec fn write_bytes(self, bytes: Seq<u8>) -> WriterModel
        decreases bytes.len(),
    {
        if bytes.len() == 0 {
            self
        } else {
            self.write_bytes(bytes.drop_last()).write_byte(bytes.last())
        }
    }

    /// The bytes of a text, each sanitized, handed to `write_byte` in order.
    pub open spec fn write_string(self, bytes: Seq<u8>) -> WriterModel {
        self.write_bytes(bytes.map_values(|b: u8| sanitize(b)))
    }
}

/// Writing one byte keeps the writer well formed.
pub proof fn lemma_write_byte_wf(m: WriterModel, b: u8)
    requires
        m.wf(),
    ensures
        m.write_byte(b).wf(),
{
}

/// The display writer: the cursor, the attribute for new cells, and the grid.
pub struct Writer {
    column_position: usize,
    color_code: ColorCode,
    buffer: Buffer,
    row_num: usize,
}

impl View for Writer {
    type V = WriterModel;

    closed spec fn view(&self) -> WriterModel {
        WriterModel {
            row: self.row_num as nat,
            column: self.column_position as nat,
            color: self.color_code@,
            grid: self.buffer@,
        }
    }
}

impl Writer {
    /// A writer over a blank screen with the cursor at the top left.
    pub fn new(color_code: ColorCode) -> (r: Writer)
        ensures
            r@ == (WriterModel { row: 0, column: 0, color: color_code@, grid: blank_grid() }),
            r@.wf(),
    {
        Writer { column_position: 0, color_code, buffer: Buffer::blank(), row_num: 0 }
    }

    /// A writer over a blank screen that draws light green on black.
    pub fn with_default_color() -> (r: Writer)
        ensures
            r@ == (WriterModel {
                row: 0,
                column: 0,
                color: color_byte(Color::LightGreen, Color::Black),
                grid: blank_grid(),
            }),
            r@.wf(),
    {
        Writer::new(ColorCode::new(Color::LightGreen, Color::Black))
    }

    /// Writes one byte: a newline advances the line; any other byte is drawn
    /// at the cursor, after a wrap if the row is full.
    pub fn write_byte(&mut self, byte: u8)
        requires
            old(self)@.wf(),
        ensures
            final(self)@ == old(self)@.write_byte(byte),
            final(self)@.wf(),
    {
        proof {
            lemma_write_byte_wf(self@, byte);
        }
        if byte == NEWLINE {
            self.new_line();
        } else {
            if self.column_position >= BUFFER_WIDTH {
                self.new_line();
            }
            let row = self.row_num;
            let column = self.column_position;
            let cell = ScreenChar { ascii_character: byte, color_code: self.color_code };
            self.buffer.write(row * BUFFER_WIDTH + column, cell.to_bits());
            self.column_position += 1;
        }
    }

    /// Advances to the next line, scrolling when the cursor is on the last row.
    fn new_line(&mut self)
        requires
            old(self)@.wf(),
        ensures
            final(self)@ == old(self)@.new_line(),
    {
        if self.row_num < BUFFER_HEIGHT - 1 {
            self.row_num += 1;
            self.column_position = 0;
        } else {
            self.buffer.scroll_up();
            self.column_position = 0;
        }
    }

    /// Writes the bytes of `s` in order; a byte that is neither printable
    /// ASCII nor a newline is drawn as the placeholder.
    pub fn write_string(&mut self, s: &str)
        requires
            old(self)@.wf(),
        ensures
            final(self)@ == old(self)@.write_string(s.spec_bytes()),
            final(self)@.wf(),
    {
        let ghost m0 = self@;
        let bytes = s.as_bytes();
        let ghost clean = bytes@.map_values(|b: u8| sanitize(b));
        let mut i: usize = 0;
        while i < bytes.len()
            invariant
                i <= bytes@.len(),
                clean == bytes@.map_values(|b: u8| sanitize(b)),
                self@.wf(),
                self@ == m0.write_bytes(clean.take(i as int)),
            decreases bytes@.len() - i,
        {
            let byte = bytes[i];
            if (byte >= 0x20 && byte <= 0x7e) || byte == NEWLINE {
                self.write_byte(byte);
            } else {
                self.write_byte(PLACEHOLDER);
            }
            assert(clean.take(i + 1).drop_last() =~= clean.take(i as int));
            i += 1;
        }
        assert(clean.take(i as int) =~= clean);
    }

    /// The row of the cursor.
    pub fn row(&self) -> (r: usize)
        ensures
            r == self@.row,
    {
        self.row_num
    }

    /// The column of the cursor.
    pub fn column(&self) -> (r: usize)
        ensures
            r == self@.column,
    {
        self.column_position
    }

    /// The attribute that new cells are drawn with.
    pub fn color_code(&self) -> (r: ColorCode)
        ensures
            r@ == self@.color,
    {
        self.color_code
    }

    /// The cell at (`row`, `column`).
    pub fn read_char(&self, row: usize, column: usize) -> (r: ScreenChar)
        requires
            self@.wf(),
            row < BUFFER_HEIGHT,
            column < BUFFER_WIDTH,
        ensures
            r.spec_bits() == self@.grid[cell_index(row as int, column as int)],
    {
        ScreenChar::from_bits(self.buffer.read(row * BUFFER_WIDTH + column))
    }
}

/// Writes already formatted text through `writer`: the sink behind the
/// print helpers.
pub fn _print(writer: &mut Writer, text: &str)
    requires
        old(writer)@.wf(),
    ensures
        final(writer)@ == old(writer)@.write_string(text.spec_bytes()),
        final(writer)@.wf(),
{
    writer.write_string(text);
}

} // verus!
