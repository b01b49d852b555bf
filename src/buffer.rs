//! Character cells and the grid that holds them.
//!
//! A cell is stored as the hardware reads it: a 16-bit little-endian word
//! whose low byte is the character and whose high byte is the attribute.
//! Every cell sits behind `volatile::Volatile`, so that each store is
//! emitted as written and never merged or elided.

use crate::color::ColorCode;
use vstd::prelude::*;
use volatile::Volatile;

verus! {

#[verifier::external_type_specification]
#[verifier::external_body]
#[verifier::reject_recursive_types(T)]
pub struct ExVolatile<T: Copy>(Volatile<T>);

/// The value that a volatile cell holds.
pub uninterp spec fn volatile_value(v: Volatile<u16>) -> u16;

/// Relies on `volatile::Volatile::new`: the new cell holds `value`.
#[verifier::external_body]
fn new_volatile(value: u16) -> (r: Volatile<u16>)
    ensures
        volatile_value(r) == value,
{
    Volatile::new(value)
}

/// Relies on `volatile::Volatile::read`: a volatile load of the value held.
#[verifier::external_body]
fn read_volatile(cell: &Volatile<u16>) -> (r: u16)
    ensures
        r == volatile_value(*cell),
{
    cell.read()
}

/// Relies on `volatile::Volatile::write`: after a volatile store the cell
/// holds `value`.
#[verifier::external_body]
fn write_volatile(cell: &mut Volatile<u16>, value: u16)
    ensures
        volatile_value(*final(cell)) == value,
{
    cell.write(value)
}

/// Number of rows on the screen.
pub const BUFFER_HEIGHT: usize = 25;

/// Number of columns on the screen.
pub const BUFFER_WIDTH: usize = 80;

/// Number of cells on the screen.
pub const BUFFER_CELLS: usize = 2000;

/// The 16-bit word that stores character `ch` with attribute byte `color`.
pub open spec fn cell_bits(ch: u8, color: u8) -> u16 {
    (ch as int + 256 * color as int) as u16
}

/// A character byte and the attribute it is drawn with.
#[derive(Debug, Clone, Copy, PartialEq, Eq, Structural)]
pub struct ScreenChar {
    pub ascii_character: u8,
    pub color_code: ColorCode,
}

impl ScreenChar {
    /// The cell word as it is stored in the grid.
    pub open spec fn spec_bits(self) -> u16 {
        cell_bits(self.ascii_character, self.color_code@)
    }

    /// Encodes the cell as the 16-bit word that the hardware reads.
    pub fn to_bits(self) -> (r: u16)
        ensures
            r == self.spec_bits(),
    {
        let color = self.color_code.byte();
        self.ascii_character as u16 + (color as u16) * 256
    }

    /// Decodes a stored cell word.
    pub fn from_bits(bits: u16) -> (r: ScreenChar)
        ensures
            r.spec_bits() == bits,
    {
        ScreenChar {
            ascii_character: (bits % 256) as u8,
            color_code: ColorCode::from_byte((bits / 256) as u8),
        }
    }
}

/// The cells of the screen, row by row.
pub struct Buffer {
    chars: Vec<Volatile<u16>>,
}

impl View for Buffer {
    type V = Seq<u16>;

    closed spec fn view(&self) -> Seq<u16> {
        self.chars@.map_values(|c: Volatile<u16>| volatile_value(c))
    }
}

/// The grid with every cell blank (character 0, attribute 0).
pub open spec fn blank_grid() -> Seq<u16> {
    Seq::new(BUFFER_CELLS as nat, |i: int| 0u16)
}

/// The grid moved up by one row: row `r + 1` lands in row `r`, the first
/// row is gone and the last row is blank.
pub open spec fn scroll_grid(g: Seq<u16>) -> Seq<u16> {
    Seq::new(
        BUFFER_CELLS as nat,
        |i: int|
            if i < (BUFFER_CELLS - BUFFER_WIDTH) as int {
                g[i + BUFFER_WIDTH as int]
            } else {
                0u16
            },
    )
}

impl Buffer {
    /// A screen of blank cells.
    pub fn blank() -> (r: Buffer)
        ensures
            r@ == blank_grid(),
    {
        let mut chars: Vec<Volatile<u16>> = Vec::new();
        let mut i: usize = 0;
        while i < BUFFER_CELLS
            invariant
                i <= BUFFER_CELLS,
                chars@.len() == i,
                forall|j: int| 0 <= j < i ==> volatile_value(#[trigger] chars@[j]) == 0,
            decreases BUFFER_CELLS - i,
        {
            chars.push(new_volatile(0));
            i += 1;
        }
        let r = Buffer { chars };
        assert(r@ =~= blank_grid());
        r
    }

    /// The word stored at cell `i`.
    pub fn read(&self, i: usize) -> (r: u16)
        requires
            i < self@.len(),
        ensures
            r == self@[i as int],
    {
        read_volatile(&self.chars[i])
    }

    /// Stores `value` at cell `i` and leaves every other cell alone.
    pub fn write(&mut self, i: usize, value: u16)
        requires
            i < old(self)@.len(),
        ensures
            final(self)@ == old(self)@.update(i as int, value),
    {
        write_volatile(&mut self.chars[i], value);
        assert(self@ =~= old(self)@.update(i as int, value));
    }

    /// Moves every row up by one, dropping the first row and blanking the last.
    pub fn scroll_up(&mut self)
        requires
            old(self)@.len() == BUFFER_CELLS,
        ensures
            final(self)@ == scroll_grid(old(self)@),
    {
        let ghost g0 = self@;
        let mut i: usize = 0;
        while i < BUFFER_CELLS - BUFFER_WIDTH
            invariant
                i <= BUFFER_CELLS - BUFFER_WIDTH,
                self@.len() == BUFFER_CELLS,
                g0.len() == BUFFER_CELLS,
                forall|j: int| 0 <= j < i ==> #[trigger] self@[j] == g0[j + BUFFER_WIDTH as int],
                forall|j: int| i <= j < BUFFER_CELLS ==> #[trigger] self@[j] == g0[j],
            decreases BUFFER_CELLS - BUFFER_WIDTH - i,
        {
            let value = self.read(i + BUFFER_WIDTH);
            self.write(i, value);
            i += 1;
        }
        while i < BUFFER_CELLS
            invariant
                BUFFER_CELLS - BUFFER_WIDTH <= i <= BUFFER_CELLS,
                self@.len() == BUFFER_CELLS,
                g0.len() == BUFFER_CELLS,
                forall|j: int|
                    0 <= j < BUFFER_CELLS - BUFFER_WIDTH ==> #[trigger] self@[j] == g0[j
                        + BUFFER_WIDTH as int],
                forall|j: int| BUFFER_CELLS - BUFFER_WIDTH <= j < i ==> #[trigger] self@[j] == 0,
            decreases BUFFER_CELLS - i,
        {
            self.write(i, 0);
            i += 1;
        }
        assert(self@ =~= scroll_grid(g0));
    }
}

} // verus!
