//! Properties of the writer that span several bytes or several calls.

use crate::buffer::{blank_grid, cell_bits, scroll_grid, BUFFER_CELLS, BUFFER_HEIGHT, BUFFER_WIDTH};
use crate::writer::{cell_index, is_printable, sanitize, WriterModel, NEWLINE, PLACEHOLDER};
use vstd::prelude::*;

verus! {

/// Text made only of printable ASCII and newlines reaches the grid exactly
/// as if each byte were handed to `write_byte` directly.
pub proof fn law_clean_text_passes_unchanged(m: WriterModel, bytes: Seq<u8>)
    requires
        forall|i: int| 0 <= i < bytes.len() ==> is_printable(#[trigger] bytes[i]) || bytes[i] == NEWLINE,
    ensures
        m.write_string(bytes) == m.write_bytes(bytes),
{
    assert(bytes.map_values(|b: u8| sanitize(b)) =~= bytes);
}

/// A byte that is neither printable nor a newline is drawn as the
/// placeholder in the writer's current attribute, never as itself.
pub proof fn law_unprintable_becomes_placeholder(m: WriterModel, b: u8)
    requires
        m.wf(),
        !is_printable(b),
        b != NEWLINE,
    ensures
        m.write_string(seq![b]) == m.write_byte(PLACEHOLDER),
        m.write_string(seq![b]).column >= 1,
        m.write_string(seq![b]).grid[cell_index(
            m.write_string(seq![b]).row as int,
            m.write_string(seq![b]).column - 1,
        )] == cell_bits(PLACEHOLDER, m.color),
        b != PLACEHOLDER ==> m.write_string(seq![b]).grid[cell_index(
            m.write_string(seq![b]).row as int,
            m.write_string(seq![b]).column - 1,
        )] != cell_bits(b, m.color),
{
    let s = seq![b].map_values(|x: u8| sanitize(x));
    assert(s =~= seq![PLACEHOLDER]);
    assert(s.drop_last() =~= Seq::<u8>::empty());
    assert(m.write_bytes(Seq::<u8>::empty()) == m);
    assert(m.write_string(seq![b]) == m.write_byte(PLACEHOLDER));
    let w = if m.column >= BUFFER_WIDTH {
        m.new_line()
    } else {
        m
    };
    assert(0 <= cell_index(w.row as int, w.column as int) < BUFFER_CELLS) by (nonlinear_arith)
        requires
            w.row < BUFFER_HEIGHT,
            w.column < BUFFER_WIDTH,
    ;
}

/// Printable bytes written from the start of a row stay on that row, one
/// cell each, while the row has room.
proof fn lemma_fill_row(m: WriterModel, bytes: Seq<u8>, k: int)
    requires
        m.wf(),
        m.column == 0,
        0 <= k <= bytes.len(),
        k <= BUFFER_WIDTH,
        forall|i: int| 0 <= i < bytes.len() ==> is_printable(#[trigger] bytes[i]),
    ensures
        m.write_bytes(bytes.take(k)).wf(),
        m.write_bytes(bytes.take(k)).row == m.row,
        m.write_bytes(bytes.take(k)).column == k,
        m.write_bytes(bytes.take(k)).color == m.color,
        forall|i: int|
            0 <= i < k ==> m.write_bytes(bytes.take(k)).grid[cell_index(m.row as int, i)]
                == cell_bits(#[trigger] bytes[i], m.color),
    decreases k,
{
    if k == 0 {
        assert(bytes.take(0) =~= Seq::<u8>::empty());
    } else {
        lemma_fill_row(m, bytes, k - 1);
        assert(bytes.take(k).drop_last() =~= bytes.take(k - 1));
        assert(bytes.take(k).last() == bytes[k - 1]);
        assert forall|i: int| 0 <= i < k implies m.write_bytes(bytes.take(k)).grid[cell_index(
            m.row as int,
            i,
        )] == cell_bits(#[trigger] bytes[i], m.color) by {
            assert(0 <= cell_index(m.row as int, i) < BUFFER_CELLS) by (nonlinear_arith)
                requires
                    m.row < BUFFER_HEIGHT,
                    0 <= i < BUFFER_WIDTH,
            ;
        }
    }
}

/// Eighty printable bytes fill a row; the eighty-first wraps to column 0 of
/// the next row instead of running past the edge.
pub proof fn law_full_row_wraps(m: WriterModel, bytes: Seq<u8>)
    requires
        m.wf(),
        m.column == 0,
        m.row < BUFFER_HEIGHT - 1,
        bytes.len() == BUFFER_WIDTH + 1,
        forall|i: int| 0 <= i < bytes.len() ==> is_printable(#[trigger] bytes[i]),
    ensures
        m.write_string(bytes).row == m.row + 1,
        m.write_string(bytes).column == 1,
        m.write_string(bytes).grid[cell_index(m.row + 1int, 0)] == cell_bits(
            bytes[BUFFER_WIDTH as int],
            m.color,
        ),
        forall|i: int|
            0 <= i < BUFFER_WIDTH ==> m.write_string(bytes).grid[cell_index(m.row as int, i)]
                == cell_bits(#[trigger] bytes[i], m.color),
{
    law_clean_text_passes_unchanged(m, bytes);
    lemma_fill_row(m, bytes, BUFFER_WIDTH as int);
    assert(bytes.drop_last() =~= bytes.take(BUFFER_WIDTH as int));
    assert forall|i: int| 0 <= i < BUFFER_WIDTH implies m.write_string(bytes).grid[cell_index(
        m.row as int,
        i,
    )] == cell_bits(#[trigger] bytes[i], m.color) by {
        assert(0 <= cell_index(m.row as int, i) < cell_index(m.row + 1int, 0) < BUFFER_CELLS)
            by (nonlinear_arith)
            requires
                m.row < BUFFER_HEIGHT - 1,
                0 <= i < BUFFER_WIDTH,
        ;
    }
    assert(0 <= cell_index(m.row + 1int, 0) < BUFFER_CELLS) by (nonlinear_arith)
        requires
            m.row < BUFFER_HEIGHT - 1,
    ;
}

/// A newline with the cursor on the last row scrolls: every row moves up by
/// one, the last row is blank, the column goes back to 0 and the cursor
/// stays on the last row.
pub proof fn law_newline_on_last_row_scrolls(m: WriterModel)
    requires
        m.wf(),
        m.row == BUFFER_HEIGHT - 1,
    ensures
        m.write_string(seq![NEWLINE]).row == BUFFER_HEIGHT - 1,
        m.write_string(seq![NEWLINE]).column == 0,
        m.write_string(seq![NEWLINE]).grid.len() == BUFFER_CELLS,
        forall|r: int, c: int|
            0 <= r < BUFFER_HEIGHT - 1 && 0 <= c < BUFFER_WIDTH ==> m.write_string(
                seq![NEWLINE],
            ).grid[#[trigger] cell_index(r, c)] == m.grid[cell_index(r + 1, c)],
        forall|c: int|
            0 <= c < BUFFER_WIDTH ==> m.write_string(seq![NEWLINE]).grid[#[trigger] cell_index(
                BUFFER_HEIGHT - 1,
                c,
            )] == 0,
{
    law_clean_text_passes_unchanged(m, seq![NEWLINE]);
    assert(seq![NEWLINE].drop_last() =~= Seq::<u8>::empty());
    assert(m.write_bytes(Seq::<u8>::empty()) == m);
    assert(m.write_string(seq![NEWLINE]) == m.new_line());
    assert forall|r: int, c: int|
        0 <= r < BUFFER_HEIGHT - 1 && 0 <= c < BUFFER_WIDTH implies m.write_string(
        seq![NEWLINE],
    ).grid[#[trigger] cell_index(r, c)] == m.grid[cell_index(r + 1, c)] by {
        assert(0 <= cell_index(r, c) < BUFFER_CELLS - BUFFER_WIDTH
            && cell_index(r, c) + BUFFER_WIDTH == cell_index(r + 1, c)) by (nonlinear_arith)
            requires
                0 <= r < BUFFER_HEIGHT - 1,
                0 <= c < BUFFER_WIDTH,
        ;
    }
    assert forall|c: int| 0 <= c < BUFFER_WIDTH implies m.write_string(
        seq![NEWLINE],
    ).grid[#[trigger] cell_index(BUFFER_HEIGHT - 1, c)] == 0 by {
        assert(BUFFER_CELLS - BUFFER_WIDTH <= cell_index(BUFFER_HEIGHT - 1, c) < BUFFER_CELLS);
    }
}

/// Scrolling a blank grid leaves it blank, however often it is repeated.
pub proof fn law_scroll_blank_is_blank(m: WriterModel)
    requires
        m.wf(),
        m.row == BUFFER_HEIGHT - 1,
        m.grid == blank_grid(),
    ensures
        scroll_grid(blank_grid()) == blank_grid(),
        m.new_line().grid == blank_grid(),
        m.new_line().new_line().grid == blank_grid(),
{
    assert(scroll_grid(blank_grid()) =~= blank_grid());
}

} // verus!
