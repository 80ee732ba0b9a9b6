//! The raster exporter: a deterministic serialization of the painted cells
//! into a fixed-width text grid, with trailing spaces stripped on every line.

use vstd::prelude::*;

use crate::cells::Cell;
use crate::cells::contains_cell;

verus! {

/// The grid extent the exporter iterates over: the drawable width and height
/// of the surface (one cell in each dimension is reserved for border/title).
#[derive(Clone, Copy, PartialEq, Eq, Structural, Debug)]
pub struct Bounds {
    pub width: u16,
    pub height: u16,
}

impl Bounds {
    /// The drawable bounds of a rendering surface of the given size: one
    /// cell in each dimension is reserved for the border and title, and a
    /// degenerate surface yields a zero extent.
    pub fn from_surface(surface_width: u16, surface_height: u16) -> (b: Bounds)
        ensures
            b.width == if surface_width > 0 {
                surface_width - 1
            } else {
                0int
            },
            b.height == if surface_height > 0 {
                surface_height - 1
            } else {
                0int
            },
    {
        Bounds {
            width: if surface_width > 0 {
                surface_width - 1
            } else {
                0
            },
            height: if surface_height > 0 {
                surface_height - 1
            } else {
                0
            },
        }
    }
}

/// The glyph the grid holds at one position: the painted block if some cell
/// in the collection has exactly that column and row, a space otherwise.
pub open spec fn glyph_at(cells: Seq<Cell>, col: u16, row: u16) -> char {
    if cells.contains(Cell { col, row }) {
        '\u{2588}'
    } else {
        ' '
    }
}

/// One grid line: the glyphs of columns 0 through `width` inclusive for the
/// given row, terminated by a newline.
pub open spec fn row_text(cells: Seq<Cell>, width: u16, row: u16) -> Seq<char> {
    Seq::new(width as nat + 1, |j: int| glyph_at(cells, j as u16, row)).push('\n')
}

/// The grid lines of rows 1 through `upto` inclusive, concatenated. Row 0 is
/// reserved for the title area and never rasterized.
pub open spec fn rows_text(cells: Seq<Cell>, width: u16, upto: int) -> Seq<char>
    decreases upto,
{
    if upto <= 0 {
        Seq::empty()
    } else {
        rows_text(cells, width, upto - 1) + row_text(cells, width, upto as u16)
    }
}

/// The full untrimmed grid: rows 1 through `bounds.height`.
pub open spec fn grid_text(cells: Seq<Cell>, bounds: Bounds) -> Seq<char> {
    rows_text(cells, bounds.width, bounds.height as int)
}

/// `strip_rec(s, b)` removes from `s` every space that stands, through
/// spaces only, immediately before a newline; `b` says whether the text
/// following `s` begins with such a spaces-then-newline run.
pub open spec fn strip_rec(s: Seq<char>, before_newline: bool) -> Seq<char>
    decreases s.len(),
{
    if s.len() == 0 {
        Seq::empty()
    } else if s.last() == '\n' {
        strip_rec(s.drop_last(), true).push('\n')
    } else if s.last() == ' ' && before_newline {
        strip_rec(s.drop_last(), true)
    } else {
        strip_rec(s.drop_last(), false).push(s.last())
    }
}

/// Trailing-space normalization: every run of spaces immediately preceding a
/// newline collapses to just the newline; all other characters stay.
pub open spec fn strip_trailing(s: Seq<char>) -> Seq<char> {
    strip_rec(s, false)
}

/// What `export` returns: the grid of rows 1..=height and columns 0..=width,
/// one glyph per position, newline-terminated lines, trailing spaces
/// stripped.
pub open spec fn export_spec(cells: Seq<Cell>, bounds: Bounds) -> Seq<char> {
    strip_trailing(grid_text(cells, bounds))
}

/// Relies on regex: `Regex::replace_all` with the literal pattern `" +\n"`
/// replaces every non-overlapping maximal run of spaces that stands
/// immediately before a newline with that newline alone, and leaves every
/// other character unchanged.
#[verifier::external_body]
fn strip_trailing_spaces(s: String) -> (r: String)
    ensures
        r@ == strip_trailing(s@),
{
    let re = regex::Regex::new(" +\n").unwrap();
    re.replace_all(&s, "\n").into_owned()
}

/// Serialize the painted cells into the normalized text grid. The result is
/// a pure function of the cells' membership and the bounds: rows 1 through
/// `bounds.height` become one line each, a painted glyph stands at every
/// column 0 through `bounds.width` whose cell is present (however often it
/// occurs in `cells`), and trailing spaces are stripped from every line.
#[verifier::loop_isolation(false)]
pub fn export(cells: &Vec<Cell>, bounds: Bounds) -> (r: String)
    ensures
        r@ == export_spec(cells@, bounds),
{
    let mut grid = String::new();
    let mut row: u32 = 1;
    while row <= bounds.height as u32
        invariant
            1 <= row <= bounds.height as u32 + 1,
            grid@ == rows_text(cells@, bounds.width, row as int - 1),
        decreases bounds.height as int + 1 - row,
    {
        let ghost base = grid@;
        let mut col: u32 = 0;
        while col <= bounds.width as u32
            invariant
                0 <= col <= bounds.width as u32 + 1,
                1 <= row <= bounds.height as u32,
                grid@ == base + Seq::new(col as nat, |j: int| glyph_at(cells@, j as u16, row as u16)),
            decreases bounds.width as int + 1 - col,
        {
            let here = Cell { col: col as u16, row: row as u16 };
            if contains_cell(cells, here) {
                grid.append("\u{2588}");
                proof {
                    reveal_strlit("\u{2588}");
                }
            } else {
                grid.append(" ");
                proof {
                    reveal_strlit(" ");
                }
            }
            proof {
                assert(grid@ =~= base + Seq::new(
                    col as nat + 1,
                    |j: int| glyph_at(cells@, j as u16, row as u16),
                ));
            }
            col = col + 1;
        }
        grid.append("\n");
        proof {
            reveal_strlit("\n");
            assert(grid@ =~= rows_text(cells@, bounds.width, row as int - 1) + row_text(
                cells@,
                bounds.width,
                row as u16,
            ));
            assert(grid@ == rows_text(cells@, bounds.width, row as int));
        }
        row = row + 1;
    }
    strip_trailing_spaces(grid)
}

/// Export determinism: the raster text is a function of the cell collection
/// and the bounds alone, so two exports of an unchanged state are
/// byte-identical.
pub proof fn lemma_export_deterministic(
    cells1: Seq<Cell>,
    cells2: Seq<Cell>,
    bounds1: Bounds,
    bounds2: Bounds,
)
    requires
        cells1 == cells2,
        bounds1 == bounds2,
    ensures
        export_spec(cells1, bounds1) == export_spec(cells2, bounds2),
{
}

/// Membership alone decides the raster: two cell collections holding the
/// same set of cells — whatever their order, and however often a cell is
/// repeated — export identically. In particular a duplicated cell leaves
/// exactly one painted glyph.
pub proof fn lemma_export_set_insensitive(cells1: Seq<Cell>, cells2: Seq<Cell>, bounds: Bounds)
    requires
        cells1.to_set() == cells2.to_set(),
    ensures
        export_spec(cells1, bounds) == export_spec(cells2, bounds),
{
    broadcast use vstd::set::group_set_axioms;

    assert forall|c: Cell| cells1.contains(c) == cells2.contains(c) by {
        assert(cells1.to_set().contains(c) <==> cells1.contains(c));
        assert(cells2.to_set().contains(c) <==> cells2.contains(c));
        assert(cells1.to_set().contains(c) == cells2.to_set().contains(c));
    }
    lemma_rows_text_congruent(cells1, cells2, bounds.width, bounds.height as int);
}

/// Two cell collections with the same membership yield the same grid lines.
proof fn lemma_rows_text_congruent(cells1: Seq<Cell>, cells2: Seq<Cell>, width: u16, upto: int)
    requires
        forall|c: Cell| cells1.contains(c) == cells2.contains(c),
    ensures
        rows_text(cells1, width, upto) == rows_text(cells2, width, upto),
    decreases upto,
{
    if upto > 0 {
        lemma_rows_text_congruent(cells1, cells2, width, upto - 1);
        assert(row_text(cells1, width, upto as u16) =~= row_text(cells2, width, upto as u16));
    } else {
        assert(rows_text(cells1, width, upto) =~= rows_text(cells2, width, upto));
    }
}

} // verus!
