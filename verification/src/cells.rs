//! The painted-cell state model: a true set of grid cells together with the
//! current interaction mode, mutated by paint, erase and clear operations.

use vstd::prelude::*;

verus! {

/// One grid position: a column/row pair with exact integer equality on both
/// components.
#[derive(Clone, Copy, PartialEq, Eq, Structural, Debug)]
pub struct Cell {
    pub col: u16,
    pub row: u16,
}

/// The painted-cell state: the set of painted cells and whether the primary
/// pointer button is currently held.
pub struct PaintSurface {
    cells: Vec<Cell>,
    drawing: bool,
}

impl PaintSurface {
    /// The painted cells in storage order; duplicate-free whenever `wf()`
    /// holds.
    pub closed spec fn cells_seq(&self) -> Seq<Cell> {
        self.cells@
    }

    /// The painted cells as a set: the model all mutations are specified
    /// against.
    pub open spec fn cell_set(&self) -> Set<Cell> {
        self.cells_seq().to_set()
    }

    /// Whether the primary button is held. Informational only: paint and
    /// erase are never gated on it.
    pub closed spec fn drawing(&self) -> bool {
        self.drawing
    }

    /// Well-formed: the storage holds no duplicate cell, so it really is a
    /// set.
    pub open spec fn wf(&self) -> bool {
        self.cells_seq().no_duplicates()
    }

    /// A fresh surface: no painted cells, idle mode.
    pub fn new() -> (s: Self)
        ensures
            s.wf(),
            s.cells_seq() == Seq::<Cell>::empty(),
            s.cell_set() == Set::<Cell>::empty(),
            !s.drawing(),
    {
        PaintSurface { cells: Vec::new(), drawing: false }
    }

    /// The primary button was pressed: enter drawing mode. No cell changes.
    pub fn on_pointer_down(&mut self, at: Cell)
        ensures
            final(self).drawing(),
            final(self).cells_seq() == old(self).cells_seq(),
    {
        let _ = at;
        self.drawing = true;
    }

    /// The primary button was released: back to idle. No cell changes.
    pub fn on_pointer_up(&mut self)
        ensures
            !final(self).drawing(),
            final(self).cells_seq() == old(self).cells_seq(),
    {
        self.drawing = false;
    }

    /// Paint the cell under the cursor: insert it into the cell set. A cell
    /// that is already painted stays painted once (no duplicate is stored).
    pub fn on_drag_paint(&mut self, at: Cell)
        requires
            old(self).wf(),
        ensures
            final(self).wf(),
            final(self).cell_set() == old(self).cell_set().insert(at),
            final(self).drawing() == old(self).drawing(),
            old(self).cell_set().contains(at) ==> final(self).cells_seq()
                == old(self).cells_seq(),
            !old(self).cell_set().contains(at) ==> final(self).cells_seq()
                == old(self).cells_seq().push(at),
            final(self).cells_seq().len() == old(self).cells_seq().len()
                + (if old(self).cell_set().contains(at) {
                    0int
                } else {
                    1int
                }),
    {
        if !contains_cell(&self.cells, at) {
            let ghost before = self.cells@;
            self.cells.push(at);
            proof {
                assert(self.cells@ =~= before + seq![at]);
                Seq::<Cell>::lemma_to_set_insert_commutes(before, at);
                assert forall|i: int, j: int|
                    0 <= i < j < self.cells@.len() implies self.cells@[i] != self.cells@[j] by {
                    if j == before.len() {
                        assert(before.contains(before[i]));
                    }
                }
                assert(self.cells@.no_duplicates());
            }
        } else {
            proof {
                assert(old(self).cell_set().insert(at) =~= old(self).cell_set());
            }
        }
    }

    /// Erase the cell under the cursor: remove it from the cell set. Erasing
    /// an absent cell leaves the surface exactly as it was.
    #[verifier::loop_isolation(false)]
    pub fn on_drag_erase(&mut self, at: Cell)
        requires
            old(self).wf(),
        ensures
            final(self).wf(),
            final(self).cell_set() == old(self).cell_set().remove(at),
            final(self).drawing() == old(self).drawing(),
            !old(self).cell_set().contains(at) ==> final(self).cells_seq()
                == old(self).cells_seq(),
            final(self).cells_seq().len() == old(self).cells_seq().len()
                - (if old(self).cell_set().contains(at) {
                    1int
                } else {
                    0int
                }),
    {
        let ghost before = self.cells@;
        let mut i: usize = 0;
        while i < self.cells.len()
            invariant
                0 <= i <= self.cells@.len(),
                self.cells@ == before,
                self.drawing == old(self).drawing(),
                forall|k: int| 0 <= k < i ==> before[k] != at,
            decreases before.len() - i,
        {
            if self.cells[i] == at {
                self.cells.remove(i);
                proof {
                    lemma_remove_index_to_set(before, i as int, at);
                }
                return ;
            }
            i = i + 1;
        }
        proof {
            assert(!before.contains(at));
            assert(before.to_set().remove(at) =~= before.to_set());
        }
    }

    /// Empty the cell set unconditionally, whatever it held before. The
    /// interaction mode is untouched.
    pub fn clear(&mut self)
        ensures
            final(self).wf(),
            final(self).cells_seq() == Seq::<Cell>::empty(),
            final(self).cell_set() == Set::<Cell>::empty(),
            final(self).drawing() == old(self).drawing(),
    {
        self.cells.clear();
    }

    /// Project every painted cell into rendering-surface space: the column
    /// relative to the origin, and the row flipped vertically so that row 0
    /// (the top of the terminal) maps to the top of the drawing area.
    #[verifier::loop_isolation(false)]
    pub fn render_coordinates(&self, origin: Cell, height: u16) -> (r: Vec<(i32, i32)>)
        ensures
            r@.len() == self.cells_seq().len(),
            forall|i: int|
                0 <= i < r@.len() ==> r@[i].0 == self.cells_seq()[i].col - origin.col && r@[i].1
                    == origin.row + height - self.cells_seq()[i].row,
    {
        let mut out: Vec<(i32, i32)> = Vec::new();
        let mut i: usize = 0;
        while i < self.cells.len()
            invariant
                0 <= i <= self.cells@.len(),
                out@.len() == i,
                forall|k: int|
                    0 <= k < i ==> out@[k].0 == self.cells@[k].col - origin.col && out@[k].1
                        == origin.row + height - self.cells@[k].row,
            decreases self.cells@.len() - i,
        {
            let c = self.cells[i];
            let x: i32 = c.col as i32 - origin.col as i32;
            let y: i32 = origin.row as i32 + height as i32 - c.row as i32;
            out.push((x, y));
            i = i + 1;
        }
        out
    }

    /// How many cells are painted.
    pub fn cell_count(&self) -> (n: usize)
        ensures
            n == self.cells_seq().len(),
    {
        self.cells.len()
    }

    /// Whether the given cell is painted.
    pub fn is_painted(&self, at: Cell) -> (r: bool)
        ensures
            r == self.cell_set().contains(at),
    {
        contains_cell(&self.cells, at)
    }

    /// The painted cells, for the exporter to read.
    pub fn cells(&self) -> (r: &Vec<Cell>)
        ensures
            r@ == self.cells_seq(),
    {
        &self.cells
    }

    /// Whether the surface is in drawing mode.
    pub fn is_drawing(&self) -> (r: bool)
        ensures
            r == self.drawing(),
    {
        self.drawing
    }
}

/// Linear membership scan over the cell storage.
#[verifier::loop_isolation(false)]
pub(crate) fn contains_cell(cells: &Vec<Cell>, at: Cell) -> (r: bool)
    ensures
        r == cells@.contains(at),
{
    let mut i: usize = 0;
    while i < cells.len()
        invariant
            0 <= i <= cells@.len(),
            forall|k: int| 0 <= k < i ==> cells@[k] != at,
        decreases cells@.len() - i,
    {
        if cells[i] == at {
            return true;
        }
        i = i + 1;
    }
    false
}

/// Removing the one index that holds `at` from a duplicate-free sequence
/// removes exactly `at` from the sequence's set of elements.
proof fn lemma_remove_index_to_set(s: Seq<Cell>, i: int, at: Cell)
    requires
        s.no_duplicates(),
        0 <= i < s.len(),
        s[i] == at,
    ensures
        s.remove(i).no_duplicates(),
        s.remove(i).to_set() =~= s.to_set().remove(at),
        s.remove(i).len() == s.len() - 1,
{
    let t = s.remove(i);
    assert forall|x: Cell| t.to_set().contains(x) implies s.to_set().contains(x) && x != at by {
        let k = choose|k: int| 0 <= k < t.len() && t[k] == x;
        if k < i {
            assert(s[k] == x);
        } else {
            assert(s[k + 1] == x);
        }
    }
    assert forall|x: Cell| s.to_set().contains(x) && x != at implies t.to_set().contains(x) by {
        let k = choose|k: int| 0 <= k < s.len() && s[k] == x;
        if k < i {
            assert(t[k] == x);
        } else {
            assert(k != i);
            assert(t[k - 1] == x);
        }
    }
}

/// Painting is idempotent: painting a cell twice leaves the same cell set as
/// painting it once.
pub proof fn lemma_paint_idempotent(s: Set<Cell>, c: Cell)
    ensures
        s.insert(c).insert(c) == s.insert(c),
{
    assert(s.insert(c).insert(c) =~= s.insert(c));
}

/// Erase inverts paint: for a cell not present beforehand, painting it and
/// then erasing it restores the cell set exactly.
pub proof fn lemma_erase_inverts_paint(s: Set<Cell>, c: Cell)
    requires
        !s.contains(c),
    ensures
        s.insert(c).remove(c) == s,
{
    assert(s.insert(c).remove(c) =~= s);
}

} // verus!
