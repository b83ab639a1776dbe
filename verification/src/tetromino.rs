//! The catalog of the seven tetrominoes.
//!
//! Every shape lives in a 4x4 box, written down row by row as sixteen
//! characters. A `.` marks a cell the shape covers, an `X` a cell it leaves
//! free. Rotation never rewrites a layout: it only changes which of the
//! sixteen characters a box cell reads.

use vstd::prelude::*;
use vstd::string::*;

verus! {

/// The seven shapes.
#[derive(Debug, Copy, Clone, PartialEq, Eq, Structural)]
pub enum Tetromino {
    /// Straight bar.
    I,
    /// Square.
    O,
    T,
    /// Mirrored L.
    J,
    L,
    /// Mirrored Z.
    S,
    Z,
}

/// Number of shapes in the catalog.
pub const SHAPE_COUNT: u32 = 7;

/// The layout index that box cell `(x, y)` reads under rotation `r`
/// (quarter turns). Rotations outside `0..4` read index `0`.
pub open spec fn spec_xy_to_idx(x: int, y: int, r: int) -> int {
    if r == 0 {
        y * 4 + x
    } else if r == 1 {
        12 + y - 4 * x
    } else if r == 2 {
        15 - 4 * y - x
    } else if r == 3 {
        3 - y + 4 * x
    } else {
        0
    }
}

/// The rotation that follows `r` after one more quarter turn.
pub open spec fn next_rotation(r: int) -> int {
    (r + 1) % 4
}

impl Tetromino {
    /// The shape chosen by a draw: draws `0` to `5` pick the first six
    /// shapes in order, every other draw picks `Z`.
    pub open spec fn spec_from_draw(draw: u32) -> Tetromino {
        if draw == 0 {
            Tetromino::I
        } else if draw == 1 {
            Tetromino::O
        } else if draw == 2 {
            Tetromino::T
        } else if draw == 3 {
            Tetromino::J
        } else if draw == 4 {
            Tetromino::L
        } else if draw == 5 {
            Tetromino::S
        } else {
            Tetromino::Z
        }
    }

    /// The sixteen characters of the shape's box, row by row.
    pub open spec fn layout(self) -> Seq<char> {
        match self {
            Tetromino::I => "XX.XXX.XXX.XXX.X"@,
            Tetromino::O => "XXXXX..XX..XXXXX"@,
            Tetromino::T => "XXXXX.XX...XXXXX"@,
            Tetromino::J => "XX.XXX.XX..XXXXX"@,
            Tetromino::L => "X.XXX.XXX..XXXXX"@,
            Tetromino::S => "XXXXX..X..XXXXXX"@,
            Tetromino::Z => "XXXXX..XXX..XXXX"@,
        }
    }

    /// The occupancy pattern of the unrotated shape: sixteen cells, row by
    /// row, `true` where the shape has a block.
    pub open spec fn pattern(self) -> Seq<bool> {
        Seq::new(16, |i: int| self.layout()[i] == '.')
    }

    /// Whether the shape, rotated by `r` quarter turns, covers box cell
    /// `(x, y)`.
    pub open spec fn covers(self, x: int, y: int, r: int) -> bool {
        self.layout()[spec_xy_to_idx(x, y, r)] == '.'
    }

    /// Every layout has exactly sixteen characters.
    pub proof fn lemma_layout_len(self)
        ensures
            self.layout().len() == 16,
    {
        reveal_strlit("XX.XXX.XXX.XXX.X");
        reveal_strlit("XXXXX..XX..XXXXX");
        reveal_strlit("XXXXX.XX...XXXXX");
        reveal_strlit("XX.XXX.XX..XXXXX");
        reveal_strlit("X.XXX.XXX..XXXXX");
        reveal_strlit("XXXXX..X..XXXXXX");
        reveal_strlit("XXXXX..XXX..XXXX");
    }

    /// Maps a draw to a shape of the catalog.
    pub fn from_draw(draw: u32) -> (t: Tetromino)
        ensures
            t == Self::spec_from_draw(draw),
    {
        match draw {
            0 => Tetromino::I,
            1 => Tetromino::O,
            2 => Tetromino::T,
            3 => Tetromino::J,
            4 => Tetromino::L,
            5 => Tetromino::S,
            _ => Tetromino::Z,
        }
    }

    /// The layout index of box cell `(x, y)` under rotation `r`.
    pub fn xy_to_idx(&self, x: usize, y: usize, r: usize) -> (idx: usize)
        requires
            x < 4,
            y < 4,
        ensures
            idx == spec_xy_to_idx(x as int, y as int, r as int),
            idx < 16,
    {
        match r {
            0 => y * 4 + x,
            1 => 12 + y - (x * 4),
            2 => 15 - (y * 4) - x,
            3 => 3 - y + (x * 4),
            _ => 0,
        }
    }

    fn layout_str(&self) -> (s: &'static str)
        ensures
            s@ == self.layout(),
    {
        match self {
            Tetromino::I => "XX.XXX.XXX.XXX.X",
            Tetromino::O => "XXXXX..XX..XXXXX",
            Tetromino::T => "XXXXX.XX...XXXXX",
            Tetromino::J => "XX.XXX.XX..XXXXX",
            Tetromino::L => "X.XXX.XXX..XXXXX",
            Tetromino::S => "XXXXX..X..XXXXXX",
            Tetromino::Z => "XXXXX..XXX..XXXX",
        }
    }

    /// The shape's layout as a string of sixteen characters. Rotation plays
    /// no part here; readers index the string through `xy_to_idx`.
    pub fn as_string(&self) -> (s: String)
        ensures
            s@ == self.layout(),
            s@.len() == 16,
    {
        proof {
            self.lemma_layout_len();
        }
        String::from_str(self.layout_str())
    }

    /// The occupancy pattern of the unrotated shape.
    pub fn shape_pattern(&self) -> (p: Vec<bool>)
        ensures
            p@ == self.pattern(),
    {
        let s = self.layout_str();
        proof {
            self.lemma_layout_len();
        }
        let mut p: Vec<bool> = Vec::new();
        let mut i: usize = 0;
        while i < 16
            invariant
                i <= 16,
                s@ == self.layout(),
                s@.len() == 16,
                p@.len() == i,
                forall|j: int| 0 <= j < i ==> p@[j] == (self.layout()[j] == '.'),
            decreases 16 - i,
        {
            p.push(s.get_char(i) == '.');
            i += 1;
        }
        assert(p@ =~= self.pattern());
        p
    }

    /// Whether the shape, rotated by `r` quarter turns, covers box cell
    /// `(x, y)`.
    pub fn cell_occupied(&self, x: usize, y: usize, r: usize) -> (b: bool)
        requires
            x < 4,
            y < 4,
        ensures
            b == self.covers(x as int, y as int, r as int),
    {
        let s = self.layout_str();
        proof {
            self.lemma_layout_len();
        }
        let idx = self.xy_to_idx(x, y, r);
        s.get_char(idx) == '.'
    }
}

/// Whether some box cell reads layout index `i` under rotation `r`.
pub open spec fn index_reached(i: int, r: int) -> bool {
    exists|x: int, y: int| 0 <= x < 4 && 0 <= y < 4 && #[trigger] spec_xy_to_idx(x, y, r) == i
}

/// For each of the four rotations the index map sends the sixteen box cells
/// to the sixteen layout indices one to one: every cell gets an index in
/// range, no two cells share one, and every index is reached.
pub proof fn lemma_xy_to_idx_bijective(r: int)
    requires
        0 <= r < 4,
    ensures
        forall|x: int, y: int|
            0 <= x < 4 && 0 <= y < 4 ==> 0 <= #[trigger] spec_xy_to_idx(x, y, r) < 16,
        forall|x1: int, y1: int, x2: int, y2: int|
            0 <= x1 < 4 && 0 <= y1 < 4 && 0 <= x2 < 4 && 0 <= y2 < 4
                && #[trigger] spec_xy_to_idx(x1, y1, r) == #[trigger] spec_xy_to_idx(x2, y2, r)
                ==> x1 == x2 && y1 == y2,
        forall|i: int| 0 <= i < 16 ==> #[trigger] index_reached(i, r),
{
    assert forall|i: int| 0 <= i < 16 implies #[trigger] index_reached(i, r) by {
        if r == 0 {
            assert(spec_xy_to_idx(i % 4, i / 4, r) == i);
        } else if r == 1 {
            assert(spec_xy_to_idx(3 - i / 4, i % 4, r) == i);
        } else if r == 2 {
            assert(spec_xy_to_idx(3 - i % 4, 3 - i / 4, r) == i);
        } else {
            assert(spec_xy_to_idx(i / 4, 3 - i % 4, r) == i);
        }
    }
}

/// Every shape has a block in its box, however it is turned.
pub proof fn lemma_shape_has_block(shape: Tetromino, r: int)
    requires
        0 <= r < 4,
    ensures
        exists|x: int, y: int| 0 <= x < 4 && 0 <= y < 4 && #[trigger] shape.covers(x, y, r),
{
    reveal_strlit("XX.XXX.XXX.XXX.X");
    reveal_strlit("XXXXX..XX..XXXXX");
    reveal_strlit("XXXXX.XX...XXXXX");
    reveal_strlit("XX.XXX.XX..XXXXX");
    reveal_strlit("X.XXX.XXX..XXXXX");
    reveal_strlit("XXXXX..X..XXXXXX");
    reveal_strlit("XXXXX..XXX..XXXX");
    let i: int = match shape {
        Tetromino::I => 2,
        Tetromino::O => 5,
        Tetromino::T => 5,
        Tetromino::J => 2,
        Tetromino::L => 1,
        Tetromino::S => 5,
        Tetromino::Z => 5,
    };
    assert(shape.layout()[i] == '.');
    lemma_xy_to_idx_bijective(r);
    assert(index_reached(i, r));
    let (x, y) = choose|x: int, y: int|
        0 <= x < 4 && 0 <= y < 4 && #[trigger] spec_xy_to_idx(x, y, r) == i;
    assert(shape.covers(x, y, r));
}

/// Four quarter turns bring a rotation back to where it started, so the
/// shape covers exactly the cells it covered before.
pub proof fn lemma_full_turn(shape: Tetromino, r: int, x: int, y: int)
    requires
        0 <= r < 4,
    ensures
        next_rotation(next_rotation(next_rotation(next_rotation(r)))) == r,
        shape.covers(x, y, next_rotation(next_rotation(next_rotation(next_rotation(r)))))
            == shape.covers(x, y, r),
{
}

} // verus!
