//! The mathematical model of a game: what every operation of the engine
//! means, stated over integers and sequences.

use crate::colors::TetrominoColor;
use crate::tetromino::{next_rotation, Tetromino};
use vstd::arithmetic::div_mod::{
    lemma_fundamental_div_mod, lemma_fundamental_div_mod_converse, lemma_mod_bound,
    lemma_multiply_divide_lt,
};
use vstd::prelude::*;

verus! {

/// Horizontal distance between screen columns and grid columns: the piece's
/// `x` is a screen column, and screen column `SCREEN_X_OFFSET` is grid
/// column `0`.
pub const SCREEN_X_OFFSET: usize = 4;

/// Grid column at which a new piece's box appears.
pub const SPAWN_COLUMN: usize = 4;

/// Number of frames between two automatic downward moves.
pub const GRAVITY_INTERVAL: usize = 90;

/// Number of frames full rows wait before they are removed.
pub const LINE_WAIT_DURATION: usize = 60;

/// Countdown value from which waiting rows are drawn in the flashing style.
pub const LINE_FLASH_TIME: usize = 30;

/// One position of the playfield.
#[derive(Debug, Copy, Clone)]
pub struct Cell {
    /// Whether a settled block sits here.
    pub occupied: bool,
    /// The color of that block.
    pub color: Option<TetrominoColor>,
}

/// What the player can ask for in a frame.
#[derive(Debug, Copy, Clone, PartialEq, Eq, Structural)]
pub enum Command {
    MoveLeft,
    MoveRight,
    SoftDrop,
    Rotate,
    Quit,
}

impl Command {
    /// The command a key stands for: `a` left, `d` right, `s` down, `z`
    /// turn, `q` quit. Every other byte stands for nothing.
    pub open spec fn spec_from_byte(byte: u8) -> Option<Command> {
        if byte == 97 {
            Some(Command::MoveLeft)
        } else if byte == 100 {
            Some(Command::MoveRight)
        } else if byte == 115 {
            Some(Command::SoftDrop)
        } else if byte == 122 {
            Some(Command::Rotate)
        } else if byte == 113 {
            Some(Command::Quit)
        } else {
            None
        }
    }

    /// Reads a key. Bytes that are no key of the game are ignored.
    pub fn from_byte(byte: u8) -> (command: Option<Command>)
        ensures
            command == Self::spec_from_byte(byte),
    {
        if byte == 97 {
            Some(Command::MoveLeft)
        } else if byte == 100 {
            Some(Command::MoveRight)
        } else if byte == 115 {
            Some(Command::SoftDrop)
        } else if byte == 122 {
            Some(Command::Rotate)
        } else if byte == 113 {
            Some(Command::Quit)
        } else {
            None
        }
    }
}

/// The cell without a block.
pub open spec fn empty_cell() -> Cell {
    Cell { occupied: false, color: None }
}

/// Points awarded for removing `k` rows at once.
pub open spec fn reward(k: int) -> int {
    100 * k * k
}

/// A score after `gain` points were added, held at the largest number the
/// counter can show.
pub open spec fn capped(score: int, gain: int) -> int {
    if score + gain > usize::MAX {
        usize::MAX as int
    } else {
        score + gain
    }
}

/// The cells of the first `n` rows of a grid whose rows are `width` cells
/// long, without the rows listed in `rows`, in their old order.
pub open spec fn kept_cells(grid: Seq<Cell>, width: int, rows: Seq<usize>, n: int) -> Seq<Cell>
    decreases n,
{
    if n <= 0 {
        Seq::empty()
    } else if rows.contains((n - 1) as usize) {
        kept_cells(grid, width, rows, n - 1)
    } else {
        kept_cells(grid, width, rows, n - 1) + grid.subrange((n - 1) * width, n * width)
    }
}

/// The whole state of a game as plain mathematical values.
pub struct GameState {
    pub width: int,
    pub height: int,
    pub tetromino: Option<Tetromino>,
    pub tetromino_color: Option<TetrominoColor>,
    /// Screen column of the left edge of the piece's box.
    pub x: int,
    /// Row of the top edge of the piece's box.
    pub y: int,
    pub rotation: int,
    pub frame_counter: int,
    pub score: int,
    /// The playfield, row by row from the top.
    pub grid: Seq<Cell>,
    /// The rows that wait for removal, if any.
    pub lines: Option<Seq<usize>>,
    /// Frames left until the waiting rows are removed.
    pub countdown: int,
    /// Whether the game has ended.
    pub over: bool,
}

impl GameState {
    /// The grid has exactly `width * height` cells, and its sides and its
    /// size fit the machine's index type.
    pub open spec fn wf(self) -> bool {
        &&& 0 <= self.width <= usize::MAX
        &&& 0 <= self.height <= usize::MAX
        &&& self.grid.len() == self.width * self.height
        &&& self.grid.len() <= usize::MAX
    }

    /// An empty playfield of the given size with nothing in play.
    pub open spec fn fresh(width: int, height: int) -> GameState {
        GameState {
            width,
            height,
            tetromino: None,
            tetromino_color: None,
            x: 0,
            y: 0,
            rotation: 0,
            frame_counter: 0,
            score: 0,
            grid: Seq::new((width * height) as nat, |i: int| empty_cell()),
            lines: None,
            countdown: 0,
            over: false,
        }
    }

    pub open spec fn in_bounds(self, gx: int, gy: int) -> bool {
        0 <= gx < self.width && 0 <= gy < self.height
    }

    /// The cell in grid column `gx` of row `gy`.
    pub open spec fn cell(self, gx: int, gy: int) -> Cell {
        self.grid[gy * self.width + gx]
    }

    /// A position a block cannot enter: outside the playfield or already
    /// occupied.
    pub open spec fn blocked(self, gx: int, gy: int) -> bool {
        !self.in_bounds(gx, gy) || self.cell(gx, gy).occupied
    }

    /// Whether the piece in play has a block at grid position `(gx, gy)`.
    pub open spec fn piece_covers(self, gx: int, gy: int) -> bool {
        match self.tetromino {
            Some(t) => {
                let cx = gx - (self.x - SCREEN_X_OFFSET);
                let cy = gy - self.y;
                0 <= cx < 4 && 0 <= cy < 4 && t.covers(cx, cy, self.rotation)
            },
            None => false,
        }
    }

    /// Whether box cell `(cx, cy)` holds a block of the piece that sits on a
    /// blocked position.
    pub open spec fn hits(self, cx: int, cy: int) -> bool {
        match self.tetromino {
            Some(t) => t.covers(cx, cy, self.rotation) && self.blocked(
                self.x + cx - SCREEN_X_OFFSET,
                self.y + cy,
            ),
            None => false,
        }
    }

    /// Whether some block of the piece sits on a blocked position. Cells of
    /// the box the shape leaves free never count.
    pub open spec fn collides(self) -> bool {
        exists|cx: int, cy: int| 0 <= cx < 4 && 0 <= cy < 4 && #[trigger] self.hits(cx, cy)
    }

    /// The state after the piece's blocks became part of the playfield, in
    /// the piece's color, and the piece is gone.
    pub open spec fn locked(self) -> GameState {
        GameState {
            grid: Seq::new(
                self.grid.len(),
                |i: int|
                    if self.width > 0 && self.piece_covers(i % self.width, i / self.width) {
                        Cell { occupied: true, color: self.tetromino_color }
                    } else {
                        self.grid[i]
                    },
            ),
            tetromino: None,
            tetromino_color: None,
            ..self
        }
    }

    /// A row is full when every cell of it is occupied.
    pub open spec fn row_full(self, gy: int) -> bool {
        forall|gx: int| 0 <= gx < self.width ==> (#[trigger] self.cell(gx, gy)).occupied
    }

    /// The full rows above row `n`, lowest first.
    pub open spec fn full_rows_above(self, n: int) -> Seq<usize>
        decreases n,
    {
        if n <= 0 {
            Seq::empty()
        } else if self.row_full(n - 1) {
            seq![(n - 1) as usize] + self.full_rows_above(n - 1)
        } else {
            self.full_rows_above(n - 1)
        }
    }

    /// All full rows, from the bottom of the playfield to the top.
    pub open spec fn full_rows(self) -> Seq<usize> {
        self.full_rows_above(self.height)
    }

    /// The state after the listed rows were taken out: the remaining rows
    /// keep their order and sink to the bottom, and empty rows fill the top.
    pub open spec fn cleared(self, rows: Seq<usize>) -> GameState {
        let kept = kept_cells(self.grid, self.width, rows, self.height);
        GameState {
            grid: Seq::new((self.grid.len() - kept.len()) as nat, |i: int| empty_cell()) + kept,
            ..self
        }
    }

    /// The state after the waiting rows were removed and paid for.
    pub open spec fn lines_removed(self) -> GameState {
        match self.lines {
            Some(rows) => GameState {
                score: capped(self.score, reward(rows.len() as int)),
                lines: None,
                countdown: 0,
                ..self.cleared(rows)
            },
            None => self,
        }
    }

    /// The state after a scan for full rows: if there are any, they start
    /// to wait for their removal.
    pub open spec fn lines_checked(self) -> GameState {
        if self.full_rows().len() > 0 {
            GameState {
                lines: Some(self.full_rows()),
                countdown: LINE_WAIT_DURATION as int,
                ..self
            }
        } else {
            self
        }
    }

    /// The state with a new piece at the top, chosen by the two draws.
    pub open spec fn spawned(self, shape_draw: u32, color_draw: u32) -> GameState {
        GameState {
            tetromino: Some(Tetromino::spec_from_draw(shape_draw)),
            tetromino_color: Some(TetrominoColor::spec_from_draw(color_draw)),
            x: (SPAWN_COLUMN + SCREEN_X_OFFSET) as int,
            y: 0,
            rotation: 0,
            ..self
        }
    }

    /// The state after the piece came to rest: it is locked, full rows start
    /// to wait, and only if none waits a new piece appears.
    pub open spec fn settled(self, shape_draw: u32, color_draw: u32) -> GameState {
        let s = self.locked().lines_checked();
        if s.lines.is_some() {
            s
        } else {
            s.spawned(shape_draw, color_draw)
        }
    }

    pub open spec fn moved(self, dx: int, dy: int) -> GameState {
        GameState { x: self.x + dx, y: self.y + dy, ..self }
    }

    pub open spec fn rotated(self) -> GameState {
        GameState { rotation: next_rotation(self.rotation), ..self }
    }

    /// Whether the piece's origin can be stored.
    pub open spec fn representable(self) -> bool {
        0 <= self.x <= usize::MAX && 0 <= self.y <= usize::MAX
    }

    /// The outcome of a tentative change: `next` if the piece is legal
    /// there, the unchanged state if not.
    pub open spec fn accepted(self, next: GameState) -> GameState {
        if next.representable() && !next.collides() {
            next
        } else {
            self
        }
    }

    /// The state after a command of the player.
    pub open spec fn commanded(self, command: Command) -> GameState {
        match command {
            Command::MoveLeft => self.accepted(self.moved(-1, 0)),
            Command::MoveRight => self.accepted(self.moved(1, 0)),
            Command::SoftDrop => self.accepted(self.moved(0, 1)),
            Command::Rotate => self.accepted(self.rotated()),
            Command::Quit => GameState { over: true, ..self },
        }
    }

    /// The state after gravity pulled once: the piece sinks a row, or, where
    /// it cannot, it is locked and full rows start to wait.
    pub open spec fn dropped(self) -> GameState {
        let next = self.moved(0, 1);
        if next.representable() && !next.collides() {
            next
        } else {
            self.locked().lines_checked()
        }
    }

    /// Whether rows wait and their removal is near enough that they are
    /// drawn in the flashing style.
    pub open spec fn flashing(self) -> bool {
        self.lines.is_some() && self.countdown <= LINE_FLASH_TIME
    }

    /// The state after one frame while rows wait: the countdown runs, and
    /// at zero the rows are removed.
    pub open spec fn lines_advanced(self) -> GameState {
        if self.countdown <= 0 {
            self.lines_removed()
        } else {
            GameState { countdown: self.countdown - 1, ..self }
        }
    }

    /// What every frame of a running game keeps: the playfield has its
    /// size, no piece is in play while rows wait, and the piece in play,
    /// unless the game has ended, sits on free cells inside the playfield.
    pub open spec fn sound(self) -> bool {
        &&& self.wf()
        &&& self.lines.is_some() ==> self.tetromino.is_none()
        &&& !self.over ==> !self.collides()
    }

    /// The state after one frame.
    ///
    /// A finished game stays as it is, and a quit command finishes the game.
    /// While rows wait for removal the frame only advances the countdown.
    /// Otherwise a missing piece is spawned from the two draws; a piece that
    /// sits on a blocked position ends the game; on every
    /// `GRAVITY_INTERVAL`-th frame gravity pulls; then the command, if a
    /// piece is still in play, is carried out. Every frame that does not
    /// end the game counts.
    pub open spec fn stepped(self, command: Option<Command>, shape_draw: u32, color_draw: u32)
        -> GameState {
        if self.over {
            self
        } else if command == Some(Command::Quit) {
            GameState { over: true, ..self }
        } else if self.lines.is_some() {
            let s = self.lines_advanced();
            GameState { frame_counter: self.frame_counter + 1, ..s }
        } else {
            let s1 = if self.tetromino.is_none() {
                self.spawned(shape_draw, color_draw)
            } else {
                self
            };
            if s1.collides() {
                GameState { over: true, ..s1 }
            } else {
                let s2 = if self.frame_counter % (GRAVITY_INTERVAL as int) == 0 {
                    s1.dropped()
                } else {
                    s1
                };
                let s3 = match command {
                    Some(c) => if s2.tetromino.is_some() {
                        s2.commanded(c)
                    } else {
                        s2
                    },
                    None => s2,
                };
                GameState { frame_counter: self.frame_counter + 1, ..s3 }
            }
        }
    }
}

/// A position inside a `width` by `height` grid has an index inside the
/// grid, and the index gives the position back.
pub proof fn lemma_index_of_cell(width: int, height: int, gx: int, gy: int)
    requires
        0 <= gx < width,
        0 <= gy < height,
    ensures
        0 <= gy * width + gx < width * height,
        (gy * width + gx) % width == gx,
        (gy * width + gx) / width == gy,
{
    assert(gy * width + gx < width * height) by (nonlinear_arith)
        requires
            0 <= gx < width,
            0 <= gy < height,
    ;
    assert(0 <= gy * width) by (nonlinear_arith)
        requires
            0 <= gy,
            0 < width,
    ;
    lemma_fundamental_div_mod_converse(gy * width + gx, width, gy, gx);
}

/// An index inside a `width` by `height` grid belongs to a position inside
/// the grid.
pub proof fn lemma_cell_of_index(width: int, height: int, i: int)
    requires
        0 <= i < width * height,
        0 < width,
    ensures
        0 <= i % width < width,
        0 <= i / width < height,
        i == (i / width) * width + i % width,
{
    lemma_mod_bound(i, width);
    lemma_fundamental_div_mod(i, width);
    lemma_multiply_divide_lt(i, width, height);
    assert(0 <= i / width) by (nonlinear_arith)
        requires
            0 <= i,
            0 < width,
    ;
    assert(width * (i / width) == (i / width) * width) by (nonlinear_arith);
}

} // verus!
