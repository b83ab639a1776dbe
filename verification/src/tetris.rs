//! The game itself: the playfield, the piece in play, and the operations
//! that move, lock and clear.

use crate::chance::draw_below;
use crate::colors::{TetrominoColor, COLOR_COUNT};
use crate::playfield::Playfield;
use crate::state::{
    capped, empty_cell, kept_cells, lemma_cell_of_index, lemma_index_of_cell, reward, Cell,
    Command, GameState, GRAVITY_INTERVAL, LINE_FLASH_TIME, LINE_WAIT_DURATION, SCREEN_X_OFFSET,
    SPAWN_COLUMN,
};
use crate::tetromino::{Tetromino, SHAPE_COUNT};
use vstd::prelude::*;

verus! {

/// The answer to a question about a position that is not on the playfield.
#[derive(Debug, Copy, Clone, PartialEq, Eq, Structural)]
pub struct OutOfBounds {
    pub x: usize,
    pub y: usize,
}

/// A game in progress.
///
/// The piece's position is public and is changed in the open: a caller moves
/// or turns the piece, asks `tetromino_collides`, and puts the old value back
/// if the answer is yes. The playfield itself changes only through the
/// methods.
pub struct TetrisGame {
    pub width: usize,
    pub height: usize,
    pub tetromino: Option<Tetromino>,
    pub tetromino_color: Option<TetrominoColor>,
    /// Screen column of the left edge of the piece's box.
    pub tetromino_x: usize,
    /// Row of the top edge of the piece's box.
    pub tetromino_y: usize,
    pub tetromino_rotation: usize,
    pub frame_counter: usize,
    pub score: usize,
    /// The rows that wait for removal, bottom row first.
    pub lines_to_remove: Option<Vec<usize>>,
    /// Frames left until the waiting rows are removed.
    pub lines_frame_counter: usize,
    /// Whether the game has ended.
    pub over: bool,
    /// The settled blocks.
    pub grid: Playfield,
}

impl View for TetrisGame {
    type V = GameState;

    open spec fn view(&self) -> GameState {
        GameState {
            width: self.width as int,
            height: self.height as int,
            tetromino: self.tetromino,
            tetromino_color: self.tetromino_color,
            x: self.tetromino_x as int,
            y: self.tetromino_y as int,
            rotation: self.tetromino_rotation as int,
            frame_counter: self.frame_counter as int,
            score: self.score as int,
            grid: self.grid@,
            lines: match self.lines_to_remove {
                Some(rows) => Some(rows@),
                None => None,
            },
            countdown: self.lines_frame_counter as int,
            over: self.over,
        }
    }
}

impl TetrisGame {
    /// The playfield has exactly `width * height` cells.
    pub open spec fn wf(&self) -> bool {
        self@.wf()
    }

    /// A game on an empty playfield whose first piece is chosen by the two
    /// draws.
    pub fn with_draws(width: usize, height: usize, shape_draw: u32, color_draw: u32) -> (game:
        TetrisGame)
        requires
            width * height <= usize::MAX,
        ensures
            game.wf(),
            game@ == GameState::fresh(width as int, height as int).spawned(shape_draw, color_draw),
    {
        let grid = Playfield::empty(width * height);
        let game = TetrisGame {
            width,
            height,
            tetromino: Some(Tetromino::from_draw(shape_draw)),
            tetromino_color: Some(TetrominoColor::from_draw(color_draw)),
            tetromino_x: SPAWN_COLUMN + SCREEN_X_OFFSET,
            tetromino_y: 0,
            tetromino_rotation: 0,
            frame_counter: 0,
            score: 0,
            lines_to_remove: None,
            lines_frame_counter: 0,
            over: false,
            grid,
        };
        game
    }

    /// A game on an empty playfield whose first piece is drawn at random.
    pub fn new(width: usize, height: usize) -> (game: TetrisGame)
        requires
            width * height <= usize::MAX,
        ensures
            game.wf(),
            exists|shape_draw: u32, color_draw: u32|
                shape_draw < SHAPE_COUNT && color_draw < COLOR_COUNT && game@
                    == #[trigger] GameState::fresh(width as int, height as int).spawned(
                    shape_draw,
                    color_draw,
                ),
    {
        let shape_draw = draw_below(SHAPE_COUNT);
        let color_draw = draw_below(COLOR_COUNT);
        Self::with_draws(width, height, shape_draw, color_draw)
    }

    /// Whether `(x, y)` is a position of the playfield.
    pub fn in_bounds(&self, x: usize, y: usize) -> (b: bool)
        ensures
            b == self@.in_bounds(x as int, y as int),
    {
        x < self.width && y < self.height
    }

    /// The grid index of the screen position `(x, y)` of the piece's
    /// coordinates: rows are `width` cells long, and screen column
    /// `SCREEN_X_OFFSET` is the first cell of a row.
    pub fn tetromino_xy_to_grid_idx(&self, x: usize, y: usize) -> (idx: usize)
        requires
            x >= SCREEN_X_OFFSET,
            y * self.width + (x - SCREEN_X_OFFSET) <= usize::MAX,
        ensures
            idx == y * self.width + (x - SCREEN_X_OFFSET),
    {
        assert(0 <= y * self.width) by (nonlinear_arith);
        (y * self.width) + (x - SCREEN_X_OFFSET)
    }

    /// The cell at `(x, y)`, or the report that the playfield has no such
    /// position. Nothing is clamped.
    pub fn cell_at(&self, x: usize, y: usize) -> (r: Result<Cell, OutOfBounds>)
        requires
            self.wf(),
        ensures
            self@.in_bounds(x as int, y as int) ==> r == Ok::<Cell, OutOfBounds>(
                self@.cell(x as int, y as int),
            ),
            !self@.in_bounds(x as int, y as int) ==> r == Err::<Cell, OutOfBounds>(
                OutOfBounds { x, y },
            ),
    {
        if x < self.width && y < self.height {
            proof {
                lemma_index_of_cell(self.width as int, self.height as int, x as int, y as int);
            }
            Ok(self.grid.get(y * self.width + x))
        } else {
            Err(OutOfBounds { x, y })
        }
    }

    /// Whether a settled block sits at `(x, y)` of the playfield. The
    /// position must be on the playfield.
    pub fn has_debris_at(&self, x: usize, y: usize) -> (b: bool)
        requires
            self.wf(),
            x < self.width,
            y < self.height,
        ensures
            b == self@.cell(x as int, y as int).occupied,
    {
        proof {
            lemma_index_of_cell(self.width as int, self.height as int, x as int, y as int);
        }
        let idx = y * self.width + x;
        self.grid.get(idx).occupied
    }

    /// The color of the settled block at `(x, y)` of the playfield, if one
    /// sits there. The position must be on the playfield.
    pub fn get_color_at(&self, x: usize, y: usize) -> (c: Option<TetrominoColor>)
        requires
            self.wf(),
            x < self.width,
            y < self.height,
        ensures
            c == self@.cell(x as int, y as int).color,
    {
        proof {
            lemma_index_of_cell(self.width as int, self.height as int, x as int, y as int);
        }
        let idx = y * self.width + x;
        self.grid.get(idx).color
    }

    /// Turns the piece a quarter turn further.
    pub fn rotate_tetromino(&mut self)
        ensures
            final(self)@ == old(self)@.rotated(),
    {
        self.tetromino_rotation = (self.tetromino_rotation % 4 + 1) % 4;
    }

    /// Moves the piece one row down.
    pub fn move_tetromino_down(&mut self)
        requires
            old(self).tetromino_y < usize::MAX,
        ensures
            final(self)@ == old(self)@.moved(0, 1),
    {
        self.tetromino_y += 1;
    }

    /// Moves the piece one column to the left.
    pub fn move_tetromino_left(&mut self)
        requires
            old(self).tetromino_x > 0,
        ensures
            final(self)@ == old(self)@.moved(-1, 0),
    {
        self.tetromino_x -= 1;
    }

    /// Moves the piece one column to the right.
    pub fn move_tetromino_right(&mut self)
        requires
            old(self).tetromino_x < usize::MAX,
        ensures
            final(self)@ == old(self)@.moved(1, 0),
    {
        self.tetromino_x += 1;
    }

    /// The grid index under box cell `(cx, cy)` of the piece, or `None`
    /// where that cell lies outside the playfield.
    fn box_cell_index(&self, cx: usize, cy: usize) -> (r: Option<usize>)
        requires
            self.wf(),
            cx < 4,
            cy < 4,
        ensures
            r.is_some() == self@.in_bounds(
                self@.x + cx - SCREEN_X_OFFSET,
                self@.y + cy,
            ),
            r.is_some() ==> r.unwrap() == (self@.y + cy) * self@.width + (self@.x + cx
                - SCREEN_X_OFFSET),
            r.is_some() ==> r.unwrap() < self@.grid.len(),
    {
        if self.tetromino_y >= self.height || cy >= self.height - self.tetromino_y {
            return None;
        }
        let gy = self.tetromino_y + cy;
        let gx = if self.tetromino_x >= SCREEN_X_OFFSET {
            let base = self.tetromino_x - SCREEN_X_OFFSET;
            if base >= self.width || cx >= self.width - base {
                return None;
            }
            base + cx
        } else {
            if self.tetromino_x + cx < SCREEN_X_OFFSET {
                return None;
            }
            let gx = self.tetromino_x + cx - SCREEN_X_OFFSET;
            if gx >= self.width {
                return None;
            }
            gx
        };
        proof {
            lemma_index_of_cell(self.width as int, self.height as int, gx as int, gy as int);
        }
        Some(gy * self.width + gx)
    }

    /// Whether a block of the piece sits outside the playfield or on a
    /// settled block. This is the one test that decides whether a position
    /// of the piece is legal.
    pub fn tetromino_collides(&self) -> (b: bool)
        requires
            self.wf(),
            self.tetromino.is_some(),
        ensures
            b == self@.collides(),
    {
        let shape = self.tetromino.unwrap();
        let mut cy: usize = 0;
        while cy < 4
            invariant
                cy <= 4,
                self.wf(),
                self.tetromino == Some(shape),
                forall|px: int, py: int| 0 <= px < 4 && 0 <= py < cy ==> !self@.hits(px, py),
            decreases 4 - cy,
        {
            let mut cx: usize = 0;
            while cx < 4
                invariant
                    cx <= 4,
                    cy < 4,
                    self.wf(),
                    self.tetromino == Some(shape),
                    forall|px: int, py: int| 0 <= px < 4 && 0 <= py < cy ==> !self@.hits(px, py),
                    forall|px: int| 0 <= px < cx ==> !self@.hits(px, cy as int),
                decreases 4 - cx,
            {
                if shape.cell_occupied(cx, cy, self.tetromino_rotation) {
                    match self.box_cell_index(cx, cy) {
                        None => {
                            assert(self@.hits(cx as int, cy as int));
                            return true;
                        },
                        Some(idx) => {
                            if self.grid.get(idx).occupied {
                                assert(self@.hits(cx as int, cy as int));
                                return true;
                            }
                        },
                    }
                }
                cx += 1;
            }
            cy += 1;
        }
        false
    }

    /// Makes the piece's blocks part of the playfield, in the piece's color,
    /// and takes the piece out of play. Only cells the shape covers are
    /// written; blocks outside the playfield are dropped.
    pub fn lock_piece(&mut self)
        requires
            old(self).wf(),
        ensures
            final(self).wf(),
            final(self)@ == old(self)@.locked(),
    {
        let ghost before = self@;
        match self.tetromino {
            None => {},
            Some(shape) => {
                let block = Cell { occupied: true, color: self.tetromino_color };
                let mut n: usize = 0;
                while n < 16
                    invariant
                        n <= 16,
                        before.wf(),
                        before.tetromino == Some(shape),
                        block == (Cell { occupied: true, color: before.tetromino_color }),
                        self@ == (GameState { grid: self.grid@, ..before }),
                        self.grid@.len() == before.grid.len(),
                        forall|i: int|
                            0 <= i < before.grid.len() ==> #[trigger] self.grid@[i] == (if locked_upto(
                                before,
                                i % before.width,
                                i / before.width,
                                n as int,
                            ) {
                                block
                            } else {
                                before.grid[i]
                            }),
                    decreases 16 - n,
                {
                    let cx = n % 4;
                    let cy = n / 4;
                    let ghost prev = self.grid@;
                    let ghost gx = before.x + cx - SCREEN_X_OFFSET;
                    let ghost gy = before.y + cy;
                    let covered = shape.cell_occupied(cx, cy, self.tetromino_rotation);
                    let target = if covered {
                        self.box_cell_index(cx, cy)
                    } else {
                        None
                    };
                    match target {
                        Some(idx) => {
                            self.grid.set(idx, block);
                        },
                        None => {},
                    }
                    proof {
                        assert forall|i: int| 0 <= i < before.grid.len() implies #[trigger] self.grid@[i]
                            == (if locked_upto(
                            before,
                            i % before.width,
                            i / before.width,
                            n + 1,
                        ) {
                            block
                        } else {
                            before.grid[i]
                        }) by {
                            lemma_cell_of_index(before.width, before.height, i);
                            if before.in_bounds(gx, gy) {
                                lemma_index_of_cell(before.width, before.height, gx, gy);
                            }
                            assert(prev[i] == (if locked_upto(
                                before,
                                i % before.width,
                                i / before.width,
                                n as int,
                            ) {
                                block
                            } else {
                                before.grid[i]
                            }));
                        }
                    }
                    n += 1;
                }
                assert(self.grid@ =~= before.locked().grid) by {
                    assert forall|i: int| 0 <= i < before.grid.len() implies self.grid@[i]
                        == before.locked().grid[i] by {
                        lemma_cell_of_index(before.width, before.height, i);
                    }
                }
            },
        }
        self.tetromino = None;
        self.tetromino_color = None;
        assert(self@.grid =~= before.locked().grid);
    }

    /// Whether every cell of row `y` is occupied.
    pub fn is_row_full(&self, y: usize) -> (b: bool)
        requires
            self.wf(),
            y < self.height,
        ensures
            b == self@.row_full(y as int),
    {
        let mut x: usize = 0;
        while x < self.width
            invariant
                x <= self.width,
                self.wf(),
                y < self.height,
                forall|gx: int| 0 <= gx < x ==> (#[trigger] self@.cell(gx, y as int)).occupied,
            decreases self.width - x,
        {
            proof {
                lemma_index_of_cell(self.width as int, self.height as int, x as int, y as int);
            }
            if !self.grid.get(y * self.width + x).occupied {
                assert(!self@.cell(x as int, y as int).occupied);
                return false;
            }
            x += 1;
        }
        true
    }

    /// The full rows, scanned from the bottom of the playfield to the top.
    pub fn find_full_rows(&self) -> (rows: Vec<usize>)
        requires
            self.wf(),
        ensures
            rows@ == self@.full_rows(),
    {
        let mut rows: Vec<usize> = Vec::new();
        let mut y: usize = self.height;
        while y > 0
            invariant
                y <= self.height,
                self.wf(),
                rows@ + self@.full_rows_above(y as int) == self@.full_rows(),
            decreases y,
        {
            let ghost found = rows@;
            y -= 1;
            if self.is_row_full(y) {
                rows.push(y);
            }
            assert(rows@ + self@.full_rows_above(y as int) =~= found + self@.full_rows_above(
                y + 1,
            ));
        }
        assert(rows@ + self@.full_rows_above(0) =~= rows@);
        rows
    }

    /// Scans for full rows and, if there are any, lets them wait for their
    /// removal.
    pub fn check_for_lines(&mut self)
        requires
            old(self).wf(),
        ensures
            final(self).wf(),
            final(self)@ == old(self)@.lines_checked(),
    {
        let rows = self.find_full_rows();
        if rows.len() > 0 {
            self.lines_to_remove = Some(rows);
            self.lines_frame_counter = LINE_WAIT_DURATION;
        }
    }

    /// Takes the listed rows out of the playfield. The rows that remain keep
    /// their order and sink to the bottom; empty rows fill the top. Entries
    /// that name no row of the playfield, or a row a second time, change
    /// nothing.
    pub fn clear_rows(&mut self, rows: &Vec<usize>)
        requires
            old(self).wf(),
        ensures
            final(self).wf(),
            final(self)@ == old(self)@.cleared(rows@),
    {
        let ghost before = self@;
        let total = self.grid.len();
        let mut kept: Vec<Cell> = Vec::new();
        let mut y: usize = 0;
        while y < self.height
            invariant
                y <= self.height,
                self@ == before,
                before.wf(),
                total == before.grid.len(),
                kept@ == kept_cells(before.grid, before.width, rows@, y as int),
                kept@.len() <= y * self.width,
            decreases self.height - y,
        {
            proof {
                assert((y + 1) * self.width == y * self.width + self.width) by (nonlinear_arith);
                assert((y + 1) * self.width <= self.height * self.width) by (nonlinear_arith)
                    requires
                        y + 1 <= self.height,
                ;
                assert(self.height * self.width == self.width * self.height) by (nonlinear_arith);
            }
            if !row_listed(rows, y) {
                let start = y * self.width;
                let mut x: usize = 0;
                while x < self.width
                    invariant
                        x <= self.width,
                        y < self.height,
                        self@ == before,
                        before.wf(),
                        start == y * self.width,
                        start + self.width <= before.grid.len(),
                        kept@ == kept_cells(before.grid, before.width, rows@, y as int) + before.grid.subrange(
                            start as int,
                            start + x,
                        ),
                        kept@.len() <= start + x,
                    decreases self.width - x,
                {
                    kept.push(self.grid.get(start + x));
                    assert(kept@ =~= kept_cells(before.grid, before.width, rows@, y as int) + before.grid.subrange(
                        start as int,
                        start + x + 1,
                    ));
                    x += 1;
                }
            }
            y += 1;
        }
        assert(kept@.len() <= total) by (nonlinear_arith)
            requires
                kept@.len() <= self.height * self.width,
                total == self.width * self.height,
        ;
        let padding = total - kept.len();
        let mut cells: Vec<Cell> = Vec::new();
        let mut i: usize = 0;
        while i < padding
            invariant
                i <= padding,
                cells@ == Seq::new(i as nat, |j: int| empty_cell()),
            decreases padding - i,
        {
            cells.push(Cell { occupied: false, color: None });
            assert(cells@ =~= Seq::new((i + 1) as nat, |j: int| empty_cell()));
            i += 1;
        }
        let mut k: usize = 0;
        while k < kept.len()
            invariant
                k <= kept.len(),
                cells@ == Seq::new(padding as nat, |j: int| empty_cell()) + kept@.subrange(
                    0,
                    k as int,
                ),
            decreases kept.len() - k,
        {
            cells.push(kept[k]);
            assert(cells@ =~= Seq::new(padding as nat, |j: int| empty_cell()) + kept@.subrange(
                0,
                k + 1,
            ));
            k += 1;
        }
        assert(kept@.subrange(0, kept@.len() as int) =~= kept@);
        self.grid = Playfield::from_cells(cells);
    }

    /// Removes the waiting rows, if any, and adds their reward to the score.
    pub fn remove_lines(&mut self)
        requires
            old(self).wf(),
        ensures
            final(self).wf(),
            final(self)@ == old(self)@.lines_removed(),
    {
        let waiting = self.lines_to_remove.take();
        match waiting {
            None => {},
            Some(rows) => {
                self.clear_rows(&rows);
                self.score = add_reward(self.score, rows.len());
                self.lines_frame_counter = 0;
            },
        }
    }

    /// Whether rows wait for removal and are to be drawn in the flashing
    /// style.
    pub fn lines_flashing(&self) -> (b: bool)
        ensures
            b == self@.flashing(),
    {
        self.lines_to_remove.is_some() && self.lines_frame_counter <= LINE_FLASH_TIME
    }

    /// Puts a new piece, chosen by the two draws, at the top of the
    /// playfield.
    pub fn spawn_tetromino(&mut self, shape_draw: u32, color_draw: u32)
        ensures
            final(self)@ == old(self)@.spawned(shape_draw, color_draw),
    {
        self.tetromino = Some(Tetromino::from_draw(shape_draw));
        self.tetromino_color = Some(TetrominoColor::from_draw(color_draw));
        self.tetromino_x = SPAWN_COLUMN + SCREEN_X_OFFSET;
        self.tetromino_y = 0;
        self.tetromino_rotation = 0;
    }

    /// Puts a new piece, drawn at random, at the top of the playfield.
    pub fn spawn(&mut self)
        ensures
            exists|shape_draw: u32, color_draw: u32|
                shape_draw < SHAPE_COUNT && color_draw < COLOR_COUNT && final(self)@
                    == #[trigger] old(self)@.spawned(shape_draw, color_draw),
    {
        let shape_draw = draw_below(SHAPE_COUNT);
        let color_draw = draw_below(COLOR_COUNT);
        self.spawn_tetromino(shape_draw, color_draw);
    }

    /// Lets the piece come to rest: locks it, lets full rows wait for their
    /// removal and, only if none waits, brings the piece chosen by the two
    /// draws into play.
    pub fn settle_tetromino(&mut self, shape_draw: u32, color_draw: u32)
        requires
            old(self).wf(),
        ensures
            final(self).wf(),
            final(self)@ == old(self)@.settled(shape_draw, color_draw),
    {
        self.lock_piece();
        self.check_for_lines();
        if self.lines_to_remove.is_none() {
            self.spawn_tetromino(shape_draw, color_draw);
        }
    }

    /// Lets the piece come to rest and draws its successor at random.
    pub fn turn_tetromino_to_debris(&mut self)
        requires
            old(self).wf(),
        ensures
            final(self).wf(),
            exists|shape_draw: u32, color_draw: u32|
                shape_draw < SHAPE_COUNT && color_draw < COLOR_COUNT && final(self)@
                    == #[trigger] old(self)@.settled(shape_draw, color_draw),
    {
        let shape_draw = draw_below(SHAPE_COUNT);
        let color_draw = draw_below(COLOR_COUNT);
        self.settle_tetromino(shape_draw, color_draw);
    }

    /// Carries out a command of the player: the piece moves or turns if it
    /// is legal in its new place and stays as it was if not.
    pub fn apply_command(&mut self, command: Command)
        requires
            old(self).wf(),
            old(self).tetromino.is_some(),
        ensures
            final(self).wf(),
            final(self)@ == old(self)@.commanded(command),
    {
        match command {
            Command::MoveLeft => {
                if self.tetromino_x > 0 {
                    self.move_tetromino_left();
                    if self.tetromino_collides() {
                        self.move_tetromino_right();
                    }
                }
            },
            Command::MoveRight => {
                if self.tetromino_x < usize::MAX {
                    self.move_tetromino_right();
                    if self.tetromino_collides() {
                        self.move_tetromino_left();
                    }
                }
            },
            Command::SoftDrop => {
                if self.tetromino_y < usize::MAX {
                    let row = self.tetromino_y;
                    self.move_tetromino_down();
                    if self.tetromino_collides() {
                        self.tetromino_y = row;
                    }
                }
            },
            Command::Rotate => {
                let rotation = self.tetromino_rotation;
                self.rotate_tetromino();
                if self.tetromino_collides() {
                    self.tetromino_rotation = rotation;
                }
            },
            Command::Quit => {
                self.over = true;
            },
        }
    }

    /// Lets gravity pull once: the piece sinks a row or, where it cannot,
    /// is locked, and full rows start to wait.
    pub fn drop_tetromino(&mut self)
        requires
            old(self).wf(),
            old(self).tetromino.is_some(),
        ensures
            final(self).wf(),
            final(self)@ == old(self)@.dropped(),
    {
        let row = self.tetromino_y;
        let mut rests = true;
        if row < usize::MAX {
            self.move_tetromino_down();
            if self.tetromino_collides() {
                self.tetromino_y = row;
            } else {
                rests = false;
            }
        }
        if rests {
            self.lock_piece();
            self.check_for_lines();
        }
    }

    /// Plays one frame with the given command and, should a piece have to
    /// be spawned, the given draws.
    pub fn step(&mut self, command: Option<Command>, shape_draw: u32, color_draw: u32)
        requires
            old(self).wf(),
            old(self).frame_counter < usize::MAX,
        ensures
            final(self).wf(),
            final(self)@ == old(self)@.stepped(command, shape_draw, color_draw),
    {
        if self.over {
            return ;
        }
        if let Some(Command::Quit) = command {
            self.over = true;
            return ;
        }
        if self.lines_to_remove.is_some() {
            if self.lines_frame_counter == 0 {
                self.remove_lines();
            } else {
                self.lines_frame_counter -= 1;
            }
            self.frame_counter += 1;
            return ;
        }
        if self.tetromino.is_none() {
            self.spawn_tetromino(shape_draw, color_draw);
        }
        if self.tetromino_collides() {
            self.over = true;
            return ;
        }
        if self.frame_counter % GRAVITY_INTERVAL == 0 {
            self.drop_tetromino();
        }
        match command {
            Some(c) => {
                if self.tetromino.is_some() {
                    self.apply_command(c);
                }
            },
            None => {},
        }
        self.frame_counter += 1;
    }

    /// Plays one frame with the given command; a piece that has to be
    /// spawned is drawn at random.
    pub fn tick(&mut self, command: Option<Command>)
        requires
            old(self).wf(),
            old(self).frame_counter < usize::MAX,
        ensures
            final(self).wf(),
            exists|shape_draw: u32, color_draw: u32|
                shape_draw < SHAPE_COUNT && color_draw < COLOR_COUNT && final(self)@
                    == #[trigger] old(self)@.stepped(command, shape_draw, color_draw),
    {
        let shape_draw = draw_below(SHAPE_COUNT);
        let color_draw = draw_below(COLOR_COUNT);
        self.step(command, shape_draw, color_draw);
    }
}

/// Whether the piece of `s` has a block at grid position `(gx, gy)` that is
/// among the first `n` cells of its box, counted row by row.
pub open spec fn locked_upto(s: GameState, gx: int, gy: int, n: int) -> bool {
    s.piece_covers(gx, gy) && (gy - s.y) * 4 + (gx - (s.x - SCREEN_X_OFFSET)) < n
}

/// Whether `y` is one of `rows`.
pub fn row_listed(rows: &Vec<usize>, y: usize) -> (b: bool)
    ensures
        b == rows@.contains(y),
{
    let mut i: usize = 0;
    while i < rows.len()
        invariant
            i <= rows.len(),
            forall|j: int| 0 <= j < i ==> rows@[j] != y,
        decreases rows.len() - i,
    {
        if rows[i] == y {
            return true;
        }
        i += 1;
    }
    false
}

/// The score after `count` rows were removed at once: the reward grows with
/// the square of the count, and the score stops at the largest number it can
/// show.
pub fn add_reward(score: usize, count: usize) -> (total: usize)
    ensures
        total == capped(score as int, reward(count as int)),
{
    if count > 1_000_000_000 {
        assert(reward(count as int) > usize::MAX) by (nonlinear_arith)
            requires
                count > 1_000_000_000,
                usize::MAX <= 0xffff_ffff_ffff_ffff,
                reward(count as int) == 100 * count * count,
        ;
        usize::MAX
    } else {
        assert(100 * count * count <= 100_000_000_000_000_000_000) by (nonlinear_arith)
            requires
                count <= 1_000_000_000,
        ;
        assert(100 * count * count >= 0) by (nonlinear_arith);
        let gain: u128 = 100 * (count as u128) * (count as u128);
        let sum: u128 = score as u128 + gain;
        if sum > usize::MAX as u128 {
            usize::MAX
        } else {
            sum as usize
        }
    }
}

} // verus!
