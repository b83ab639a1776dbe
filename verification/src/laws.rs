//! What holds of the model whatever the game: facts that relate several
//! operations, each proved from the definitions.

use crate::state::{
    empty_cell, kept_cells, lemma_index_of_cell, reward, Cell, Command, GameState,
    GRAVITY_INTERVAL, SCREEN_X_OFFSET,
};
use crate::tetromino::lemma_shape_has_block;
use vstd::prelude::*;

verus! {

/// Four quarter turns bring the piece back to the rotation it had, and with
/// it to the cells it covered.
pub proof fn lemma_four_turns_restore(s: GameState)
    requires
        0 <= s.rotation < 4,
    ensures
        s.rotated().rotated().rotated().rotated() == s,
{
}

/// A piece whose box lies wholly outside the playfield collides: to the
/// left of the left wall, from the right wall on, or from the floor on.
pub proof fn lemma_piece_outside_collides(s: GameState)
    requires
        s.tetromino.is_some(),
        0 <= s.rotation < 4,
        s.x - SCREEN_X_OFFSET + 4 <= 0 || s.x - SCREEN_X_OFFSET >= s.width || s.y >= s.height,
    ensures
        s.collides(),
{
    let shape = s.tetromino.unwrap();
    lemma_shape_has_block(shape, s.rotation);
    let (cx, cy) = choose|cx: int, cy: int|
        0 <= cx < 4 && 0 <= cy < 4 && #[trigger] shape.covers(cx, cy, s.rotation);
    assert(s.hits(cx, cy));
}

/// A piece that does not collide has every block inside the playfield and
/// on a free cell, so locking it overwrites no settled block.
pub proof fn lemma_legal_piece_covers_free_cells(s: GameState, gx: int, gy: int)
    requires
        !s.collides(),
        s.piece_covers(gx, gy),
    ensures
        s.in_bounds(gx, gy),
        !s.cell(gx, gy).occupied,
{
    let cx = gx - (s.x - SCREEN_X_OFFSET);
    let cy = gy - s.y;
    assert(!s.hits(cx, cy));
}

/// Locking changes the playfield cell by cell: a cell under a block of the
/// piece becomes occupied in the piece's color, every other cell stays as
/// it was.
pub proof fn lemma_locked_cell(s: GameState, gx: int, gy: int)
    requires
        s.wf(),
        s.in_bounds(gx, gy),
    ensures
        s.locked().wf(),
        s.piece_covers(gx, gy) ==> s.locked().cell(gx, gy) == (Cell {
            occupied: true,
            color: s.tetromino_color,
        }),
        !s.piece_covers(gx, gy) ==> s.locked().cell(gx, gy) == s.cell(gx, gy),
{
    lemma_index_of_cell(s.width, s.height, gx, gy);
}

/// Taking rows out leaves the playfield at its size.
pub proof fn lemma_cleared_wf(s: GameState, rows: Seq<usize>)
    requires
        s.wf(),
    ensures
        s.cleared(rows).wf(),
{
    lemma_kept_cells_len(s.grid, s.width, s.height, rows, s.height);
    lemma_listed_above_grows(rows, 0, s.height);
    assert((s.height - listed_above(rows, s.height)) * s.width <= s.width * s.height)
        by (nonlinear_arith)
        requires
            0 <= listed_above(rows, s.height) <= s.height,
            0 <= s.width,
    ;
}

/// A command never leaves the piece in an illegal place: from a state in
/// which the piece does not collide, every command leads to such a state.
pub proof fn lemma_commands_keep_piece_legal(s: GameState, command: Command)
    requires
        !s.collides(),
    ensures
        !s.commanded(command).collides(),
        s.commanded(command).grid == s.grid,
        s.commanded(command).lines == s.lines,
        s.commanded(command).tetromino == s.tetromino,
{
    let after = s.commanded(command);
    if command == Command::Quit {
        assert forall|cx: int, cy: int| after.hits(cx, cy) == s.hits(cx, cy) by {}
    }
}

/// A frame keeps a game sound: whatever the command and the draws, the
/// playfield keeps its size, no piece is in play while rows wait, and the
/// piece in play sits on free cells unless the game has ended.
pub proof fn lemma_step_keeps_sound(
    s: GameState,
    command: Option<Command>,
    shape_draw: u32,
    color_draw: u32,
)
    requires
        s.sound(),
    ensures
        s.stepped(command, shape_draw, color_draw).sound(),
{
    let after = s.stepped(command, shape_draw, color_draw);
    if s.over || command == Some(Command::Quit) {
    } else if s.lines.is_some() {
        lemma_cleared_wf(s, s.lines.unwrap());
        assert forall|cx: int, cy: int| !after.hits(cx, cy) by {}
    } else {
        let s1 = if s.tetromino.is_none() {
            s.spawned(shape_draw, color_draw)
        } else {
            s
        };
        if !s1.collides() {
            let s2 = if s.frame_counter % (GRAVITY_INTERVAL as int) == 0 {
                s1.dropped()
            } else {
                s1
            };
            if s2.tetromino.is_none() {
                assert forall|cx: int, cy: int| !s2.hits(cx, cy) by {}
            }
            assert(!s2.collides());
            let s3 = match command {
                Some(c) => if s2.tetromino.is_some() {
                    s2.commanded(c)
                } else {
                    s2
                },
                None => s2,
            };
            if command.is_some() && s2.tetromino.is_some() {
                lemma_commands_keep_piece_legal(s2, command.unwrap());
            }
            assert(!s3.collides());
            assert forall|cx: int, cy: int| after.hits(cx, cy) == s3.hits(cx, cy) by {}
        }
    }
}

/// The scan for full rows lists exactly the rows in which every cell is
/// occupied, each once, from the bottom of the playfield to the top.
pub proof fn lemma_full_rows_above(s: GameState, n: int)
    requires
        0 <= n <= usize::MAX,
    ensures
        forall|y: usize| #[trigger]
            s.full_rows_above(n).contains(y) <==> (y < n && s.row_full(y as int)),
        forall|i: int, j: int|
            0 <= i < j < s.full_rows_above(n).len() ==> s.full_rows_above(n)[i]
                > s.full_rows_above(n)[j],
        forall|i: int| 0 <= i < s.full_rows_above(n).len() ==> s.full_rows_above(n)[i] < n,
    decreases n,
{
    if n > 0 {
        lemma_full_rows_above(s, n - 1);
        let rest = s.full_rows_above(n - 1);
        let rows = s.full_rows_above(n);
        let last = (n - 1) as usize;
        if s.row_full(n - 1) {
            assert(rows =~= seq![last] + rest);
            assert forall|y: usize| #[trigger] rows.contains(y) <==> (y < n && s.row_full(
                y as int,
            )) by {
                if rows.contains(y) {
                    let i = choose|i: int| 0 <= i < rows.len() && rows[i] == y;
                    if i > 0 {
                        assert(rest[i - 1] == y);
                        assert(rest.contains(y));
                    }
                }
                if y < n && s.row_full(y as int) {
                    if y == last {
                        assert(rows[0] == y);
                    } else {
                        assert(rest.contains(y));
                        let j = choose|j: int| 0 <= j < rest.len() && rest[j] == y;
                        assert(rows[j + 1] == y);
                    }
                }
            }
            assert forall|i: int, j: int| 0 <= i < j < rows.len() implies rows[i] > rows[j] by {
                assert(rows[j] == rest[j - 1]);
                if i > 0 {
                    assert(rows[i] == rest[i - 1]);
                }
            }
        } else {
            assert(rows == rest);
            assert forall|y: usize| #[trigger] rows.contains(y) <==> (y < n && s.row_full(
                y as int,
            )) by {
                if y == last {
                    assert(!rest.contains(y));
                }
            }
        }
    }
}

/// A row in which every cell was occupied before or is covered by the piece
/// is full once the piece is locked, and the scan for full rows that follows
/// reports it.
pub proof fn lemma_lock_fills_row(s: GameState, y: int)
    requires
        s.wf(),
        0 <= y < s.height,
        forall|gx: int|
            0 <= gx < s.width ==> (#[trigger] s.cell(gx, y)).occupied || s.piece_covers(gx, y),
    ensures
        s.locked().row_full(y),
        s.locked().full_rows().contains(y as usize),
{
    let after = s.locked();
    assert forall|gx: int| 0 <= gx < after.width implies (#[trigger] after.cell(
        gx,
        y,
    )).occupied by {
        lemma_index_of_cell(s.width, s.height, gx, y);
        assert(s.cell(gx, y).occupied || s.piece_covers(gx, y));
    }
    lemma_full_rows_above(after, after.height);
}

/// Removing more rows at once never pays less per row, and four rows at
/// once pay more than four single rows.
pub proof fn lemma_reward_rises(fewer: int, more: int)
    requires
        1 <= fewer <= more,
    ensures
        reward(fewer) * more <= reward(more) * fewer,
        reward(4) > 4 * reward(1),
{
    assert(reward(fewer) * more <= reward(more) * fewer) by (nonlinear_arith)
        requires
            1 <= fewer <= more,
            reward(fewer) == 100 * fewer * fewer,
            reward(more) == 100 * more * more,
    ;
}

/// While rows wait for their removal a frame leaves the piece alone: no
/// piece is spawned and no command moves or turns it. Until the countdown
/// has run out the playfield and the score stay as they are, too.
pub proof fn lemma_waiting_rows_park_piece(
    s: GameState,
    command: Option<Command>,
    shape_draw: u32,
    color_draw: u32,
)
    requires
        s.lines.is_some(),
    ensures
        s.stepped(command, shape_draw, color_draw).tetromino == s.tetromino,
        s.stepped(command, shape_draw, color_draw).tetromino_color == s.tetromino_color,
        s.stepped(command, shape_draw, color_draw).x == s.x,
        s.stepped(command, shape_draw, color_draw).y == s.y,
        s.stepped(command, shape_draw, color_draw).rotation == s.rotation,
        s.countdown > 0 ==> s.stepped(command, shape_draw, color_draw).grid == s.grid
            && s.stepped(command, shape_draw, color_draw).score == s.score,
{
}

/// How many of the first `n` rows are listed in `rows`.
pub open spec fn listed_above(rows: Seq<usize>, n: int) -> int
    decreases n,
{
    if n <= 0 {
        0
    } else if rows.contains((n - 1) as usize) {
        listed_above(rows, n - 1) + 1
    } else {
        listed_above(rows, n - 1)
    }
}

/// Among the first `n` rows at most `n` are listed, and the number of rows
/// that are not listed never falls as `n` grows.
pub proof fn lemma_listed_above_grows(rows: Seq<usize>, a: int, b: int)
    requires
        0 <= a <= b,
    ensures
        0 <= listed_above(rows, a) <= listed_above(rows, b),
        a - listed_above(rows, a) <= b - listed_above(rows, b),
        listed_above(rows, b) <= b,
    decreases b,
{
    if a < b {
        lemma_listed_above_grows(rows, a, b - 1);
    } else if b > 0 {
        lemma_listed_above_grows(rows, 0, b - 1);
        lemma_listed_above_grows(rows, b - 1, b - 1);
    }
}

/// The rows that stay take up exactly their own cells.
pub proof fn lemma_kept_cells_len(grid: Seq<Cell>, width: int, height: int, rows: Seq<usize>, n: int)
    requires
        0 <= width,
        0 <= n <= height,
        grid.len() == width * height,
    ensures
        kept_cells(grid, width, rows, n).len() == (n - listed_above(rows, n)) * width,
    decreases n,
{
    if n > 0 {
        lemma_kept_cells_len(grid, width, height, rows, n - 1);
        let stay = n - 1 - listed_above(rows, n - 1);
        assert(0 <= (n - 1) * width <= n * width <= width * height) by (nonlinear_arith)
            requires
                0 <= width,
                0 < n <= height,
        ;
        assert((stay + 1) * width == stay * width + width) by (nonlinear_arith);
        assert(n * width - (n - 1) * width == width) by (nonlinear_arith);
    }
}

/// A row that stays is found among the kept cells behind the rows above it
/// that stay as well.
pub proof fn lemma_kept_cells_row(
    grid: Seq<Cell>,
    width: int,
    height: int,
    rows: Seq<usize>,
    n: int,
    r: int,
    gx: int,
)
    requires
        0 <= gx < width,
        0 <= r < n <= height,
        grid.len() == width * height,
        !rows.contains(r as usize),
    ensures
        0 <= (r - listed_above(rows, r)) * width + gx < kept_cells(grid, width, rows, n).len(),
        kept_cells(grid, width, rows, n)[(r - listed_above(rows, r)) * width + gx] == grid[r
            * width + gx],
    decreases n,
{
    let stay = r - listed_above(rows, r);
    lemma_listed_above_grows(rows, r, r);
    lemma_kept_cells_len(grid, width, height, rows, n - 1);
    lemma_kept_cells_len(grid, width, height, rows, n);
    assert(0 <= (n - 1) * width <= n * width <= width * height) by (nonlinear_arith)
        requires
            0 <= width,
            0 < n <= height,
    ;
    assert(0 <= stay * width) by (nonlinear_arith)
        requires
            0 <= stay,
            0 <= width,
    ;
    if r == n - 1 {
        assert((stay + 1) * width == stay * width + width) by (nonlinear_arith);
    } else {
        lemma_kept_cells_row(grid, width, height, rows, n - 1, r, gx);
    }
}

/// After rows were taken out, as many rows at the top are empty as rows of
/// the playfield were listed.
pub proof fn lemma_cleared_top_is_empty(s: GameState, rows: Seq<usize>, gx: int, gy: int)
    requires
        s.wf(),
        0 <= gx < s.width,
        0 <= gy < listed_above(rows, s.height),
    ensures
        s.cleared(rows).wf(),
        s.cleared(rows).cell(gx, gy) == empty_cell(),
{
    let listed = listed_above(rows, s.height);
    lemma_kept_cells_len(s.grid, s.width, s.height, rows, s.height);
    lemma_listed_above_grows(rows, 0, s.height);
    assert((s.height - listed) * s.width == s.width * s.height - listed * s.width)
        by (nonlinear_arith);
    assert(0 <= gy * s.width + gx < listed * s.width) by (nonlinear_arith)
        requires
            0 <= gx < s.width,
            0 <= gy < listed,
    ;
    assert(listed * s.width <= s.width * s.height) by (nonlinear_arith)
        requires
            0 <= listed <= s.height,
            0 <= s.width,
    ;
}

/// After rows were taken out, a row that was not listed lies as many rows
/// lower as listed rows were below it, cell for cell as it was, and every
/// row above it that stays as well still lies above it.
pub proof fn lemma_cleared_row_sinks(s: GameState, rows: Seq<usize>, gx: int, r: int)
    requires
        s.wf(),
        0 <= gx < s.width,
        0 <= r < s.height,
        !rows.contains(r as usize),
    ensures
        r <= r + listed_above(rows, s.height) - listed_above(rows, r) < s.height,
        s.cleared(rows).cell(gx, r + listed_above(rows, s.height) - listed_above(rows, r))
            == s.cell(gx, r),
        forall|above: int|
            0 <= above < r && !rows.contains(above as usize) ==> above - #[trigger] listed_above(
                rows,
                above,
            ) < r - listed_above(rows, r),
{
    let listed = listed_above(rows, s.height);
    let stay = r - listed_above(rows, r);
    lemma_kept_cells_len(s.grid, s.width, s.height, rows, s.height);
    lemma_kept_cells_row(s.grid, s.width, s.height, rows, s.height, r, gx);
    lemma_listed_above_grows(rows, 0, s.height);
    lemma_listed_above_grows(rows, r, r + 1);
    lemma_listed_above_grows(rows, r + 1, s.height);
    assert((s.height - listed) * s.width == s.width * s.height - listed * s.width)
        by (nonlinear_arith);
    assert((stay + listed) * s.width + gx == listed * s.width + (stay * s.width + gx))
        by (nonlinear_arith);
    assert(0 <= listed * s.width) by (nonlinear_arith)
        requires
            0 <= listed,
            0 <= s.width,
    ;
    assert forall|above: int| 0 <= above < r && !rows.contains(above as usize) implies above
        - #[trigger] listed_above(rows, above) < r - listed_above(rows, r) by {
        lemma_listed_above_grows(rows, above, above + 1);
        lemma_listed_above_grows(rows, above + 1, r);
    }
}

} // verus!
