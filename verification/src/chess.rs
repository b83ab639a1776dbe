//! A chessboard on which pieces are moved under a few simple rules.

use crate::text::{append_repeated, digit_str, digit_text, repeated_text};
use vstd::prelude::*;
use vstd::string::*;

verus! {

/// The two sides.
#[derive(Debug, Clone, Copy, PartialEq, Eq, Structural)]
pub enum Color {
    White,
    Black,
}

/// What stands on a square.
#[derive(Debug, Clone, Copy, PartialEq, Eq, Structural)]
pub enum Piece {
    Pawn(Color),
    Bishop(Color),
    Knight(Color),
    Rook(Color),
    Queen(Color),
    King(Color),
    Empty,
}

/// The board: sixty-four squares, row by row, and the pieces taken from
/// either side.
pub struct Chessboard {
    pub pieces: [Piece; 64],
    pub white_graveyard: Vec<Piece>,
    pub black_graveyard: Vec<Piece>,
}

/// The piece that starts in the given column of a side's back row.
pub open spec fn back_row_piece(column: int, color: Color) -> Piece {
    if column == 0 || column == 7 {
        Piece::Rook(color)
    } else if column == 1 || column == 6 {
        Piece::Knight(color)
    } else if column == 2 || column == 5 {
        Piece::Bishop(color)
    } else if column == 3 {
        Piece::Queen(color)
    } else {
        Piece::King(color)
    }
}

/// The piece that starts on square `i`: black on the first two rows, white
/// on the last two.
pub open spec fn initial_piece(i: int) -> Piece {
    if i < 8 {
        back_row_piece(i, Color::Black)
    } else if i < 16 {
        Piece::Pawn(Color::Black)
    } else if i < 48 {
        Piece::Empty
    } else if i < 56 {
        Piece::Pawn(Color::White)
    } else {
        back_row_piece(i - 56, Color::White)
    }
}

/// The distance between two coordinates.
pub open spec fn distance(a: int, b: int) -> int {
    if a > b {
        a - b
    } else {
        b - a
    }
}

/// Whether `piece` may go from `start` to `end`, both given as row and
/// column: a pawn goes to the next row, a rook along its column to another
/// row, a bishop as many rows as columns; every other piece, and an empty
/// square, may go anywhere.
pub open spec fn legal_for(piece: Piece, start: (usize, usize), end: (usize, usize)) -> bool {
    match piece {
        Piece::Pawn(_) => start.0 + 1 == end.0,
        Piece::Rook(_) => start.1 == end.1 && start.0 != end.0,
        Piece::Bishop(_) => distance(end.1 as int, start.1 as int) == distance(
            end.0 as int,
            start.0 as int,
        ),
        _ => true,
    }
}

/// The first `n` squares of a row as text: a bar in front, then every piece
/// between blanks and closed by a bar.
pub open spec fn squares_text(pieces: Seq<Piece>, row: int, n: int) -> Seq<char>
    decreases n,
{
    if n <= 0 {
        "|"@
    } else {
        squares_text(pieces, row, n - 1) + " "@ + pieces[8 * row + n - 1].spec_label() + " |"@
    }
}

/// The first `n` rows as text: over each row a rule, behind each row its
/// number.
pub open spec fn rows_text(pieces: Seq<Piece>, n: int) -> Seq<char>
    decreases n,
{
    if n <= 0 {
        Seq::empty()
    } else {
        rows_text(pieces, n - 1) + repeated_text("-"@, 41) + "\n"@ + squares_text(
            pieces,
            n - 1,
            8,
        ) + " "@ + digit_text(n - 1) + "\n"@
    }
}

/// The whole board as text: the column numbers, the rows, a closing rule
/// and the two lists of taken pieces.
pub open spec fn board_text(pieces: Seq<Piece>) -> Seq<char> {
    "\n  0    1    2    3    4    5    6    7\n"@ + rows_text(pieces, 8) + repeated_text(
        "-"@,
        41,
    ) + "\n"@ + "\n"@ + "WG: "@ + "\n"@ + "BG: "@
}

impl Color {
    pub open spec fn spec_letter(self) -> Seq<char> {
        match self {
            Color::White => "W"@,
            Color::Black => "B"@,
        }
    }

    /// The side's letter.
    pub fn letter(&self) -> (s: &'static str)
        ensures
            s@ == self.spec_letter(),
    {
        match self {
            Color::White => "W",
            Color::Black => "B",
        }
    }
}

impl Piece {
    /// The two characters that stand for the piece: the side's letter and
    /// the piece's, or two blanks for an empty square.
    pub open spec fn spec_label(self) -> Seq<char> {
        match self {
            Piece::Pawn(c) => c.spec_letter() + "P"@,
            Piece::Rook(c) => c.spec_letter() + "R"@,
            Piece::Knight(c) => c.spec_letter() + "N"@,
            Piece::Bishop(c) => c.spec_letter() + "B"@,
            Piece::Queen(c) => c.spec_letter() + "Q"@,
            Piece::King(c) => c.spec_letter() + "K"@,
            Piece::Empty => "  "@,
        }
    }

    /// The two characters that stand for the piece.
    pub fn label(&self) -> (s: String)
        ensures
            s@ == self.spec_label(),
    {
        match self {
            Piece::Pawn(c) => String::from_str(c.letter()).concat("P"),
            Piece::Rook(c) => String::from_str(c.letter()).concat("R"),
            Piece::Knight(c) => String::from_str(c.letter()).concat("N"),
            Piece::Bishop(c) => String::from_str(c.letter()).concat("B"),
            Piece::Queen(c) => String::from_str(c.letter()).concat("Q"),
            Piece::King(c) => String::from_str(c.letter()).concat("K"),
            Piece::Empty => String::from_str("  "),
        }
    }
}

impl Chessboard {
    /// The board as a game begins.
    pub fn new() -> (board: Chessboard)
        ensures
            board.pieces@ == Seq::new(64, |i: int| initial_piece(i)),
            board.white_graveyard@.len() == 0,
            board.black_graveyard@.len() == 0,
    {
        let mut pieces: [Piece; 64] = [Piece::Empty;64];
        pieces[0] = Piece::Rook(Color::Black);
        pieces[1] = Piece::Knight(Color::Black);
        pieces[2] = Piece::Bishop(Color::Black);
        pieces[3] = Piece::Queen(Color::Black);
        pieces[4] = Piece::King(Color::Black);
        pieces[5] = Piece::Bishop(Color::Black);
        pieces[6] = Piece::Knight(Color::Black);
        pieces[7] = Piece::Rook(Color::Black);
        let mut x: usize = 8;
        while x < 16
            invariant
                8 <= x <= 16,
                forall|i: int| 0 <= i < x ==> pieces@[i] == initial_piece(i),
                forall|i: int| x <= i < 64 ==> pieces@[i] == Piece::Empty,
            decreases 16 - x,
        {
            pieces[x] = Piece::Pawn(Color::Black);
            x += 1;
        }
        let mut x: usize = 48;
        while x < 56
            invariant
                48 <= x <= 56,
                forall|i: int| 0 <= i < x ==> pieces@[i] == initial_piece(i),
                forall|i: int| x <= i < 64 ==> pieces@[i] == Piece::Empty,
            decreases 56 - x,
        {
            pieces[x] = Piece::Pawn(Color::White);
            x += 1;
        }
        pieces[56] = Piece::Rook(Color::White);
        pieces[57] = Piece::Knight(Color::White);
        pieces[58] = Piece::Bishop(Color::White);
        pieces[59] = Piece::Queen(Color::White);
        pieces[60] = Piece::King(Color::White);
        pieces[61] = Piece::Bishop(Color::White);
        pieces[62] = Piece::Knight(Color::White);
        pieces[63] = Piece::Rook(Color::White);
        assert(pieces@ =~= Seq::new(64, |i: int| initial_piece(i)));
        Chessboard { pieces, white_graveyard: Vec::new(), black_graveyard: Vec::new() }
    }

    /// The index of the square in the given row and column.
    pub fn rowcol_to_idx(&self, rowcol: (usize, usize)) -> (idx: usize)
        requires
            8 * rowcol.0 + rowcol.1 <= usize::MAX,
        ensures
            idx == 8 * rowcol.0 + rowcol.1,
    {
        let (x, y) = rowcol;
        (8 * x) + y
    }

    /// Whether the piece on `start` may go to `end`.
    pub fn is_legal_move(&self, start: (usize, usize), end: (usize, usize)) -> (legal: bool)
        requires
            8 * start.0 + start.1 < 64,
        ensures
            legal == legal_for(self.pieces@[8 * start.0 + start.1], start, end),
    {
        let (sr, sc) = start;
        let (er, ec) = end;
        match self.pieces[self.rowcol_to_idx((sr, sc))] {
            Piece::Pawn(_) => er > 0 && sr == er - 1,
            Piece::Rook(_) => sc == ec && sr != er,
            Piece::Bishop(_) => {
                let columns = if ec > sc {
                    ec - sc
                } else {
                    sc - ec
                };
                let rows = if er > sr {
                    er - sr
                } else {
                    sr - er
                };
                columns == rows
            },
            _ => true,
        }
    }

    /// Moves the piece on `start` to `end` if that is a legal move and
    /// leaves the board as it is if not; says whether the piece moved.
    pub fn move_piece(&mut self, start: (usize, usize), end: (usize, usize)) -> (moved: bool)
        requires
            8 * start.0 + start.1 < 64,
            legal_for(old(self).pieces@[8 * start.0 + start.1], start, end) ==> 8 * end.0 + end.1
                < 64,
        ensures
            moved == legal_for(old(self).pieces@[8 * start.0 + start.1], start, end),
            moved ==> final(self).pieces@ == old(self).pieces@.update(
                8 * end.0 + end.1,
                old(self).pieces@[8 * start.0 + start.1],
            ).update(8 * start.0 + start.1, Piece::Empty),
            !moved ==> final(self).pieces@ == old(self).pieces@,
            final(self).white_graveyard == old(self).white_graveyard,
            final(self).black_graveyard == old(self).black_graveyard,
    {
        if self.is_legal_move(start, end) {
            let start_idx = self.rowcol_to_idx(start);
            let end_idx = self.rowcol_to_idx(end);
            let piece = self.pieces[start_idx];
            self.pieces[end_idx] = piece;
            self.pieces[start_idx] = Piece::Empty;
            true
        } else {
            false
        }
    }

    /// The board drawn as text.
    pub fn as_string(&self) -> (s: String)
        ensures
            s@ == board_text(self.pieces@),
    {
        let mut result = String::from_str("\n  0    1    2    3    4    5    6    7\n");
        let ghost head = result@;
        let mut x: usize = 0;
        assert(result@ =~= head + rows_text(self.pieces@, 0));
        while x < 8
            invariant
                x <= 8,
                result@ == head + rows_text(self.pieces@, x as int),
            decreases 8 - x,
        {
            let ghost above = result@;
            append_repeated(&mut result, "-", 41);
            result.append("\n");
            result.append("|");
            let mut n: usize = 0;
            assert(result@ =~= above + repeated_text("-"@, 41) + "\n"@ + squares_text(
                self.pieces@,
                x as int,
                0,
            ));
            while n < 8
                invariant
                    n <= 8,
                    x < 8,
                    result@ == above + repeated_text("-"@, 41) + "\n"@ + squares_text(
                        self.pieces@,
                        x as int,
                        n as int,
                    ),
                decreases 8 - n,
            {
                let label = self.pieces[8 * x + n].label();
                result.append(" ");
                result.append(label.as_str());
                result.append(" |");
                assert(result@ =~= above + repeated_text("-"@, 41) + "\n"@ + squares_text(
                    self.pieces@,
                    x as int,
                    n + 1,
                ));
                n += 1;
            }
            result.append(" ");
            result.append(digit_str(x as u32));
            result.append("\n");
            assert(result@ =~= head + rows_text(self.pieces@, x + 1));
            x += 1;
        }
        append_repeated(&mut result, "-", 41);
        result.append("\n");
        result.append("\n");
        result.append("WG: ");
        result.append("\n");
        result.append("BG: ");
        assert(result@ =~= board_text(self.pieces@));
        result
    }
}

} // verus!
