//! Rock, paper, scissors: who wins a single round.

use vstd::prelude::*;
use vstd::string::*;

verus! {

/// What a player shows.
#[derive(Clone, Copy, Debug, PartialEq, Eq, Structural)]
pub enum Move {
    Rock,
    Paper,
    Scissors,
}

/// A player and the move they made.
#[derive(Debug)]
pub struct Player {
    pub name: String,
    pub play: Move,
}

/// Rock blunts scissors, paper wraps rock, scissors cut paper.
pub open spec fn beats(a: Move, b: Move) -> bool {
    ||| (a == Move::Rock && b == Move::Scissors)
    ||| (a == Move::Paper && b == Move::Rock)
    ||| (a == Move::Scissors && b == Move::Paper)
}

impl Move {
    /// The move's name as it is printed.
    pub open spec fn spec_name(self) -> Seq<char> {
        match self {
            Move::Rock => "Rock"@,
            Move::Paper => "Paper"@,
            Move::Scissors => "Scissors"@,
        }
    }

    /// The move's name as it is printed.
    pub fn name(&self) -> (s: &'static str)
        ensures
            s@ == self.spec_name(),
    {
        match self {
            Move::Rock => "Rock",
            Move::Paper => "Paper",
            Move::Scissors => "Scissors",
        }
    }
}

impl Player {
    /// The line that announces the player: the name, then the move.
    pub fn describe(&self) -> (s: String)
        ensures
            s@ == self.name@ + ", who played "@ + self.play.spec_name(),
    {
        let mut s = self.name.clone();
        s.append(", who played ");
        s.append(self.play.name());
        s
    }
}

/// The player whose move beats the other's, or nobody where both show the
/// same.
pub fn get_winner(first: Player, second: Player) -> (winner: Option<Player>)
    ensures
        beats(first.play, second.play) ==> winner == Some(first),
        beats(second.play, first.play) ==> winner == Some(second),
        first.play == second.play ==> winner.is_none(),
{
    match (first.play, second.play) {
        (Move::Rock, Move::Scissors) | (Move::Paper, Move::Rock) | (Move::Scissors, Move::Paper) => {
            Some(first)
        },
        (Move::Rock, Move::Paper) | (Move::Scissors, Move::Rock) | (Move::Paper, Move::Scissors) => {
            Some(second)
        },
        _ => None,
    }
}

/// Every round has exactly one outcome: one of the two moves beats the
/// other, or the moves are the same, and never two of these at once.
pub proof fn lemma_round_is_decided(a: Move, b: Move)
    ensures
        beats(a, b) || beats(b, a) || a == b,
        !(beats(a, b) && beats(b, a)),
        a == b ==> !beats(a, b),
{
}

} // verus!
