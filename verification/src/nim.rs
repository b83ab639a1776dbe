//! Nim with one heap: players take one to three sticks in turn, and who
//! takes the last stick wins.

use crate::chance::draw_below;
use crate::text::{append_repeated, decimal_string, decimal_text, repeated_text};
use vstd::prelude::*;
use vstd::string::*;

verus! {

/// Sticks on the table at the start.
pub const START_STICKS: i32 = 12;

/// The heap.
pub struct NimBoard {
    pub sticks: i32,
}

/// A player may take one, two or three sticks.
pub open spec fn legal_take(count: int) -> bool {
    0 < count < 4
}

impl NimBoard {
    /// The heap as the game begins.
    pub fn new() -> (board: NimBoard)
        ensures
            board.sticks == START_STICKS,
    {
        NimBoard { sticks: START_STICKS }
    }

    /// What the board shows: a blank once the heap is gone, else the sticks
    /// and, in brackets, their number.
    pub open spec fn text(self) -> Seq<char> {
        if self.sticks <= 0 {
            " "@
        } else {
            repeated_text(" | "@, self.sticks as int) + " ("@ + decimal_text(self.sticks as int)
                + ")"@
        }
    }

    /// Whether the last stick has been taken.
    pub fn is_empty(&self) -> (b: bool)
        ensures
            b == (self.sticks <= 0),
    {
        self.sticks <= 0
    }

    /// Takes `sticks_to_take` sticks if that is a legal number and
    /// `fallback` sticks if not, and says whether the request was honoured.
    pub fn take_or(&mut self, sticks_to_take: i32, fallback: i32) -> (honoured: bool)
        requires
            legal_take(fallback as int),
            old(self).sticks >= i32::MIN + 3,
        ensures
            honoured == legal_take(sticks_to_take as int),
            honoured ==> final(self).sticks == old(self).sticks - sticks_to_take,
            !honoured ==> final(self).sticks == old(self).sticks - fallback,
    {
        if sticks_to_take > 0 && sticks_to_take < 4 {
            self.sticks -= sticks_to_take;
            true
        } else {
            self.sticks -= fallback;
            false
        }
    }

    /// Takes `sticks_to_take` sticks from the heap. An illegal number is
    /// replaced by a random legal one; the result is the number taken.
    pub fn take(&mut self, sticks_to_take: i32) -> (taken: i32)
        requires
            old(self).sticks >= i32::MIN + 3,
        ensures
            legal_take(taken as int),
            legal_take(sticks_to_take as int) ==> taken == sticks_to_take,
            final(self).sticks == old(self).sticks - taken,
    {
        let fallback = random_take();
        let before = self.sticks;
        self.take_or(sticks_to_take, fallback);
        before - self.sticks
    }

    /// The reply that leaves the opponent a multiple of four: the heap's
    /// remainder by four, or `fallback` where there is none to take.
    pub fn best_reply(&self, fallback: i32) -> (count: i32)
        requires
            self.sticks > 0,
            legal_take(fallback as int),
        ensures
            legal_take(count as int),
            self.sticks % 4 != 0 ==> count == self.sticks % 4,
            self.sticks % 4 == 0 ==> count == fallback,
    {
        let rest = self.sticks % 4;
        if rest == 0 {
            fallback
        } else {
            rest
        }
    }

    /// What the board shows.
    pub fn as_string(&self) -> (s: String)
        ensures
            s@ == self.text(),
    {
        if self.sticks <= 0 {
            return String::from_str(" ");
        }
        let mut s = String::new();
        append_repeated(&mut s, " | ", self.sticks as usize);
        assert(s@ =~= repeated_text(" | "@, self.sticks as int));
        s.append(" (");
        let number = decimal_string(self.sticks as u32);
        s.append(number.as_str());
        s.append(")");
        s
    }
}

/// The number of sticks a draw stands for: draws are counted round the
/// three legal numbers, so `0` stands for one stick, `1` for two, `2` for
/// three, `3` for one again.
pub open spec fn spec_take_for_draw(draw: u32) -> int {
    1 + draw % 3
}

/// The number of sticks a draw stands for.
pub fn take_for_draw(draw: u32) -> (count: i32)
    ensures
        count == spec_take_for_draw(draw),
        legal_take(count as int),
{
    let step = draw % 3;
    1 + step as i32
}

/// A random legal number of sticks.
pub fn random_take() -> (count: i32)
    ensures
        legal_take(count as int),
{
    let draw = draw_below(3);
    take_for_draw(draw)
}

} // verus!
