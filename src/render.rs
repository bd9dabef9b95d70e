//! The text of a frame and of the closing announcement.

use vstd::prelude::*;
use crate::board::{Outcome, Turn, cell_symbol};
use crate::game::{GameState, GameView};

verus! {

/// The control sequence that clears the terminal.
pub open spec fn clear_text() -> Seq<char> {
    seq!['\u{1b}', 'c']
}

/// The line that says whose turn it is.
pub open spec fn turn_text(t: Turn) -> Seq<char> {
    match t {
        Turn::Noughts => seq!['N', 'o', 'u', 'g', 'h', 't', 's', ' ', 't', 'u', 'r', 'n', '!', '\n'],
        Turn::Crosses => seq!['C', 'r', 'o', 's', 's', 'e', 's', ' ', 't', 'u', 'r', 'n', '!', '\n'],
    }
}

/// Square `(r, c)`: its symbol in brackets under the cursor, else padded.
pub open spec fn square_text(s: GameView, r: int, c: int) -> Seq<char> {
    let sym = cell_symbol(s.cells[3 * r + c]);
    if r == s.row && c == s.col {
        seq!['[', sym, ']']
    } else {
        seq![' ', sym, ' ']
    }
}

pub open spec fn row_text(s: GameView, r: int) -> Seq<char> {
    square_text(s, r, 0) + square_text(s, r, 1) + square_text(s, r, 2) + seq!['\n']
}

/// A whole frame: clear the screen, say whose turn it is, draw the rows.
pub open spec fn frame_text(s: GameView) -> Seq<char> {
    clear_text() + turn_text(s.turn) + row_text(s, 0) + row_text(s, 1) + row_text(s, 2)
}

/// The announcement at the end of a game; nothing while it is in play.
pub open spec fn message_text(o: Outcome) -> Seq<char> {
    match o {
        Outcome::CrossesWin => clear_text()
            + seq!['C', 'r', 'o', 's', 's', 'e', 's', ' ', 'w', 'i', 'n', '!', '\n'],
        Outcome::NoughtsWin => clear_text()
            + seq!['N', 'o', 'u', 'g', 'h', 't', 's', ' ', 'w', 'i', 'n', '!', '\n'],
        Outcome::Draw => clear_text() + seq!['D', 'r', 'a', 'w', '!', '\n'],
        Outcome::Ongoing => Seq::empty(),
    }
}

fn push_clear(out: &mut Vec<char>)
    ensures
        final(out)@ == old(out)@ + clear_text(),
{
    out.push('\u{1b}');
    out.push('c');
    assert(final(out)@ =~= old(out)@ + clear_text());
}

fn push_square(out: &mut Vec<char>, game: &GameState, r: usize, c: usize)
    requires
        r <= 2 && c <= 2,
    ensures
        final(out)@ == old(out)@ + square_text(game@, r as int, c as int),
{
    let sym = game.board.get(r, c).symbol();
    if r == game.cursor.row && c == game.cursor.col {
        out.push('[');
        out.push(sym);
        out.push(']');
    } else {
        out.push(' ');
        out.push(sym);
        out.push(' ');
    }
    assert(final(out)@ =~= old(out)@ + square_text(game@, r as int, c as int));
}

fn push_row(out: &mut Vec<char>, game: &GameState, r: usize)
    requires
        r <= 2,
    ensures
        final(out)@ == old(out)@ + row_text(game@, r as int),
{
    push_square(out, game, r, 0);
    push_square(out, game, r, 1);
    push_square(out, game, r, 2);
    out.push('\n');
    assert(final(out)@ =~= old(out)@ + row_text(game@, r as int));
}

fn push_turn(out: &mut Vec<char>, t: Turn)
    ensures
        final(out)@ == old(out)@ + turn_text(t),
{
    let line = match t {
        Turn::Noughts => vec!['N', 'o', 'u', 'g', 'h', 't', 's', ' ', 't', 'u', 'r', 'n', '!', '\n'],
        Turn::Crosses => vec!['C', 'r', 'o', 's', 's', 'e', 's', ' ', 't', 'u', 'r', 'n', '!', '\n'],
    };
    out.extend_from_slice(line.as_slice());
    assert(line@ =~= turn_text(t));
}

impl GameState {
    /// The frame that shows this state: clear the screen, say whose turn it
    /// is, then the three rows with the cursor's square in brackets.
    pub fn frame(&self) -> (r: Vec<char>)
        ensures
            r@ == frame_text(self@),
    {
        let mut out: Vec<char> = Vec::new();
        push_clear(&mut out);
        push_turn(&mut out, self.turn);
        push_row(&mut out, self, 0);
        push_row(&mut out, self, 1);
        push_row(&mut out, self, 2);
        assert(out@ =~= frame_text(self@));
        out
    }
}

/// The announcement that ends a game with outcome `o`: clear the screen,
/// then name the winner or the draw. A game still in play has none.
pub fn final_message(o: Outcome) -> (r: Vec<char>)
    ensures
        r@ == message_text(o),
{
    let mut out: Vec<char> = Vec::new();
    if o == Outcome::Ongoing {
        return out;
    }
    push_clear(&mut out);
    let words = match o {
        Outcome::CrossesWin => vec!['C', 'r', 'o', 's', 's', 'e', 's', ' ', 'w', 'i', 'n', '!', '\n'],
        Outcome::NoughtsWin => vec!['N', 'o', 'u', 'g', 'h', 't', 's', ' ', 'w', 'i', 'n', '!', '\n'],
        _ => vec!['D', 'r', 'a', 'w', '!', '\n'],
    };
    out.extend_from_slice(words.as_slice());
    assert(out@ =~= message_text(o));
    out
}

} // verus!
