//! Facts about how a game is decided, proved over the board's rules.

use vstd::prelude::*;
use crate::board::{
    Board, Cell, Cursor, Outcome, Turn, first_winner, has_complete_line, is_full, line_complete,
    line_squares, mark_of, other, outcome_of, win_for,
};
use crate::game::{Event, GameView, initial_view, moves_made, run};

verus! {

/// Without a complete line, the scan from any line on finds no winner.
proof fn lemma_no_line_no_winner(b: Seq<Cell>, k: int)
    requires
        0 <= k <= 8,
        !has_complete_line(b),
    ensures
        first_winner(b, k) is None,
    decreases 8 - k,
{
    if k < 8 {
        assert(!line_complete(b, k));
        lemma_no_line_no_winner(b, k + 1);
    }
}

/// Where some line from `k` on is complete and every such line holds `p`,
/// the scan from `k` finds `p`.
proof fn lemma_scan_finds(b: Seq<Cell>, k: int, j: int, p: Cell)
    requires
        0 <= k <= j < 8,
        line_complete(b, j),
        forall|i: int| k <= i < 8 && #[trigger] line_complete(b, i) ==> b[line_squares(i).0] == p,
    ensures
        first_winner(b, k) == Some(p),
    decreases j - k,
{
    if !line_complete(b, k) {
        lemma_scan_finds(b, k + 1, j, p);
    }
}

/// A full board on which no line holds three equal marks is a draw.
pub proof fn lemma_full_board_without_line_is_draw(board: Board)
    requires
        is_full(board@),
        !has_complete_line(board@),
    ensures
        outcome_of(board@) == Outcome::Draw,
{
    lemma_no_line_no_winner(board@, 0);
}

/// A board with an empty square on which no line holds three equal marks
/// is still in play.
pub proof fn lemma_open_board_without_line_is_ongoing(board: Board, row: int, col: int)
    requires
        0 <= row <= 2 && 0 <= col <= 2,
        board@[3 * row + col] == Cell::Empty,
        !has_complete_line(board@),
    ensures
        outcome_of(board@) == Outcome::Ongoing,
{
    lemma_no_line_no_winner(board@, 0);
    assert(!is_full(board@)) by {
        assert(board@[3 * row + col] == Cell::Empty);
    }
}

/// The move that first completes a line wins for its player at once: before
/// it the game was still in play, after it the board is a win for the mover.
pub proof fn lemma_completing_move_wins(board: Board, cursor: Cursor, turn: Turn)
    requires
        cursor.wf(),
        board@[cursor.index()] == Cell::Empty,
        !has_complete_line(board@),
        has_complete_line(board@.update(cursor.index(), mark_of(turn))),
    ensures
        outcome_of(board@) == Outcome::Ongoing,
        outcome_of(board@.update(cursor.index(), mark_of(turn))) == win_for(mark_of(turn)),
{
    lemma_open_board_without_line_is_ongoing(board, cursor.row as int, cursor.col as int);
    let b = board@;
    let after = b.update(cursor.index(), mark_of(turn));
    assert forall|i: int| 0 <= i < 8 && #[trigger] line_complete(after, i) implies after[line_squares(
        i,
    ).0] == mark_of(turn) by {
        if !line_complete(b, i) {
        }
    }
    let j = choose|j: int| 0 <= j < 8 && #[trigger] line_complete(after, j);
    lemma_scan_finds(after, 0, j, mark_of(turn));
}

/// From any state, the turn after a run of events is the starting turn
/// when an even number of them placed a mark, and the other one when odd.
proof fn lemma_turn_parity(s: GameView, events: Seq<Event>)
    ensures
        run(s, events).turn == (if moves_made(s, events) % 2 == 0 {
            s.turn
        } else {
            other(s.turn)
        }),
    decreases events.len(),
{
    if events.len() > 0 {
        lemma_turn_parity(s, events.drop_last());
    }
}

/// Turns alternate: after any events from the start of a session, noughts
/// are to move when an even number of marks have been placed, crosses when
/// an odd number.
pub proof fn lemma_turn_alternates(events: Seq<Event>)
    ensures
        run(initial_view(), events).turn == (if moves_made(initial_view(), events) % 2 == 0 {
            Turn::Noughts
        } else {
            Turn::Crosses
        }),
{
    lemma_turn_parity(initial_view(), events);
}

} // verus!
