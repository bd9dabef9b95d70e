//! One game session: the state that the interaction loop owns, the events
//! it reads, and what each event does to the state.

use vstd::prelude::*;
use crate::board::{
    Board, Cell, Cursor, Outcome, Turn, mark_of, other, outcome_of, toward_two,
    toward_zero,
};

verus! {

/// A key as the terminal reports it, reduced to what the game tells apart.
#[derive(Clone, Copy, Debug, PartialEq, Eq, Structural)]
pub enum KeyPress {
    ArrowUp,
    ArrowDown,
    ArrowLeft,
    ArrowRight,
    Enter,
    Char(char),
    Other,
}

/// What a key asks of the game.
#[derive(Clone, Copy, Debug, PartialEq, Eq, Structural)]
pub enum Event {
    MoveUp,
    MoveDown,
    MoveLeft,
    MoveRight,
    Confirm,
    Quit,
    Unrecognized,
}

/// What the loop does after an event has been handled.
#[derive(Clone, Copy, Debug, PartialEq, Eq, Structural)]
pub enum Action {
    /// Nothing changed: wait for the next key.
    Ignore,
    /// Draw the frame again and wait for the next key.
    Render,
    /// Draw the frame, then announce the outcome and end the session.
    GameOver(Outcome),
    /// End the session at once, with no announcement.
    Exit,
}

/// The board, whose turn it is, and the highlighted square.
#[derive(Clone, Copy, Debug)]
pub struct GameState {
    pub board: Board,
    pub turn: Turn,
    pub cursor: Cursor,
}

/// The mathematical value of a game state.
pub struct GameView {
    pub cells: Seq<Cell>,
    pub turn: Turn,
    pub row: int,
    pub col: int,
}

impl View for GameState {
    type V = GameView;

    open spec fn view(&self) -> GameView {
        GameView {
            cells: self.board@,
            turn: self.turn,
            row: self.cursor.row as int,
            col: self.cursor.col as int,
        }
    }
}

pub open spec fn event_of(key: KeyPress) -> Event {
    match key {
        KeyPress::ArrowUp => Event::MoveUp,
        KeyPress::ArrowDown => Event::MoveDown,
        KeyPress::ArrowLeft => Event::MoveLeft,
        KeyPress::ArrowRight => Event::MoveRight,
        KeyPress::Enter => Event::Confirm,
        KeyPress::Char(c) => if c == ' ' {
            Event::Confirm
        } else if c == 'q' {
            Event::Quit
        } else {
            Event::Unrecognized
        },
        KeyPress::Other => Event::Unrecognized,
    }
}

/// The state at the start of a session: an empty board, noughts to move,
/// the cursor on the top-left square.
pub open spec fn initial_view() -> GameView {
    GameView { cells: Seq::new(9, |i: int| Cell::Empty), turn: Turn::Noughts, row: 0, col: 0 }
}

/// The square under the cursor is empty, so confirming places a mark there.
pub open spec fn places_mark(s: GameView, e: Event) -> bool {
    e == Event::Confirm && s.cells[3 * s.row + s.col] == Cell::Empty
}

/// How one event changes the state, and what the loop does next.
pub open spec fn step_spec(s: GameView, e: Event) -> (GameView, Action) {
    match e {
        Event::MoveUp => (GameView { row: toward_zero(s.row), ..s }, Action::Render),
        Event::MoveDown => (GameView { row: toward_two(s.row), ..s }, Action::Render),
        Event::MoveLeft => (GameView { col: toward_zero(s.col), ..s }, Action::Render),
        Event::MoveRight => (GameView { col: toward_two(s.col), ..s }, Action::Render),
        Event::Confirm => if places_mark(s, e) {
            let cells = s.cells.update(3 * s.row + s.col, mark_of(s.turn));
            let next = GameView { cells: cells, turn: other(s.turn), ..s };
            let o = outcome_of(cells);
            (next, if o == Outcome::Ongoing {
                Action::Render
            } else {
                Action::GameOver(o)
            })
        } else {
            (s, Action::Render)
        },
        Event::Quit => (s, Action::Exit),
        Event::Unrecognized => (s, Action::Ignore),
    }
}

/// The state after handling `events` in order, starting from `s`.
pub open spec fn run(s: GameView, events: Seq<Event>) -> GameView
    decreases events.len(),
{
    if events.len() == 0 {
        s
    } else {
        step_spec(run(s, events.drop_last()), events.last()).0
    }
}

/// How many of `events`, handled in order from `s`, placed a mark.
pub open spec fn moves_made(s: GameView, events: Seq<Event>) -> nat
    decreases events.len(),
{
    if events.len() == 0 {
        0
    } else {
        moves_made(s, events.drop_last()) + if places_mark(
            run(s, events.drop_last()),
            events.last(),
        ) {
            1nat
        } else {
            0nat
        }
    }
}

/// Maps a key to the event it stands for: arrows move the cursor, Enter or
/// space confirms, `q` quits, anything else is not recognised.
pub fn event_for(key: KeyPress) -> (r: Event)
    ensures
        r == event_of(key),
{
    match key {
        KeyPress::ArrowUp => Event::MoveUp,
        KeyPress::ArrowDown => Event::MoveDown,
        KeyPress::ArrowLeft => Event::MoveLeft,
        KeyPress::ArrowRight => Event::MoveRight,
        KeyPress::Enter => Event::Confirm,
        KeyPress::Char(c) => if c == ' ' {
            Event::Confirm
        } else if c == 'q' {
            Event::Quit
        } else {
            Event::Unrecognized
        },
        KeyPress::Other => Event::Unrecognized,
    }
}

/// The outcome of the game's board.
pub fn check_board(game: &GameState) -> (r: Outcome)
    ensures
        r == outcome_of(game.board@),
{
    game.board.evaluate()
}

impl GameState {
    pub open spec fn wf(&self) -> bool {
        self.cursor.wf()
    }

    /// A fresh session: empty board, noughts to move, cursor top-left.
    pub fn new() -> (r: GameState)
        ensures
            r.wf(),
            r@ == initial_view(),
    {
        let r = GameState { board: Board::new(), turn: Turn::Noughts, cursor: Cursor::new() };
        assert(r.board@ =~= initial_view().cells);
        r
    }

    /// Handles one event: moves the cursor, or tries to place the mover's
    /// mark under it, flipping the turn and deciding the game when it lands.
    pub fn step(&mut self, event: Event) -> (r: Action)
        requires
            old(self).wf(),
        ensures
            final(self).wf(),
            final(self)@ == step_spec(old(self)@, event).0,
            r == step_spec(old(self)@, event).1,
    {
        match event {
            Event::MoveUp => {
                self.cursor.move_up();
                Action::Render
            },
            Event::MoveDown => {
                self.cursor.move_down();
                Action::Render
            },
            Event::MoveLeft => {
                self.cursor.move_left();
                Action::Render
            },
            Event::MoveRight => {
                self.cursor.move_right();
                Action::Render
            },
            Event::Confirm => {
                match self.board.apply_move(self.cursor, self.turn) {
                    Ok(()) => {
                        self.turn = self.turn.next();
                        let o = check_board(self);
                        if o == Outcome::Ongoing {
                            Action::Render
                        } else {
                            Action::GameOver(o)
                        }
                    },
                    Err(_) => Action::Render,
                }
            },
            Event::Quit => Action::Exit,
            Event::Unrecognized => Action::Ignore,
        }
    }
}

} // verus!
