use noughts::board::{Cell, Cursor, Outcome, Turn};
use noughts::game::{check_board, event_for, Action, Event, GameState, KeyPress};
use noughts::render::final_message;

fn text(v: Vec<char>) -> String {
    v.into_iter().collect()
}

fn go_to(g: &mut GameState, row: usize, col: usize) {
    while g.cursor.row > row {
        assert_eq!(g.step(Event::MoveUp), Action::Render);
    }
    while g.cursor.row < row {
        assert_eq!(g.step(Event::MoveDown), Action::Render);
    }
    while g.cursor.col > col {
        assert_eq!(g.step(Event::MoveLeft), Action::Render);
    }
    while g.cursor.col < col {
        assert_eq!(g.step(Event::MoveRight), Action::Render);
    }
}

fn play(g: &mut GameState, row: usize, col: usize) -> Action {
    go_to(g, row, col);
    g.step(Event::Confirm)
}

#[test]
fn new_game_starts_empty_with_noughts_top_left() {
    let g = GameState::new();
    assert_eq!(g.turn, Turn::Noughts);
    assert_eq!((g.cursor.row, g.cursor.col), (0, 0));
    assert!(g.board.cells.iter().all(|c| *c == Cell::Empty));
    assert_eq!(check_board(&g), Outcome::Ongoing);
}

#[test]
fn noughts_win_along_top_row() {
    let mut g = GameState::new();
    assert_eq!(play(&mut g, 0, 0), Action::Render);
    assert_eq!(play(&mut g, 1, 1), Action::Render);
    assert_eq!(play(&mut g, 0, 1), Action::Render);
    assert_eq!(play(&mut g, 2, 2), Action::Render);
    assert_eq!(play(&mut g, 0, 2), Action::GameOver(Outcome::NoughtsWin));
    assert_eq!(check_board(&g), Outcome::NoughtsWin);
}

#[test]
fn full_game_ends_in_draw() {
    let mut g = GameState::new();
    // Ends as o x o / o x x / x o o.
    let order = [(0, 0), (0, 1), (0, 2), (1, 1), (1, 0), (1, 2), (2, 1), (2, 0)];
    for (r, c) in order {
        assert_eq!(play(&mut g, r, c), Action::Render);
    }
    assert_eq!(play(&mut g, 2, 2), Action::GameOver(Outcome::Draw));
    assert!(g.board.is_full());
}

#[test]
fn cursor_stays_in_corner() {
    let mut g = GameState::new();
    g.cursor = Cursor { row: 2, col: 2 };
    assert_eq!(g.step(Event::MoveDown), Action::Render);
    assert_eq!((g.cursor.row, g.cursor.col), (2, 2));
    assert_eq!(g.step(Event::MoveRight), Action::Render);
    assert_eq!((g.cursor.row, g.cursor.col), (2, 2));
}

#[test]
fn cursor_stays_at_top_left() {
    let mut g = GameState::new();
    assert_eq!(g.step(Event::MoveUp), Action::Render);
    assert_eq!(g.step(Event::MoveLeft), Action::Render);
    assert_eq!((g.cursor.row, g.cursor.col), (0, 0));
}

#[test]
fn confirm_on_occupied_square_changes_nothing() {
    let mut g = GameState::new();
    assert_eq!(play(&mut g, 1, 1), Action::Render);
    assert_eq!(g.turn, Turn::Crosses);
    let before = g.board.cells;
    assert_eq!(g.step(Event::Confirm), Action::Render);
    assert_eq!(g.board.cells, before);
    assert_eq!(g.turn, Turn::Crosses);
}

#[test]
fn turns_alternate_with_successful_moves() {
    let mut g = GameState::new();
    let mut placed = 0;
    let squares = [(0, 0), (0, 0), (2, 2), (1, 0), (1, 0), (0, 2)];
    for (r, c) in squares {
        let was_empty = g.board.get(r, c) == Cell::Empty;
        play(&mut g, r, c);
        if was_empty {
            placed += 1;
        }
        let want = if placed % 2 == 0 { Turn::Noughts } else { Turn::Crosses };
        assert_eq!(g.turn, want);
    }
    assert_eq!(placed, 4);
}

#[test]
fn quit_and_unrecognised_keep_state() {
    let mut g = GameState::new();
    assert_eq!(g.step(Event::Quit), Action::Exit);
    assert_eq!(g.step(Event::Unrecognized), Action::Ignore);
    assert_eq!(g.turn, Turn::Noughts);
    assert!(g.board.cells.iter().all(|c| *c == Cell::Empty));
}

#[test]
fn keys_map_to_events() {
    assert_eq!(event_for(KeyPress::ArrowUp), Event::MoveUp);
    assert_eq!(event_for(KeyPress::ArrowDown), Event::MoveDown);
    assert_eq!(event_for(KeyPress::ArrowLeft), Event::MoveLeft);
    assert_eq!(event_for(KeyPress::ArrowRight), Event::MoveRight);
    assert_eq!(event_for(KeyPress::Enter), Event::Confirm);
    assert_eq!(event_for(KeyPress::Char(' ')), Event::Confirm);
    assert_eq!(event_for(KeyPress::Char('q')), Event::Quit);
    assert_eq!(event_for(KeyPress::Char('a')), Event::Unrecognized);
    assert_eq!(event_for(KeyPress::Other), Event::Unrecognized);
}

#[test]
fn first_frame_shows_cursor_top_left() {
    let g = GameState::new();
    assert_eq!(text(g.frame()), "\u{1b}cNoughts turn!\n[*] *  * \n *  *  * \n *  *  * \n");
}

#[test]
fn frame_after_a_move() {
    let mut g = GameState::new();
    play(&mut g, 1, 1);
    g.step(Event::MoveRight);
    assert_eq!(text(g.frame()), "\u{1b}cCrosses turn!\n *  *  * \n *  o [*]\n *  *  * \n");
}

#[test]
fn final_messages() {
    assert_eq!(text(final_message(Outcome::CrossesWin)), "\u{1b}cCrosses win!\n");
    assert_eq!(text(final_message(Outcome::NoughtsWin)), "\u{1b}cNoughts win!\n");
    assert_eq!(text(final_message(Outcome::Draw)), "\u{1b}cDraw!\n");
    assert_eq!(text(final_message(Outcome::Ongoing)), "");
}
