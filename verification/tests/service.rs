use cookie_board::board::BoardImpl;
use cookie_board::service::{
    place_board, random_board, reset_board, route, show_board, Board, Code, Method, Operation,
    PlaceBoard,
};
use cookie_board::token::Token;

const EMPTY_PICTURE: &str = "⬜⬛⬛⬛⬛⬜\n⬜⬛⬛⬛⬛⬜\n⬜⬛⬛⬛⬛⬜\n⬜⬛⬛⬛⬛⬜\n⬜⬜⬜⬜⬜⬜\n";

fn cookie(position: usize) -> PlaceBoard {
    PlaceBoard { team: Token::Cookie, position }
}

fn milk(position: usize) -> PlaceBoard {
    PlaceBoard { team: Token::Milk, position }
}

#[test]
fn status_code_numbers() {
    assert_eq!(Code::Success.number(), 200);
    assert_eq!(Code::BadRequest.number(), 400);
    assert_eq!(Code::ServiceUnavailable.number(), 503);
}

#[test]
fn routing_table_names_the_four_operations() {
    let table = route();
    assert_eq!(table.len(), 4);
    assert_eq!(table[0].path, "/board");
    assert_eq!(table[0].method, Method::Get);
    assert_eq!(table[0].operation, Operation::Show);
    assert_eq!(table[1].path, "/reset");
    assert_eq!(table[1].method, Method::Post);
    assert_eq!(table[1].operation, Operation::Reset);
    assert_eq!(table[2].path, "/place/:team/:position");
    assert_eq!(table[2].method, Method::Post);
    assert_eq!(table[2].operation, Operation::Place);
    assert_eq!(table[3].path, "/random-board");
    assert_eq!(table[3].method, Method::Get);
    assert_eq!(table[3].operation, Operation::Randomize);
}

#[test]
fn try_place_takes_columns_one_to_four() {
    let mut board = BoardImpl::new();
    assert_eq!(board.try_place(cookie(1)), Code::Success);
    assert_eq!(board.try_place(milk(4)), Code::Success);
    assert_eq!(
        board.print(),
        "⬜⬛⬛⬛⬛⬜\n⬜⬛⬛⬛⬛⬜\n⬜⬛⬛⬛⬛⬜\n⬜🍪⬛⬛🥛⬜\n⬜⬜⬜⬜⬜⬜\n"
    );
}

#[test]
fn try_place_turns_away_columns_that_do_not_exist() {
    let mut board = BoardImpl::new();
    assert_eq!(board.try_place(cookie(0)), Code::BadRequest);
    assert_eq!(board.try_place(cookie(5)), Code::BadRequest);
    assert_eq!(board.try_place(cookie(usize::MAX)), Code::BadRequest);
    assert_eq!(board.print(), EMPTY_PICTURE);
}

#[test]
fn try_place_turns_away_everything_once_the_game_is_over() {
    let mut board = BoardImpl::new();
    for position in 1..=4 {
        assert_eq!(board.try_place(cookie(position)), Code::Success);
    }
    let won = board.print();
    assert_eq!(board.try_place(milk(1)), Code::ServiceUnavailable);
    assert_eq!(board.try_place(milk(0)), Code::ServiceUnavailable);
    assert_eq!(board.try_place(milk(9)), Code::ServiceUnavailable);
    assert_eq!(board.print(), won);
}

#[test]
fn try_place_into_a_full_column_is_accepted_and_changes_nothing() {
    let mut board = BoardImpl::new();
    for request in [cookie(2), milk(2), cookie(2), milk(2)] {
        assert_eq!(board.try_place(request), Code::Success);
    }
    let before = board.print();
    assert_eq!(board.try_place(cookie(2)), Code::Success);
    assert_eq!(board.print(), before);
}

#[test]
fn service_starts_with_an_empty_board() {
    let board = Board::new();
    assert_eq!(show_board(&board), EMPTY_PICTURE);
    assert_eq!(show_board(&board), EMPTY_PICTURE);
}

#[test]
fn service_places_and_shows() {
    let board = Board::new();
    let answer = place_board(cookie(1), &board);
    assert_eq!(answer.code, Code::Success);
    assert_eq!(
        answer.body,
        "⬜⬛⬛⬛⬛⬜\n⬜⬛⬛⬛⬛⬜\n⬜⬛⬛⬛⬛⬜\n⬜🍪⬛⬛⬛⬜\n⬜⬜⬜⬜⬜⬜\n"
    );
    assert_eq!(show_board(&board), answer.body);
    let answer = place_board(milk(0), &board);
    assert_eq!(answer.code, Code::BadRequest);
    assert_eq!(answer.body, show_board(&board));
    let answer = place_board(milk(5), &board);
    assert_eq!(answer.code, Code::BadRequest);
}

#[test]
fn service_refuses_to_place_after_a_win() {
    let board = Board::new();
    for _ in 0..4 {
        assert_eq!(place_board(milk(3), &board).code, Code::Success);
    }
    let answer = place_board(cookie(1), &board);
    assert_eq!(answer.code, Code::ServiceUnavailable);
    assert_eq!(
        answer.body,
        "⬜⬛⬛🥛⬛⬜\n⬜⬛⬛🥛⬛⬜\n⬜⬛⬛🥛⬛⬜\n⬜⬛⬛🥛⬛⬜\n⬜⬜⬜⬜⬜⬜\n🥛 wins!\n"
    );
    assert_eq!(reset_board(&board), EMPTY_PICTURE);
    assert_eq!(place_board(cookie(1), &board).code, Code::Success);
}

#[test]
fn service_random_boards_repeat_after_a_reset() {
    let board = Board::new();
    let first = random_board(&board);
    let second = random_board(&board);
    assert!(!first.contains('⬛'));
    assert!(!second.contains('⬛'));
    assert_ne!(first, second);
    assert_eq!(reset_board(&board), EMPTY_PICTURE);
    assert_eq!(random_board(&board), first);
    assert_eq!(random_board(&board), second);
}

#[test]
fn service_random_board_runs_on_a_finished_game() {
    let board = Board::new();
    for _ in 0..4 {
        place_board(cookie(1), &board);
    }
    let text = random_board(&board);
    assert!(!text.contains('⬛'));
    assert_eq!(show_board(&board), text);
}

#[test]
fn service_keeps_columns_settled() {
    let board = Board::new();
    for round in 0..3 {
        for position in 1..=4 {
            let request = if (round + position) % 2 == 0 { cookie(position) } else { milk(position) };
            place_board(request, &board);
        }
        place_board(cookie(2), &board);
    }
    let text = show_board(&board);
    let picture: Vec<&str> = text.lines().take(4).collect();
    for col in 1..=4 {
        let mut seen_token = false;
        for line in &picture {
            let cell = line.chars().nth(col).unwrap();
            if cell != '⬛' {
                seen_token = true;
            } else {
                assert!(!seen_token);
            }
        }
    }
}

fn needs_send_and_sync<T: Send + Sync>(_: &T) {}

#[test]
fn service_board_can_be_shared() {
    let board = std::sync::Arc::new(Board::new());
    needs_send_and_sync(&board);
    let other = board.clone();
    place_board(cookie(1), &other);
    assert_eq!(show_board(&board), show_board(&other));
}
