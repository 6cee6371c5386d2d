use move_preview::game_core::{Command, UnknownCommand};
use move_preview::numerals::decimal_string;
use move_preview::tictactoe::{
    all_eq, end_game_check, find_move, search, space_available, victory, TicTacToeGame,
};

fn board_of(s: &str) -> Vec<char> {
    s.chars().collect()
}

#[test]
fn command_decoding() {
    assert_eq!(Command::try_from('n').unwrap(), Command::NewGame);
    assert_eq!(Command::try_from('l').unwrap(), Command::List);
    assert_eq!(Command::try_from('r').unwrap(), Command::RenderToText);
    assert_eq!(Command::try_from('s').unwrap(), Command::Select);
    assert!(Command::try_from('x').is_err());
    assert!(Command::try_from('N').is_err());
}

#[test]
fn unknown_command_message() {
    assert_eq!(UnknownCommand.message(), "unknown command");
}

#[test]
fn numerals_exact() {
    assert_eq!(decimal_string(0), "0");
    assert_eq!(decimal_string(9), "9");
    assert_eq!(decimal_string(10), "10");
    assert_eq!(decimal_string(12345), "12345");
}

#[test]
fn parse_fresh_board() {
    let g = TicTacToeGame::parse("---------").unwrap();
    assert_eq!(g.board, board_of("---------"));
    assert_eq!(g.player, 'X');
}

#[test]
fn parse_alternating_turns() {
    assert_eq!(TicTacToeGame::parse("X--------").unwrap().player, 'O');
    assert_eq!(TicTacToeGame::parse("XO-------").unwrap().player, 'X');
    assert_eq!(TicTacToeGame::parse("XOX------").unwrap().player, 'O');
}

#[test]
fn parse_rejects_wrong_length() {
    assert_eq!(
        TicTacToeGame::parse("--------").unwrap_err(),
        "input must be length 9"
    );
    assert_eq!(
        TicTacToeGame::parse("----------").unwrap_err(),
        "input must be length 9"
    );
}

#[test]
fn parse_rejects_lower_case() {
    assert_eq!(
        TicTacToeGame::parse("x--------").unwrap_err(),
        "only upper-case moves allowed"
    );
    assert_eq!(
        TicTacToeGame::parse("----o----").unwrap_err(),
        "only upper-case moves allowed"
    );
}

#[test]
fn parse_rejects_unknown_character() {
    assert_eq!(
        TicTacToeGame::parse("z--------").unwrap_err(),
        "unexpected chacter found in board"
    );
}

#[test]
fn parse_rejects_bad_counts() {
    assert_eq!(
        TicTacToeGame::parse("O--------").unwrap_err(),
        "too many O moves"
    );
    assert_eq!(
        TicTacToeGame::parse("XX-------").unwrap_err(),
        "too many X moves"
    );
}

#[test]
fn unparse_round_trip() {
    let g = TicTacToeGame::parse("XO--X---O").unwrap();
    assert_eq!(g.unparse(), "XO--X---O");
}

#[test]
fn default_game_is_fresh() {
    let g = TicTacToeGame::default();
    assert_eq!(g.unparse(), "---------");
    assert_eq!(g.player, 'X');
}

#[test]
fn victory_lines() {
    assert_eq!(victory(&board_of("XXXOO----"), 'X'), Some('X'));
    assert_eq!(victory(&board_of("XXXOO----"), 'O'), None);
    assert_eq!(victory(&board_of("O--OX-OXX"), 'O'), Some('O'));
    assert_eq!(victory(&board_of("XO-OX---X"), 'X'), Some('X'));
    assert_eq!(victory(&board_of("--X-X-X-O"), 'X'), Some('X'));
    assert_eq!(victory(&board_of("---------"), 'X'), None);
}

#[test]
fn all_eq_compares_all_four() {
    assert!(all_eq(&'X', &'X', &'X', &'X'));
    assert!(!all_eq(&'X', &'X', &'X', &'O'));
    assert!(!all_eq(&'X', &'O', &'X', &'X'));
}

#[test]
fn space_available_checks_for_empty_cell() {
    assert!(space_available(&board_of("XOXOXOXO-")));
    assert!(!space_available(&board_of("XOXOXOXOX")));
}

#[test]
fn moves_from_fresh_board() {
    let g = TicTacToeGame::default();
    let ms = g.moves();
    assert_eq!(ms.len(), 9);
    for (k, m) in ms.iter().enumerate() {
        assert_eq!(m.id as usize, k + 1);
        assert_eq!(m.next_state.player, 'O');
        assert!(m.end_game.is_none());
        let mut expected = board_of("---------");
        expected[k] = 'X';
        assert_eq!(m.next_state.board, expected);
    }
}

#[test]
fn moves_skip_occupied_cells() {
    let g = TicTacToeGame::parse("XO-------").unwrap();
    let ms = g.moves();
    let ids: Vec<u32> = ms.iter().map(|m| m.id).collect();
    assert_eq!(ids, vec![3, 4, 5, 6, 7, 8, 9]);
}

#[test]
fn winning_move_carries_its_victor() {
    // 'X' to move; filling cell 3 completes the top row.
    let g = TicTacToeGame::parse("XX-OO----").unwrap();
    assert_eq!(g.player, 'X');
    let ms = g.moves();
    let k = find_move(&ms, 3).unwrap();
    let m = &ms[k];
    assert_eq!(m.next_state.unparse(), "XXXOO----");
    assert_eq!(m.victors(), Some(vec!['X']));
}

#[test]
fn drawing_move_carries_no_victor() {
    // One empty cell left; filling it wins nothing and ends the game.
    let g = TicTacToeGame::parse("XOXXOOOX-").unwrap();
    assert_eq!(g.player, 'X');
    let ms = g.moves();
    assert_eq!(ms.len(), 1);
    assert_eq!(ms[0].id, 9);
    assert_eq!(ms[0].victors(), Some(vec![]));
}

#[test]
fn render_matches_drawn_form() {
    let g = TicTacToeGame::parse("X-O------").unwrap();
    let divider = "-----|-----|-----\n";
    let expected = format!(
        " {} | {} | {} \n{} {} | {} | {} \n{} {} | {} | {} \n",
        " X ", "   ", " O ", divider, "   ", "   ", "   ", divider, "   ", "   ", "   "
    );
    assert_eq!(g.render_to_text(), expected);
    assert_eq!(g.render_to_text().lines().count(), 5);
}

#[test]
fn value_for_scores_wins() {
    let g = TicTacToeGame {
        board: board_of("XXXOO----"),
        player: 'O',
    };
    assert_eq!(g.value_for('X'), 100000);
    assert_eq!(g.value_for('O'), -100000);
    let fresh = TicTacToeGame::default();
    assert_eq!(fresh.value_for('X'), 0);
}

#[test]
fn search_takes_the_first_move() {
    let g = TicTacToeGame::parse("XO-------").unwrap();
    let ms = g.moves();
    assert_eq!(search(&ms).id, 3);
}

#[test]
fn find_move_by_identifier() {
    let g = TicTacToeGame::default();
    let ms = g.moves();
    assert_eq!(find_move(&ms, 5), Some(4));
    assert_eq!(find_move(&ms, 10), None);
}

#[test]
fn end_game_check_restarts_or_continues() {
    let g = TicTacToeGame::parse("XX-OO----").unwrap();
    let ms = g.moves();
    let winning = &ms[find_move(&ms, 3).unwrap()];
    let after_win = end_game_check(winning);
    assert_eq!(after_win.unparse(), "---------");
    assert_eq!(after_win.player, 'X');
    let quiet = &ms[find_move(&ms, 6).unwrap()];
    let after_quiet = end_game_check(quiet);
    assert_eq!(after_quiet.unparse(), quiet.next_state.unparse());
    assert_eq!(after_quiet.player, 'O');
}
