use djinn::action::Action;
use djinn::components::game_menu::{grid_shape, GameMenu};
use djinn::components::game_screen::{
    decimal_string, format_move_history, Entry, GameOver, GameScreen, InputLabel,
};
use djinn::components::gamecard::{GameCard, GAMECARD_SIZE, THUMBNAIL_SIZE};
use djinn::games::tictactoe::TicTacToe;
use djinn::games::{Game, WinState};
use djinn::session::{
    find_game, get_screen_mode, Effect, GameId, GameIds, Mode, Screen, Session, Step,
};

#[test]
fn the_games_are_numbered_from_zero() {
    let mut ids = GameIds::new();
    assert_eq!(GameId::new(&mut ids), GameId(0));
    assert_eq!(GameId::new(&mut ids), GameId(1));
    assert_eq!(GameId::new(&mut ids), GameId(2));
    assert!(GameId(1) < GameId(2));
}

#[test]
fn a_screen_has_its_mode() {
    assert_eq!(get_screen_mode(Screen::Home), Mode::Home);
    assert_eq!(get_screen_mode(Screen::Game(GameId(3))), Mode::Game);
    assert_eq!(Screen::default(), Screen::Home);
}

#[test]
fn the_session_follows_the_actions() {
    let mut session = Session::new();
    assert_eq!(session.step(), Step::Continue);
    assert_eq!(session.handle_action(&Action::Tick), Effect::ForgetKeys);
    assert_eq!(session.handle_action(&Action::Render), Effect::Render);
    assert_eq!(session.handle_action(&Action::Resize(80, 24)), Effect::Resize(80, 24));
    assert_eq!(session.handle_action(&Action::ClearScreen), Effect::ClearScreen);
    assert_eq!(session.handle_action(&Action::Help), Effect::Nothing);
    assert_eq!(session, Session::new());

    assert_eq!(session.handle_action(&Action::Back), Effect::Nothing);
    assert_eq!(session.screen, Screen::Home);
    assert_eq!(session.handle_action(&Action::OpenGame(GameId(1))), Effect::Nothing);
    assert_eq!(session.screen, Screen::Game(GameId(1)));
    assert_eq!(session.handle_action(&Action::Back), Effect::Nothing);
    assert_eq!(session.screen, Screen::Home);

    session.handle_action(&Action::Quit);
    assert_eq!(session.step(), Step::Quit);
    session.handle_action(&Action::Suspend);
    assert_eq!(session.step(), Step::Suspend);
    session.handle_action(&Action::Resume);
    assert_eq!(session.step(), Step::Quit);
    session.handle_action(&Action::Error("no".to_string()));
    assert!(session.should_quit && !session.should_suspend);
}

#[test]
fn a_game_is_found_by_its_name_in_any_case() {
    let games = vec![
        (GameId(0), "Tic Tac Toe".to_string()),
        (GameId(1), "Chess".to_string()),
        (GameId(2), "CHESS".to_string()),
    ];
    // Of two games of one name the one with the smaller number is found.
    assert_eq!(find_game(&games, "chess"), Some(GameId(1)));
    assert_eq!(find_game(&games, "cHeSs"), Some(GameId(1)));
    assert_eq!(find_game(&games, "TIC TAC TOE"), Some(GameId(0)));
    assert_eq!(find_game(&games, "hex"), None);
    assert_eq!(find_game(&Vec::new(), "chess"), None);
}

#[test]
fn a_card_shows_its_game() {
    let game = TicTacToe::default();
    let mut card = GameCard::from_game_with_id(&game, GameId(7));
    assert_eq!(card.id(), GameId(7));
    assert_eq!(card.name(), "Tic Tac Toe");
    assert_eq!(card.thumbnail(), game.thumbnail());
    assert!(!card.is_selected());
    card.set_selected(true);
    assert!(card.is_selected());
    assert_eq!(card.id(), GameId(7));
    assert_eq!(THUMBNAIL_SIZE, 11);
    assert_eq!(GAMECARD_SIZE, 13);
}

fn menu_of(count: usize) -> GameMenu {
    let game = TicTacToe::default();
    GameMenu::new((0..count).map(|i| GameCard::from_game_with_id(&game, GameId(i + 10))).collect())
}

#[test]
fn the_cursor_goes_round_the_menu() {
    let mut menu = menu_of(3);
    assert_eq!(menu.selected_game(), 0);
    menu.previous_game();
    assert_eq!(menu.selected_game(), 2);
    menu.next_game();
    assert_eq!(menu.selected_game(), 0);
    menu.next_game();
    menu.next_game();
    assert_eq!(menu.selected_game(), 2);
    menu.previous_game();
    assert_eq!(menu.selected_game(), 1);
    assert_eq!(menu.open_game(), Action::OpenGame(GameId(11)));
    menu.mark_selected();
    let marks: Vec<bool> = menu.game_cards().iter().map(|card| card.is_selected()).collect();
    assert_eq!(marks, vec![false, true, false]);
    menu.next_game();
    menu.mark_selected();
    let marks: Vec<bool> = menu.game_cards().iter().map(|card| card.is_selected()).collect();
    assert_eq!(marks, vec![false, false, true]);
}

#[test]
fn the_grid_takes_as_many_columns_as_fit() {
    assert_eq!(grid_shape(14, 1), (1, 1));
    assert_eq!(grid_shape(14, 3), (1, 3));
    assert_eq!(grid_shape(27, 3), (1, 3));
    assert_eq!(grid_shape(28, 3), (2, 2));
    assert_eq!(grid_shape(80, 5), (5, 1));
    assert_eq!(grid_shape(80, 6), (5, 2));
}

#[test]
fn numbers_are_written_in_decimal() {
    assert_eq!(decimal_string(0), "0");
    assert_eq!(decimal_string(7), "7");
    assert_eq!(decimal_string(10), "10");
    assert_eq!(decimal_string(409), "409");
    assert_eq!(decimal_string(usize::MAX), usize::MAX.to_string());
}

#[test]
fn the_moves_are_listed_two_to_a_line() {
    let moves: Vec<String> = ["e4", "e5", "Nf3", "Nc6", "Bb5"].iter().map(|m| m.to_string()).collect();
    assert_eq!(format_move_history(&moves), "1. e4 e5\n2. Nf3 Nc6\n3. Bb5 ");
    assert_eq!(format_move_history(&moves[..4].to_vec()), "1. e4 e5\n2. Nf3 Nc6");
    assert_eq!(format_move_history(&moves[..1].to_vec()), "1. e4 ");
    assert_eq!(format_move_history(&Vec::new()), "");
    let many: Vec<String> = (0..21).map(|i| i.to_string()).collect();
    assert!(format_move_history(&many).ends_with("\n10. 18 19\n11. 20 "));
}

#[test]
fn an_entered_line_is_played_or_marked() {
    let mut game = TicTacToe::default();
    let mut screen = GameScreen::new();
    assert_eq!(screen.enter_input(&mut game, true, "a1"), Entry::Busy);
    assert_eq!(screen.input_label, Some(InputLabel::Thinking));
    assert!(game.move_history().is_empty());

    assert_eq!(screen.enter_input(&mut game, false, "z9"), Entry::Rejected);
    assert_eq!(screen.input_label, Some(InputLabel::Invalid));
    assert!(game.move_history().is_empty());

    assert_eq!(screen.enter_input(&mut game, false, "a1"), Entry::Played { think: true });
    assert_eq!(screen.input_label, None);
    assert_eq!(screen.game_over, None);
    assert_eq!(game.move_history(), vec!["a1".to_string()]);

    assert_eq!(screen.enter_input(&mut game, false, "a1"), Entry::Rejected);
}

#[test]
fn the_end_of_the_game_is_won_or_lost() {
    let mut game = TicTacToe::default();
    let mut screen = GameScreen::new();
    for (own, reply) in [("a1", "a2"), ("b1", "b2")] {
        assert_eq!(screen.enter_input(&mut game, false, own), Entry::Played { think: true });
        screen.computer_moved(&mut game, reply);
        assert_eq!(screen.game_over, None);
    }
    assert_eq!(screen.enter_input(&mut game, false, "c1"), Entry::Played { think: false });
    assert_eq!(screen.game_over, Some(GameOver::Win));
    assert_eq!(GameOver::Win.title(), "You win!");

    screen.restart(&mut game);
    assert_eq!(screen.game_over, None);
    assert!(game.move_history().is_empty());

    for (own, reply) in [("a1", "a3"), ("a2", "b3"), ("c1", "c3")] {
        screen.enter_input(&mut game, false, own);
        screen.computer_moved(&mut game, reply);
    }
    assert_eq!(screen.game_over, Some(GameOver::Lose));
    assert_eq!(GameOver::Lose.title(), "You lost!");
    assert_eq!(GameOver::Draw.title(), "Draw");
    assert_eq!(InputLabel::Invalid.text(), "Invalid move");
    assert_eq!(InputLabel::Thinking.text(), "Computer is thinking");
    assert_eq!(InputLabel::default(), InputLabel::Invalid);
    assert!(matches!(WinState::from(false), WinState::Draw));
}
