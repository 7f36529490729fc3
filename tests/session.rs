use tictactoe::board::{Board, Move, Player};
use tictactoe::protocol::{Outcome, ProtocolEvent};
use tictactoe::session::{cell_at, Inbound, Session, SessionState, RESET_DELAY_MS};

const X: Option<Player> = Some(Player::X);
const O: Option<Player> = Some(Player::O);
const E: Option<Player> = None;

fn frame(t: &str) -> Inbound {
    Inbound::Frame(String::from(t))
}

fn own_turn_as(role: Player, board: Board) -> Session {
    let mut s = Session::new(String::from("ann"));
    s.board = board;
    s.role = role;
    s.state = SessionState::OwnTurn;
    s
}

#[test]
fn first_player_frame_makes_local_x_on_own_turn() {
    let mut s = Session::new(String::from("ann"));
    s.receive(&frame("{\"gameover\":\"false\",\"last_move\":[-1]}"), 0);
    assert_eq!(s.role, Player::X);
    assert_eq!(s.state, SessionState::OwnTurn);
    assert_eq!(s.status(), "Your turn, ann");
}

#[test]
fn other_first_event_makes_local_o_waiting() {
    let mut s = Session::new(String::from("ann"));
    s.handle_event(&ProtocolEvent::RoundResult(None, None), 0);
    assert_eq!(s.role, Player::O);
    assert_eq!(s.state, SessionState::OpponentTurn);
    assert_eq!(s.status(), "Waiting for opponent's move");
    let mut t = Session::new(String::from("ann"));
    t.handle_event(&ProtocolEvent::OpponentMove(Move { row: 0, col: 0 }), 0);
    assert_eq!(t.role, Player::O);
    assert_eq!(t.state, SessionState::OpponentTurn);
}

#[test]
fn informational_messages_change_nothing_while_waiting() {
    let mut s = Session::new(String::from("ann"));
    s.handle_event(&ProtocolEvent::Ack, 0);
    s.handle_event(&ProtocolEvent::Error(String::from("busy")), 0);
    s.handle_event(&ProtocolEvent::Unrecognized, 0);
    s.receive(&frame("{\"hello\":1}"), 0);
    s.receive(&frame("{\"ok\":\"connected\"}"), 0);
    assert_eq!(s.state, SessionState::AwaitingOpponent);
    assert_eq!(s.role, Player::O);
    s.receive(&frame("{\"gameover\":\"false\",\"last_move\":[-1]}"), 0);
    assert_eq!(s.role, Player::X);
    assert_eq!(s.state, SessionState::OwnTurn);
}

#[test]
fn quit_between_rounds_ends_the_session() {
    let mut s = Session::new(String::from("ann"));
    s.receive(&frame("{\"gameover\":\"quit\",\"last_move\":[-1]}"), 100);
    assert_eq!(s.state, SessionState::RoundOver(Outcome::Quit));
    assert_eq!(s.timer.armed_at, Some(100));
    assert!(s.poll_timer(100 + RESET_DELAY_MS));
    assert_eq!(s.state, SessionState::Terminated);
}

#[test]
fn draw_between_rounds_ends_the_round() {
    let mut s = Session::new(String::from("ann"));
    s.handle_event(&ProtocolEvent::RoundResult(Some(Outcome::Draw), None), 7);
    assert_eq!(s.state, SessionState::RoundOver(Outcome::Draw));
}

#[test]
fn late_first_player_assignment_keeps_the_role() {
    let mut s = Session::new(String::from("ann"));
    s.handle_event(&ProtocolEvent::RoundResult(None, None), 0);
    s.handle_event(&ProtocolEvent::AssignedFirstPlayer, 0);
    assert_eq!(s.role, Player::O);
    assert_eq!(s.state, SessionState::OpponentTurn);
    s.handle_event(&ProtocolEvent::OpponentMove(Move { row: 1, col: 1 }), 0);
    assert_eq!(s.board.get(1, 1), X);
}

#[test]
fn move_out_of_turn_is_ignored() {
    let mut s = Session::new(String::from("ann"));
    s.state = SessionState::OpponentTurn;
    let before = s.clone();
    assert_eq!(s.play(1, 1, 0), None);
    assert_eq!(s.board.0, before.board.0);
    assert_eq!(s.state, SessionState::OpponentTurn);
}

#[test]
fn move_on_own_turn_is_sent_and_passes_the_turn() {
    let mut s = own_turn_as(Player::X, Board::new());
    assert_eq!(s.play(1, 1, 0), Some(String::from("{\"move\":[1,1]}")));
    assert_eq!(s.board.get(1, 1), X);
    assert_eq!(s.state, SessionState::OpponentTurn);
}

#[test]
fn move_on_occupied_cell_is_ignored() {
    let mut s = own_turn_as(Player::X, Board([[O, E, E], [E, E, E], [E, E, E]]));
    assert_eq!(s.play(0, 0, 0), None);
    assert_eq!(s.board.get(0, 0), O);
    assert_eq!(s.state, SessionState::OwnTurn);
}

#[test]
fn opponent_move_fills_its_cell_and_gives_the_turn() {
    let mut s = Session::new(String::from("ann"));
    s.receive(&frame("{\"gameover\":\"false\"}"), 0);
    s.receive(&frame("{\"gameover\":\"false\",\"last_move\":[2,0]}"), 10);
    assert_eq!(s.board.get(2, 0), X);
    assert_eq!(s.state, SessionState::OwnTurn);
}

#[test]
fn local_win_ends_the_round_won() {
    let mut s = own_turn_as(Player::X, Board([[X, X, E], [O, O, E], [E, E, E]]));
    assert_eq!(s.play(0, 2, 100), Some(String::from("{\"move\":[0,2]}")));
    assert_eq!(s.state, SessionState::RoundOver(Outcome::Won));
    assert_eq!(s.timer.armed_at, Some(100));
    assert_eq!(s.status(), "You won!");
}

#[test]
fn opponent_win_ends_the_round_lost() {
    let mut s = own_turn_as(Player::O, Board([[X, X, E], [O, O, E], [E, E, E]]));
    s.state = SessionState::OpponentTurn;
    s.handle_event(&ProtocolEvent::OpponentMove(Move { row: 0, col: 2 }), 50);
    assert_eq!(s.state, SessionState::RoundOver(Outcome::Lost));
    assert_eq!(s.board.get(0, 2), X);
    assert_eq!(s.status(), "You lost!");
}

#[test]
fn draw_result_fills_the_reported_cell_if_empty() {
    let mut s = own_turn_as(Player::O, Board([[X, O, X], [X, O, O], [O, X, E]]));
    s.state = SessionState::OpponentTurn;
    s.receive(&frame("{\"gameover\":\"draw\",\"last_move\":[2,2]}"), 5);
    assert_eq!(s.state, SessionState::RoundOver(Outcome::Draw));
    assert_eq!(s.board.get(2, 2), X);
    assert_eq!(s.status(), "It's a draw!");
}

#[test]
fn round_resets_once_after_the_delay() {
    let mut s = own_turn_as(Player::X, Board([[X, X, E], [O, O, E], [E, E, E]]));
    s.play(0, 2, 1000);
    assert!(!s.poll_timer(1000 + RESET_DELAY_MS - 1));
    assert_eq!(s.state, SessionState::RoundOver(Outcome::Won));
    assert!(s.poll_timer(1000 + RESET_DELAY_MS));
    assert_eq!(s.state, SessionState::AwaitingOpponent);
    assert!(s.board.is_clear());
    assert!(!s.poll_timer(1000 + 3 * RESET_DELAY_MS));
    assert_eq!(s.state, SessionState::AwaitingOpponent);
}

#[test]
fn quit_ends_the_session_when_its_timer_fires() {
    let mut s = own_turn_as(Player::X, Board::new());
    s.receive(&frame("{\"gameover\":\"quit\",\"last_move\":[-1]}"), 0);
    assert_eq!(s.state, SessionState::RoundOver(Outcome::Quit));
    assert_eq!(s.status(), "Opponent quit");
    assert!(!s.wants_inbound());
    let out = s.tick(&Inbound::Idle, None, 10);
    assert!(!out.exit);
    let out = s.tick(&Inbound::Idle, None, RESET_DELAY_MS);
    assert!(out.exit);
    assert_eq!(s.state, SessionState::Terminated);
    let timer = s.timer;
    let out = s.tick(&frame("{\"gameover\":\"false\",\"last_move\":[-1]}"), Some((150, 150)), 99_999);
    assert!(out.exit);
    assert_eq!(out.sent, None);
    assert_eq!(s.state, SessionState::Terminated);
    assert_eq!(s.timer, timer);
    assert_eq!(s.status(), "Session over");
}

#[test]
fn closed_channel_ends_the_session() {
    let mut s = own_turn_as(Player::X, Board::new());
    let out = s.tick(&Inbound::Closed, None, 0);
    assert!(out.exit);
    assert_eq!(s.state, SessionState::Terminated);
}

#[test]
fn malformed_frame_changes_nothing() {
    let mut s = Session::new(String::from("ann"));
    s.receive(&frame("{oops"), 0);
    assert_eq!(s.state, SessionState::AwaitingOpponent);
    assert_eq!(s.status(), "Waiting for an opponent");
}

#[test]
fn tick_takes_frame_before_click() {
    let mut s = Session::new(String::from("ann"));
    let out = s.tick(&frame("{\"gameover\":\"false\",\"last_move\":[-1]}"), Some((250, 50)), 0);
    assert_eq!(out.sent, Some(String::from("{\"move\":[0,2]}")));
    assert!(!out.exit);
    assert_eq!(s.board.get(0, 2), X);
    assert_eq!(s.state, SessionState::OpponentTurn);
}

#[test]
fn clicks_map_to_cells() {
    assert_eq!(cell_at(150, 250), Some(Move { row: 2, col: 1 }));
    assert_eq!(cell_at(0, 0), Some(Move { row: 0, col: 0 }));
    assert_eq!(cell_at(299, 299), Some(Move { row: 2, col: 2 }));
    assert_eq!(cell_at(300, 10), None);
    assert_eq!(cell_at(10, 300), None);
    assert_eq!(cell_at(-1, 10), None);
}
