use crate::board::{
    cell, empty_grid, grid_wf, opponent_of, other, winner, winner_of, with_cell,
    Board, Grid, Move, Player,
};
use crate::protocol::{decode, decoded, encode_move, move_frame, Outcome, ProtocolEvent};
use crate::timer::{armed, disarmed, due, pending, polled, ResetTimer};
use vstd::prelude::*;
use vstd::string::StringExecFns;

verus! {

/// How long a finished round stays on screen before the next one, in
/// milliseconds.
pub const RESET_DELAY_MS: u64 = 5000;

/// Where the session stands.
#[derive(Copy, Clone, Debug, PartialEq, Eq, Structural)]
pub enum SessionState {
    AwaitingOpponent,
    OwnTurn,
    OpponentTurn,
    RoundOver(Outcome),
    Terminated,
}

/// What the transport handed over in one tick.
#[derive(Clone, Debug, PartialEq, Eq)]
pub enum Inbound {
    /// Nothing to read yet.
    Idle,
    /// A text frame.
    Frame(String),
    /// The peer closed the channel, or it failed.
    Closed,
}

/// What one tick produced.
#[derive(Clone, Debug, PartialEq, Eq)]
pub struct TickOutput {
    /// A frame to send, if a local move was accepted.
    pub sent: Option<String>,
    /// The session has ended and the loop should stop.
    pub exit: bool,
}

/// The state of one connected client: its board, its role, where the round
/// stands, the reset timer, and the local player's name.
#[derive(Clone, Debug)]
pub struct Session {
    pub board: Board,
    pub role: Player,
    pub state: SessionState,
    pub timer: ResetTimer,
    pub local_id: String,
}

pub struct SessionView {
    pub grid: Grid,
    pub role: Player,
    pub state: SessionState,
    pub timer: ResetTimer,
    pub local_id: Seq<char>,
}

impl View for Session {
    type V = SessionView;

    open spec fn view(&self) -> SessionView {
        SessionView {
            grid: self.board@,
            role: self.role,
            state: self.state,
            timer: self.timer,
            local_id: self.local_id@,
        }
    }
}

impl SessionView {
    /// The grid is 3x3, and the reset timer is pending exactly while a
    /// finished round is shown, set to the reset delay.
    pub open spec fn inv(self) -> bool {
        &&& grid_wf(self.grid)
        &&& (self.state is RoundOver <==> pending(self.timer))
        &&& (self.state is RoundOver ==> self.timer.duration == RESET_DELAY_MS)
    }
}

/// The round ends with `o`: the timer is disarmed and armed anew at `now`.
pub open spec fn round_over(s: SessionView, o: Outcome, now: u64) -> SessionView {
    SessionView {
        state: SessionState::RoundOver(o),
        timer: armed(disarmed(), now, RESET_DELAY_MS),
        ..s
    }
}

/// For a lost or drawn round, the reported last move is drawn on the board
/// when its cell is still empty, so that the display matches the peer's.
pub open spec fn reconciled(s: SessionView, o: Outcome, mv: Option<Move>) -> Grid {
    match mv {
        Some(m) => {
            if (o == Outcome::Lost || o == Outcome::Draw) && m.valid() && cell(
                s.grid,
                m.row as int,
                m.col as int,
            ) is None {
                with_cell(s.grid, m.row as int, m.col as int, Some(other(s.role)))
            } else {
                s.grid
            }
        },
        None => s.grid,
    }
}

/// The session after a round result with outcome `o`.
pub open spec fn finished(s: SessionView, o: Outcome, mv: Option<Move>, now: u64) -> SessionView {
    round_over(SessionView { grid: reconciled(s, o, mv), ..s }, o, now)
}

/// The session after the opponent's move `m`.
pub open spec fn after_opponent_move(s: SessionView, m: Move, now: u64) -> SessionView {
    if m.valid() && cell(s.grid, m.row as int, m.col as int) is None {
        let g = with_cell(s.grid, m.row as int, m.col as int, Some(other(s.role)));
        if winner_of(g, m.row as int, m.col as int) == Some(other(s.role)) {
            round_over(SessionView { grid: g, ..s }, Outcome::Lost, now)
        } else {
            SessionView { grid: g, state: SessionState::OwnTurn, ..s }
        }
    } else {
        s
    }
}

/// The session after a protocol event received at `now`. Acknowledgements,
/// errors and unrecognized messages only inform: they change nothing. The
/// first game event of a round fixes the local role; a round result ends
/// any round that has not ended yet.
pub open spec fn after_event(s: SessionView, ev: ProtocolEvent, now: u64) -> SessionView {
    match s.state {
        SessionState::AwaitingOpponent => match ev {
            ProtocolEvent::AssignedFirstPlayer => SessionView {
                role: Player::X,
                state: SessionState::OwnTurn,
                ..s
            },
            ProtocolEvent::OpponentMove(_) | ProtocolEvent::RoundResult(None, _) => SessionView {
                role: Player::O,
                state: SessionState::OpponentTurn,
                ..s
            },
            ProtocolEvent::RoundResult(Some(o), mv) => finished(s, o, mv, now),
            _ => s,
        },
        SessionState::OpponentTurn => match ev {
            ProtocolEvent::OpponentMove(m) => after_opponent_move(s, m, now),
            ProtocolEvent::RoundResult(Some(o), mv) => finished(s, o, mv, now),
            _ => s,
        },
        SessionState::OwnTurn => match ev {
            ProtocolEvent::RoundResult(Some(o), mv) => finished(s, o, mv, now),
            _ => s,
        },
        _ => s,
    }
}

/// A local move at `(row, col)` is taken: it is the local turn and the cell
/// is empty.
pub open spec fn move_accepted(s: SessionView, row: int, col: int) -> bool {
    s.state is OwnTurn && cell(s.grid, row, col) is None
}

/// The session after a local move attempt at `(row, col)`.
pub open spec fn after_local_move(s: SessionView, row: int, col: int, now: u64) -> SessionView {
    if move_accepted(s, row, col) {
        let g = with_cell(s.grid, row, col, Some(s.role));
        if winner_of(g, row, col) == Some(s.role) {
            round_over(SessionView { grid: g, ..s }, Outcome::Won, now)
        } else {
            SessionView { grid: g, state: SessionState::OpponentTurn, ..s }
        }
    } else {
        s
    }
}

/// The session after a timer check at `now`, and whether the round was
/// reset.
pub open spec fn after_timer(s: SessionView, now: u64) -> (SessionView, bool) {
    match s.state {
        SessionState::RoundOver(o) => {
            if due(s.timer, now) {
                (
                    SessionView {
                        grid: empty_grid(),
                        state: if o == Outcome::Quit {
                            SessionState::Terminated
                        } else {
                            SessionState::AwaitingOpponent
                        },
                        timer: polled(s.timer, now).0,
                        ..s
                    },
                    true,
                )
            } else {
                (s, false)
            }
        },
        _ => (s, false),
    }
}

/// The cell a click at `(x, y)` on the 300x300 window lands in.
pub open spec fn click_cell(x: i64, y: i64) -> Option<Move> {
    if 0 <= x < 300 && 0 <= y < 300 {
        Some(Move { row: (y / 100) as usize, col: (x / 100) as usize })
    } else {
        None
    }
}

/// The session after what the transport handed over.
pub open spec fn after_inbound(s: SessionView, inbound: Inbound, now: u64) -> SessionView {
    if s.state is Terminated {
        s
    } else {
        match inbound {
            Inbound::Idle => s,
            Inbound::Closed => SessionView { state: SessionState::Terminated, timer: disarmed(), ..s },
            Inbound::Frame(t) => match decoded(t@) {
                Ok(ev) => after_event(s, ev, now),
                Err(_) => s,
            },
        }
    }
}

/// The session after a click, if any.
pub open spec fn after_click(s: SessionView, click: Option<(i64, i64)>, now: u64) -> SessionView {
    match click {
        Some((x, y)) => match click_cell(x, y) {
            Some(m) => after_local_move(s, m.row as int, m.col as int, now),
            None => s,
        },
        None => s,
    }
}

/// The frame a click sends, if it makes a move.
pub open spec fn click_frame(s: SessionView, click: Option<(i64, i64)>) -> Option<Seq<char>> {
    match click {
        Some((x, y)) => match click_cell(x, y) {
            Some(m) => if move_accepted(s, m.row as int, m.col as int) {
                Some(move_frame(m.row as int, m.col as int))
            } else {
                None
            },
            None => None,
        },
        None => None,
    }
}

/// The status line for the session.
pub open spec fn status_text(s: SessionView) -> Seq<char> {
    match s.state {
        SessionState::AwaitingOpponent => "Waiting for an opponent"@,
        SessionState::OwnTurn => "Your turn, "@ + s.local_id,
        SessionState::OpponentTurn => "Waiting for opponent's move"@,
        SessionState::RoundOver(Outcome::Won) => "You won!"@,
        SessionState::RoundOver(Outcome::Lost) => "You lost!"@,
        SessionState::RoundOver(Outcome::Draw) => "It's a draw!"@,
        SessionState::RoundOver(Outcome::Quit) => "Opponent quit"@,
        SessionState::Terminated => "Session over"@,
    }
}

fn is_player(w: Option<Player>, p: Player) -> (r: bool)
    ensures
        r == (w == Some(p)),
{
    match w {
        Some(q) => q == p,
        None => false,
    }
}

/// The cell a click at `(x, y)` on the 300x300 window lands in; a click
/// outside the window lands in none.
pub fn cell_at(x: i64, y: i64) -> (r: Option<Move>)
    ensures
        r == click_cell(x, y),
{
    if 0 <= x && x < 300 && 0 <= y && y < 300 {
        Some(Move { row: (y / 100) as usize, col: (x / 100) as usize })
    } else {
        None
    }
}

impl Session {
    /// A fresh session for the player named `local_id`, waiting for an
    /// opponent on an empty board.
    pub fn new(local_id: String) -> (s: Session)
        ensures
            s@.grid == empty_grid(),
            s@.role == Player::O,
            s@.state == SessionState::AwaitingOpponent,
            s@.timer == disarmed(),
            s@.local_id == local_id@,
            s@.inv(),
    {
        Session {
            board: Board::new(),
            role: Player::O,
            state: SessionState::AwaitingOpponent,
            timer: ResetTimer::new(),
            local_id,
        }
    }

    fn end_round(&mut self, o: Outcome, now: u64)
        ensures
            final(self)@ == round_over(old(self)@, o, now),
    {
        self.state = SessionState::RoundOver(o);
        self.timer.disarm();
        self.timer.arm(now, RESET_DELAY_MS);
    }

    fn finish(&mut self, o: Outcome, mv: Option<Move>, now: u64)
        ensures
            final(self)@ == finished(old(self)@, o, mv, now),
    {
        match mv {
            Some(m) => {
                if (o == Outcome::Lost || o == Outcome::Draw) && m.row < 3 && m.col < 3
                    && self.board.get(m.row, m.col).is_none() {
                    let opp = opponent_of(self.role);
                    self.board.set(m.row, m.col, Some(opp));
                }
            },
            None => {},
        }
        self.end_round(o, now);
    }

    fn opponent_move(&mut self, m: Move, now: u64)
        ensures
            final(self)@ == after_opponent_move(old(self)@, m, now),
    {
        if m.row < 3 && m.col < 3 && self.board.get(m.row, m.col).is_none() {
            let opp = opponent_of(self.role);
            self.board.set(m.row, m.col, Some(opp));
            if is_player(winner(&self.board, m), opp) {
                self.end_round(Outcome::Lost, now);
            } else {
                self.state = SessionState::OwnTurn;
            }
        }
    }

    /// Applies a protocol event received at `now`.
    pub fn handle_event(&mut self, ev: &ProtocolEvent, now: u64)
        requires
            old(self)@.inv(),
        ensures
            final(self)@ == after_event(old(self)@, *ev, now),
            final(self)@.inv(),
    {
        match self.state {
            SessionState::AwaitingOpponent => match ev {
                ProtocolEvent::AssignedFirstPlayer => {
                    self.role = Player::X;
                    self.state = SessionState::OwnTurn;
                },
                ProtocolEvent::OpponentMove(_) | ProtocolEvent::RoundResult(None, _) => {
                    self.role = Player::O;
                    self.state = SessionState::OpponentTurn;
                },
                ProtocolEvent::RoundResult(Some(o), mv) => self.finish(*o, *mv, now),
                _ => {},
            },
            SessionState::OpponentTurn => match ev {
                ProtocolEvent::OpponentMove(m) => self.opponent_move(*m, now),
                ProtocolEvent::RoundResult(Some(o), mv) => self.finish(*o, *mv, now),
                _ => {},
            },
            SessionState::OwnTurn => match ev {
                ProtocolEvent::RoundResult(Some(o), mv) => self.finish(*o, *mv, now),
                _ => {},
            },
            _ => {},
        }
    }

    /// Attempts a local move at `(row, col)` at `now`. It is taken only on
    /// the local turn and on an empty cell; then the frame to send comes
    /// back. Otherwise nothing changes and nothing is sent.
    pub fn play(&mut self, row: usize, col: usize, now: u64) -> (sent: Option<String>)
        requires
            old(self)@.inv(),
            row < 3,
            col < 3,
        ensures
            final(self)@ == after_local_move(old(self)@, row as int, col as int, now),
            final(self)@.inv(),
            sent is Some <==> move_accepted(old(self)@, row as int, col as int),
            sent is Some ==> sent->0@ == move_frame(row as int, col as int),
            !move_accepted(old(self)@, row as int, col as int) ==> final(self)@ == old(self)@,
    {
        let own_turn = match self.state {
            SessionState::OwnTurn => true,
            _ => false,
        };
        if own_turn && self.board.get(row, col).is_none() {
            let me = self.role;
            self.board.set(row, col, Some(me));
            if is_player(winner(&self.board, Move { row, col }), me) {
                self.end_round(Outcome::Won, now);
            } else {
                self.state = SessionState::OpponentTurn;
            }
            Some(encode_move(row, col))
        } else {
            None
        }
    }

    /// Checks the reset timer at `now`. When a finished round's delay has
    /// elapsed, the board is cleared and the session waits for the next
    /// round, or ends after the opponent quit. Returns whether that happened.
    pub fn poll_timer(&mut self, now: u64) -> (reset: bool)
        requires
            old(self)@.inv(),
        ensures
            (final(self)@, reset) == after_timer(old(self)@, now),
            final(self)@.inv(),
    {
        match self.state {
            SessionState::RoundOver(o) => {
                if self.timer.poll(now) {
                    self.board = Board::new();
                    self.state = if o == Outcome::Quit {
                        SessionState::Terminated
                    } else {
                        SessionState::AwaitingOpponent
                    };
                    true
                } else {
                    false
                }
            },
            _ => false,
        }
    }

    /// Whether the session reads the transport: not while a finished round
    /// is shown, nor once it has ended.
    pub fn wants_inbound(&self) -> (r: bool)
        ensures
            r == !(self@.state is RoundOver || self@.state is Terminated),
    {
        match self.state {
            SessionState::RoundOver(_) | SessionState::Terminated => false,
            _ => true,
        }
    }

    /// Takes what the transport handed over at `now`. A frame is decoded and
    /// applied; one that is not JSON changes nothing. A closed channel ends
    /// the session.
    pub fn receive(&mut self, inbound: &Inbound, now: u64)
        requires
            old(self)@.inv(),
        ensures
            final(self)@ == after_inbound(old(self)@, *inbound, now),
            final(self)@.inv(),
    {
        if let SessionState::Terminated = self.state {
            return ;
        }
        match inbound {
            Inbound::Idle => {},
            Inbound::Closed => {
                self.state = SessionState::Terminated;
                self.timer.disarm();
            },
            Inbound::Frame(t) => match decode(t.as_str()) {
                Ok(ev) => self.handle_event(&ev, now),
                Err(_) => {},
            },
        }
    }

    /// One pass of the event loop at `now`: first what the transport handed
    /// over, then a click, if any, then the reset timer.
    pub fn tick(&mut self, inbound: &Inbound, click: Option<(i64, i64)>, now: u64) -> (out:
        TickOutput)
        requires
            old(self)@.inv(),
        ensures
            final(self)@ == after_timer(
                after_click(after_inbound(old(self)@, *inbound, now), click, now),
                now,
            ).0,
            final(self)@.inv(),
            match out.sent {
                Some(f) => click_frame(after_inbound(old(self)@, *inbound, now), click) == Some(f@),
                None => click_frame(after_inbound(old(self)@, *inbound, now), click) is None,
            },
            out.exit == (final(self)@.state is Terminated),
    {
        self.receive(inbound, now);
        let sent = match click {
            Some((x, y)) => match cell_at(x, y) {
                Some(m) => self.play(m.row, m.col, now),
                None => None,
            },
            None => None,
        };
        self.poll_timer(now);
        let exit = match self.state {
            SessionState::Terminated => true,
            _ => false,
        };
        TickOutput { sent, exit }
    }

    /// The status line shown above the board.
    pub fn status(&self) -> (r: String)
        ensures
            r@ == status_text(self@),
    {
        match self.state {
            SessionState::AwaitingOpponent => String::from_str("Waiting for an opponent"),
            SessionState::OwnTurn => {
                let mut s = String::from_str("Your turn, ");
                s.append(self.local_id.as_str());
                s
            },
            SessionState::OpponentTurn => String::from_str("Waiting for opponent's move"),
            SessionState::RoundOver(Outcome::Won) => String::from_str("You won!"),
            SessionState::RoundOver(Outcome::Lost) => String::from_str("You lost!"),
            SessionState::RoundOver(Outcome::Draw) => String::from_str("It's a draw!"),
            SessionState::RoundOver(Outcome::Quit) => String::from_str("Opponent quit"),
            SessionState::Terminated => String::from_str("Session over"),
        }
    }
}

/// From `AwaitingOpponent`, the first-player assignment makes the local
/// player X, on its own turn; an opponent move or an update without a
/// result makes it O, waiting for the opponent's move; a round result ends
/// the round; acknowledgements, errors and unrecognized messages change
/// nothing.
pub proof fn lemma_first_event_assigns_role(s: SessionView, ev: ProtocolEvent, now: u64)
    requires
        s.state is AwaitingOpponent,
    ensures
        ev is AssignedFirstPlayer ==> after_event(s, ev, now).role == Player::X
            && after_event(s, ev, now).state == SessionState::OwnTurn,
        (ev is OpponentMove || (ev is RoundResult && ev->RoundResult_0 is None))
            ==> after_event(s, ev, now).role == Player::O
            && after_event(s, ev, now).state == SessionState::OpponentTurn,
        (ev is RoundResult && ev->RoundResult_0 is Some) ==> after_event(s, ev, now).state
            == SessionState::RoundOver(ev->RoundResult_0->0),
        (ev is Ack || ev is Error || ev is Unrecognized) ==> after_event(s, ev, now) == s,
{
}

/// Once the role is fixed, it stays for the rest of the round: no event
/// changes it during play, and informational messages change nothing at
/// all.
pub proof fn lemma_role_fixed_in_round(s: SessionView, ev: ProtocolEvent, now: u64)
    requires
        !(s.state is AwaitingOpponent),
    ensures
        after_event(s, ev, now).role == s.role,
        (ev is Ack || ev is Error || ev is Unrecognized || ev is AssignedFirstPlayer)
            ==> after_event(s, ev, now) == s,
{
}

/// A round ends with the reset timer armed at that moment: whether by an
/// event or by a local move, entering `RoundOver` arms the timer at `now`
/// with the reset delay.
pub proof fn lemma_round_end_arms_timer(s: SessionView, ev: ProtocolEvent, row: int, col: int, now: u64)
    requires
        s.inv(),
        !(s.state is RoundOver),
    ensures
        after_event(s, ev, now).state is RoundOver ==> after_event(s, ev, now).timer == (ResetTimer {
            armed_at: Some(now),
            duration: RESET_DELAY_MS,
            fired: false,
        }),
        after_local_move(s, row, col, now).state is RoundOver ==> after_local_move(s, row, col, now).timer
            == (ResetTimer { armed_at: Some(now), duration: RESET_DELAY_MS, fired: false }),
{
}

/// A round is reset only once the reset delay has elapsed since its timer
/// was armed, and only once: the reset leaves `RoundOver`, and polling again
/// resets nothing and changes nothing.
pub proof fn lemma_reset_once(s: SessionView, now1: u64, now2: u64)
    requires
        s.inv(),
    ensures
        after_timer(s, now1).1 ==> s.state is RoundOver && s.timer.armed_at is Some
            && now1 >= s.timer.armed_at->0 + RESET_DELAY_MS,
        after_timer(s, now1).1 ==> !(after_timer(s, now1).0.state is RoundOver),
        after_timer(s, now1).1 ==> after_timer(after_timer(s, now1).0, now2) == (
            after_timer(s, now1).0,
            false,
        ),
        !after_timer(s, now1).1 ==> after_timer(s, now1).0 == s,
{
}

/// Once the timer of a round the opponent quit fires, the session ends.
pub proof fn lemma_quit_terminates(s: SessionView, now: u64)
    requires
        s.inv(),
        s.state == SessionState::RoundOver(Outcome::Quit),
        due(s.timer, now),
    ensures
        after_timer(s, now).1,
        after_timer(s, now).0.state is Terminated,
{
}

/// An ended session stays as it is: no event, local move, inbound frame,
/// click or timer check changes it, nothing is sent, and the timer is not
/// armed again.
pub proof fn lemma_terminated_is_final(
    s: SessionView,
    ev: ProtocolEvent,
    row: int,
    col: int,
    inbound: Inbound,
    click: Option<(i64, i64)>,
    now: u64,
)
    requires
        s.state is Terminated,
    ensures
        after_event(s, ev, now) == s,
        !move_accepted(s, row, col),
        after_local_move(s, row, col, now) == s,
        after_inbound(s, inbound, now) == s,
        after_click(s, click, now) == s,
        click_frame(s, click) is None,
        after_timer(s, now) == (s, false),
{
}

} // verus!
