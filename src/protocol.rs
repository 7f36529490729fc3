use crate::board::Move;
use crate::json::{
    as_coord, as_int, find, is_minus_one, lookup, parse_json, parse_limits_hold, parsed_json,
    within_parse_limits, JsonValue,
};
use vstd::prelude::*;
use vstd::string::StringExecFns;

verus! {

/// How a round ended, seen from the local player.
#[derive(Copy, Clone, Debug, PartialEq, Eq, Structural)]
pub enum Outcome {
    Won,
    Lost,
    Draw,
    Quit,
}

/// What an inbound frame tells the session.
#[derive(Clone, Debug, PartialEq, Eq)]
pub enum ProtocolEvent {
    /// The server acknowledged a request.
    Ack,
    /// The server reported an error, with its text.
    Error(String),
    /// The opponent played this move; the round goes on.
    OpponentMove(Move),
    /// A round update: its outcome, if the round is over, and the last move
    /// it reports, if any.
    RoundResult(Option<Outcome>, Option<Move>),
    /// The local player moves first.
    AssignedFirstPlayer,
    /// A well-formed message of no known shape.
    Unrecognized,
}

/// Why a frame was not decoded.
#[derive(Copy, Clone, Debug, PartialEq, Eq, Structural)]
pub enum DecodeError {
    /// The frame is not well-formed JSON.
    MalformedJson,
    /// The frame is too long, too deeply bracketed, or holds too long a run
    /// of digits to be handed to the parser.
    Unsupported,
}

/// The outcome a `"gameover"` text names.
pub open spec fn outcome_named(t: Seq<char>) -> Option<Outcome> {
    if t == "won"@ {
        Some(Outcome::Won)
    } else if t == "lost"@ {
        Some(Outcome::Lost)
    } else if t == "draw"@ {
        Some(Outcome::Draw)
    } else if t == "quit"@ {
        Some(Outcome::Quit)
    } else {
        None
    }
}

/// A two-element array of coordinates, as a move.
pub open spec fn move_in(v: Option<JsonValue>) -> Option<Move> {
    match v {
        Some(JsonValue::Array(items)) => {
            if items@.len() == 2 && as_int(items@[0]) is Some && as_int(items@[1]) is Some {
                let r = as_int(items@[0])->0;
                let c = as_int(items@[1])->0;
                if 0 <= r < 3 && 0 <= c < 3 {
                    Some(Move { row: r as usize, col: c as usize })
                } else {
                    None
                }
            } else {
                None
            }
        },
        _ => None,
    }
}

/// The array `[-1]`: the local player goes first.
pub open spec fn is_first_marker(v: Option<JsonValue>) -> bool {
    match v {
        Some(JsonValue::Array(items)) => items@.len() == 1 && as_int(items@[0]) == Some(-1int),
        _ => false,
    }
}

/// The move payload of an update: `"last_move"`, or else `"move"`.
pub open spec fn reported(entries: Seq<(String, JsonValue)>) -> Option<JsonValue> {
    if lookup(entries, "last_move"@) is Some {
        lookup(entries, "last_move"@)
    } else {
        lookup(entries, "move"@)
    }
}

/// The event a `"gameover"` update carries.
pub open spec fn update_event(status: Seq<char>, mv: Option<JsonValue>) -> ProtocolEvent {
    if status == "false"@ {
        if is_first_marker(mv) {
            ProtocolEvent::AssignedFirstPlayer
        } else if move_in(mv) is Some {
            ProtocolEvent::OpponentMove(move_in(mv)->0)
        } else {
            ProtocolEvent::RoundResult(None, None)
        }
    } else if outcome_named(status) is Some {
        ProtocolEvent::RoundResult(outcome_named(status), move_in(mv))
    } else {
        ProtocolEvent::Unrecognized
    }
}

/// The event a parsed frame carries, by its first known top-level key:
/// `"ok"`, then `"error"`, then `"gameover"`.
pub open spec fn event_of(v: JsonValue) -> ProtocolEvent {
    match v {
        JsonValue::Object(entries) => {
            let e = entries@;
            if lookup(e, "ok"@) is Some {
                ProtocolEvent::Ack
            } else if lookup(e, "error"@) is Some {
                match lookup(e, "error"@) {
                    Some(JsonValue::Str(t)) => ProtocolEvent::Error(t),
                    _ => ProtocolEvent::Unrecognized,
                }
            } else {
                match lookup(e, "gameover"@) {
                    Some(JsonValue::Str(t)) => update_event(t@, reported(e)),
                    _ => ProtocolEvent::Unrecognized,
                }
            }
        },
        _ => ProtocolEvent::Unrecognized,
    }
}

/// What decoding a frame yields.
pub open spec fn decoded(frame: Seq<char>) -> Result<ProtocolEvent, DecodeError> {
    if !within_parse_limits(frame) {
        Err(DecodeError::Unsupported)
    } else {
        match parsed_json(frame) {
            Some(v) => Ok(event_of(v)),
            None => Err(DecodeError::MalformedJson),
        }
    }
}

/// The decimal text of a coordinate below 3.
pub open spec fn digit(n: int) -> Seq<char> {
    if n == 0 {
        "0"@
    } else if n == 1 {
        "1"@
    } else {
        "2"@
    }
}

/// The frame that announces a move: `{"move":[row,col]}`.
pub open spec fn move_frame(row: int, col: int) -> Seq<char> {
    "{\"move\":["@ + digit(row) + ","@ + digit(col) + "]}"@
}

/// The handshake frame that names the local player and the wanted rival.
pub open spec fn connect_frame(local_id: Seq<char>, rival_id: Seq<char>) -> Seq<char> {
    "{\"message\":\"connect\",\"id\":\""@ + local_id + "\",\"rival\":\""@ + rival_id + "\"}"@
}

/// The value a looked-up reference points to.
pub open spec fn deref_opt(v: Option<&JsonValue>) -> Option<JsonValue> {
    match v {
        Some(x) => Some(*x),
        None => None,
    }
}

fn outcome_of(t: &String) -> (r: Option<Outcome>)
    ensures
        r == outcome_named(t@),
{
    if *t == String::from_str("won") {
        Some(Outcome::Won)
    } else if *t == String::from_str("lost") {
        Some(Outcome::Lost)
    } else if *t == String::from_str("draw") {
        Some(Outcome::Draw)
    } else if *t == String::from_str("quit") {
        Some(Outcome::Quit)
    } else {
        None
    }
}

fn move_of(v: Option<&JsonValue>) -> (r: Option<Move>)
    ensures
        r == move_in(deref_opt(v)),
{
    match v {
        Some(JsonValue::Array(items)) => {
            if items.len() != 2 {
                return None;
            }
            match (as_coord(&items[0]), as_coord(&items[1])) {
                (Some(row), Some(col)) => Some(Move { row, col }),
                _ => None,
            }
        },
        _ => None,
    }
}

fn is_first(v: Option<&JsonValue>) -> (r: bool)
    ensures
        r == is_first_marker(deref_opt(v)),
{
    match v {
        Some(JsonValue::Array(items)) => items.len() == 1 && is_minus_one(&items[0]),
        _ => false,
    }
}

fn update_of(status: &String, entries: &Vec<(String, JsonValue)>) -> (r: ProtocolEvent)
    ensures
        r == update_event(status@, reported(entries@)),
{
    let mv = match find(entries, &String::from_str("last_move")) {
        Some(m) => Some(m),
        None => find(entries, &String::from_str("move")),
    };
    if *status == String::from_str("false") {
        if is_first(mv) {
            ProtocolEvent::AssignedFirstPlayer
        } else {
            match move_of(mv) {
                Some(m) => ProtocolEvent::OpponentMove(m),
                None => ProtocolEvent::RoundResult(None, None),
            }
        }
    } else {
        match outcome_of(status) {
            Some(o) => ProtocolEvent::RoundResult(Some(o), move_of(mv)),
            None => ProtocolEvent::Unrecognized,
        }
    }
}

/// The event a parsed frame carries.
pub fn decode_value(v: &JsonValue) -> (r: ProtocolEvent)
    ensures
        r == event_of(*v),
{
    match v {
        JsonValue::Object(entries) => {
            if find(entries, &String::from_str("ok")).is_some() {
                ProtocolEvent::Ack
            } else {
                match find(entries, &String::from_str("error")) {
                    Some(JsonValue::Str(t)) => ProtocolEvent::Error(t.clone()),
                    Some(_) => ProtocolEvent::Unrecognized,
                    None => match find(entries, &String::from_str("gameover")) {
                        Some(JsonValue::Str(t)) => update_of(t, entries),
                        _ => ProtocolEvent::Unrecognized,
                    },
                }
            }
        },
        _ => ProtocolEvent::Unrecognized,
    }
}

/// Decodes an inbound text frame. Text beyond the parser's limits or not
/// JSON is an error; JSON of no known shape decodes to `Unrecognized`.
pub fn decode(frame: &str) -> (r: Result<ProtocolEvent, DecodeError>)
    ensures
        r == decoded(frame@),
{
    if !parse_limits_hold(frame) {
        return Err(DecodeError::Unsupported);
    }
    match parse_json(frame) {
        Some(v) => Ok(decode_value(&v)),
        None => Err(DecodeError::MalformedJson),
    }
}

fn append_digit(s: &mut String, n: usize)
    requires
        n < 3,
    ensures
        final(s)@ == old(s)@ + digit(n as int),
{
    if n == 0 {
        s.append("0");
    } else if n == 1 {
        s.append("1");
    } else {
        s.append("2");
    }
}

/// The frame that announces a local move: `{"move":[row,col]}`.
pub fn encode_move(row: usize, col: usize) -> (r: String)
    requires
        row < 3,
        col < 3,
    ensures
        r@ == move_frame(row as int, col as int),
{
    let mut s = String::from_str("{\"move\":[");
    append_digit(&mut s, row);
    s.append(",");
    append_digit(&mut s, col);
    s.append("]}");
    s
}

/// The handshake frame:
/// `{"message":"connect","id":"<local_id>","rival":"<rival_id>"}`.
pub fn encode_connect(local_id: &str, rival_id: &str) -> (r: String)
    ensures
        r@ == connect_frame(local_id@, rival_id@),
{
    let mut s = String::from_str("{\"message\":\"connect\",\"id\":\"");
    s.append(local_id);
    s.append("\",\"rival\":\"");
    s.append(rival_id);
    s.append("\"}");
    s
}

} // verus!
