use tictactoe::board::Move;
use tictactoe::json::JsonValue;
use tictactoe::protocol::{
    decode, decode_value, encode_connect, encode_move, DecodeError, Outcome, ProtocolEvent,
};

#[test]
fn first_player_marker_decodes_to_assignment() {
    assert_eq!(
        decode("{\"gameover\":\"false\",\"last_move\":[-1]}"),
        Ok(ProtocolEvent::AssignedFirstPlayer)
    );
}

#[test]
fn ongoing_update_carries_the_opponent_move() {
    assert_eq!(
        decode("{\"gameover\":\"false\",\"last_move\":[1,2]}"),
        Ok(ProtocolEvent::OpponentMove(Move { row: 1, col: 2 }))
    );
}

#[test]
fn move_key_is_read_when_last_move_is_absent() {
    assert_eq!(
        decode("{\"gameover\":\"false\",\"move\":[0,1]}"),
        Ok(ProtocolEvent::OpponentMove(Move { row: 0, col: 1 }))
    );
}

#[test]
fn finished_rounds_decode_with_their_outcome() {
    assert_eq!(
        decode("{\"gameover\":\"won\",\"last_move\":[0,0]}"),
        Ok(ProtocolEvent::RoundResult(Some(Outcome::Won), Some(Move { row: 0, col: 0 })))
    );
    assert_eq!(
        decode("{\"gameover\":\"lost\",\"last_move\":[2,2]}"),
        Ok(ProtocolEvent::RoundResult(Some(Outcome::Lost), Some(Move { row: 2, col: 2 })))
    );
    assert_eq!(
        decode("{\"gameover\":\"draw\",\"last_move\":[1,0]}"),
        Ok(ProtocolEvent::RoundResult(Some(Outcome::Draw), Some(Move { row: 1, col: 0 })))
    );
    assert_eq!(
        decode("{\"gameover\":\"quit\",\"last_move\":[-1]}"),
        Ok(ProtocolEvent::RoundResult(Some(Outcome::Quit), None))
    );
}

#[test]
fn ongoing_update_without_a_usable_move() {
    assert_eq!(
        decode("{\"gameover\":\"false\",\"last_move\":[5,1]}"),
        Ok(ProtocolEvent::RoundResult(None, None))
    );
    assert_eq!(decode("{\"gameover\":\"false\"}"), Ok(ProtocolEvent::RoundResult(None, None)));
}

#[test]
fn ack_and_error_messages() {
    assert_eq!(decode("{\"ok\":\"connected\"}"), Ok(ProtocolEvent::Ack));
    assert_eq!(
        decode("{\"error\":\"no such rival\"}"),
        Ok(ProtocolEvent::Error(String::from("no such rival")))
    );
    assert_eq!(decode("{\"error\":3}"), Ok(ProtocolEvent::Unrecognized));
    assert_eq!(decode("{\"ok\":1,\"error\":\"x\"}"), Ok(ProtocolEvent::Ack));
}

#[test]
fn unknown_shapes_are_unrecognized() {
    assert_eq!(decode("{\"hello\":\"world\"}"), Ok(ProtocolEvent::Unrecognized));
    assert_eq!(decode("[1,2]"), Ok(ProtocolEvent::Unrecognized));
    assert_eq!(decode("{\"gameover\":\"maybe\"}"), Ok(ProtocolEvent::Unrecognized));
    assert_eq!(decode("{\"gameover\":false}"), Ok(ProtocolEvent::Unrecognized));
}

#[test]
fn malformed_text_is_a_decode_error() {
    assert_eq!(decode("{\"gameover\":"), Err(DecodeError::MalformedJson));
    assert_eq!(decode("not json"), Err(DecodeError::MalformedJson));
    assert_eq!(decode(""), Err(DecodeError::MalformedJson));
}

#[test]
fn frames_beyond_the_parser_limits_are_refused() {
    assert_eq!(decode("[1e99999999999999999999]"), Err(DecodeError::Unsupported));
    assert_eq!(decode("[1e1234567890]"), Err(DecodeError::Unsupported));
    let deep = format!("{}{}", "[".repeat(65), "]".repeat(65));
    assert_eq!(decode(&deep), Err(DecodeError::Unsupported));
    let long = format!("{{\"ok\":\"{}\"}}", "a".repeat(5000));
    assert_eq!(decode(&long), Err(DecodeError::Unsupported));
}

#[test]
fn trailing_comma_before_a_brace_is_refused() {
    assert_eq!(decode("[{\"a\":{\"b\":1,},2]"), Err(DecodeError::Unsupported));
    assert_eq!(decode("{\"ok\":1 ,\n }"), Err(DecodeError::Unsupported));
    assert_eq!(decode("{\"ok\":1,}"), Err(DecodeError::Unsupported));
    assert_eq!(decode("[1,]"), Err(DecodeError::MalformedJson));
    assert_eq!(decode("{\"ok\":\"a, b\"}"), Ok(ProtocolEvent::Ack));
}

#[test]
fn frames_at_the_parser_limits_are_parsed() {
    assert_eq!(decode("[1e123456789]"), Ok(ProtocolEvent::Unrecognized));
    let deep = format!("{}{}", "[".repeat(64), "]".repeat(64));
    assert_eq!(decode(&deep), Ok(ProtocolEvent::Unrecognized));
    let long = format!("{{\"ok\":\"{}\"}}", "a".repeat(4000));
    assert_eq!(decode(&long), Ok(ProtocolEvent::Ack));
}

#[test]
fn decode_value_reads_a_built_document() {
    let v = JsonValue::Object(vec![
        (String::from("gameover"), JsonValue::Str(String::from("false"))),
        (String::from("last_move"), JsonValue::Array(vec![JsonValue::Int(-1)])),
    ]);
    assert_eq!(decode_value(&v), ProtocolEvent::AssignedFirstPlayer);
    let w = JsonValue::Object(vec![
        (String::from("gameover"), JsonValue::Str(String::from("draw"))),
        (String::from("last_move"), JsonValue::Array(vec![JsonValue::UInt(2), JsonValue::Int(1)])),
    ]);
    assert_eq!(
        decode_value(&w),
        ProtocolEvent::RoundResult(Some(Outcome::Draw), Some(Move { row: 2, col: 1 }))
    );
    assert_eq!(decode_value(&JsonValue::Null), ProtocolEvent::Unrecognized);
}

#[test]
fn move_frame_text() {
    assert_eq!(encode_move(2, 0), "{\"move\":[2,0]}");
    assert_eq!(encode_move(1, 1), "{\"move\":[1,1]}");
}

#[test]
fn connect_frame_text() {
    assert_eq!(
        encode_connect("ann", "bob"),
        "{\"message\":\"connect\",\"id\":\"ann\",\"rival\":\"bob\"}"
    );
    assert_eq!(encode_connect("ann", ""), "{\"message\":\"connect\",\"id\":\"ann\",\"rival\":\"\"}");
}
