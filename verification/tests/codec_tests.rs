use pong_session::codec::{decode_state, encode_state, is_end_of_game, StateSnapshot};

fn frame_from_floats(
    left: f32,
    right: f32,
    ball_x: f32,
    ball_y: f32,
    speed_x: f32,
    speed_y: f32,
    score1: u8,
    score2: u8,
) -> Vec<u8> {
    let mut bytes = Vec::new();
    bytes.extend_from_slice(&left.to_le_bytes());
    bytes.extend_from_slice(&right.to_le_bytes());
    bytes.extend_from_slice(&ball_x.to_le_bytes());
    bytes.extend_from_slice(&ball_y.to_le_bytes());
    bytes.extend_from_slice(&speed_x.to_le_bytes());
    bytes.extend_from_slice(&speed_y.to_le_bytes());
    bytes.push(score1);
    bytes.push(score2);
    bytes
}

#[test]
fn wrong_length_is_ignored() {
    assert_eq!(decode_state(&[]), None);
    assert_eq!(decode_state(&[0u8; 25]), None);
    assert_eq!(decode_state(&[0u8; 27]), None);
    assert_eq!(decode_state(&[0xffu8; 13]), None);
    assert_eq!(decode_state(&[0xffu8; 1024]), None);
}

#[test]
fn zero_frame_decodes_to_zero_snapshot() {
    let snap = decode_state(&[0u8; 26]).expect("26 bytes must decode");
    assert_eq!(f32::from_bits(snap.left_y_bits), 0.0);
    assert_eq!(f32::from_bits(snap.right_y_bits), 0.0);
    assert_eq!(f32::from_bits(snap.ball_x_bits), 0.0);
    assert_eq!(f32::from_bits(snap.ball_y_bits), 0.0);
    assert_eq!(snap.player1_score, 0);
    assert_eq!(snap.player2_score, 0);
}

#[test]
fn decode_recovers_transmitted_values() {
    let bytes = frame_from_floats(12.5, -3.75, 100.0, 42.25, 7.0, -1.5, 9, 11);
    let snap = decode_state(&bytes).expect("26 bytes must decode");
    assert_eq!(snap.left_y_bits, 12.5f32.to_bits());
    assert_eq!(snap.right_y_bits, (-3.75f32).to_bits());
    assert_eq!(snap.ball_x_bits, 100.0f32.to_bits());
    assert_eq!(snap.ball_y_bits, 42.25f32.to_bits());
    assert_eq!(snap.player1_score, 9);
    assert_eq!(snap.player2_score, 11);
}

#[test]
fn encode_then_decode_is_identity() {
    let snap = StateSnapshot {
        left_y_bits: 1.5f32.to_bits(),
        right_y_bits: (-2.25f32).to_bits(),
        ball_x_bits: 640.0f32.to_bits(),
        ball_y_bits: 0.125f32.to_bits(),
        player1_score: 3,
        player2_score: 255,
    };
    let reserved = [9u8, 8, 7, 6, 5, 4, 3, 2];
    let bytes = encode_state(&snap, &reserved);
    assert_eq!(bytes.len(), 26);
    assert_eq!(decode_state(&bytes), Some(snap));
}

#[test]
fn encode_is_byte_exact() {
    let snap = StateSnapshot {
        left_y_bits: 12.5f32.to_bits(),
        right_y_bits: (-3.75f32).to_bits(),
        ball_x_bits: 100.0f32.to_bits(),
        ball_y_bits: 42.25f32.to_bits(),
        player1_score: 9,
        player2_score: 11,
    };
    let bytes = encode_state(&snap, &7.0f32.to_le_bytes().iter().chain((-1.5f32).to_le_bytes().iter()).copied().collect::<Vec<u8>>());
    let expected = frame_from_floats(12.5, -3.75, 100.0, 42.25, 7.0, -1.5, 9, 11);
    assert_eq!(bytes, expected);
}

#[test]
fn decode_then_encode_restores_the_frame() {
    let original = frame_from_floats(1.0, 2.0, 3.0, 4.0, 5.0, 6.0, 1, 2);
    let snap = decode_state(&original).expect("26 bytes must decode");
    let rebuilt = encode_state(&snap, &original[16..24]);
    assert_eq!(rebuilt, original);
}

#[test]
fn every_text_frame_signals_game_end() {
    assert!(is_end_of_game(""));
    assert!(is_end_of_game("42 wins"));
    assert!(is_end_of_game("anything at all"));
}
