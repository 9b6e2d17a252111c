use pong_session::inbound::{inbound_continue, inbound_step, InboundAction, InboundMessage};

#[test]
fn well_formed_binary_frame_publishes_a_snapshot() {
    let msg = InboundMessage::Binary(vec![0u8; 26]);
    match inbound_step(msg) {
        InboundAction::PublishSnapshot(snap) => {
            assert_eq!(snap.left_y_bits, 0);
            assert_eq!(snap.right_y_bits, 0);
            assert_eq!(snap.ball_x_bits, 0);
            assert_eq!(snap.ball_y_bits, 0);
            assert_eq!(snap.player1_score, 0);
            assert_eq!(snap.player2_score, 0);
        }
        other => panic!("expected a snapshot, got {:?}", other),
    }
}

#[test]
fn malformed_binary_frame_is_ignored() {
    assert_eq!(inbound_step(InboundMessage::Binary(vec![1u8; 25])), InboundAction::Ignore);
    assert_eq!(inbound_step(InboundMessage::Binary(vec![1u8; 27])), InboundAction::Ignore);
    assert_eq!(inbound_step(InboundMessage::Binary(Vec::new())), InboundAction::Ignore);
}

#[test]
fn text_frame_publishes_the_end_of_game_payload() {
    let msg = InboundMessage::Text(String::from("42 wins"));
    assert_eq!(inbound_step(msg), InboundAction::PublishEnd(String::from("42 wins")));
}

#[test]
fn close_and_other_frames_are_ignored() {
    assert_eq!(inbound_step(InboundMessage::Close), InboundAction::Ignore);
    assert_eq!(inbound_step(InboundMessage::Other), InboundAction::Ignore);
}

#[test]
fn task_reads_on_until_publish_fails_or_signal_raised() {
    assert!(inbound_continue(false, false));
    assert!(!inbound_continue(true, false));
    assert!(!inbound_continue(false, true));
    assert!(!inbound_continue(true, true));
}
