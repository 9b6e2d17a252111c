use pong_session::codec::StateSnapshot;
use pong_session::session::{
    Gameplay, PollEvent, Session, SessionAction, SessionError, SessionPhase,
};

fn snapshot(left: f32, right: f32, x: f32, y: f32, s1: u8, s2: u8) -> StateSnapshot {
    StateSnapshot {
        left_y_bits: left.to_bits(),
        right_y_bits: right.to_bits(),
        ball_x_bits: x.to_bits(),
        ball_y_bits: y.to_bits(),
        player1_score: s1,
        player2_score: s2,
    }
}

fn ready_session(local_id: u64) -> Session {
    let mut session = Session::new(local_id);
    session
        .create_game(
            Some(String::from("g-1")),
            Some(9),
            Some(1),
            String::from("rival"),
        )
        .expect("complete response");
    session
}

#[test]
fn cancel_while_connecting_closes_without_spawning() {
    let mut session = Session::new(42);
    assert_eq!(session.phase, SessionPhase::Connecting);
    let action = session.cancel_session();
    assert_eq!(action, SessionAction::SendCancelNotice);
    assert_ne!(action, SessionAction::SpawnTasks);
    assert_eq!(session.phase, SessionPhase::Closed);
    assert_eq!(session.outcome, None);
}

#[test]
fn matchmaking_response_fields_are_required_in_order() {
    let mut session = Session::new(1);
    assert_eq!(
        session.create_game(None, None, None, String::new()),
        Err(SessionError::MissingGameId)
    );
    assert_eq!(
        session.create_game(Some(String::from("g")), None, None, String::new()),
        Err(SessionError::MissingOpponentId)
    );
    assert_eq!(
        session.create_game(Some(String::from("g")), Some(2), None, String::new()),
        Err(SessionError::MissingPlayerSide)
    );
    assert_eq!(session.info, None);
    assert_eq!(
        session.create_game(Some(String::from("g")), Some(2), Some(0), String::from("foe")),
        Ok(())
    );
    let info = session.info.clone().expect("match stored");
    assert_eq!(info.game_id, "g");
    assert_eq!(info.player_side, 0);
    assert_eq!(info.opponent_name, "foe");
    assert_eq!(session.phase, SessionPhase::Connecting);
}

#[test]
fn launch_spawns_tasks_and_activates() {
    let mut session = ready_session(42);
    let action = session.launch_game();
    assert_eq!(action, SessionAction::SpawnTasks);
    assert_eq!(session.phase, SessionPhase::Active);
}

#[test]
fn snapshots_overwrite_the_visible_stats() {
    let mut session = ready_session(42);
    session.launch_game();
    let first = snapshot(1.0, 2.0, 3.0, 4.0, 0, 0);
    let second = snapshot(5.0, 6.0, 7.0, 8.0, 1, 2);
    assert_eq!(
        session.handle_game_events(PollEvent::Snapshot(first)),
        SessionAction::DoNothing
    );
    assert_eq!(session.stats.snapshot, first);
    assert_eq!(
        session.handle_game_events(PollEvent::Snapshot(second)),
        SessionAction::DoNothing
    );
    assert_eq!(session.stats.snapshot, second, "only the latest snapshot shows");
    assert_eq!(session.phase, SessionPhase::Active);
    assert_eq!(session.outcome, None);
}

#[test]
fn end_of_game_derives_the_outcome_and_requests_the_stop() {
    let mut session = ready_session(42);
    session.launch_game();
    let action = session.handle_game_events(PollEvent::EndOfGame(String::from("42 wins")));
    assert_eq!(action, SessionAction::SendStop);
    assert_eq!(session.phase, SessionPhase::Ending);
    assert_eq!(session.outcome, Some(true));
    assert!(session.stats.winner);
}

#[test]
fn end_of_game_with_other_winner_loses() {
    let mut session = ready_session(7);
    session.launch_game();
    session.handle_game_events(PollEvent::EndOfGame(String::from("42 wins")));
    assert_eq!(session.outcome, Some(false));
    assert!(!session.stats.winner);
}

#[test]
fn foreign_signal_ends_the_session_with_no_outcome() {
    let mut session = ready_session(42);
    session.launch_game();
    let action = session.handle_game_events(PollEvent::SignalRaised);
    assert_eq!(action, SessionAction::DoNothing);
    assert_eq!(session.phase, SessionPhase::Ending);
    assert_eq!(session.outcome, None);
}

#[test]
fn empty_poll_changes_nothing() {
    let mut session = ready_session(42);
    session.launch_game();
    let stats_before = session.stats;
    assert_eq!(session.handle_game_events(PollEvent::Nothing), SessionAction::DoNothing);
    assert_eq!(session.phase, SessionPhase::Active);
    assert_eq!(session.stats, stats_before);
}

#[test]
fn session_closes_once_the_outbound_task_is_done() {
    let mut session = ready_session(42);
    session.launch_game();
    session.handle_game_events(PollEvent::EndOfGame(String::from("42 wins")));
    session.handle_endgame(false);
    assert_eq!(session.phase, SessionPhase::Ending, "still waiting for the outbound task");
    session.handle_endgame(true);
    assert_eq!(session.phase, SessionPhase::Closed);
    assert_eq!(session.outcome, Some(true), "the outcome survives teardown");
}
