//! The session controller: one match from connection to teardown.
//!
//! The controller is a state machine over four phases, `Connecting →
//! Active → Ending → Closed`. Each step takes what the surrounding runtime
//! observed — a matchmaking response, a published snapshot, the
//! end-of-game payload, the termination signal — and yields the next state
//! together with the one action the runtime must perform (spawn the tasks,
//! hand the outbound task its stop token, send the cancellation notice).
//! The runtime performs I/O and nothing else; every decision is made, and
//! proved, here.

use vstd::prelude::*;
use vstd::utf8::encode_utf8;
use crate::codec::StateSnapshot;
use crate::outcome::{determine_outcome, has_substring, spec_decimal_digits};
use crate::signal::TerminationSignal;

verus! {

/// Where a session stands in its life cycle.
#[derive(Clone, Copy, Debug, PartialEq, Eq, Structural)]
pub enum SessionPhase {
    /// Matchmaking and the socket handshake; no tasks exist yet.
    Connecting,
    /// Both tasks run; the controller polls for published state.
    Active,
    /// Teardown was requested; waiting for the outbound task to finish.
    Ending,
    /// Terminal: the session object is to be discarded.
    Closed,
}

/// One match as granted by matchmaking; immutable for the session's life.
#[derive(Clone, Debug, PartialEq)]
pub struct GameSession {
    pub game_id: String,
    pub player_side: u64,
    pub opponent_name: String,
}

/// Why a matchmaking response was rejected.
#[derive(Clone, Copy, Debug, PartialEq, Eq, Structural)]
pub enum SessionError {
    MissingGameId,
    MissingOpponentId,
    MissingPlayerSide,
}

/// The externally visible game state: the latest snapshot and, once the
/// game has ended, whether the local player won.
#[derive(Clone, Copy, Debug, PartialEq, Eq, Structural)]
pub struct GameStats {
    pub snapshot: StateSnapshot,
    pub winner: bool,
}

/// All-zero stats: the state before any frame has arrived.
pub open spec fn spec_zero_stats() -> GameStats {
    GameStats {
        snapshot: StateSnapshot {
            left_y_bits: 0,
            right_y_bits: 0,
            ball_x_bits: 0,
            ball_y_bits: 0,
            player1_score: 0,
            player2_score: 0,
        },
        winner: false,
    }
}

/// What the controller observed at one poll while the session is active.
#[derive(Clone, Debug, PartialEq)]
pub enum PollEvent {
    /// The inbound task published a new snapshot.
    Snapshot(StateSnapshot),
    /// The inbound task published the end-of-game payload.
    EndOfGame(String),
    /// The termination signal was found raised by another party.
    SignalRaised,
    /// Nothing new this poll.
    Nothing,
}

/// The one side effect the surrounding runtime must perform after a step.
#[derive(Clone, Copy, Debug, PartialEq, Eq, Structural)]
pub enum SessionAction {
    /// Nothing to do beyond the state change.
    DoNothing,
    /// Split the socket and start the outbound and inbound tasks.
    SpawnTasks,
    /// Hand the outbound task its one-shot stop token.
    SendStop,
    /// Tell the server that matchmaking was abandoned.
    SendCancelNotice,
}

/// Whether the local player won, given the end-of-game payload: their
/// identifier, as a decimal string, occurs in the payload's UTF-8 form.
pub open spec fn spec_won(text: Seq<char>, local_id: u64) -> bool {
    has_substring(encode_utf8(text), spec_decimal_digits(local_id as nat))
}

/// The controller's state for one session.
pub struct Session {
    pub phase: SessionPhase,
    pub local_player_id: u64,
    pub info: Option<GameSession>,
    pub stats: GameStats,
    pub outcome: Option<bool>,
    pub signal: TerminationSignal,
}

impl Session {
    /// Internal consistency, established by `new` and kept by every step.
    pub open spec fn wf(&self) -> bool {
        &&& self.phase == SessionPhase::Connecting ==> self.outcome is None
        &&& self.phase == SessionPhase::Active ==> self.info is Some && self.outcome is None
        &&& self.phase == SessionPhase::Ending ==> self.info is Some
            && self.signal.spec_raised()
        &&& self.outcome is Some ==> self.outcome == Some(self.stats.winner)
    }

    /// A fresh session for the given local player: connecting, no match
    /// yet, zeroed stats, no outcome, signal unraised.
    pub fn new(local_player_id: u64) -> (r: Session)
        ensures
            r.wf(),
            r.phase == SessionPhase::Connecting,
            r.local_player_id == local_player_id,
            r.info is None,
            r.stats == spec_zero_stats(),
            r.outcome is None,
            !r.signal.spec_raised(),
    {
        Session {
            phase: SessionPhase::Connecting,
            local_player_id,
            info: None,
            stats: GameStats {
                snapshot: StateSnapshot {
                    left_y_bits: 0,
                    right_y_bits: 0,
                    ball_x_bits: 0,
                    ball_y_bits: 0,
                    player1_score: 0,
                    player2_score: 0,
                },
                winner: false,
            },
            outcome: None,
            signal: TerminationSignal::new(),
        }
    }
}

/// The session engine's surface: the decisions the original drives its
/// match through, one checked step per poll. Implemented by [`Session`].
pub trait Gameplay: Sized {
    /// The session's place in its life cycle.
    spec fn cur_phase(&self) -> SessionPhase;

    /// The local player's identifier.
    spec fn local_id(&self) -> u64;

    /// The match granted by matchmaking, once accepted.
    spec fn match_info(&self) -> Option<GameSession>;

    /// The externally visible stats.
    spec fn game_stats(&self) -> GameStats;

    /// Whether the local player won, once derived.
    spec fn game_outcome(&self) -> Option<bool>;

    /// The controller's view of the termination signal.
    spec fn signal_raised(&self) -> bool;

    /// Internal consistency.
    spec fn wf(&self) -> bool;

    /// Accept or reject a matchmaking response, given as the fields the
    /// response may carry. On success the match is stored and the session
    /// stays `Connecting`, ready to launch; each absent field is rejected
    /// with its own error, checked in the response's field order.
    fn create_game(
        &mut self,
        game_id: Option<String>,
        opponent_id: Option<u64>,
        player_side: Option<u64>,
        opponent_name: String,
    ) -> (r: Result<(), SessionError>)
        requires
            old(self).wf(),
            old(self).cur_phase() == SessionPhase::Connecting,
        ensures
            final(self).wf(),
            final(self).cur_phase() == SessionPhase::Connecting,
            final(self).local_id() == old(self).local_id(),
            final(self).game_stats() == old(self).game_stats(),
            final(self).game_outcome() == old(self).game_outcome(),
            final(self).signal_raised() == old(self).signal_raised(),
            game_id is None ==> r == Err::<(), SessionError>(SessionError::MissingGameId)
                && final(self).match_info() == old(self).match_info(),
            game_id is Some && opponent_id is None ==> r == Err::<(), SessionError>(
                SessionError::MissingOpponentId,
            ) && final(self).match_info() == old(self).match_info(),
            game_id is Some && opponent_id is Some && player_side is None ==> r == Err::<
                (),
                SessionError,
            >(SessionError::MissingPlayerSide) && final(self).match_info() == old(
                self,
            ).match_info(),
            game_id is Some && opponent_id is Some && player_side is Some ==> {
                &&& r is Ok
                &&& final(self).match_info() is Some
                &&& final(self).match_info().unwrap().game_id@ == game_id.unwrap()@
                &&& final(self).match_info().unwrap().player_side == player_side.unwrap()
                &&& final(self).match_info().unwrap().opponent_name@ == opponent_name@
            },
    ;

    /// The handshake succeeded: enter `Active` and have the runtime spawn
    /// the outbound and inbound tasks.
    fn launch_game(&mut self) -> (r: SessionAction)
        requires
            old(self).wf(),
            old(self).cur_phase() == SessionPhase::Connecting,
            old(self).match_info() is Some,
        ensures
            final(self).wf(),
            final(self).cur_phase() == SessionPhase::Active,
            final(self).local_id() == old(self).local_id(),
            final(self).match_info() == old(self).match_info(),
            final(self).game_stats() == old(self).game_stats(),
            final(self).game_outcome() == old(self).game_outcome(),
            final(self).signal_raised() == old(self).signal_raised(),
            r == SessionAction::SpawnTasks,
    ;

    /// One controller poll while the session is active. A snapshot
    /// overwrites the visible stats; the end-of-game payload derives the
    /// outcome, raises the signal and moves to `Ending` with a stop token
    /// for the outbound task; a signal raised by another party moves to
    /// `Ending` with no outcome; and an empty poll changes nothing.
    fn handle_game_events(&mut self, event: PollEvent) -> (r: SessionAction)
        requires
            old(self).wf(),
            old(self).cur_phase() == SessionPhase::Active,
        ensures
            final(self).wf(),
            final(self).local_id() == old(self).local_id(),
            final(self).match_info() == old(self).match_info(),
            old(self).signal_raised() ==> final(self).signal_raised(),
            match event {
                PollEvent::Snapshot(s) => {
                    &&& final(self).cur_phase() == SessionPhase::Active
                    &&& final(self).game_stats() == (GameStats {
                        snapshot: s,
                        winner: old(self).game_stats().winner,
                    })
                    &&& final(self).game_outcome() == old(self).game_outcome()
                    &&& final(self).signal_raised() == old(self).signal_raised()
                    &&& r == SessionAction::DoNothing
                },
                PollEvent::EndOfGame(text) => {
                    &&& final(self).cur_phase() == SessionPhase::Ending
                    &&& final(self).game_outcome() == Some(
                        spec_won(text@, old(self).local_id()),
                    )
                    &&& final(self).game_stats() == (GameStats {
                        snapshot: old(self).game_stats().snapshot,
                        winner: spec_won(text@, old(self).local_id()),
                    })
                    &&& final(self).signal_raised()
                    &&& r == SessionAction::SendStop
                },
                PollEvent::SignalRaised => {
                    &&& final(self).cur_phase() == SessionPhase::Ending
                    &&& final(self).game_stats() == old(self).game_stats()
                    &&& final(self).game_outcome() == old(self).game_outcome()
                    &&& final(self).signal_raised()
                    &&& r == SessionAction::DoNothing
                },
                PollEvent::Nothing => {
                    &&& final(self).cur_phase() == SessionPhase::Active
                    &&& final(self).game_stats() == old(self).game_stats()
                    &&& final(self).game_outcome() == old(self).game_outcome()
                    &&& final(self).signal_raised() == old(self).signal_raised()
                    &&& r == SessionAction::DoNothing
                },
            },
    ;

    /// One controller poll while the session is ending: once the outbound
    /// task has acknowledged its stop — or the bounded grace period has
    /// run out — the session is closed; until then nothing changes.
    fn handle_endgame(&mut self, outbound_done: bool)
        requires
            old(self).wf(),
            old(self).cur_phase() == SessionPhase::Ending,
        ensures
            final(self).wf(),
            final(self).local_id() == old(self).local_id(),
            final(self).match_info() == old(self).match_info(),
            final(self).game_stats() == old(self).game_stats(),
            final(self).game_outcome() == old(self).game_outcome(),
            final(self).signal_raised() == old(self).signal_raised(),
            outbound_done ==> final(self).cur_phase() == SessionPhase::Closed,
            !outbound_done ==> final(self).cur_phase() == SessionPhase::Ending,
    ;

    /// The user cancelled while still connecting: close the session at
    /// once and have the runtime send the cancellation notice. No task is
    /// ever spawned on this path, and `Closed` accepts no further step.
    fn cancel_session(&mut self) -> (r: SessionAction)
        requires
            old(self).wf(),
            old(self).cur_phase() == SessionPhase::Connecting,
        ensures
            final(self).wf(),
            final(self).cur_phase() == SessionPhase::Closed,
            final(self).local_id() == old(self).local_id(),
            final(self).match_info() == old(self).match_info(),
            final(self).game_stats() == old(self).game_stats(),
            final(self).game_outcome() == old(self).game_outcome(),
            final(self).signal_raised() == old(self).signal_raised(),
            r == SessionAction::SendCancelNotice,
    ;
}

impl Gameplay for Session {
    open spec fn cur_phase(&self) -> SessionPhase {
        self.phase
    }

    open spec fn local_id(&self) -> u64 {
        self.local_player_id
    }

    open spec fn match_info(&self) -> Option<GameSession> {
        self.info
    }

    open spec fn game_stats(&self) -> GameStats {
        self.stats
    }

    open spec fn game_outcome(&self) -> Option<bool> {
        self.outcome
    }

    open spec fn signal_raised(&self) -> bool {
        self.signal.spec_raised()
    }

    open spec fn wf(&self) -> bool {
        Session::wf(self)
    }

    fn create_game(
        &mut self,
        game_id: Option<String>,
        opponent_id: Option<u64>,
        player_side: Option<u64>,
        opponent_name: String,
    ) -> (r: Result<(), SessionError>) {
        let gid = match game_id {
            Some(g) => g,
            None => {
                return Err(SessionError::MissingGameId);
            },
        };
        if opponent_id.is_none() {
            return Err(SessionError::MissingOpponentId);
        }
        let side = match player_side {
            Some(s) => s,
            None => {
                return Err(SessionError::MissingPlayerSide);
            },
        };
        self.info = Some(GameSession { game_id: gid, player_side: side, opponent_name });
        Ok(())
    }

    fn launch_game(&mut self) -> (r: SessionAction) {
        self.phase = SessionPhase::Active;
        SessionAction::SpawnTasks
    }

    fn handle_game_events(&mut self, event: PollEvent) -> (r: SessionAction) {
        match event {
            PollEvent::Snapshot(s) => {
                self.stats.snapshot = s;
                SessionAction::DoNothing
            },
            PollEvent::EndOfGame(text) => {
                let won = determine_outcome(text.as_str(), self.local_player_id);
                self.stats.winner = won;
                self.outcome = Some(won);
                self.signal.raise();
                self.phase = SessionPhase::Ending;
                SessionAction::SendStop
            },
            PollEvent::SignalRaised => {
                self.signal.raise();
                self.phase = SessionPhase::Ending;
                SessionAction::DoNothing
            },
            PollEvent::Nothing => SessionAction::DoNothing,
        }
    }

    fn handle_endgame(&mut self, outbound_done: bool) {
        if outbound_done {
            self.phase = SessionPhase::Closed;
        }
    }

    fn cancel_session(&mut self) -> (r: SessionAction) {
        self.phase = SessionPhase::Closed;
        SessionAction::SendCancelNotice
    }
}

} // verus!
