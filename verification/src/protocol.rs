//! Messages exchanged with users and with the checking service, and the
//! instructions the coordinator hands to its host.

use vstd::prelude::*;
use crate::ids::ActorId;

verus! {

/// Outcome of the current or the last round.
#[derive(Clone, Copy, Debug, PartialEq, Eq, Structural)]
pub enum SessionResult {
    Ongoing,
    Win,
    Lose,
}

/// Why a call was turned down. A call that fails leaves every session as it was.
#[derive(Clone, Copy, Debug, PartialEq, Eq, Structural)]
pub enum SessionError {
    /// No session exists for the user.
    UnknownUser,
    /// The session's status does not admit the requested transition.
    WrongStatus,
    /// The reply that woke the caller is not the one the transition waits for.
    UnexpectedReply,
    /// The guess is not five bytes of lowercase characters.
    InvalidWord,
    /// The id offered for a sent request is the zero id, which means "none".
    ZeroRequestId,
    /// The reply answers no request that the session has outstanding.
    CorrelationMismatch,
}

/// What a user, or the watchdog, asks of the coordinator.
#[derive(Debug, PartialEq, Eq)]
pub enum GameSessionAction {
    StartGame,
    CheckWord { word: String },
    CheckGameStatus { user: ActorId },
}

/// What the coordinator tells a user.
#[derive(Debug, PartialEq, Eq)]
pub enum GameSessionEvent {
    Initialized,
    GameStarted,
    WordChecked { correct_positions: Vec<u8>, contained_in_word: Vec<u8> },
    GameOver { result: SessionResult },
}

/// What the checking service answers.
#[derive(Debug, PartialEq, Eq)]
pub enum WordleEvent {
    GameStarted { user: ActorId },
    WordChecked { user: ActorId, correct_positions: Vec<u8>, contained_in_word: Vec<u8> },
}

/// A read-only question about the coordinator's state.
#[derive(Clone, Copy, Debug, PartialEq, Eq, Structural)]
pub enum StateQuery {
    WordleProgram,
    UserSession { user: ActorId },
}

/// What the host has to do after a transition.
#[derive(Debug, PartialEq, Eq)]
pub enum Command {
    /// Send a start request for `user` to the checking service, then run the
    /// same transition again with the id of the message that was sent.
    AskStartGame { user: ActorId },
    /// Send `word` for `user` to the checking service, then run the same
    /// transition again with the id of the message that was sent.
    AskCheckWord { user: ActorId, word: String },
    /// The request is on record: park the caller until a reply wakes it.
    Suspend,
    /// Answer the caller.
    Reply { event: GameSessionEvent },
    /// Answer the caller and have a status check for `user` delivered after
    /// `delay` ticks.
    ReplyAndWatch { event: GameSessionEvent, user: ActorId, delay: u32 },
    /// Push `event` to `user`; nobody waits for it.
    Notify { user: ActorId, event: GameSessionEvent },
    /// Nothing to do.
    Nothing,
}

/// Mathematical value of a [`GameSessionEvent`].
pub enum EventView {
    Initialized,
    GameStarted,
    WordChecked { correct_positions: Seq<u8>, contained_in_word: Seq<u8> },
    GameOver { result: SessionResult },
}

/// Mathematical value of a [`GameSessionAction`].
pub enum ActionView {
    StartGame,
    CheckWord { word: Seq<char> },
    CheckGameStatus { user: ActorId },
}

/// Mathematical value of a [`Command`].
pub enum CommandView {
    AskStartGame { user: ActorId },
    AskCheckWord { user: ActorId, word: Seq<char> },
    Suspend,
    Reply { event: EventView },
    ReplyAndWatch { event: EventView, user: ActorId, delay: u32 },
    Notify { user: ActorId, event: EventView },
    Nothing,
}

impl View for GameSessionEvent {
    type V = EventView;

    open spec fn view(&self) -> EventView {
        match *self {
            GameSessionEvent::Initialized => EventView::Initialized,
            GameSessionEvent::GameStarted => EventView::GameStarted,
            GameSessionEvent::WordChecked { correct_positions, contained_in_word } => {
                EventView::WordChecked {
                    correct_positions: correct_positions@,
                    contained_in_word: contained_in_word@,
                }
            },
            GameSessionEvent::GameOver { result } => EventView::GameOver { result },
        }
    }
}

impl View for GameSessionAction {
    type V = ActionView;

    open spec fn view(&self) -> ActionView {
        match *self {
            GameSessionAction::StartGame => ActionView::StartGame,
            GameSessionAction::CheckWord { word } => ActionView::CheckWord { word: word@ },
            GameSessionAction::CheckGameStatus { user } => ActionView::CheckGameStatus { user },
        }
    }
}

impl View for Command {
    type V = CommandView;

    open spec fn view(&self) -> CommandView {
        match *self {
            Command::AskStartGame { user } => CommandView::AskStartGame { user },
            Command::AskCheckWord { user, word } => CommandView::AskCheckWord { user, word: word@ },
            Command::Suspend => CommandView::Suspend,
            Command::Reply { event } => CommandView::Reply { event: event@ },
            Command::ReplyAndWatch { event, user, delay } => CommandView::ReplyAndWatch {
                event: event@,
                user,
                delay,
            },
            Command::Notify { user, event } => CommandView::Notify { user, event: event@ },
            Command::Nothing => CommandView::Nothing,
        }
    }
}

impl Clone for GameSessionEvent {
    fn clone(&self) -> (copy: GameSessionEvent)
        ensures
            copy@ == self@,
    {
        match self {
            GameSessionEvent::Initialized => GameSessionEvent::Initialized,
            GameSessionEvent::GameStarted => GameSessionEvent::GameStarted,
            GameSessionEvent::WordChecked { correct_positions, contained_in_word } => {
                let correct: Vec<u8> = correct_positions.clone();
                let contained: Vec<u8> = contained_in_word.clone();
                assert(correct@ =~= correct_positions@);
                assert(contained@ =~= contained_in_word@);
                GameSessionEvent::WordChecked {
                    correct_positions: correct,
                    contained_in_word: contained,
                }
            },
            GameSessionEvent::GameOver { result } => GameSessionEvent::GameOver { result: *result },
        }
    }
}

impl WordleEvent {
    /// The user whose request the service answers.
    pub open spec fn spec_user(&self) -> ActorId {
        match *self {
            WordleEvent::GameStarted { user } => user,
            WordleEvent::WordChecked { user, .. } => user,
        }
    }

    /// The answer as the session records it, without the user.
    pub open spec fn spec_session_event(&self) -> EventView {
        match *self {
            WordleEvent::GameStarted { .. } => EventView::GameStarted,
            WordleEvent::WordChecked { correct_positions, contained_in_word, .. } => {
                EventView::WordChecked {
                    correct_positions: correct_positions@,
                    contained_in_word: contained_in_word@,
                }
            },
        }
    }

    #[verifier::when_used_as_spec(spec_user)]
    pub fn user(&self) -> (user: ActorId)
        ensures
            user == self.spec_user(),
    {
        match self {
            WordleEvent::GameStarted { user } => *user,
            WordleEvent::WordChecked { user, .. } => *user,
        }
    }

    /// Turns the service's answer into the event that the session records.
    pub fn into_session_event(self) -> (event: GameSessionEvent)
        ensures
            event@ == self.spec_session_event(),
    {
        match self {
            WordleEvent::GameStarted { .. } => GameSessionEvent::GameStarted,
            WordleEvent::WordChecked { correct_positions, contained_in_word, .. } => {
                GameSessionEvent::WordChecked { correct_positions, contained_in_word }
            },
        }
    }
}

/// The view of a transition's result: the command by its view, the error as it is.
pub open spec fn outcome_view(outcome: Result<Command, SessionError>) -> Result<
    CommandView,
    SessionError,
> {
    match outcome {
        Ok(command) => Ok(command@),
        Err(error) => Err(error),
    }
}

} // verus!
