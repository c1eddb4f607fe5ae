//! The coordinator: it owns the session table, routes each request, reply
//! and watchdog tick to the session it concerns, and exports the table.

use vstd::prelude::*;
use vstd::std_specs::convert::FromSpecImpl;
use crate::ids::{ActorId, MessageId};
use crate::protocol::{
    ActionView, Command, CommandView, EventView, GameSessionAction, GameSessionEvent,
    SessionError, WordleEvent, outcome_view,
};
use crate::session::{
    Session, SessionView, check_game_status_step, check_word_step, receive_reply_step,
    start_game_step,
};
use crate::table::{SessionTable, lists_exactly, no_sessions, table_sessions};

verus! {

/// The sessions of all users, by user.
pub type Sessions = Map<ActorId, SessionView>;

/// The session that `StartGame` works on: the user's own, or a fresh one
/// for a user who has none yet.
pub open spec fn session_or_fresh(sessions: Sessions, user: ActorId) -> SessionView {
    if sessions.contains_key(user) {
        sessions[user]
    } else {
        SessionView::fresh()
    }
}

/// `StartGame` from `user`: the transition runs on the user's session, or on
/// a fresh one that the user is given; a call that fails leaves the table
/// as it was.
pub open spec fn start_game_in(
    sessions: Sessions,
    user: ActorId,
    now: u32,
    origin: MessageId,
    sent: Option<MessageId>,
) -> (Sessions, Result<CommandView, SessionError>) {
    let step = start_game_step(session_or_fresh(sessions, user), user, now, origin, sent);
    if step.1 is Ok {
        (sessions.insert(user, step.0), step.1)
    } else {
        (sessions, step.1)
    }
}

/// `CheckWord` from `user`: refused for a user without a session, else the
/// transition runs on the user's session.
pub open spec fn check_word_in(
    sessions: Sessions,
    user: ActorId,
    word: Seq<char>,
    now: u32,
    origin: MessageId,
    sent: Option<MessageId>,
) -> (Sessions, Result<CommandView, SessionError>) {
    if sessions.contains_key(user) {
        let step = check_word_step(sessions[user], user, word, now, origin, sent);
        (sessions.insert(user, step.0), step.1)
    } else {
        (sessions, Err(SessionError::UnknownUser))
    }
}

/// The watchdog's check of `user`: refused for a user without a session.
pub open spec fn check_game_status_in(sessions: Sessions, user: ActorId, now: u32) -> (
    Sessions,
    Result<CommandView, SessionError>,
) {
    if sessions.contains_key(user) {
        let step = check_game_status_step(sessions[user], user, now);
        (sessions.insert(user, step.0), Ok(step.1))
    } else {
        (sessions, Err(SessionError::UnknownUser))
    }
}

/// A request from `source`, routed by its tag.
pub open spec fn handle_in(
    sessions: Sessions,
    action: ActionView,
    source: ActorId,
    now: u32,
    origin: MessageId,
    sent: Option<MessageId>,
) -> (Sessions, Result<CommandView, SessionError>) {
    match action {
        ActionView::StartGame => start_game_in(sessions, source, now, origin, sent),
        ActionView::CheckWord { word } => check_word_in(sessions, source, word, now, origin, sent),
        ActionView::CheckGameStatus { user } => check_game_status_in(sessions, user, now),
    }
}

/// The service's reply `event` for `user`, answering request `reply_to`.
pub open spec fn handle_reply_in(
    sessions: Sessions,
    reply_to: MessageId,
    user: ActorId,
    event: EventView,
) -> (Sessions, Result<MessageId, SessionError>) {
    if sessions.contains_key(user) {
        let step = receive_reply_step(sessions[user], reply_to, event);
        (sessions.insert(user, step.0), step.1)
    } else {
        (sessions, Err(SessionError::UnknownUser))
    }
}

/// Every session in the table is well-formed.
pub open spec fn all_wf(sessions: Sessions) -> bool {
    forall|user: ActorId| #[trigger] sessions.contains_key(user) ==> sessions[user].wf()
}

/// The coordinator's state: the checking service's identifier, fixed at
/// start, and the session of every user who ever started a game.
pub struct GameSessionState {
    wordle_program: ActorId,
    user_to_session: SessionTable,
}

/// A snapshot of the coordinator's state for read-only queries.
#[derive(Debug, PartialEq, Eq)]
pub struct State {
    pub wordle_program: ActorId,
    pub user_sessions: Vec<(ActorId, Session)>,
}

impl GameSessionState {
    /// The sessions, by user.
    pub closed spec fn sessions(&self) -> Sessions {
        table_sessions(self.user_to_session)
    }

    /// The checking service's identifier.
    pub closed spec fn spec_wordle_program(&self) -> ActorId {
        self.wordle_program
    }

    /// The coordinator's invariant: every session is well-formed.
    pub open spec fn wf(&self) -> bool {
        all_wf(self.sessions())
    }

    /// Sets the coordinator up for the checking service `wordle_program`,
    /// with no session yet, and says what to answer the initialiser.
    pub fn init(wordle_program: ActorId) -> (started: (GameSessionState, GameSessionEvent))
        ensures
            started.0.spec_wordle_program() == wordle_program,
            started.0.sessions() == no_sessions(),
            started.0.wf(),
            started.1@ == EventView::Initialized,
    {
        let state = GameSessionState { wordle_program, user_to_session: SessionTable::new() };
        (state, GameSessionEvent::Initialized)
    }

    #[verifier::when_used_as_spec(spec_wordle_program)]
    pub fn wordle_program(&self) -> (id: ActorId)
        ensures
            id == self.spec_wordle_program(),
    {
        self.wordle_program
    }

    /// The session of `user`, if the user has one.
    pub fn session(&self, user: ActorId) -> (found: Option<&Session>)
        ensures
            found is Some == self.sessions().contains_key(user),
            found is Some ==> found->0@ == self.sessions()[user],
    {
        self.user_to_session.get(user)
    }

    /// `StartGame` from `user` at tick `now`, run by message `origin`. A user
    /// without a session gets a fresh one, unless the call fails. `sent` is
    /// absent on the first run and holds the id of the start request once
    /// the host has sent it.
    pub fn start_game(
        &mut self,
        user: ActorId,
        now: u32,
        origin: MessageId,
        sent: Option<MessageId>,
    ) -> (outcome: Result<Command, SessionError>)
        requires
            old(self).wf(),
        ensures
            (final(self).sessions(), outcome_view(outcome)) == start_game_in(
                old(self).sessions(),
                user,
                now,
                origin,
                sent,
            ),
            final(self).wf(),
            final(self).spec_wordle_program() == old(self).spec_wordle_program(),
    {
        let known: bool = self.user_to_session.contains_key(user);
        let mut session: Session = match self.user_to_session.remove(user) {
            Some(session) => session,
            None => Session::new(),
        };
        let outcome = session.start_game(user, now, origin, sent);
        if known || outcome.is_ok() {
            self.user_to_session.insert(user, session);
        }
        proof {
            let expected = start_game_in(old(self).sessions(), user, now, origin, sent);
            assert(self.sessions() =~= expected.0);
        }
        outcome
    }

    /// `CheckWord` from `user` with guess `word` at tick `now`, run by
    /// message `origin`. `sent` is absent on the first run and holds the id
    /// of the check request once the host has sent it.
    pub fn check_word(
        &mut self,
        user: ActorId,
        word: String,
        now: u32,
        origin: MessageId,
        sent: Option<MessageId>,
    ) -> (outcome: Result<Command, SessionError>)
        requires
            old(self).wf(),
        ensures
            (final(self).sessions(), outcome_view(outcome)) == check_word_in(
                old(self).sessions(),
                user,
                word@,
                now,
                origin,
                sent,
            ),
            final(self).wf(),
            final(self).spec_wordle_program() == old(self).spec_wordle_program(),
    {
        match self.user_to_session.remove(user) {
            None => {
                assert(self.sessions() =~= old(self).sessions());
                Err(SessionError::UnknownUser)
            },
            Some(mut session) => {
                let outcome = session.check_word(user, word, now, origin, sent);
                self.user_to_session.insert(user, session);
                assert(self.sessions() =~= old(self).sessions().insert(user, session@));
                outcome
            },
        }
    }

    /// The watchdog's check of `user` at tick `now`.
    pub fn check_game_status(&mut self, user: ActorId, now: u32) -> (outcome: Result<
        Command,
        SessionError,
    >)
        requires
            old(self).wf(),
        ensures
            (final(self).sessions(), outcome_view(outcome)) == check_game_status_in(
                old(self).sessions(),
                user,
                now,
            ),
            final(self).wf(),
            final(self).spec_wordle_program() == old(self).spec_wordle_program(),
    {
        match self.user_to_session.remove(user) {
            None => {
                assert(self.sessions() =~= old(self).sessions());
                Err(SessionError::UnknownUser)
            },
            Some(mut session) => {
                let command = session.check_game_status(user, now);
                self.user_to_session.insert(user, session);
                assert(self.sessions() =~= old(self).sessions().insert(user, session@));
                Ok(command)
            },
        }
    }

    /// Routes a request from `source` by its tag. `now`, `origin` and `sent`
    /// are passed on to the transition, as far as it takes them.
    pub fn handle(
        &mut self,
        action: GameSessionAction,
        source: ActorId,
        now: u32,
        origin: MessageId,
        sent: Option<MessageId>,
    ) -> (outcome: Result<Command, SessionError>)
        requires
            old(self).wf(),
        ensures
            (final(self).sessions(), outcome_view(outcome)) == handle_in(
                old(self).sessions(),
                action@,
                source,
                now,
                origin,
                sent,
            ),
            final(self).wf(),
            final(self).spec_wordle_program() == old(self).spec_wordle_program(),
    {
        match action {
            GameSessionAction::StartGame => self.start_game(source, now, origin, sent),
            GameSessionAction::CheckWord { word } => self.check_word(
                source,
                word,
                now,
                origin,
                sent,
            ),
            GameSessionAction::CheckGameStatus { user } => self.check_game_status(user, now),
        }
    }

    /// Routes the service's reply to request `reply_to`. The reply is taken
    /// in only if the user it names has a session and that session has
    /// exactly this request outstanding; then the message to wake is
    /// returned. Any other reply is refused and changes nothing.
    pub fn handle_reply(&mut self, reply_to: MessageId, reply: WordleEvent) -> (woken: Result<
        MessageId,
        SessionError,
    >)
        requires
            old(self).wf(),
        ensures
            (final(self).sessions(), woken) == handle_reply_in(
                old(self).sessions(),
                reply_to,
                reply.spec_user(),
                reply.spec_session_event(),
            ),
            final(self).wf(),
            final(self).spec_wordle_program() == old(self).spec_wordle_program(),
    {
        let user = reply.user();
        match self.user_to_session.remove(user) {
            None => {
                assert(self.sessions() =~= old(self).sessions());
                Err(SessionError::UnknownUser)
            },
            Some(mut session) => {
                let woken = session.receive_reply(reply_to, reply.into_session_event());
                self.user_to_session.insert(user, session);
                assert(self.sessions() =~= old(self).sessions().insert(user, session@));
                woken
            },
        }
    }
}

impl State {
    /// The snapshot shows `state`: the same service, and every session once.
    pub open spec fn shows(&self, state: GameSessionState) -> bool {
        &&& self.wordle_program == state.spec_wordle_program()
        &&& lists_exactly(self.user_sessions@, state.sessions())
    }
}

impl FromSpecImpl<GameSessionState> for State {
    open spec fn obeys_from_spec() -> bool {
        false
    }

    open spec fn from_spec(state: GameSessionState) -> State {
        choose|snapshot: State| snapshot.shows(state)
    }
}

impl From<GameSessionState> for State {
    /// Consumes the coordinator's state and lists it. The order of the list
    /// is the table's and is not fixed.
    fn from(state: GameSessionState) -> (snapshot: State)
        ensures
            snapshot.shows(state),
    {
        let user_sessions = state.user_to_session.entries();
        State { wordle_program: state.wordle_program, user_sessions }
    }
}

} // verus!
