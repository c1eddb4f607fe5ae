//! One user's session and the transitions that drive it.
//!
//! Each transition is stated twice: as a spec function from the session's
//! value and the trigger to the next value and the outcome, and as an
//! executable method proved to compute exactly that.

use vstd::prelude::*;
use crate::ids::{ActorId, MessageId};
use crate::protocol::{
    Command, CommandView, EventView, GameSessionEvent, SessionError, SessionResult, outcome_view,
};
use crate::word::{is_valid_word, valid_word};

verus! {

/// Largest number of guesses one round allows.
pub const MAX_CHECK_COUNT: u8 = 6;

/// Number of ticks after which a round that is still open is lost.
pub const CHECK_GAME_STATUS_DELAY: u32 = 200;

/// Number of letter positions in a word: a guess with all of them right wins.
pub const POSITIONS: u8 = 5;

/// Where a session stands in its exchange with the checking service.
#[derive(Debug, PartialEq, Eq)]
pub enum SessionStatus {
    /// Idle: no round in progress.
    StartGameWaiting,
    /// A start request is outstanding.
    StartGameSent,
    /// A round is open and a guess is awaited.
    CheckWordWaiting,
    /// A guess is with the checking service.
    CheckWordSent,
    /// A reply has arrived; the parked caller is about to run again.
    ReplyReceived(GameSessionEvent),
}

/// Mathematical value of a [`SessionStatus`].
pub enum StatusView {
    StartGameWaiting,
    StartGameSent,
    CheckWordWaiting,
    CheckWordSent,
    ReplyReceived(EventView),
}

/// The record kept for one user.
#[derive(Debug, PartialEq, Eq)]
pub struct Session {
    /// Tick at which the current round began.
    pub start_block: u32,
    /// Guesses used up in the current round.
    pub check_count: u8,
    /// The request that is outstanding and the caller's message that it
    /// parked; both zero when nothing is pending.
    pub msg_ids: (MessageId, MessageId),
    pub status: SessionStatus,
    pub result: SessionResult,
}

/// Mathematical value of a [`Session`].
pub struct SessionView {
    pub start_block: u32,
    pub check_count: u8,
    pub msg_ids: (MessageId, MessageId),
    pub status: StatusView,
    pub result: SessionResult,
}

impl View for SessionStatus {
    type V = StatusView;

    open spec fn view(&self) -> StatusView {
        match *self {
            SessionStatus::StartGameWaiting => StatusView::StartGameWaiting,
            SessionStatus::StartGameSent => StatusView::StartGameSent,
            SessionStatus::CheckWordWaiting => StatusView::CheckWordWaiting,
            SessionStatus::CheckWordSent => StatusView::CheckWordSent,
            SessionStatus::ReplyReceived(event) => StatusView::ReplyReceived(event@),
        }
    }
}

impl View for Session {
    type V = SessionView;

    open spec fn view(&self) -> SessionView {
        SessionView {
            start_block: self.start_block,
            check_count: self.check_count,
            msg_ids: self.msg_ids,
            status: self.status@,
            result: self.result,
        }
    }
}

impl StatusView {
    /// A request is with the checking service and no reply has come yet.
    pub open spec fn is_sent(self) -> bool {
        self is StartGameSent || self is CheckWordSent
    }

    /// The session is inside an exchange: a request is outstanding, or its
    /// reply has arrived and the caller has not yet run again.
    pub open spec fn in_exchange(self) -> bool {
        self.is_sent() || self is ReplyReceived
    }
}

impl SessionView {
    /// The session a user has before the first round.
    pub open spec fn fresh() -> SessionView {
        SessionView {
            start_block: 0,
            check_count: 0,
            msg_ids: (MessageId::spec_zero(), MessageId::spec_zero()),
            status: StatusView::StartGameWaiting,
            result: SessionResult::Ongoing,
        }
    }

    /// A round is in progress: a guess is awaited or is being checked.
    pub open spec fn round_open(self) -> bool {
        self.status is CheckWordWaiting || self.status is CheckWordSent
    }

    /// What every session satisfies between two transitions: the guesses
    /// stay within the budget, a session that awaits a guess has one left,
    /// a round in progress is undecided, and a correlation is on record
    /// exactly during an exchange, that is from the moment a request goes
    /// out until the caller it parked has run again.
    pub open spec fn wf(self) -> bool {
        &&& self.check_count <= MAX_CHECK_COUNT
        &&& (self.status is CheckWordWaiting ==> self.check_count < MAX_CHECK_COUNT)
        &&& (self.round_open() ==> self.result == SessionResult::Ongoing)
        &&& (self.status.in_exchange() <==> self.msg_ids.0 != MessageId::spec_zero())
        &&& (!self.status.in_exchange() ==> self.msg_ids.1 == MessageId::spec_zero())
    }

    /// The round has outlived its deadline at tick `now`.
    pub open spec fn expired(self, now: u32) -> bool {
        now > self.start_block + CHECK_GAME_STATUS_DELAY
    }

    /// The watchdog, firing at tick `now`, closes the round.
    pub open spec fn watchdog_due(self, now: u32) -> bool {
        now >= self.start_block + CHECK_GAME_STATUS_DELAY && self.result == SessionResult::Ongoing
    }

    /// The session after its round was closed with `result`.
    pub open spec fn closed(self, result: SessionResult) -> SessionView {
        SessionView {
            msg_ids: (MessageId::spec_zero(), MessageId::spec_zero()),
            status: StatusView::StartGameWaiting,
            result,
            ..self
        }
    }

    /// The session after request `sent` went out on behalf of message `origin`.
    pub open spec fn awaiting(self, status: StatusView, sent: MessageId, origin: MessageId)
        -> SessionView {
        SessionView { msg_ids: (sent, origin), status, ..self }
    }
}

/// The verdict marks every letter position as correct: each of the
/// positions occurs in the list.
pub open spec fn all_positions_correct(correct_positions: Seq<u8>) -> bool {
    forall|position: u8| position < POSITIONS ==> correct_positions.contains(position)
}

/// The reply that tells a user how a round ended.
pub open spec fn game_over(result: SessionResult) -> CommandView {
    CommandView::Reply { event: EventView::GameOver { result } }
}

/// `StartGame` for `user` at tick `now`, run by message `origin`; `sent` is
/// the id of the start request if the host has already sent it.
pub open spec fn start_game_step(
    s: SessionView,
    user: ActorId,
    now: u32,
    origin: MessageId,
    sent: Option<MessageId>,
) -> (SessionView, Result<CommandView, SessionError>) {
    match s.status {
        StatusView::StartGameWaiting | StatusView::CheckWordWaiting => match sent {
            None => (s, Ok(CommandView::AskStartGame { user })),
            Some(id) => if id == MessageId::spec_zero() {
                (s, Err(SessionError::ZeroRequestId))
            } else {
                (s.awaiting(StatusView::StartGameSent, id, origin), Ok(CommandView::Suspend))
            },
        },
        StatusView::ReplyReceived(EventView::GameStarted) => (
            SessionView {
                start_block: now,
                check_count: 0,
                msg_ids: (MessageId::spec_zero(), MessageId::spec_zero()),
                status: StatusView::CheckWordWaiting,
                result: SessionResult::Ongoing,
            },
            Ok(
                CommandView::ReplyAndWatch {
                    event: EventView::GameStarted,
                    user,
                    delay: CHECK_GAME_STATUS_DELAY,
                },
            ),
        ),
        StatusView::ReplyReceived(_) => (s, Err(SessionError::UnexpectedReply)),
        _ => (s, Err(SessionError::WrongStatus)),
    }
}

/// `CheckWord` with guess `word` for `user` at tick `now`, run by message
/// `origin`; `sent` is the id of the check request if the host has already
/// sent it.
pub open spec fn check_word_step(
    s: SessionView,
    user: ActorId,
    word: Seq<char>,
    now: u32,
    origin: MessageId,
    sent: Option<MessageId>,
) -> (SessionView, Result<CommandView, SessionError>) {
    match s.status {
        StatusView::CheckWordWaiting => if !valid_word(word) {
            (s, Err(SessionError::InvalidWord))
        } else if s.check_count + 1 > MAX_CHECK_COUNT || s.expired(now) {
            (
                SessionView {
                    check_count: (s.check_count + 1) as u8,
                    status: StatusView::StartGameWaiting,
                    result: SessionResult::Lose,
                    ..s
                },
                Ok(game_over(SessionResult::Lose)),
            )
        } else {
            match sent {
                None => (s, Ok(CommandView::AskCheckWord { user, word })),
                Some(id) => if id == MessageId::spec_zero() {
                    (s, Err(SessionError::ZeroRequestId))
                } else {
                    (
                        SessionView {
                            check_count: (s.check_count + 1) as u8,
                            ..s.awaiting(StatusView::CheckWordSent, id, origin)
                        },
                        Ok(CommandView::Suspend),
                    )
                },
            }
        },
        StatusView::ReplyReceived(
            EventView::WordChecked { correct_positions, contained_in_word },
        ) => if all_positions_correct(correct_positions) {
            (s.closed(SessionResult::Win), Ok(game_over(SessionResult::Win)))
        } else if s.check_count >= MAX_CHECK_COUNT {
            (s.closed(SessionResult::Lose), Ok(game_over(SessionResult::Lose)))
        } else {
            (
                SessionView {
                    msg_ids: (MessageId::spec_zero(), MessageId::spec_zero()),
                    status: StatusView::CheckWordWaiting,
                    result: SessionResult::Ongoing,
                    ..s
                },
                Ok(
                    CommandView::Reply {
                        event: EventView::WordChecked { correct_positions, contained_in_word },
                    },
                ),
            )
        },
        StatusView::ReplyReceived(_) => (s, Err(SessionError::UnexpectedReply)),
        _ => (s, Err(SessionError::WrongStatus)),
    }
}

/// The watchdog's check of `user`'s session at tick `now`.
pub open spec fn check_game_status_step(s: SessionView, user: ActorId, now: u32) -> (
    SessionView,
    CommandView,
) {
    if s.watchdog_due(now) {
        (
            s.closed(SessionResult::Lose),
            CommandView::Notify {
                user,
                event: EventView::GameOver { result: SessionResult::Lose },
            },
        )
    } else {
        (s, CommandView::Nothing)
    }
}

/// The reply `event`, which answers request `reply_to`, arrives: on a match
/// the session records it and names the message to wake.
pub open spec fn receive_reply_step(s: SessionView, reply_to: MessageId, event: EventView) -> (
    SessionView,
    Result<MessageId, SessionError>,
) {
    if s.status.is_sent() && reply_to == s.msg_ids.0 {
        (SessionView { status: StatusView::ReplyReceived(event), ..s }, Ok(s.msg_ids.1))
    } else {
        (s, Err(SessionError::CorrelationMismatch))
    }
}

/// Whether `position` occurs in `positions`.
fn marks_position(positions: &Vec<u8>, position: u8) -> (marked: bool)
    ensures
        marked == positions@.contains(position),
{
    let mut i: usize = 0;
    while i < positions.len()
        invariant
            i <= positions.len(),
            forall|j: int| 0 <= j < i ==> positions@[j] != position,
        decreases positions.len() - i,
    {
        if positions[i] == position {
            return true;
        }
        i += 1;
    }
    false
}

/// Decides whether a verdict marks every letter position as correct.
pub fn marks_all_positions(correct_positions: &Vec<u8>) -> (all: bool)
    ensures
        all == all_positions_correct(correct_positions@),
{
    let mut position: u8 = 0;
    while position < POSITIONS
        invariant
            position <= POSITIONS,
            forall|p: u8| p < position ==> correct_positions@.contains(p),
        decreases POSITIONS - position,
    {
        if !marks_position(correct_positions, position) {
            return false;
        }
        position += 1;
    }
    true
}

impl Clone for SessionStatus {
    fn clone(&self) -> (copy: SessionStatus)
        ensures
            copy@ == self@,
    {
        match self {
            SessionStatus::StartGameWaiting => SessionStatus::StartGameWaiting,
            SessionStatus::StartGameSent => SessionStatus::StartGameSent,
            SessionStatus::CheckWordWaiting => SessionStatus::CheckWordWaiting,
            SessionStatus::CheckWordSent => SessionStatus::CheckWordSent,
            SessionStatus::ReplyReceived(event) => SessionStatus::ReplyReceived(event.clone()),
        }
    }
}

impl Clone for Session {
    fn clone(&self) -> (copy: Session)
        ensures
            copy@ == self@,
    {
        Session {
            start_block: self.start_block,
            check_count: self.check_count,
            msg_ids: self.msg_ids,
            status: self.status.clone(),
            result: self.result,
        }
    }
}

impl Session {
    /// The session a user has before the first round.
    pub fn new() -> (session: Session)
        ensures
            session@ == SessionView::fresh(),
            session@.wf(),
    {
        Session {
            start_block: 0,
            check_count: 0,
            msg_ids: (MessageId::zero(), MessageId::zero()),
            status: SessionStatus::StartGameWaiting,
            result: SessionResult::Ongoing,
        }
    }

    /// Closes the round with `result`.
    fn close(&mut self, result: SessionResult)
        ensures
            final(self)@ == old(self)@.closed(result),
    {
        self.msg_ids = (MessageId::zero(), MessageId::zero());
        self.status = SessionStatus::StartGameWaiting;
        self.result = result;
    }

    /// Whether the round has outlived its deadline at tick `now`.
    pub fn expired(&self, now: u32) -> (late: bool)
        ensures
            late == self@.expired(now),
    {
        now as u64 > self.start_block as u64 + CHECK_GAME_STATUS_DELAY as u64
    }

    /// Begins a round, in two phases. From a waiting status the host is told
    /// to send the start request (`sent` absent) or the request is put on
    /// record and the caller parked (`sent` present). Once the service's
    /// `GameStarted` has arrived, the round is opened at tick `now`, the
    /// caller answered and the watchdog scheduled.
    pub fn start_game(
        &mut self,
        user: ActorId,
        now: u32,
        origin: MessageId,
        sent: Option<MessageId>,
    ) -> (outcome: Result<Command, SessionError>)
        requires
            old(self)@.wf(),
        ensures
            (final(self)@, outcome_view(outcome)) == start_game_step(
                old(self)@,
                user,
                now,
                origin,
                sent,
            ),
            final(self)@.wf(),
    {
        match &self.status {
            SessionStatus::StartGameWaiting | SessionStatus::CheckWordWaiting => match sent {
                None => Ok(Command::AskStartGame { user }),
                Some(id) => {
                    if id.is_zero() {
                        Err(SessionError::ZeroRequestId)
                    } else {
                        self.msg_ids = (id, origin);
                        self.status = SessionStatus::StartGameSent;
                        Ok(Command::Suspend)
                    }
                },
            },
            SessionStatus::ReplyReceived(event) => match event {
                GameSessionEvent::GameStarted => {
                    self.start_block = now;
                    self.check_count = 0;
                    self.msg_ids = (MessageId::zero(), MessageId::zero());
                    self.status = SessionStatus::CheckWordWaiting;
                    self.result = SessionResult::Ongoing;
                    Ok(
                        Command::ReplyAndWatch {
                            event: GameSessionEvent::GameStarted,
                            user,
                            delay: CHECK_GAME_STATUS_DELAY,
                        },
                    )
                },
                _ => Err(SessionError::UnexpectedReply),
            },
            _ => Err(SessionError::WrongStatus),
        }
    }

    /// Takes a guess, in two phases. While a guess is awaited, a malformed
    /// word is refused; a guess beyond the budget or past the deadline loses
    /// the round at once; otherwise the host is told to send the word (`sent`
    /// absent) or the request is put on record and the caller parked (`sent`
    /// present). Once the service's verdict has arrived, the round is won,
    /// lost, or goes on with the verdict passed to the caller.
    pub fn check_word(
        &mut self,
        user: ActorId,
        word: String,
        now: u32,
        origin: MessageId,
        sent: Option<MessageId>,
    ) -> (outcome: Result<Command, SessionError>)
        requires
            old(self)@.wf(),
        ensures
            (final(self)@, outcome_view(outcome)) == check_word_step(
                old(self)@,
                user,
                word@,
                now,
                origin,
                sent,
            ),
            final(self)@.wf(),
    {
        match &self.status {
            SessionStatus::CheckWordWaiting => {
                if !is_valid_word(word.as_str()) {
                    return Err(SessionError::InvalidWord);
                }
                let used: u8 = self.check_count + 1;
                if used > MAX_CHECK_COUNT || self.expired(now) {
                    self.check_count = used;
                    self.status = SessionStatus::StartGameWaiting;
                    self.result = SessionResult::Lose;
                    return Ok(
                        Command::Reply {
                            event: GameSessionEvent::GameOver { result: SessionResult::Lose },
                        },
                    );
                }
                match sent {
                    None => Ok(Command::AskCheckWord { user, word }),
                    Some(id) => {
                        if id.is_zero() {
                            Err(SessionError::ZeroRequestId)
                        } else {
                            self.check_count = used;
                            self.msg_ids = (id, origin);
                            self.status = SessionStatus::CheckWordSent;
                            Ok(Command::Suspend)
                        }
                    },
                }
            },
            SessionStatus::ReplyReceived(event) => match event {
                GameSessionEvent::WordChecked { correct_positions, .. } => {
                    if marks_all_positions(correct_positions) {
                        self.close(SessionResult::Win);
                        Ok(
                            Command::Reply {
                                event: GameSessionEvent::GameOver { result: SessionResult::Win },
                            },
                        )
                    } else if self.check_count >= MAX_CHECK_COUNT {
                        self.close(SessionResult::Lose);
                        Ok(
                            Command::Reply {
                                event: GameSessionEvent::GameOver { result: SessionResult::Lose },
                            },
                        )
                    } else {
                        let verdict: GameSessionEvent = event.clone();
                        self.msg_ids = (MessageId::zero(), MessageId::zero());
                        self.status = SessionStatus::CheckWordWaiting;
                        self.result = SessionResult::Ongoing;
                        Ok(Command::Reply { event: verdict })
                    }
                },
                _ => Err(SessionError::UnexpectedReply),
            },
            _ => Err(SessionError::WrongStatus),
        }
    }

    /// The watchdog's check at tick `now`: a round that is still undecided
    /// at its deadline is lost and `user` is told; otherwise nothing happens.
    /// A request that was outstanding when the round is closed is forgotten:
    /// its reply, should it still come, answers nothing on record and is
    /// refused.
    pub fn check_game_status(&mut self, user: ActorId, now: u32) -> (command: Command)
        requires
            old(self)@.wf(),
        ensures
            (final(self)@, command@) == check_game_status_step(old(self)@, user, now),
            final(self)@.wf(),
    {
        let due: bool = now as u64 >= self.start_block as u64 + CHECK_GAME_STATUS_DELAY as u64;
        if due && self.result == SessionResult::Ongoing {
            self.close(SessionResult::Lose);
            Command::Notify {
                user,
                event: GameSessionEvent::GameOver { result: SessionResult::Lose },
            }
        } else {
            Command::Nothing
        }
    }

    /// Takes in the service's reply to request `reply_to`. If that request is
    /// the one outstanding, the reply is recorded and the message to wake is
    /// returned; any other reply is refused and changes nothing.
    pub fn receive_reply(&mut self, reply_to: MessageId, event: GameSessionEvent) -> (woken: Result<
        MessageId,
        SessionError,
    >)
        requires
            old(self)@.wf(),
        ensures
            (final(self)@, woken) == receive_reply_step(old(self)@, reply_to, event@),
            final(self)@.wf(),
    {
        let outstanding: bool = match &self.status {
            SessionStatus::StartGameSent | SessionStatus::CheckWordSent => true,
            _ => false,
        };
        if outstanding && reply_to == self.msg_ids.0 {
            self.status = SessionStatus::ReplyReceived(event);
            Ok(self.msg_ids.1)
        } else {
            Err(SessionError::CorrelationMismatch)
        }
    }
}

} // verus!
