//! What holds of the transitions taken together, proved from their
//! definitions.

use vstd::prelude::*;
use crate::coordinator::{
    Sessions, all_wf, check_game_status_in, check_word_in, handle_in, handle_reply_in,
    start_game_in,
};
use crate::ids::{ActorId, MessageId};
use crate::protocol::{ActionView, CommandView, EventView, SessionError, SessionResult};
use crate::session::{
    CHECK_GAME_STATUS_DELAY, MAX_CHECK_COUNT, SessionView, StatusView, all_positions_correct,
    check_game_status_step, check_word_step, game_over, receive_reply_step, start_game_step,
};
use crate::word::valid_word;

verus! {

/// The round of `s` is over: the session is idle and the result is final.
pub open spec fn round_over(s: SessionView) -> bool {
    s.status is StartGameWaiting && (s.result == SessionResult::Win || s.result
        == SessionResult::Lose)
}

/// One complete exchange about a guess: the word, the tick and the message
/// of the caller, the id of the request that went out, and the verdict that
/// came back.
pub struct Exchange {
    pub word: Seq<char>,
    pub now: u32,
    pub origin: MessageId,
    pub sent: MessageId,
    pub correct_positions: Seq<u8>,
    pub contained_in_word: Seq<u8>,
}

impl Exchange {
    /// The guess is well-formed and the request has a proper id.
    pub open spec fn valid(self) -> bool {
        valid_word(self.word) && self.sent != MessageId::spec_zero()
    }

    /// The verdict as the session records it.
    pub open spec fn verdict(self) -> EventView {
        EventView::WordChecked {
            correct_positions: self.correct_positions,
            contained_in_word: self.contained_in_word,
        }
    }
}

/// The session after one exchange: the guess is submitted with its request
/// on record, the verdict arrives, and the caller runs again.
pub open spec fn after_exchange(s: SessionView, user: ActorId, e: Exchange) -> SessionView {
    let issued = check_word_step(s, user, e.word, e.now, e.origin, Some(e.sent)).0;
    let answered = receive_reply_step(issued, e.sent, e.verdict()).0;
    if issued.status is CheckWordSent {
        check_word_step(answered, user, e.word, e.now, e.origin, None).0
    } else {
        issued
    }
}

/// The session after a run of exchanges; the run stops where the round ends.
pub open spec fn after_exchanges(s: SessionView, user: ActorId, run: Seq<Exchange>) -> SessionView
    decreases run.len(),
{
    if run.len() == 0 || !(s.status is CheckWordWaiting) {
        s
    } else {
        after_exchanges(after_exchange(s, user, run[0]), user, run.skip(1))
    }
}

/// Every transition of a session keeps it well-formed.
pub proof fn lemma_transitions_keep_wf(
    s: SessionView,
    user: ActorId,
    word: Seq<char>,
    now: u32,
    origin: MessageId,
    sent: Option<MessageId>,
    reply_to: MessageId,
    event: EventView,
)
    requires
        s.wf(),
    ensures
        SessionView::fresh().wf(),
        start_game_step(s, user, now, origin, sent).0.wf(),
        check_word_step(s, user, word, now, origin, sent).0.wf(),
        check_game_status_step(s, user, now).0.wf(),
        receive_reply_step(s, reply_to, event).0.wf(),
{
}

/// A transition that fails leaves the session as it was.
pub proof fn lemma_failure_changes_nothing(
    s: SessionView,
    user: ActorId,
    word: Seq<char>,
    now: u32,
    origin: MessageId,
    sent: Option<MessageId>,
    reply_to: MessageId,
    event: EventView,
)
    ensures
        start_game_step(s, user, now, origin, sent).1 is Err ==> start_game_step(
            s,
            user,
            now,
            origin,
            sent,
        ).0 == s,
        check_word_step(s, user, word, now, origin, sent).1 is Err ==> check_word_step(
            s,
            user,
            word,
            now,
            origin,
            sent,
        ).0 == s,
        receive_reply_step(s, reply_to, event).1 is Err ==> receive_reply_step(
            s,
            reply_to,
            event,
        ).0 == s,
{
}

/// A transition that tells the host to send a request changes nothing yet:
/// the session moves only when the request is put on record.
pub proof fn lemma_asking_changes_nothing(
    s: SessionView,
    user: ActorId,
    word: Seq<char>,
    now: u32,
    origin: MessageId,
    sent: Option<MessageId>,
)
    ensures
        start_game_step(s, user, now, origin, sent).1 == Ok::<CommandView, SessionError>(
            CommandView::AskStartGame { user },
        ) ==> sent is None && start_game_step(s, user, now, origin, sent).0 == s,
        check_word_step(s, user, word, now, origin, sent).1 == Ok::<CommandView, SessionError>(
            CommandView::AskCheckWord { user, word },
        ) ==> sent is None && check_word_step(s, user, word, now, origin, sent).0 == s,
{
}

/// Whenever a user is told that the game is over, by a reply or by the
/// watchdog, the round is over: the session is idle and its result is the
/// one announced, a win or a loss.
pub proof fn lemma_game_over_ends_round(
    s: SessionView,
    user: ActorId,
    word: Seq<char>,
    now: u32,
    origin: MessageId,
    sent: Option<MessageId>,
    result: SessionResult,
)
    ensures
        check_word_step(s, user, word, now, origin, sent).1 == Ok::<CommandView, SessionError>(
            game_over(result),
        ) ==> round_over(check_word_step(s, user, word, now, origin, sent).0)
            && check_word_step(s, user, word, now, origin, sent).0.result == result,
        check_game_status_step(s, user, now).1 is Notify ==> round_over(
            check_game_status_step(s, user, now).0,
        ) && check_game_status_step(s, user, now).0.result == SessionResult::Lose,
{
}

/// One exchange from a session that awaits a guess either ends the round or
/// leaves the session awaiting the next guess with one more guess used; the
/// exchange that uses the last guess ends the round.
pub proof fn lemma_exchange_advances(s: SessionView, user: ActorId, e: Exchange)
    requires
        s.wf(),
        s.status is CheckWordWaiting,
        e.valid(),
    ensures
        ({
            let next = after_exchange(s, user, e);
            &&& next.wf()
            &&& round_over(next) || (next.status is CheckWordWaiting && next.result
                == SessionResult::Ongoing && next.check_count == s.check_count + 1
                && next.start_block == s.start_block)
            &&& s.check_count + 1 == MAX_CHECK_COUNT ==> round_over(next)
            &&& all_positions_correct(e.correct_positions) && !s.expired(e.now) ==> next.result
                == SessionResult::Win
        }),
{
}

/// A round cannot outlast its budget: from a session that awaits a guess,
/// any run of exchanges that would use up the remaining guesses ends with the
/// round over, won or lost.
pub proof fn lemma_round_ends(s: SessionView, user: ActorId, run: Seq<Exchange>)
    requires
        s.wf(),
        s.status is CheckWordWaiting,
        forall|i: int| 0 <= i < run.len() ==> (#[trigger] run[i]).valid(),
        s.check_count + run.len() >= MAX_CHECK_COUNT,
    ensures
        round_over(after_exchanges(s, user, run)),
        after_exchanges(s, user, run).wf(),
    decreases run.len(),
{
    let next = after_exchange(s, user, run[0]);
    lemma_exchange_advances(s, user, run[0]);
    if next.status is CheckWordWaiting {
        let rest = run.skip(1);
        assert forall|i: int| 0 <= i < rest.len() implies (#[trigger] rest[i]).valid() by {
            assert(rest[i] == run[i + 1]);
        }
        lemma_round_ends(next, user, rest);
    } else {
        reveal_with_fuel(after_exchanges, 2);
    }
}

/// After a round is over the next `StartGame` goes through: the host is told
/// to send the request; with the request on record the caller is parked;
/// the service's `GameStarted` for that request wakes the caller; and the
/// caller's second run opens a fresh round at the current tick with no guess
/// used, and schedules the watchdog.
pub proof fn lemma_ended_round_restarts(
    s: SessionView,
    user: ActorId,
    asked_at: u32,
    now: u32,
    origin: MessageId,
    sent: MessageId,
)
    requires
        s.wf(),
        s.status is StartGameWaiting,
        sent != MessageId::spec_zero(),
    ensures
        ({
            let asked = start_game_step(s, user, asked_at, origin, None);
            let issued = start_game_step(s, user, asked_at, origin, Some(sent));
            let answered = receive_reply_step(issued.0, sent, EventView::GameStarted);
            let opened = start_game_step(answered.0, user, now, origin, None);
            &&& asked == (s, Ok::<CommandView, SessionError>(CommandView::AskStartGame { user }))
            &&& issued.1 == Ok::<CommandView, SessionError>(CommandView::Suspend)
            &&& issued.0.status is StartGameSent
            &&& answered.1 == Ok::<MessageId, SessionError>(origin)
            &&& opened.1 == Ok::<CommandView, SessionError>(
                CommandView::ReplyAndWatch {
                    event: EventView::GameStarted,
                    user,
                    delay: CHECK_GAME_STATUS_DELAY,
                },
            )
            &&& opened.0.check_count == 0
            &&& opened.0.start_block == now
            &&& opened.0.status is CheckWordWaiting
            &&& opened.0.result == SessionResult::Ongoing
            &&& opened.0.wf()
        }),
{
}

/// The session after a whole `StartGame` exchange: the request goes on
/// record at tick `asked_at`, the service confirms, and the caller's second
/// run opens the round at tick `now`.
pub open spec fn after_start(
    s: SessionView,
    user: ActorId,
    asked_at: u32,
    now: u32,
    origin: MessageId,
    sent: MessageId,
) -> SessionView {
    let issued = start_game_step(s, user, asked_at, origin, Some(sent)).0;
    let answered = receive_reply_step(issued, sent, EventView::GameStarted).0;
    start_game_step(answered, user, now, origin, None).0
}

/// A whole game, and the next one: from an idle session a `StartGame`
/// exchange opens a round; any run of valid exchanges that is as long as the
/// budget ends the round, won or lost, with the session idle again; and the
/// next `StartGame` exchange opens a fresh round with no guess used.
pub proof fn lemma_game_after_game(
    s: SessionView,
    user: ActorId,
    asked_at: u32,
    now: u32,
    origin: MessageId,
    sent: MessageId,
    run: Seq<Exchange>,
    again_at: u32,
    again_origin: MessageId,
    again_sent: MessageId,
)
    requires
        s.wf(),
        s.status is StartGameWaiting,
        sent != MessageId::spec_zero(),
        again_sent != MessageId::spec_zero(),
        forall|i: int| 0 <= i < run.len() ==> (#[trigger] run[i]).valid(),
        run.len() >= MAX_CHECK_COUNT,
    ensures
        ({
            let opened = after_start(s, user, asked_at, now, origin, sent);
            let ended = after_exchanges(opened, user, run);
            let reopened = after_start(ended, user, again_at, again_at, again_origin, again_sent);
            &&& opened.status is CheckWordWaiting
            &&& opened.check_count == 0
            &&& round_over(ended)
            &&& reopened.status is CheckWordWaiting
            &&& reopened.result == SessionResult::Ongoing
            &&& reopened.check_count == 0
            &&& reopened.start_block == again_at
        }),
{
    let opened = after_start(s, user, asked_at, now, origin, sent);
    lemma_ended_round_restarts(s, user, asked_at, now, origin, sent);
    lemma_round_ends(opened, user, run);
    let ended = after_exchanges(opened, user, run);
    lemma_ended_round_restarts(ended, user, again_at, again_at, again_origin, again_sent);
}

/// A malformed guess never changes the number of guesses used, and it is
/// refused with the session unchanged in every status but the one in which
/// a verdict has arrived and the parked caller runs again: there the word
/// was checked when it was submitted and is not looked at a second time.
pub proof fn lemma_malformed_word_rejected(
    s: SessionView,
    user: ActorId,
    word: Seq<char>,
    now: u32,
    origin: MessageId,
    sent: Option<MessageId>,
)
    requires
        !valid_word(word),
    ensures
        check_word_step(s, user, word, now, origin, sent).0.check_count == s.check_count,
        !(s.status matches StatusView::ReplyReceived(EventView::WordChecked { .. }))
            ==> check_word_step(s, user, word, now, origin, sent).1 is Err && check_word_step(
            s,
            user,
            word,
            now,
            origin,
            sent,
        ).0 == s,
        s.status is CheckWordWaiting ==> check_word_step(s, user, word, now, origin, sent).1
            == Err::<CommandView, SessionError>(SessionError::InvalidWord),
{
}

/// When a verdict has arrived, the round is won exactly if the verdict marks
/// all positions as correct; otherwise it is lost if the last guess was
/// used, and goes on, still undecided, if one is left.
pub proof fn lemma_verdict_decides(
    s: SessionView,
    user: ActorId,
    word: Seq<char>,
    now: u32,
    origin: MessageId,
    sent: Option<MessageId>,
    correct_positions: Seq<u8>,
    contained_in_word: Seq<u8>,
)
    requires
        s.status == StatusView::ReplyReceived(
            EventView::WordChecked { correct_positions, contained_in_word },
        ),
    ensures
        ({
            let step = check_word_step(s, user, word, now, origin, sent);
            let all = all_positions_correct(correct_positions);
            &&& step.0.result == SessionResult::Win <==> all
            &&& all ==> step.1 == Ok::<CommandView, SessionError>(game_over(SessionResult::Win))
                && step.0.status is StartGameWaiting
            &&& !all && s.check_count >= MAX_CHECK_COUNT ==> step.0.result == SessionResult::Lose
                && step.0.status is StartGameWaiting && step.1 == Ok::<CommandView, SessionError>(
                game_over(SessionResult::Lose),
            )
            &&& !all && s.check_count < MAX_CHECK_COUNT ==> step.0.result
                == SessionResult::Ongoing && step.0.status is CheckWordWaiting && step.1 == Ok::<
                CommandView,
                SessionError,
            >(CommandView::Reply { event: EventView::WordChecked { correct_positions, contained_in_word } })
            &&& step.0.check_count == s.check_count
            &&& step.0.msg_ids == (MessageId::spec_zero(), MessageId::spec_zero())
        }),
{
}

/// A session has at most one request outstanding: while one is, a further
/// `StartGame` or `CheckWord` is refused and changes nothing, and a request
/// is put on record only from a status in which none is.
pub proof fn lemma_one_request_at_a_time(
    s: SessionView,
    user: ActorId,
    word: Seq<char>,
    now: u32,
    origin: MessageId,
    sent: Option<MessageId>,
)
    ensures
        s.status.is_sent() ==> start_game_step(s, user, now, origin, sent) == (
            s,
            Err::<CommandView, SessionError>(SessionError::WrongStatus),
        ),
        s.status.is_sent() ==> check_word_step(s, user, word, now, origin, sent) == (
            s,
            Err::<CommandView, SessionError>(SessionError::WrongStatus),
        ),
        start_game_step(s, user, now, origin, sent).1 == Ok::<CommandView, SessionError>(
            CommandView::Suspend,
        ) ==> !s.status.in_exchange(),
        check_word_step(s, user, word, now, origin, sent).1 == Ok::<CommandView, SessionError>(
            CommandView::Suspend,
        ) ==> !s.status.in_exchange(),
{
}

/// A reply that answers another request than the one on record is refused
/// and changes nothing; so is any reply to a well-formed session that has no
/// request outstanding.
pub proof fn lemma_foreign_reply_rejected(s: SessionView, reply_to: MessageId, event: EventView)
    ensures
        reply_to != s.msg_ids.0 ==> receive_reply_step(s, reply_to, event) == (
            s,
            Err::<MessageId, SessionError>(SessionError::CorrelationMismatch),
        ),
        !s.status.is_sent() ==> receive_reply_step(s, reply_to, event) == (
            s,
            Err::<MessageId, SessionError>(SessionError::CorrelationMismatch),
        ),
{
}

/// The watchdog closes the round with a loss exactly when the clock has
/// reached the deadline and the round is undecided; otherwise it does
/// nothing. Once it has fired, firing again, at any tick, does nothing.
pub proof fn lemma_watchdog(s: SessionView, user: ActorId, now: u32, later: u32)
    ensures
        ({
            let first = check_game_status_step(s, user, now);
            let due = now >= s.start_block + CHECK_GAME_STATUS_DELAY && s.result
                == SessionResult::Ongoing;
            &&& due <==> first.1 is Notify
            &&& due ==> first.0.result == SessionResult::Lose && first.0.status is StartGameWaiting
                && first.1 == (CommandView::Notify {
                user,
                event: EventView::GameOver { result: SessionResult::Lose },
            })
            &&& !due ==> first == (s, CommandView::Nothing)
            &&& due ==> check_game_status_step(first.0, user, later) == (
                first.0,
                CommandView::Nothing,
            )
        }),
{
}

/// Sessions are independent: whatever the coordinator does for one user
/// leaves the session of every other user as it was, and keeps every
/// session well-formed.
pub proof fn lemma_other_sessions_untouched(
    sessions: Sessions,
    action: ActionView,
    source: ActorId,
    now: u32,
    origin: MessageId,
    sent: Option<MessageId>,
    reply_to: MessageId,
    replied: ActorId,
    event: EventView,
    other: ActorId,
)
    requires
        all_wf(sessions),
    ensures
        all_wf(handle_in(sessions, action, source, now, origin, sent).0),
        all_wf(handle_reply_in(sessions, reply_to, replied, event).0),
        other != replied ==> (handle_reply_in(sessions, reply_to, replied, event).0.contains_key(
            other,
        ) <==> sessions.contains_key(other)) && handle_reply_in(
            sessions,
            reply_to,
            replied,
            event,
        ).0[other] == sessions[other],
        other != source && !(action matches ActionView::CheckGameStatus { user } && user == other)
            ==> (handle_in(sessions, action, source, now, origin, sent).0.contains_key(other)
            <==> sessions.contains_key(other)) && handle_in(
            sessions,
            action,
            source,
            now,
            origin,
            sent,
        ).0[other] == sessions[other],
{
}

/// A call that the coordinator refuses leaves the whole table as it was.
pub proof fn lemma_refusal_keeps_table(
    sessions: Sessions,
    user: ActorId,
    word: Seq<char>,
    now: u32,
    origin: MessageId,
    sent: Option<MessageId>,
    reply_to: MessageId,
    event: EventView,
)
    ensures
        check_word_in(sessions, user, word, now, origin, sent).1 is Err ==> check_word_in(
            sessions,
            user,
            word,
            now,
            origin,
            sent,
        ).0 == sessions,
        check_game_status_in(sessions, user, now).1 is Err ==> check_game_status_in(
            sessions,
            user,
            now,
        ).0 == sessions,
        handle_reply_in(sessions, reply_to, user, event).1 is Err ==> handle_reply_in(
            sessions,
            reply_to,
            user,
            event,
        ).0 == sessions,
        start_game_in(sessions, user, now, origin, sent).1 is Err ==> start_game_in(
            sessions,
            user,
            now,
            origin,
            sent,
        ).0 == sessions,
{
    assert(check_word_in(sessions, user, word, now, origin, sent).1 is Err ==> check_word_in(
        sessions,
        user,
        word,
        now,
        origin,
        sent,
    ).0 =~= sessions);
    assert(handle_reply_in(sessions, reply_to, user, event).1 is Err ==> handle_reply_in(
        sessions,
        reply_to,
        user,
        event,
    ).0 =~= sessions);
    assert(check_game_status_in(sessions, user, now).1 is Err ==> check_game_status_in(
        sessions,
        user,
        now,
    ).0 =~= sessions);
}

/// At the coordinator, a reply for a user without a session, or one that
/// answers another request than the one on record for the user, is refused
/// and leaves the table as it was.
pub proof fn lemma_foreign_reply_keeps_table(
    sessions: Sessions,
    reply_to: MessageId,
    user: ActorId,
    event: EventView,
)
    requires
        !sessions.contains_key(user) || reply_to != sessions[user].msg_ids.0,
    ensures
        handle_reply_in(sessions, reply_to, user, event).1 is Err,
        handle_reply_in(sessions, reply_to, user, event).0 == sessions,
{
    assert(handle_reply_in(sessions, reply_to, user, event).0 =~= sessions);
}

} // verus!
