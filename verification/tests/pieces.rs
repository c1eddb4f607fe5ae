use game_session::ids::{ActorId, MessageId};
use game_session::protocol::{
    Command, GameSessionEvent, SessionError, SessionResult, StateQuery, WordleEvent,
};
use game_session::session::{marks_all_positions, Session, SessionStatus};
use game_session::word::{is_valid_word, WORD_LENGTH};

fn user() -> ActorId {
    ActorId::new(3, 4)
}

fn waiting_for_guess(check_count: u8, start_block: u32) -> Session {
    Session {
        start_block,
        check_count,
        msg_ids: (MessageId::zero(), MessageId::zero()),
        status: SessionStatus::CheckWordWaiting,
        result: SessionResult::Ongoing,
    }
}

fn with_verdict(check_count: u8, correct: Vec<u8>, contained: Vec<u8>) -> Session {
    Session {
        start_block: 0,
        check_count,
        msg_ids: (MessageId::new(0, 5), MessageId::new(0, 6)),
        status: SessionStatus::ReplyReceived(GameSessionEvent::WordChecked {
            correct_positions: correct,
            contained_in_word: contained,
        }),
        result: SessionResult::Ongoing,
    }
}

#[test]
fn word_of_five_lowercase_letters_is_valid() {
    assert_eq!(WORD_LENGTH, 5);
    assert!(is_valid_word("apple"));
    assert!(is_valid_word("zzzzz"));
    assert!(is_valid_word("house"));
}

#[test]
fn word_of_another_length_is_invalid() {
    assert!(!is_valid_word(""));
    assert!(!is_valid_word("a"));
    assert!(!is_valid_word("appl"));
    assert!(!is_valid_word("apples"));
}

#[test]
fn word_with_other_characters_is_invalid() {
    assert!(!is_valid_word("Apple"));
    assert!(!is_valid_word("applE"));
    assert!(!is_valid_word("ap-le"));
    assert!(!is_valid_word("app1e"));
    assert!(!is_valid_word("     "));
}

#[test]
fn word_length_counts_bytes() {
    assert!(is_valid_word("ééa"));
    assert!(!is_valid_word("éclat"));
    assert!(!is_valid_word("ÉÉa"));
}

#[test]
fn ids_compare_by_both_halves() {
    assert_eq!(ActorId::new(1, 2), ActorId { hi: 1, lo: 2 });
    assert_ne!(ActorId::new(1, 2), ActorId::new(2, 1));
    assert_eq!(MessageId::zero(), MessageId { hi: 0, lo: 0 });
    assert!(MessageId::zero().is_zero());
    assert!(!MessageId::new(0, 1).is_zero());
    assert!(!MessageId::new(1, 0).is_zero());
}

#[test]
fn all_positions_need_to_be_marked() {
    assert!(marks_all_positions(&vec![0, 1, 2, 3, 4]));
    assert!(marks_all_positions(&vec![4, 2, 0, 1, 3]));
    assert!(!marks_all_positions(&vec![]));
    assert!(!marks_all_positions(&vec![0, 1, 2, 3]));
    assert!(!marks_all_positions(&vec![1, 2, 3, 4]));
    assert!(!marks_all_positions(&vec![0, 0, 0, 0, 0]));
    assert!(!marks_all_positions(&vec![0, 1, 2, 3, 5]));
}

#[test]
fn service_event_turns_into_session_event() {
    let started = WordleEvent::GameStarted { user: user() };
    assert_eq!(started.user(), user());
    assert_eq!(started.into_session_event(), GameSessionEvent::GameStarted);
    let checked = WordleEvent::WordChecked {
        user: user(),
        correct_positions: vec![1, 3],
        contained_in_word: vec![0],
    };
    assert_eq!(checked.user(), user());
    assert_eq!(
        checked.into_session_event(),
        GameSessionEvent::WordChecked { correct_positions: vec![1, 3], contained_in_word: vec![0] }
    );
}

#[test]
fn copies_are_equal_to_their_source() {
    let session = with_verdict(2, vec![0, 4], vec![1, 2]);
    assert_eq!(session.clone(), session);
    let status = SessionStatus::ReplyReceived(GameSessionEvent::GameOver {
        result: SessionResult::Win,
    });
    assert_eq!(status.clone(), status);
    assert_eq!(SessionStatus::CheckWordSent.clone(), SessionStatus::CheckWordSent);
}

#[test]
fn verdict_with_guesses_left_goes_on() {
    let mut session = with_verdict(3, vec![0, 4], vec![1, 2]);
    let told = session.check_word(user(), "crane".to_string(), 9, MessageId::new(0, 6), None);
    assert_eq!(
        told,
        Ok(Command::Reply {
            event: GameSessionEvent::WordChecked {
                correct_positions: vec![0, 4],
                contained_in_word: vec![1, 2],
            }
        })
    );
    assert_eq!(session, waiting_for_guess(3, 0));
}

#[test]
fn verdict_on_the_last_guess_decides() {
    let mut lost = with_verdict(6, vec![0, 4], vec![1, 2]);
    assert_eq!(
        lost.check_word(user(), "crane".to_string(), 9, MessageId::new(0, 6), None),
        Ok(Command::Reply { event: GameSessionEvent::GameOver { result: SessionResult::Lose } })
    );
    assert_eq!(lost.result, SessionResult::Lose);
    assert_eq!(lost.status, SessionStatus::StartGameWaiting);
    assert_eq!(lost.msg_ids, (MessageId::zero(), MessageId::zero()));

    let mut won = with_verdict(6, vec![0, 1, 2, 3, 4], vec![]);
    assert_eq!(
        won.check_word(user(), "crane".to_string(), 9, MessageId::new(0, 6), None),
        Ok(Command::Reply { event: GameSessionEvent::GameOver { result: SessionResult::Win } })
    );
    assert_eq!(won.result, SessionResult::Win);
    assert_eq!(won.status, SessionStatus::StartGameWaiting);
}

#[test]
fn deadline_is_exclusive_for_a_guess_and_inclusive_for_the_watchdog() {
    let session = waiting_for_guess(0, 100);
    assert!(!session.expired(300));
    assert!(session.expired(301));
    let late = waiting_for_guess(0, u32::MAX);
    assert!(!late.expired(u32::MAX));

    let mut open = waiting_for_guess(0, 100);
    assert_eq!(open.check_game_status(user(), 299), Command::Nothing);
    assert_eq!(open.result, SessionResult::Ongoing);
    assert_eq!(
        open.check_game_status(user(), 300),
        Command::Notify {
            user: user(),
            event: GameSessionEvent::GameOver { result: SessionResult::Lose },
        }
    );
    assert_eq!(open.result, SessionResult::Lose);
}

#[test]
fn session_takes_the_reply_to_its_request_only() {
    let mut session = waiting_for_guess(0, 0);
    assert_eq!(
        session.check_word(
            user(),
            "apple".to_string(),
            1,
            MessageId::new(0, 6),
            Some(MessageId::new(0, 5))
        ),
        Ok(Command::Suspend)
    );
    assert_eq!(session.check_count, 1);
    assert_eq!(
        session.receive_reply(MessageId::new(0, 4), GameSessionEvent::GameStarted),
        Err(SessionError::CorrelationMismatch)
    );
    assert_eq!(session.status, SessionStatus::CheckWordSent);
    assert_eq!(
        session.receive_reply(MessageId::new(0, 5), GameSessionEvent::GameStarted),
        Ok(MessageId::new(0, 6))
    );
    assert_eq!(session.status, SessionStatus::ReplyReceived(GameSessionEvent::GameStarted));
    assert_eq!(session.msg_ids, (MessageId::new(0, 5), MessageId::new(0, 6)));
}

#[test]
fn queries_name_what_they_ask_for() {
    assert_ne!(StateQuery::WordleProgram, StateQuery::UserSession { user: user() });
    assert_eq!(StateQuery::UserSession { user: user() }, StateQuery::UserSession { user: user() });
}
