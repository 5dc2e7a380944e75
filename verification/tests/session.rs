use mistralrs_chat::persona::CharacterCard;
use mistralrs_chat::request::{build_request, default_sampling};
use mistralrs_chat::session::{format_turn, Phase, Session, SessionAction, SessionEvent};
use mistralrs_chat::stream::StreamChunk;
use serde_json::Value;

fn ada() -> CharacterCard {
    CharacterCard {
        name: "Ada".to_string(),
        description: "A helper".to_string(),
        first_mes: String::new(),
        alternate_greetings: Vec::new(),
        mes_example: String::new(),
        character_version: String::new(),
        creator: String::new(),
        creator_notes: String::new(),
        personality: String::new(),
        extensions: Value::Null,
        post_history_instructions: String::new(),
        scenario: String::new(),
    }
}

fn line(text: &str) -> SessionEvent {
    SessionEvent::InputLine(text.to_string())
}

fn content(text: &str) -> SessionEvent {
    SessionEvent::Chunk(StreamChunk::Content(text.to_string()))
}

fn complete_turn(session: &mut Session, question: &str, pieces: &[&str]) {
    assert!(matches!(session.step(line(question)), SessionAction::Submit(_)));
    for piece in pieces {
        assert_eq!(session.step(content(piece)), SessionAction::Emit(piece.to_string()));
    }
    assert_eq!(session.step(SessionEvent::StreamEnd), SessionAction::CloseTurn);
    assert_eq!(
        session.step(SessionEvent::TurnBoundary { cancelled: false }),
        SessionAction::Prompt
    );
}

#[test]
fn new_session_awaits_input() {
    let session = Session::new(ada(), 3);
    assert_eq!(session.phase(), Phase::AwaitingInput);
    assert!(!session.is_stopped());
    assert!(session.window().is_empty());
    assert_eq!(session.window().capacity(), 3);
    assert_eq!(session.question(), "");
    assert_eq!(session.reply(), "");
    assert_eq!(session.character_card(), &ada());
}

#[test]
fn format_turn_labels_both_lines() {
    assert_eq!(
        format_turn(&"Hi".to_string(), &"Ada".to_string(), &"Hello!".to_string()),
        "User: Hi\nAda Hello!"
    );
    assert_eq!(format_turn(&String::new(), &String::new(), &String::new()), "User: \n ");
}

#[test]
fn a_turn_runs_from_prompt_to_history() {
    let mut session = Session::new(ada(), 3);
    let action = session.step(line("Hi"));
    assert_eq!(
        action,
        SessionAction::Submit(build_request(Vec::new(), &"Hi".to_string(), &ada()))
    );
    assert_eq!(session.phase(), Phase::Generating);
    assert_eq!(session.question(), "Hi");

    assert_eq!(session.step(content("Hel")), SessionAction::Emit("Hel".to_string()));
    assert_eq!(session.reply(), "Hel");
    assert_eq!(
        session.step(SessionEvent::Chunk(StreamChunk::Control)),
        SessionAction::Continue
    );
    assert_eq!(session.step(content("lo!")), SessionAction::Emit("lo!".to_string()));
    assert_eq!(session.reply(), "Hello!");
    assert_eq!(session.phase(), Phase::Generating);
    assert!(session.window().is_empty());

    assert_eq!(session.step(SessionEvent::StreamEnd), SessionAction::CloseTurn);
    assert_eq!(session.phase(), Phase::UpdatingHistory);
    assert_eq!(session.window().render(), "User: Hi\nAda Hello!");

    assert_eq!(
        session.step(SessionEvent::TurnBoundary { cancelled: false }),
        SessionAction::Prompt
    );
    assert_eq!(session.phase(), Phase::AwaitingInput);
}

#[test]
fn the_next_request_carries_the_history() {
    let mut session = Session::new(ada(), 3);
    complete_turn(&mut session, "Hi", &["Hel", "lo!"]);
    let action = session.step(line("And now?"));
    match action {
        SessionAction::Submit(request) => {
            assert!(request
                .system
                .ends_with("\n\nCurrent conversation:\nUser: Hi\nAda Hello!"));
            assert_eq!(request.user, "And now?");
            assert_eq!(request.sampling, default_sampling());
        }
        other => panic!("expected a request, got {:?}", other),
    }
    assert_eq!(session.reply(), "");
}

#[test]
fn the_window_drops_the_oldest_turn_of_a_long_session() {
    let mut session = Session::new(ada(), 3);
    for question in ["q1", "q2", "q3", "q4"] {
        complete_turn(&mut session, question, &["ok"]);
    }
    assert_eq!(session.window().len(), 3);
    assert_eq!(
        session.window().render(),
        "User: q2\nAda ok\nUser: q3\nAda ok\nUser: q4\nAda ok"
    );
}

#[test]
fn an_error_chunk_fails_the_turn_and_leaves_the_window() {
    let mut session = Session::new(ada(), 3);
    complete_turn(&mut session, "Hi", &["Hello!"]);
    let before = session.window().turns();

    assert!(matches!(session.step(line("Again")), SessionAction::Submit(_)));
    let action = session.step(SessionEvent::Chunk(StreamChunk::Error("engine failed".to_string())));
    assert_eq!(action, SessionAction::ReportFailure("engine failed".to_string()));
    assert_eq!(session.phase(), Phase::UpdatingHistory);
    assert_eq!(session.window().turns(), before);

    assert_eq!(session.step(content("late")), SessionAction::Rejected);
    assert_eq!(session.step(SessionEvent::StreamEnd), SessionAction::Rejected);
    assert_eq!(session.window().turns(), before);

    assert_eq!(
        session.step(SessionEvent::TurnBoundary { cancelled: false }),
        SessionAction::Prompt
    );
    assert_eq!(session.phase(), Phase::AwaitingInput);
    assert_eq!(session.window().turns(), before);
}

#[test]
fn an_error_after_some_text_still_leaves_the_window() {
    let mut session = Session::new(ada(), 3);
    assert!(matches!(session.step(line("Hi")), SessionAction::Submit(_)));
    assert_eq!(session.step(content("Hel")), SessionAction::Emit("Hel".to_string()));
    assert_eq!(
        session.step(SessionEvent::Chunk(StreamChunk::Error("cut".to_string()))),
        SessionAction::ReportFailure("cut".to_string())
    );
    assert!(session.window().is_empty());
    assert_eq!(session.reply(), "Hel");
}

#[test]
fn closed_input_stops_the_session() {
    let mut session = Session::new(ada(), 3);
    assert_eq!(session.step(SessionEvent::InputClosed), SessionAction::Stop);
    assert_eq!(session.phase(), Phase::Stopped);
    assert!(session.is_stopped());
}

#[test]
fn an_empty_line_stops_the_session() {
    let mut session = Session::new(ada(), 3);
    assert_eq!(session.step(line("")), SessionAction::Stop);
    assert!(session.is_stopped());
}

#[test]
fn cancellation_takes_effect_at_the_end_of_the_turn() {
    let mut session = Session::new(ada(), 3);
    assert!(matches!(session.step(line("Hi")), SessionAction::Submit(_)));
    assert_eq!(
        session.step(SessionEvent::TurnBoundary { cancelled: true }),
        SessionAction::Rejected
    );
    assert_eq!(session.phase(), Phase::Generating);
    assert_eq!(session.step(content("Hello!")), SessionAction::Emit("Hello!".to_string()));
    assert_eq!(session.step(SessionEvent::StreamEnd), SessionAction::CloseTurn);
    assert_eq!(
        session.step(SessionEvent::TurnBoundary { cancelled: true }),
        SessionAction::Stop
    );
    assert!(session.is_stopped());
    assert_eq!(session.window().render(), "User: Hi\nAda Hello!");
}

#[test]
fn a_stopped_session_stays_stopped() {
    let mut session = Session::new(ada(), 3);
    session.step(SessionEvent::InputClosed);
    let events = vec![
        line("Hi"),
        SessionEvent::InputClosed,
        content("x"),
        SessionEvent::StreamEnd,
        SessionEvent::TurnBoundary { cancelled: false },
        SessionEvent::TurnBoundary { cancelled: true },
    ];
    for event in events {
        assert_eq!(session.step(event), SessionAction::Stop);
        assert!(session.is_stopped());
        assert!(session.window().is_empty());
    }
}

#[test]
fn events_out_of_phase_are_rejected() {
    let mut session = Session::new(ada(), 3);
    assert_eq!(session.step(content("x")), SessionAction::Rejected);
    assert_eq!(session.step(SessionEvent::StreamEnd), SessionAction::Rejected);
    assert_eq!(
        session.step(SessionEvent::TurnBoundary { cancelled: true }),
        SessionAction::Rejected
    );
    assert_eq!(session.phase(), Phase::AwaitingInput);

    assert!(matches!(session.step(line("Hi")), SessionAction::Submit(_)));
    assert_eq!(session.step(line("again")), SessionAction::Rejected);
    assert_eq!(session.step(SessionEvent::InputClosed), SessionAction::Rejected);
    assert_eq!(session.phase(), Phase::Generating);
    assert_eq!(session.question(), "Hi");

    assert_eq!(session.step(SessionEvent::StreamEnd), SessionAction::CloseTurn);
    assert_eq!(session.step(line("again")), SessionAction::Rejected);
    assert_eq!(session.step(SessionEvent::InputClosed), SessionAction::Rejected);
    assert_eq!(session.phase(), Phase::UpdatingHistory);
}

#[test]
fn a_stream_without_text_enters_an_empty_reply() {
    let mut session = Session::new(ada(), 3);
    assert!(matches!(session.step(line("Hi")), SessionAction::Submit(_)));
    assert_eq!(session.step(SessionEvent::StreamEnd), SessionAction::CloseTurn);
    assert_eq!(session.window().render(), "User: Hi\nAda ");
}

#[test]
fn a_session_without_window_still_runs() {
    let mut session = Session::new(ada(), 0);
    complete_turn(&mut session, "Hi", &["Hello!"]);
    assert!(session.window().is_empty());
    assert_eq!(session.phase(), Phase::AwaitingInput);
}
