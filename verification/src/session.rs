//! The session loop as a state machine: the caller reads the terminal, talks
//! to the engine and polls for cancellation; the session decides what comes
//! next.

use crate::persona::CharacterCard;
use crate::request::{build_request, request_for, GenerationRequest, RequestView};
use crate::stream::{drained, ChunkAction, ChunkView, StreamChunk, StreamConsumer};
use crate::window::{keep_last, ConversationWindow};
use vstd::prelude::*;

verus! {

/// Where the session stands.
#[derive(Clone, Copy, Debug, PartialEq, Eq, Structural)]
pub enum Phase {
    /// Waiting for a line from the user.
    AwaitingInput,
    /// A request is with the engine and its reply is streaming in.
    Generating,
    /// The turn is over and the history is settled; waiting to learn whether
    /// the user asked to stop.
    UpdatingHistory,
    /// The session is over. Nothing leads out of this phase.
    Stopped,
}

/// What the caller reports to the session.
#[derive(Debug, PartialEq)]
pub enum SessionEvent {
    /// The user entered this line.
    InputLine(String),
    /// The user cancelled the prompt, or the input ended.
    InputClosed,
    /// The engine delivered the next chunk of the reply.
    Chunk(StreamChunk),
    /// The engine's stream is exhausted.
    StreamEnd,
    /// The cancellation flag as it reads at the end of a turn.
    TurnBoundary { cancelled: bool },
}

/// An event as contracts see it.
pub enum EventView {
    InputLine(Seq<char>),
    InputClosed,
    Chunk(ChunkView),
    StreamEnd,
    TurnBoundary { cancelled: bool },
}

/// What the session asks of the caller. After carrying an action out, the
/// caller reports the event that the action leads to.
#[derive(Debug, PartialEq)]
pub enum SessionAction {
    /// Ask the user for a line.
    Prompt,
    /// Send the request to the engine and report its first chunk.
    Submit(GenerationRequest),
    /// Write the text to the output, flush, and report the next chunk.
    Emit(String),
    /// Nothing to write: report the next chunk.
    Continue,
    /// The reply is complete: end its line and report the cancellation flag.
    CloseTurn,
    /// The turn failed with this message: tell the user and report the
    /// cancellation flag.
    ReportFailure(String),
    /// Leave the loop.
    Stop,
    /// The event does not belong to the phase the session was in. Nothing
    /// has changed.
    Rejected,
}

/// An action as contracts see it.
pub enum ActionView {
    Prompt,
    Submit(RequestView),
    Emit(Seq<char>),
    Continue,
    CloseTurn,
    ReportFailure(Seq<char>),
    Stop,
    Rejected,
}

/// A session as contracts see it.
pub struct SessionView {
    /// Where the session stands.
    pub phase: Phase,
    /// The turns in the window, oldest first.
    pub history: Seq<Seq<char>>,
    /// The capacity of the window.
    pub capacity: nat,
    /// What the user said in the turn under way, or in the last one.
    pub question: Seq<char>,
    /// The reply gathered in the turn under way, or in the last one.
    pub reply: Seq<char>,
}

impl View for SessionEvent {
    type V = EventView;

    open spec fn view(&self) -> EventView {
        match self {
            SessionEvent::InputLine(line) => EventView::InputLine(line@),
            SessionEvent::InputClosed => EventView::InputClosed,
            SessionEvent::Chunk(chunk) => EventView::Chunk(chunk@),
            SessionEvent::StreamEnd => EventView::StreamEnd,
            SessionEvent::TurnBoundary { cancelled } => EventView::TurnBoundary {
                cancelled: *cancelled,
            },
        }
    }
}

impl View for SessionAction {
    type V = ActionView;

    open spec fn view(&self) -> ActionView {
        match self {
            SessionAction::Prompt => ActionView::Prompt,
            SessionAction::Submit(request) => ActionView::Submit(request@),
            SessionAction::Emit(text) => ActionView::Emit(text@),
            SessionAction::Continue => ActionView::Continue,
            SessionAction::CloseTurn => ActionView::CloseTurn,
            SessionAction::ReportFailure(message) => ActionView::ReportFailure(message@),
            SessionAction::Stop => ActionView::Stop,
            SessionAction::Rejected => ActionView::Rejected,
        }
    }
}

/// A finished turn as it enters the history: the user's line under the label
/// `User:`, then the reply under the persona's name.
pub open spec fn turn_text(question: Seq<char>, name: Seq<char>, reply: Seq<char>) -> Seq<char> {
    "User: "@ + question + "\n"@ + name + " "@ + reply
}

/// The session's answer to an event: the state it moves to and the action it
/// asks for.
///
/// - Awaiting input, a line that is not empty starts a turn: the request is
///   assembled from the history as it stands and submitted. An empty line or
///   closed input stops the session.
/// - While generating, text is gathered and emitted, chunks without text are
///   passed over, and an error ends the turn as failed with the history
///   untouched. The end of the stream ends the turn as complete: the turn
///   enters the window, which gives up its oldest turn if it is full.
/// - After either end of a turn the cancellation flag decides: stop, or
///   prompt again. Nowhere else is the flag looked at.
/// - A stopped session stays stopped.
/// - An event that fits none of these is rejected and changes nothing.
pub open spec fn step_spec(card: &CharacterCard, pre: SessionView, event: EventView) -> (
    SessionView,
    ActionView,
) {
    match pre.phase {
        Phase::AwaitingInput => match event {
            EventView::InputLine(line) => if line.len() > 0 {
                (
                    SessionView {
                        phase: Phase::Generating,
                        question: line,
                        reply: Seq::empty(),
                        ..pre
                    },
                    ActionView::Submit(request_for(card, pre.history, line)),
                )
            } else {
                (SessionView { phase: Phase::Stopped, ..pre }, ActionView::Stop)
            },
            EventView::InputClosed => (
                SessionView { phase: Phase::Stopped, ..pre },
                ActionView::Stop,
            ),
            _ => (pre, ActionView::Rejected),
        },
        Phase::Generating => match event {
            EventView::Chunk(ChunkView::Content(text)) => (
                SessionView { reply: pre.reply + text, ..pre },
                ActionView::Emit(text),
            ),
            EventView::Chunk(ChunkView::Control) => (pre, ActionView::Continue),
            EventView::Chunk(ChunkView::Error(message)) => (
                SessionView { phase: Phase::UpdatingHistory, ..pre },
                ActionView::ReportFailure(message),
            ),
            EventView::StreamEnd => (
                SessionView {
                    phase: Phase::UpdatingHistory,
                    history: keep_last(
                        pre.history.push(turn_text(pre.question, card.name@, pre.reply)),
                        pre.capacity,
                    ),
                    ..pre
                },
                ActionView::CloseTurn,
            ),
            _ => (pre, ActionView::Rejected),
        },
        Phase::UpdatingHistory => match event {
            EventView::TurnBoundary { cancelled } => if cancelled {
                (SessionView { phase: Phase::Stopped, ..pre }, ActionView::Stop)
            } else {
                (SessionView { phase: Phase::AwaitingInput, ..pre }, ActionView::Prompt)
            },
            _ => (pre, ActionView::Rejected),
        },
        Phase::Stopped => (pre, ActionView::Stop),
    }
}

/// Formats a finished turn for the history.
pub fn format_turn(question: &String, name: &String, reply: &String) -> (turn: String)
    ensures
        turn@ == turn_text(question@, name@, reply@),
{
    let mut turn = String::from_str("User: ");
    turn.append(question.as_str());
    turn.append("\n");
    turn.append(name.as_str());
    turn.append(" ");
    turn.append(reply.as_str());
    turn
}

/// One chat session: a persona, the window of past turns, and the turn under
/// way.
#[derive(Debug)]
pub struct Session {
    phase: Phase,
    character_card: CharacterCard,
    window: ConversationWindow,
    question: String,
    consumer: StreamConsumer,
}

impl View for Session {
    type V = SessionView;

    closed spec fn view(&self) -> SessionView {
        SessionView {
            phase: self.phase,
            history: self.window@,
            capacity: self.window.capacity() as nat,
            question: self.question@,
            reply: self.consumer@,
        }
    }
}

impl Session {
    /// The persona of the session. It never changes.
    pub closed spec fn card(&self) -> CharacterCard {
        self.character_card
    }

    /// A session with the given persona and an empty window of the given
    /// capacity. It awaits input: the caller begins by prompting.
    pub fn new(character_card: CharacterCard, capacity: usize) -> (session: Self)
        ensures
            session.card() == character_card,
            session@ == (SessionView {
                phase: Phase::AwaitingInput,
                history: Seq::empty(),
                capacity: capacity as nat,
                question: Seq::empty(),
                reply: Seq::empty(),
            }),
    {
        Session {
            phase: Phase::AwaitingInput,
            character_card,
            window: ConversationWindow::new(capacity),
            question: String::new(),
            consumer: StreamConsumer::new(),
        }
    }

    /// Where the session stands.
    pub fn phase(&self) -> (phase: Phase)
        ensures
            phase == self@.phase,
    {
        self.phase
    }

    /// Whether the session is over.
    pub fn is_stopped(&self) -> (stopped: bool)
        ensures
            stopped == (self@.phase == Phase::Stopped),
    {
        self.phase == Phase::Stopped
    }

    /// The persona of the session.
    pub fn character_card(&self) -> (card: &CharacterCard)
        ensures
            *card == self.card(),
    {
        &self.character_card
    }

    /// The window of past turns.
    pub fn window(&self) -> (window: &ConversationWindow)
        ensures
            window@ == self@.history,
            window.capacity() == self@.capacity,
    {
        &self.window
    }

    /// What the user said in the turn under way, or in the last one.
    pub fn question(&self) -> (question: &String)
        ensures
            question@ == self@.question,
    {
        &self.question
    }

    /// The reply gathered in the turn under way, or in the last one.
    pub fn reply(&self) -> (reply: &String)
        ensures
            reply@ == self@.reply,
    {
        self.consumer.reply()
    }

    /// Takes an event and answers with the action to carry out next.
    pub fn step(&mut self, event: SessionEvent) -> (action: SessionAction)
        ensures
            (final(self)@, action@) == step_spec(&old(self).card(), old(self)@, event@),
            final(self).card() == old(self).card(),
    {
        match self.phase {
            Phase::AwaitingInput => match event {
                SessionEvent::InputLine(line) => {
                    if line.as_str().is_empty() {
                        self.phase = Phase::Stopped;
                        SessionAction::Stop
                    } else {
                        let request = build_request(
                            self.window.turns(),
                            &line,
                            &self.character_card,
                        );
                        self.question = line;
                        self.consumer = StreamConsumer::new();
                        self.phase = Phase::Generating;
                        SessionAction::Submit(request)
                    }
                },
                SessionEvent::InputClosed => {
                    self.phase = Phase::Stopped;
                    SessionAction::Stop
                },
                _ => SessionAction::Rejected,
            },
            Phase::Generating => match event {
                SessionEvent::Chunk(chunk) => match self.consumer.accept(chunk) {
                    ChunkAction::Emit(text) => SessionAction::Emit(text),
                    ChunkAction::Skip => SessionAction::Continue,
                    ChunkAction::Abort(message) => {
                        self.phase = Phase::UpdatingHistory;
                        SessionAction::ReportFailure(message)
                    },
                },
                SessionEvent::StreamEnd => {
                    let turn = format_turn(
                        &self.question,
                        &self.character_card.name,
                        self.consumer.reply(),
                    );
                    self.window.push(turn);
                    self.phase = Phase::UpdatingHistory;
                    SessionAction::CloseTurn
                },
                _ => SessionAction::Rejected,
            },
            Phase::UpdatingHistory => match event {
                SessionEvent::TurnBoundary { cancelled } => {
                    if cancelled {
                        self.phase = Phase::Stopped;
                        SessionAction::Stop
                    } else {
                        self.phase = Phase::AwaitingInput;
                        SessionAction::Prompt
                    }
                },
                _ => SessionAction::Rejected,
            },
            Phase::Stopped => SessionAction::Stop,
        }
    }
}

/// The state a session reaches from `pre` when `events` arrive in order.
pub open spec fn run(card: &CharacterCard, pre: SessionView, events: Seq<EventView>) -> SessionView
    decreases events.len(),
{
    if events.len() == 0 {
        pre
    } else {
        step_spec(card, run(card, pre, events.drop_last()), events.last()).0
    }
}

/// The chunks of a stream as the events that report them.
pub open spec fn chunk_events(chunks: Seq<ChunkView>) -> Seq<EventView> {
    Seq::new(chunks.len(), |i: int| EventView::Chunk(chunks[i]))
}

/// The events of one turn: the user's line, the chunks of the reply, and the
/// end of the stream.
pub open spec fn turn_events(question: Seq<char>, chunks: Seq<ChunkView>) -> Seq<EventView> {
    seq![EventView::InputLine(question)] + chunk_events(chunks) + seq![EventView::StreamEnd]
}

/// The window never outgrows its capacity, whatever event arrives.
pub proof fn lemma_step_keeps_window_bounded(
    card: &CharacterCard,
    pre: SessionView,
    event: EventView,
)
    requires
        pre.history.len() <= pre.capacity,
    ensures
        step_spec(card, pre, event).0.history.len() <= pre.capacity,
        step_spec(card, pre, event).0.capacity == pre.capacity,
{
}

/// An error chunk ends the turn as failed: the failure is reported with the
/// engine's message, and the window is left as it was.
pub proof fn lemma_failed_turn_keeps_history(
    card: &CharacterCard,
    pre: SessionView,
    message: Seq<char>,
)
    requires
        pre.phase == Phase::Generating,
    ensures
        step_spec(card, pre, EventView::Chunk(ChunkView::Error(message))).0.history
            == pre.history,
        step_spec(card, pre, EventView::Chunk(ChunkView::Error(message))).0.phase
            == Phase::UpdatingHistory,
        step_spec(card, pre, EventView::Chunk(ChunkView::Error(message))).1
            == ActionView::ReportFailure(message),
{
}

/// A stopped session stays as it is and keeps asking the caller to stop.
pub proof fn lemma_stopped_is_terminal(card: &CharacterCard, pre: SessionView, event: EventView)
    requires
        pre.phase == Phase::Stopped,
    ensures
        step_spec(card, pre, event) == (pre, ActionView::Stop),
{
}

/// A session stops in two places only: at the prompt, when the input is
/// closed or empty, and at the end of a turn, when cancellation was asked
/// for. A reply that is streaming in is never cut short by cancellation.
pub proof fn lemma_stops_only_at_boundaries(
    card: &CharacterCard,
    pre: SessionView,
    event: EventView,
)
    requires
        pre.phase != Phase::Stopped,
        step_spec(card, pre, event).0.phase == Phase::Stopped,
    ensures
        ({
            ||| pre.phase == Phase::AwaitingInput && event == EventView::InputClosed
            ||| pre.phase == Phase::AwaitingInput && event == EventView::InputLine(
                Seq::<char>::empty(),
            )
            ||| pre.phase == Phase::UpdatingHistory && event == (EventView::TurnBoundary {
                cancelled: true,
            })
        }),
{
    if pre.phase == Phase::AwaitingInput {
        match event {
            EventView::InputLine(line) => {
                assert(line =~= Seq::<char>::empty());
            },
            _ => {},
        }
    }
}

/// Where a turn stands once the user's line and the chunks so far have
/// arrived: still generating, with the reply of the chunks gathered, or ended
/// as failed by the first error among them.
proof fn lemma_turn_under_way(
    card: &CharacterCard,
    pre: SessionView,
    question: Seq<char>,
    chunks: Seq<ChunkView>,
)
    requires
        pre.phase == Phase::AwaitingInput,
        question.len() > 0,
    ensures
        run(card, pre, seq![EventView::InputLine(question)] + chunk_events(chunks)) == (
        SessionView {
            phase: if drained(chunks).failure is None {
                Phase::Generating
            } else {
                Phase::UpdatingHistory
            },
            question: question,
            reply: drained(chunks).reply,
            ..pre
        }),
    decreases chunks.len(),
{
    let start = seq![EventView::InputLine(question)];
    let events = start + chunk_events(chunks);
    if chunks.len() == 0 {
        assert(events =~= start);
        assert(events.drop_last() =~= Seq::<EventView>::empty());
        assert(run(card, pre, events.drop_last()) == pre);
    } else {
        lemma_turn_under_way(card, pre, question, chunks.drop_last());
        assert(events.drop_last() =~= start + chunk_events(chunks.drop_last()));
        assert(events.last() == EventView::Chunk(chunks.last()));
    }
}

/// One whole turn, from the prompt to the end of the stream. If no chunk
/// reports an error, the turn enters the window with the reply that the
/// chunks add up to, and the window gives up its oldest turn if it was full.
/// If one does, the window is left as it was. Either way the session then
/// waits for the cancellation flag.
pub proof fn lemma_turn_outcome(
    card: &CharacterCard,
    pre: SessionView,
    question: Seq<char>,
    chunks: Seq<ChunkView>,
)
    requires
        pre.phase == Phase::AwaitingInput,
        question.len() > 0,
    ensures
        ({
            let post = run(card, pre, turn_events(question, chunks));
            &&& post.phase == Phase::UpdatingHistory
            &&& post.capacity == pre.capacity
            &&& post.history == if drained(chunks).failure is None {
                keep_last(
                    pre.history.push(turn_text(question, card.name@, drained(chunks).reply)),
                    pre.capacity,
                )
            } else {
                pre.history
            }
        }),
{
    let events = turn_events(question, chunks);
    lemma_turn_under_way(card, pre, question, chunks);
    assert(events.drop_last() =~= seq![EventView::InputLine(question)] + chunk_events(chunks));
    assert(events.last() == EventView::StreamEnd);
}

} // verus!
