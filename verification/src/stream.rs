//! The consumer of a streamed reply: it gathers the text that arrives chunk
//! by chunk and says what to write out as it goes.

use crate::text::{optional_text, texts};
use vstd::prelude::*;

verus! {

/// One unit of a streamed reply.
#[derive(Debug, PartialEq)]
pub enum StreamChunk {
    /// A piece of the reply's text.
    Content(String),
    /// A chunk without text: control or metadata only.
    Control,
    /// The engine's report that generation failed, with its message.
    Error(String),
}

/// A chunk as contracts see it.
pub enum ChunkView {
    Content(Seq<char>),
    Control,
    Error(Seq<char>),
}

/// What the caller does after handing over a chunk.
#[derive(Debug, PartialEq)]
pub enum ChunkAction {
    /// Write the text to the output and flush, so that it shows at once.
    Emit(String),
    /// Nothing to write.
    Skip,
    /// Stop reading the stream: the turn has failed, with this message.
    Abort(String),
}

/// An action as contracts see it.
pub enum ChunkActionView {
    Emit(Seq<char>),
    Skip,
    Abort(Seq<char>),
}

/// How a stream of chunks ended.
#[derive(Debug, PartialEq)]
pub struct StreamOutcome {
    /// The text of the reply as far as it was gathered.
    pub reply: String,
    /// The pieces that were written out, one write and one flush each, in
    /// this order.
    pub writes: Vec<String>,
    /// The message of the error that cut the stream short, if one did.
    pub failure: Option<String>,
}

/// An outcome as contracts see it.
pub struct OutcomeView {
    pub reply: Seq<char>,
    pub writes: Seq<Seq<char>>,
    pub failure: Option<Seq<char>>,
}

impl View for StreamChunk {
    type V = ChunkView;

    open spec fn view(&self) -> ChunkView {
        match self {
            StreamChunk::Content(text) => ChunkView::Content(text@),
            StreamChunk::Control => ChunkView::Control,
            StreamChunk::Error(message) => ChunkView::Error(message@),
        }
    }
}

impl View for ChunkAction {
    type V = ChunkActionView;

    open spec fn view(&self) -> ChunkActionView {
        match self {
            ChunkAction::Emit(text) => ChunkActionView::Emit(text@),
            ChunkAction::Skip => ChunkActionView::Skip,
            ChunkAction::Abort(message) => ChunkActionView::Abort(message@),
        }
    }
}

impl View for StreamOutcome {
    type V = OutcomeView;

    open spec fn view(&self) -> OutcomeView {
        OutcomeView {
            reply: self.reply@,
            writes: texts(self.writes@),
            failure: optional_text(self.failure),
        }
    }
}

impl Clone for StreamChunk {
    fn clone(&self) -> (copy: Self)
        ensures
            copy@ == self@,
    {
        match self {
            StreamChunk::Content(text) => StreamChunk::Content(text.clone()),
            StreamChunk::Control => StreamChunk::Control,
            StreamChunk::Error(message) => StreamChunk::Error(message.clone()),
        }
    }
}

/// The chunks of `chunks` as contracts see them, in order.
pub open spec fn chunk_views(chunks: Seq<StreamChunk>) -> Seq<ChunkView> {
    Seq::new(chunks.len(), |i: int| chunks[i]@)
}

/// The reply after one more chunk: text is appended, anything else leaves
/// the reply as it is.
pub open spec fn reply_after(reply: Seq<char>, chunk: ChunkView) -> Seq<char> {
    match chunk {
        ChunkView::Content(text) => reply + text,
        ChunkView::Control => reply,
        ChunkView::Error(_) => reply,
    }
}

/// What a chunk asks of the caller.
pub open spec fn action_for(chunk: ChunkView) -> ChunkActionView {
    match chunk {
        ChunkView::Content(text) => ChunkActionView::Emit(text),
        ChunkView::Control => ChunkActionView::Skip,
        ChunkView::Error(message) => ChunkActionView::Abort(message),
    }
}

/// How a whole stream ends. Chunks are taken in order up to the first
/// error: each piece of text is written out and appended to the reply,
/// chunks without text are passed over, and an error ends the reading with
/// its message. What follows an error is never looked at.
pub open spec fn drained(chunks: Seq<ChunkView>) -> OutcomeView
    decreases chunks.len(),
{
    if chunks.len() == 0 {
        OutcomeView { reply: Seq::empty(), writes: Seq::empty(), failure: None }
    } else {
        let before = drained(chunks.drop_last());
        if before.failure is Some {
            before
        } else {
            match chunks.last() {
                ChunkView::Content(text) => OutcomeView {
                    reply: before.reply + text,
                    writes: before.writes.push(text),
                    failure: None,
                },
                ChunkView::Control => before,
                ChunkView::Error(message) => OutcomeView {
                    reply: before.reply,
                    writes: before.writes,
                    failure: Some(message),
                },
            }
        }
    }
}

/// The texts of `parts` one after the other, nothing between them.
pub open spec fn concat(parts: Seq<Seq<char>>) -> Seq<char>
    decreases parts.len(),
{
    if parts.len() == 0 {
        Seq::empty()
    } else {
        concat(parts.drop_last()) + parts.last()
    }
}

/// The gatherer of one streamed reply. Its view is the text gathered so far.
#[derive(Debug)]
pub struct StreamConsumer {
    reply: String,
}

impl View for StreamConsumer {
    type V = Seq<char>;

    closed spec fn view(&self) -> Seq<char> {
        self.reply@
    }
}

impl StreamConsumer {
    /// A consumer that has gathered nothing yet.
    pub fn new() -> (consumer: Self)
        ensures
            consumer@ == Seq::<char>::empty(),
    {
        StreamConsumer { reply: String::new() }
    }

    /// Takes the next chunk of the stream and says what to do about it.
    ///
    /// Text is appended to the reply and handed back to be written out at
    /// once. A chunk without text changes nothing. An error changes nothing
    /// either and asks the caller to stop; the caller sees its message.
    pub fn accept(&mut self, chunk: StreamChunk) -> (action: ChunkAction)
        ensures
            final(self)@ == reply_after(old(self)@, chunk@),
            action@ == action_for(chunk@),
    {
        match chunk {
            StreamChunk::Content(text) => {
                self.reply.append(text.as_str());
                ChunkAction::Emit(text)
            },
            StreamChunk::Control => ChunkAction::Skip,
            StreamChunk::Error(message) => ChunkAction::Abort(message),
        }
    }

    /// The text gathered so far.
    pub fn reply(&self) -> (text: &String)
        ensures
            text@ == self@,
    {
        &self.reply
    }

    /// Ends the gathering and hands over the whole reply.
    pub fn finish(self) -> (text: String)
        ensures
            text@ == self@,
    {
        self.reply
    }
}

/// Runs a whole stream through a consumer, as the caller's loop would: chunk
/// by chunk, until the stream is exhausted or a chunk reports an error.
pub fn consume_stream(chunks: &Vec<StreamChunk>) -> (outcome: StreamOutcome)
    ensures
        outcome@ == drained(chunk_views(chunks@)),
{
    let mut consumer = StreamConsumer::new();
    let mut writes: Vec<String> = Vec::new();
    let mut failure: Option<String> = None;
    let ghost views = chunk_views(chunks@);
    let mut i: usize = 0;
    assert(texts(writes@) =~= Seq::<Seq<char>>::empty());
    while i < chunks.len() && failure.is_none()
        invariant
            i <= chunks.len(),
            views == chunk_views(chunks@),
            (OutcomeView {
                reply: consumer@,
                writes: texts(writes@),
                failure: optional_text(failure),
            }) == drained(views.take(i as int)),
        decreases chunks.len() - i,
    {
        let ghost old_writes = texts(writes@);
        proof {
            assert(views.take(i + 1).drop_last() =~= views.take(i as int));
            assert(views.take(i + 1).last() == chunks@[i as int]@);
        }
        match consumer.accept(chunks[i].clone()) {
            ChunkAction::Emit(text) => {
                writes.push(text);
                assert(texts(writes@) =~= old_writes.push(text@));
            },
            ChunkAction::Skip => {},
            ChunkAction::Abort(message) => {
                failure = Some(message);
            },
        }
        i += 1;
    }
    proof {
        lemma_drained_stops_at_failure(views, i as int);
    }
    StreamOutcome { reply: consumer.finish(), writes, failure }
}

/// Once a prefix of a stream has ended in failure, nothing that follows
/// changes the outcome.
pub proof fn lemma_drained_stops_at_failure(chunks: Seq<ChunkView>, upto: int)
    requires
        0 <= upto <= chunks.len(),
        upto == chunks.len() || drained(chunks.take(upto)).failure is Some,
    ensures
        drained(chunks) == drained(chunks.take(upto)),
    decreases chunks.len() - upto,
{
    if upto == chunks.len() {
        assert(chunks.take(upto) =~= chunks);
    } else {
        assert(chunks.take(upto + 1).drop_last() =~= chunks.take(upto));
        lemma_drained_stops_at_failure(chunks, upto + 1);
    }
}

/// The reply is what was written out, piece by piece: the two never differ.
pub proof fn lemma_reply_is_what_was_written(chunks: Seq<ChunkView>)
    ensures
        drained(chunks).reply == concat(drained(chunks).writes),
    decreases chunks.len(),
{
    if chunks.len() > 0 {
        lemma_reply_is_what_was_written(chunks.drop_last());
        let before = drained(chunks.drop_last());
        if before.failure is None {
            match chunks.last() {
                ChunkView::Content(text) => {
                    assert(before.writes.push(text).drop_last() =~= before.writes);
                },
                _ => {},
            }
        }
    }
}

/// A stream fails exactly when one of its chunks reports an error.
pub proof fn lemma_failure_iff_error_chunk(chunks: Seq<ChunkView>)
    ensures
        drained(chunks).failure is Some <==> exists|k: int|
            0 <= k < chunks.len() && #[trigger] chunks[k] is Error,
    decreases chunks.len(),
{
    if chunks.len() > 0 {
        let earlier = chunks.drop_last();
        lemma_failure_iff_error_chunk(earlier);
        if drained(chunks).failure is Some {
            if drained(earlier).failure is Some {
                let k = choose|k: int| 0 <= k < earlier.len() && #[trigger] earlier[k] is Error;
                assert(chunks[k] is Error);
            } else {
                assert(chunks[chunks.len() - 1] is Error);
            }
        }
        if exists|k: int| 0 <= k < chunks.len() && #[trigger] chunks[k] is Error {
            let k = choose|k: int| 0 <= k < chunks.len() && #[trigger] chunks[k] is Error;
            if k < earlier.len() {
                assert(earlier[k] is Error);
            }
        }
    }
}

/// The failure of a stream is its first error: the message is that chunk's,
/// and the reply and the writes are those of the chunks before it.
pub proof fn lemma_failure_is_the_first_error(chunks: Seq<ChunkView>, first: int)
    requires
        0 <= first < chunks.len(),
        chunks[first] is Error,
        forall|k: int| 0 <= k < first ==> !(#[trigger] chunks[k] is Error),
    ensures
        drained(chunks).failure == Some(chunks[first]->Error_0),
        drained(chunks).reply == drained(chunks.take(first)).reply,
        drained(chunks).writes == drained(chunks.take(first)).writes,
{
    let before = chunks.take(first);
    lemma_failure_iff_error_chunk(before);
    if drained(before).failure is Some {
        let k = choose|k: int| 0 <= k < before.len() && #[trigger] before[k] is Error;
        assert(chunks[k] is Error);
    }
    assert(chunks.take(first + 1).drop_last() =~= before);
    assert(chunks.take(first + 1).last() == chunks[first]);
    lemma_drained_stops_at_failure(chunks, first + 1);
}

/// A stream of text chunks alone is written out piece by piece, in the order
/// of arrival, and the reply is the pieces put together.
pub proof fn lemma_text_stream_is_kept_whole(pieces: Seq<Seq<char>>)
    ensures
        ({
            let chunks = Seq::new(pieces.len(), |i: int| ChunkView::Content(pieces[i]));
            &&& drained(chunks).writes == pieces
            &&& drained(chunks).reply == concat(pieces)
            &&& drained(chunks).failure is None
        }),
    decreases pieces.len(),
{
    let chunks = Seq::new(pieces.len(), |i: int| ChunkView::Content(pieces[i]));
    if pieces.len() == 0 {
        assert(drained(chunks).writes =~= pieces);
    } else {
        let earlier = pieces.drop_last();
        lemma_text_stream_is_kept_whole(earlier);
        assert(chunks.drop_last() =~= Seq::new(
            earlier.len(),
            |i: int| ChunkView::Content(earlier[i]),
        ));
        assert(drained(chunks).writes =~= pieces);
    }
}

} // verus!
