//! Streaming a response body to its destination, one chunk at a time.
//!
//! The caller owns the network and the file. It reports what happened as a
//! [`TransferEvent`] and carries out the [`TransferAction`] it gets back.
//! Nothing but the chunk in flight is ever held.
//!
//! A body that is read as text is collected whole first, and decoded once it
//! has ended: where the transport cuts it has no say in its text.

use vstd::prelude::*;
use vstd::utf8::*;
use crate::api::error::OpsmlError;
use crate::api::text::utf8_text;
use crate::api::utils::is_success;
use crate::api::utils::text_result;

verus! {

/// How far a transfer has come.
#[derive(Debug, Clone, Copy, PartialEq, Eq, Structural)]
pub enum TransferPhase {
    /// Nothing was done yet.
    Idle,
    /// The destination is open and takes chunks.
    Writing,
    /// The body ended and the destination holds all of it.
    Done,
    /// The transfer failed. What was written stays where it is.
    Failed,
}

/// What the caller reports.
#[derive(Debug)]
pub enum TransferEvent {
    /// The response has arrived with this status and its body is about to be
    /// read.
    Start(u16),
    /// The next chunk of the body.
    Chunk(Vec<u8>),
    /// The body has ended.
    End,
    /// The transport failed.
    TransportFailure,
    /// A directory or file operation failed.
    FileFailure,
}

/// What the caller is to do next.
#[derive(Debug)]
pub enum TransferAction {
    /// Create the missing parent directories of the destination, then create
    /// the destination file, emptying it if it exists.
    Prepare,
    /// Append these bytes to the destination.
    Append(Vec<u8>),
    /// Close the destination: the transfer is complete.
    Finish,
    /// Stop and report the error. Nothing is cleaned up.
    Fail(OpsmlError),
    /// The event does not belong here: do nothing.
    Ignore,
}

/// An event by its content.
pub enum Signal {
    Start(u16),
    Chunk(Seq<u8>),
    End,
    TransportFailure,
    FileFailure,
}

/// An action by its content.
pub enum Effect {
    Prepare,
    Append(Seq<u8>),
    Finish,
    Fail(OpsmlError),
    Ignore,
}

impl View for TransferEvent {
    type V = Signal;

    open spec fn view(&self) -> Signal {
        match self {
            TransferEvent::Start(status) => Signal::Start(*status),
            TransferEvent::Chunk(bytes) => Signal::Chunk(bytes@),
            TransferEvent::End => Signal::End,
            TransferEvent::TransportFailure => Signal::TransportFailure,
            TransferEvent::FileFailure => Signal::FileFailure,
        }
    }
}

impl View for TransferAction {
    type V = Effect;

    open spec fn view(&self) -> Effect {
        match self {
            TransferAction::Prepare => Effect::Prepare,
            TransferAction::Append(bytes) => Effect::Append(bytes@),
            TransferAction::Finish => Effect::Finish,
            TransferAction::Fail(error) => Effect::Fail(*error),
            TransferAction::Ignore => Effect::Ignore,
        }
    }
}

/// The transfer's rule: for a phase and a signal, the next phase and the
/// effect. A response outside 200..=299 is refused before anything is
/// touched; a chunk is appended as it comes; a failure ends the transfer with
/// its error; a signal that has no place in the phase changes nothing.
pub open spec fn transition(phase: TransferPhase, signal: Signal) -> (TransferPhase, Effect) {
    match (phase, signal) {
        (TransferPhase::Idle, Signal::Start(status)) => if 200 <= status <= 299 {
            (TransferPhase::Writing, Effect::Prepare)
        } else {
            (TransferPhase::Failed, Effect::Fail(OpsmlError::UnexpectedStatus { status }))
        },
        (TransferPhase::Writing, Signal::Chunk(bytes)) => (
            TransferPhase::Writing,
            Effect::Append(bytes),
        ),
        (TransferPhase::Writing, Signal::End) => (TransferPhase::Done, Effect::Finish),
        (TransferPhase::Idle, Signal::TransportFailure) => (
            TransferPhase::Failed,
            Effect::Fail(OpsmlError::NetworkError),
        ),
        (TransferPhase::Writing, Signal::TransportFailure) => (
            TransferPhase::Failed,
            Effect::Fail(OpsmlError::NetworkError),
        ),
        (TransferPhase::Idle, Signal::FileFailure) => (
            TransferPhase::Failed,
            Effect::Fail(OpsmlError::IOError),
        ),
        (TransferPhase::Writing, Signal::FileFailure) => (
            TransferPhase::Failed,
            Effect::Fail(OpsmlError::IOError),
        ),
        _ => (phase, Effect::Ignore),
    }
}

/// Decides what follows an event.
pub fn transfer_step(phase: TransferPhase, event: TransferEvent) -> (next: (
    TransferPhase,
    TransferAction,
))
    ensures
        (next.0, next.1@) == transition(phase, event@),
{
    match phase {
        TransferPhase::Idle => match event {
            TransferEvent::Start(status) => if is_success(status) {
                (TransferPhase::Writing, TransferAction::Prepare)
            } else {
                (
                    TransferPhase::Failed,
                    TransferAction::Fail(OpsmlError::UnexpectedStatus { status }),
                )
            },
            TransferEvent::TransportFailure => (
                TransferPhase::Failed,
                TransferAction::Fail(OpsmlError::NetworkError),
            ),
            TransferEvent::FileFailure => (
                TransferPhase::Failed,
                TransferAction::Fail(OpsmlError::IOError),
            ),
            _ => (phase, TransferAction::Ignore),
        },
        TransferPhase::Writing => match event {
            TransferEvent::Chunk(bytes) => (TransferPhase::Writing, TransferAction::Append(bytes)),
            TransferEvent::End => (TransferPhase::Done, TransferAction::Finish),
            TransferEvent::TransportFailure => (
                TransferPhase::Failed,
                TransferAction::Fail(OpsmlError::NetworkError),
            ),
            TransferEvent::FileFailure => (
                TransferPhase::Failed,
                TransferAction::Fail(OpsmlError::IOError),
            ),
            _ => (phase, TransferAction::Ignore),
        },
        _ => (phase, TransferAction::Ignore),
    }
}

/// What the destination holds once an effect is carried out.
pub open spec fn written(file: Seq<u8>, effect: Effect) -> Seq<u8> {
    match effect {
        Effect::Prepare => Seq::empty(),
        Effect::Append(bytes) => file + bytes,
        _ => file,
    }
}

/// The phase and the destination's content after a run of signals, each
/// effect carried out as it is given.
pub open spec fn run(phase: TransferPhase, file: Seq<u8>, signals: Seq<Signal>) -> (
    TransferPhase,
    Seq<u8>,
)
    decreases signals.len(),
{
    if signals.len() == 0 {
        (phase, file)
    } else {
        let (next, effect) = transition(phase, signals.first());
        run(next, written(file, effect), signals.drop_first())
    }
}

/// The effects of a run of signals, in order.
pub open spec fn effects(phase: TransferPhase, signals: Seq<Signal>) -> Seq<Effect>
    decreases signals.len(),
{
    if signals.len() == 0 {
        Seq::empty()
    } else {
        let (next, effect) = transition(phase, signals.first());
        seq![effect] + effects(next, signals.drop_first())
    }
}

/// The signals of a body that arrives in these chunks and then ends.
pub open spec fn body_signals(chunks: Seq<Seq<u8>>) -> Seq<Signal> {
    Seq::new(chunks.len(), |i: int| Signal::Chunk(chunks[i])).push(Signal::End)
}

/// While writing, a body that arrives in chunks and ends leaves the
/// destination with what it held, followed by the chunks in order.
pub proof fn lemma_body_is_appended(file: Seq<u8>, chunks: Seq<Seq<u8>>)
    ensures
        run(TransferPhase::Writing, file, body_signals(chunks)) == (
            TransferPhase::Done,
            file + chunks.flatten(),
        ),
    decreases chunks.len(),
{
    let signals = body_signals(chunks);
    if chunks.len() == 0 {
        assert(signals.drop_first() =~= Seq::<Signal>::empty());
        assert(signals.first() == Signal::End);
        assert(chunks.flatten() =~= Seq::<u8>::empty());
        assert(file + chunks.flatten() =~= file);
        assert(run(TransferPhase::Done, file, signals.drop_first()) == (TransferPhase::Done, file));
    } else {
        assert(signals.first() == Signal::Chunk(chunks.first()));
        assert(signals.drop_first() =~= body_signals(chunks.drop_first()));
        lemma_body_is_appended(file + chunks.first(), chunks.drop_first());
        assert(chunks.flatten() == chunks.first() + chunks.drop_first().flatten());
        assert(file + chunks.first() + chunks.drop_first().flatten() =~= file + chunks.flatten());
    }
}

/// However a source is cut into chunks, a transfer that starts on a success
/// status, receives the chunks in order and ends leaves the destination
/// holding the source, byte for byte, whatever the destination held before.
pub proof fn lemma_transfer_is_faithful(
    source: Seq<u8>,
    chunks: Seq<Seq<u8>>,
    previous: Seq<u8>,
    status: u16,
)
    requires
        chunks.flatten() == source,
        200 <= status <= 299,
    ensures
        run(TransferPhase::Idle, previous, seq![Signal::Start(status)] + body_signals(chunks)) == (
            TransferPhase::Done,
            source,
        ),
{
    let signals = seq![Signal::Start(status)] + body_signals(chunks);
    assert(signals.first() == Signal::Start(status));
    assert(signals.drop_first() =~= body_signals(chunks));
    lemma_body_is_appended(Seq::<u8>::empty(), chunks);
    assert(Seq::<u8>::empty() + chunks.flatten() =~= source);
}

/// From the start of a transfer, whatever is reported, no bytes are appended
/// before the destination was prepared: every `Append` among the effects has
/// a `Prepare` before it.
pub proof fn lemma_prepare_comes_first(signals: Seq<Signal>, at: int)
    requires
        0 <= at < effects(TransferPhase::Idle, signals).len(),
        effects(TransferPhase::Idle, signals)[at] is Append,
    ensures
        exists|before: int|
            0 <= before < at && #[trigger] effects(TransferPhase::Idle, signals)[before] is Prepare,
    decreases signals.len(),
{
    let all = effects(TransferPhase::Idle, signals);
    let (next, effect) = transition(TransferPhase::Idle, signals.first());
    let rest = effects(next, signals.drop_first());
    assert(all == seq![effect] + rest);
    assert(at > 0);
    assert(all[at] == rest[at - 1]);
    match next {
        TransferPhase::Idle => {
            lemma_prepare_comes_first(signals.drop_first(), at - 1);
            let before = choose|before: int|
                0 <= before < at - 1 && #[trigger] rest[before] is Prepare;
            assert(all[before + 1] == rest[before]);
            assert(all[before + 1] is Prepare);
        },
        TransferPhase::Writing => {
            assert(all[0] is Prepare);
        },
        _ => {
            lemma_settled_appends_nothing(next, signals.drop_first(), at - 1);
        },
    }
}

/// Once a transfer is done or has failed, nothing is appended any more.
pub proof fn lemma_settled_appends_nothing(phase: TransferPhase, signals: Seq<Signal>, at: int)
    requires
        phase == TransferPhase::Done || phase == TransferPhase::Failed,
        0 <= at < effects(phase, signals).len(),
    ensures
        effects(phase, signals)[at] is Ignore,
    decreases signals.len(),
{
    let (next, effect) = transition(phase, signals.first());
    let rest = effects(next, signals.drop_first());
    assert(effects(phase, signals) == seq![effect] + rest);
    if at > 0 {
        lemma_settled_appends_nothing(next, signals.drop_first(), at - 1);
    }
}

/// Appends a chunk to the bytes of the body read so far.
pub fn append_chunk(body: &mut Vec<u8>, chunk: &[u8])
    ensures
        final(body)@ == old(body)@ + chunk@,
{
    let mut i: usize = 0;
    while i < chunk.len()
        invariant
            i <= chunk.len(),
            body@ == old(body)@ + chunk@.subrange(0, i as int),
        decreases chunk.len() - i,
    {
        body.push(chunk[i]);
        i = i + 1;
    }
    assert(chunk@.subrange(0, i as int) =~= chunk@);
}

/// The text of a body: what its bytes decode to as UTF-8, or a decode error
/// where they are no valid UTF-8.
pub open spec fn decoded_body(bytes: Seq<u8>) -> Result<Seq<char>, OpsmlError> {
    if valid_utf8(bytes) {
        Ok(decode_utf8(bytes))
    } else {
        Err(OpsmlError::DecodeError)
    }
}

/// The text of a body that was read to its end.
pub fn body_text(body: &[u8]) -> (text: Result<String, OpsmlError>)
    ensures
        text_result(text) == decoded_body(body@),
{
    match utf8_text(body) {
        Some(decoded) => Ok(decoded.to_string()),
        None => Err(OpsmlError::DecodeError),
    }
}

/// The bytes collected once the first `n` chunks were appended, in order, to
/// an empty body.
pub open spec fn collected(chunks: Seq<Seq<u8>>, n: int) -> Seq<u8>
    decreases n,
{
    if n <= 0 {
        Seq::empty()
    } else {
        collected(chunks, n - 1) + chunks[n - 1]
    }
}

/// Appending chunks in order collects their concatenation.
pub proof fn lemma_collected_is_concatenation(chunks: Seq<Seq<u8>>, n: int)
    requires
        0 <= n <= chunks.len(),
    ensures
        collected(chunks, n) == chunks.take(n).flatten(),
    decreases n,
{
    if n == 0 {
        assert(chunks.take(0).flatten() =~= Seq::<u8>::empty());
    } else {
        lemma_collected_is_concatenation(chunks, n - 1);
        assert(chunks.take(n) =~= chunks.take(n - 1).push(chunks[n - 1]));
        chunks.take(n - 1).lemma_flatten_push(chunks[n - 1]);
    }
}

/// However a body is cut into chunks, and be it inside a character, the
/// chunks appended in order give the body's bytes, and so the body's text: the
/// text depends on the concatenated bytes alone.
pub proof fn lemma_text_ignores_the_cuts(body: Seq<u8>, chunks: Seq<Seq<u8>>)
    requires
        chunks.flatten() == body,
    ensures
        collected(chunks, chunks.len() as int) == body,
        decoded_body(collected(chunks, chunks.len() as int)) == decoded_body(body),
{
    lemma_collected_is_concatenation(chunks, chunks.len() as int);
    assert(chunks.take(chunks.len() as int) =~= chunks);
}

} // verus!
