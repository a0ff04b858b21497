use vstd::prelude::*;

use crate::aggregate::{aggregate, sat_add_usize, ChatResponse};
use crate::request::ChatRequest;
use crate::role::Role;
use crate::token::{is_terminal, Token};

verus! {

/// The sending half of a flume channel, declared so that it can stand in
/// signatures and fields. Its values are opaque to verification.
#[verifier::external_type_specification]
#[verifier::external_body]
#[verifier::reject_recursive_types(T)]
pub struct ExSender<T>(flume::Sender<T>);

/// The receiving half of a flume channel.
#[verifier::external_type_specification]
#[verifier::external_body]
#[verifier::reject_recursive_types(T)]
pub struct ExReceiver<T>(flume::Receiver<T>);

/// What kind of work an envelope asks of the engine.
pub enum RequestKind {
    Chat(ChatRequest),
}

/// The envelope submitted to the engine's shared incoming channel: one
/// request together with the sending half of its private result channel.
pub struct ThreadRequest {
    pub request: RequestKind,
    pub token_sender: flume::Sender<Token>,
}

/// Relies on `flume::unbounded`: returns the two connected halves of a fresh
/// unbounded channel.
#[verifier::external_body]
fn token_channel() -> (flume::Sender<Token>, flume::Receiver<Token>) {
    flume::unbounded()
}

/// Relies on `flume::Sender::send`: on an unbounded channel it never blocks,
/// and it fails only when every receiver is gone. The result is deliberately
/// discarded: submission is fire-and-forget, and an unavailable engine
/// degrades to a token stream that closes without a terminal event.
#[verifier::external_body]
fn submit_request(sender: &flume::Sender<ThreadRequest>, envelope: ThreadRequest) {
    let _ = sender.send(envelope);
}

/// Relies on `flume::Receiver::recv`: blocks until the next value arrives,
/// and returns `None` once every sender is dropped and the channel is
/// drained.
#[verifier::external_body]
fn recv_token(receiver: &flume::Receiver<Token>) -> (t: Option<Token>) {
    receiver.recv().ok()
}

/// Hand one chat request to the engine and return the receiving half of a
/// fresh, private, unbounded token channel for it: every request owns an
/// isolated result channel, created here and shared with nothing else.
/// Submission is fire-and-forget: when the engine's incoming channel is
/// closed or unavailable, no error is raised, and the caller instead
/// observes a token stream that closes without a terminal event.
pub fn dispatch(
    sender: &flume::Sender<ThreadRequest>,
    request: ChatRequest,
) -> flume::Receiver<Token> {
    let (token_sender, token_receiver) = token_channel();
    submit_request(sender, ThreadRequest { request: RequestKind::Chat(request), token_sender });
    token_receiver
}

/// Drain a token channel into the finite event sequence of one request:
/// every event up to and including the first terminal event, or every event
/// that arrived before the channel closed. Only the last collected event can
/// be terminal.
pub fn collect_tokens(receiver: &flume::Receiver<Token>) -> (r: Vec<Token>)
    ensures
        forall|i: int| 0 <= i < r@.len() - 1 ==> !is_terminal(r@[i]),
{
    let mut tokens: Vec<Token> = Vec::new();
    // The collected vector cannot hold more events than this bound anyway,
    // so bounding the drain by it changes nothing observable.
    while tokens.len() < usize::MAX
        invariant_except_break
            forall|i: int| 0 <= i < tokens@.len() ==> !is_terminal(tokens@[i]),
        ensures
            forall|i: int| 0 <= i < tokens@.len() - 1 ==> !is_terminal(tokens@[i]),
        decreases usize::MAX - tokens@.len(),
    {
        match recv_token(receiver) {
            None => {
                break ;
            },
            Some(t) => {
                let term = t.is_terminal_event();
                tokens.push(t);
                if term {
                    break ;
                }
            },
        }
    }
    tokens
}

/// Drain a token channel fully and aggregate it into one completion, as the
/// non-streaming responder does.
pub fn collect_response(receiver: &flume::Receiver<Token>) -> (resp: ChatResponse)
    ensures
        resp.object@ == "chat.completion"@,
        resp.choices@.len() == 1,
        resp.choices@[0].index == 0,
        resp.choices@[0].message.role == Role::Assistant,
        resp.counter.total_tokens == sat_add_usize(
            resp.counter.prompt_tokens,
            resp.counter.completion_tokens,
        ),
{
    let tokens = collect_tokens(receiver);
    aggregate(&tokens)
}

/// Run one whole non-streaming request: dispatch it to the engine, then
/// drain its private token stream and aggregate the events into a single
/// completion with one assistant choice at index zero.
pub fn chat_completions(
    sender: &flume::Sender<ThreadRequest>,
    request: ChatRequest,
) -> (resp: ChatResponse)
    ensures
        resp.object@ == "chat.completion"@,
        resp.choices@.len() == 1,
        resp.choices@[0].index == 0,
        resp.choices@[0].message.role == Role::Assistant,
        resp.counter.total_tokens == sat_add_usize(
            resp.counter.prompt_tokens,
            resp.counter.completion_tokens,
        ),
{
    let receiver = dispatch(sender, request);
    collect_response(&receiver)
}

} // verus!
