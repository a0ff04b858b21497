use vstd::prelude::*;
use vstd::string::StringExecFns;

use crate::role::Role;
use crate::token::{FinishReason, Token};

verus! {

/// The incremental delta carried by one chunk: nothing, a role priming, or
/// one piece of content.
#[derive(Debug, Clone)]
pub enum ChunkChatRecord {
    Empty,
    Role(Role),
    Content(String),
}

/// The single choice of one chunk.
#[derive(Debug, Clone)]
pub struct ChunkChatChoice {
    pub delta: ChunkChatRecord,
    pub index: usize,
    pub finish_reason: FinishReason,
}

/// One incremental unit of a streamed completion.
#[derive(Debug, Clone)]
pub struct ChunkChatResponse {
    pub object: String,
    pub choices: Vec<ChunkChatChoice>,
}

/// What the streaming responder emits for one token event: one chunk, or the
/// terminal marker that carries the literal `[DONE]` payload instead of a
/// chunk.
#[derive(Debug, Clone)]
pub enum ChunkEvent {
    Chunk(ChunkChatResponse),
    Done,
}

/// The delta a chunk owes to one token event: a prompt count primes the
/// assistant role, a content token carries exactly its text, and a terminal
/// event carries an empty delta.
pub open spec fn delta_matches(d: ChunkChatRecord, t: Token) -> bool {
    match t {
        Token::PromptTokenCount(_) => d == ChunkChatRecord::Role(Role::Assistant),
        Token::Token(s) => match d {
            ChunkChatRecord::Content(c) => c@ == s@,
            _ => false,
        },
        Token::CutOff | Token::Stop => match d {
            ChunkChatRecord::Empty => true,
            _ => false,
        },
        Token::EndOfText => true,
    }
}

/// The finish reason a chunk owes to one token event.
pub open spec fn chunk_finish(t: Token) -> FinishReason {
    match t {
        Token::CutOff => FinishReason::Length,
        Token::Stop => FinishReason::Stop,
        _ => FinishReason::Null,
    }
}

/// What the streaming responder owes for one token event: the done marker
/// exactly when the event is an end of text, and otherwise one
/// protocol-compliant chunk with a single choice at index zero.
pub open spec fn chunk_event_ok(e: ChunkEvent, t: Token) -> bool {
    match e {
        ChunkEvent::Done => match t {
            Token::EndOfText => true,
            _ => false,
        },
        ChunkEvent::Chunk(c) => {
            &&& match t {
                Token::EndOfText => false,
                _ => true,
            }
            &&& c.object@ == "chat.completion.chunk"@
            &&& c.choices@.len() == 1
            &&& c.choices@[0].index == 0
            &&& c.choices@[0].finish_reason == chunk_finish(t)
            &&& delta_matches(c.choices@[0].delta, t)
        },
    }
}

/// Map one token event to its outbound streaming event. The live responder
/// forwards each result as it arrives, in channel order, with no buffering
/// and no reordering; an end-of-text event yields the done marker and no
/// chunk.
pub fn chunk_for_token(token: Token) -> (e: ChunkEvent)
    ensures
        chunk_event_ok(e, token),
{
    let choice = match token {
        Token::PromptTokenCount(_) => ChunkChatChoice {
            delta: ChunkChatRecord::Role(Role::Assistant),
            index: 0,
            finish_reason: FinishReason::Null,
        },
        Token::Token(text) => ChunkChatChoice {
            delta: ChunkChatRecord::Content(text),
            index: 0,
            finish_reason: FinishReason::Null,
        },
        Token::CutOff => ChunkChatChoice {
            delta: ChunkChatRecord::Empty,
            index: 0,
            finish_reason: FinishReason::Length,
        },
        Token::Stop => ChunkChatChoice {
            delta: ChunkChatRecord::Empty,
            index: 0,
            finish_reason: FinishReason::Stop,
        },
        Token::EndOfText => {
            return ChunkEvent::Done;
        },
    };
    let mut choices: Vec<ChunkChatChoice> = Vec::new();
    choices.push(choice);
    ChunkEvent::Chunk(
        ChunkChatResponse { object: String::from_str("chat.completion.chunk"), choices },
    )
}

/// The whole outbound event sequence of a finite token stream: one event per
/// token, in arrival order. The live responder yields exactly this sequence
/// lazily, one element per event.
pub fn chunk_events(tokens: Vec<Token>) -> (r: Vec<ChunkEvent>)
    ensures
        r@.len() == tokens@.len(),
        forall|i: int| 0 <= i < tokens@.len() ==> chunk_event_ok(r@[i], tokens@[i]),
{
    let ghost all = tokens@;
    let mut rest = tokens;
    let mut out: Vec<ChunkEvent> = Vec::new();
    while rest.len() > 0
        invariant
            out@.len() + rest@.len() == all.len(),
            rest@ == all.skip(out@.len() as int),
            forall|i: int| 0 <= i < out@.len() ==> chunk_event_ok(out@[i], all[i]),
        decreases rest@.len(),
    {
        let ghost k = out@.len() as int;
        let t = rest.remove(0);
        proof {
            assert(t == all[k]);
            assert(all.skip(k).remove(0) =~= all.skip(k + 1));
        }
        out.push(chunk_for_token(t));
    }
    out
}

} // verus!
