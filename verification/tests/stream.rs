use chat_adapter::role::Role;
use chat_adapter::stream::{chunk_events, chunk_for_token, ChunkChatRecord, ChunkEvent};
use chat_adapter::token::{FinishReason, Token};

fn text(s: &str) -> Token {
    Token::Token(s.to_string())
}

fn expect_chunk(e: ChunkEvent) -> chat_adapter::stream::ChunkChatResponse {
    match e {
        ChunkEvent::Chunk(c) => c,
        ChunkEvent::Done => panic!("expected a chunk, got the done marker"),
    }
}

#[test]
fn chunk_for_prompt_count_primes_the_role() {
    let c = expect_chunk(chunk_for_token(Token::PromptTokenCount(10)));
    assert_eq!(c.object, "chat.completion.chunk");
    assert_eq!(c.choices.len(), 1);
    assert_eq!(c.choices[0].index, 0);
    assert_eq!(c.choices[0].finish_reason, FinishReason::Null);
    assert!(matches!(
        c.choices[0].delta,
        ChunkChatRecord::Role(Role::Assistant)
    ));
}

#[test]
fn chunk_for_content_carries_the_text() {
    let c = expect_chunk(chunk_for_token(text("Hi")));
    assert_eq!(c.choices[0].finish_reason, FinishReason::Null);
    match &c.choices[0].delta {
        ChunkChatRecord::Content(s) => assert_eq!(s, "Hi"),
        other => panic!("expected a content delta, got {:?}", other),
    }
}

#[test]
fn chunk_for_stop_is_empty_with_stop_reason() {
    let c = expect_chunk(chunk_for_token(Token::Stop));
    assert!(matches!(c.choices[0].delta, ChunkChatRecord::Empty));
    assert_eq!(c.choices[0].finish_reason, FinishReason::Stop);
}

#[test]
fn chunk_for_cutoff_is_empty_with_length_reason() {
    let c = expect_chunk(chunk_for_token(Token::CutOff));
    assert!(matches!(c.choices[0].delta, ChunkChatRecord::Empty));
    assert_eq!(c.choices[0].finish_reason, FinishReason::Length);
}

#[test]
fn chunk_for_end_of_text_is_the_done_marker() {
    assert!(matches!(chunk_for_token(Token::EndOfText), ChunkEvent::Done));
}

#[test]
fn stream_chunks_arrive_in_order() {
    let events = chunk_events(vec![
        Token::PromptTokenCount(10),
        text("Hi"),
        text(" there"),
        Token::Stop,
    ]);
    assert_eq!(events.len(), 4);
    let role = expect_chunk(events[0].clone());
    assert!(matches!(
        role.choices[0].delta,
        ChunkChatRecord::Role(Role::Assistant)
    ));
    assert_eq!(role.choices[0].finish_reason, FinishReason::Null);
    let hi = expect_chunk(events[1].clone());
    match &hi.choices[0].delta {
        ChunkChatRecord::Content(s) => assert_eq!(s, "Hi"),
        other => panic!("expected content, got {:?}", other),
    }
    assert_eq!(hi.choices[0].finish_reason, FinishReason::Null);
    let there = expect_chunk(events[2].clone());
    match &there.choices[0].delta {
        ChunkChatRecord::Content(s) => assert_eq!(s, " there"),
        other => panic!("expected content, got {:?}", other),
    }
    assert_eq!(there.choices[0].finish_reason, FinishReason::Null);
    let stop = expect_chunk(events[3].clone());
    assert!(matches!(stop.choices[0].delta, ChunkChatRecord::Empty));
    assert_eq!(stop.choices[0].finish_reason, FinishReason::Stop);
    assert!(!events.iter().any(|e| matches!(e, ChunkEvent::Done)));
}

#[test]
fn stream_end_of_text_yields_done_and_no_chunk() {
    let events = chunk_events(vec![text("a"), Token::EndOfText]);
    assert_eq!(events.len(), 2);
    assert!(matches!(events[1], ChunkEvent::Done));
}
