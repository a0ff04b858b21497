use chat_adapter::aggregate::aggregate;
use chat_adapter::role::Role;
use chat_adapter::token::{FinishReason, Token};

fn text(s: &str) -> Token {
    Token::Token(s.to_string())
}

#[test]
fn aggregate_stop_stream() {
    let tokens = vec![
        Token::PromptTokenCount(10),
        text("Hi"),
        text(" there"),
        Token::Stop,
    ];
    let resp = aggregate(&tokens);
    assert_eq!(resp.object, "chat.completion");
    assert_eq!(resp.choices.len(), 1);
    assert_eq!(resp.choices[0].index, 0);
    assert_eq!(resp.choices[0].message.role, Role::Assistant);
    assert_eq!(resp.choices[0].message.content, "Hi there");
    assert_eq!(resp.choices[0].finish_reason, FinishReason::Stop);
    assert_eq!(resp.counter.prompt_tokens, 10);
    assert_eq!(resp.counter.completion_tokens, 2);
    assert_eq!(resp.counter.total_tokens, 12);
}

#[test]
fn aggregate_cutoff_stream() {
    let tokens = vec![
        Token::PromptTokenCount(10),
        text("Hi"),
        text(" there"),
        Token::CutOff,
    ];
    let resp = aggregate(&tokens);
    assert_eq!(resp.choices[0].finish_reason, FinishReason::Length);
    assert_eq!(resp.choices[0].message.content, "Hi there");
    assert_eq!(resp.counter.prompt_tokens, 10);
    assert_eq!(resp.counter.completion_tokens, 2);
    assert_eq!(resp.counter.total_tokens, 12);
}

#[test]
fn aggregate_end_of_text_means_length() {
    let tokens = vec![text("a"), Token::EndOfText];
    let resp = aggregate(&tokens);
    assert_eq!(resp.choices[0].finish_reason, FinishReason::Length);
    assert_eq!(resp.choices[0].message.content, "a");
}

#[test]
fn aggregate_unterminated_stream_stays_null() {
    let tokens = vec![Token::PromptTokenCount(3), text("a")];
    let resp = aggregate(&tokens);
    assert_eq!(resp.choices[0].finish_reason, FinishReason::Null);
    assert_eq!(resp.counter.prompt_tokens, 3);
    assert_eq!(resp.counter.completion_tokens, 1);
    assert_eq!(resp.counter.total_tokens, 4);
}

#[test]
fn aggregate_empty_stream() {
    let resp = aggregate(&Vec::new());
    assert_eq!(resp.object, "chat.completion");
    assert_eq!(resp.choices.len(), 1);
    assert_eq!(resp.choices[0].message.content, "");
    assert_eq!(resp.choices[0].finish_reason, FinishReason::Null);
    assert_eq!(resp.counter.total_tokens, 0);
}

#[test]
fn aggregate_ignores_events_after_terminal() {
    let tokens = vec![
        text("a"),
        Token::Stop,
        text("b"),
        Token::PromptTokenCount(9),
    ];
    let resp = aggregate(&tokens);
    assert_eq!(resp.choices[0].message.content, "a");
    assert_eq!(resp.choices[0].finish_reason, FinishReason::Stop);
    assert_eq!(resp.counter.prompt_tokens, 0);
    assert_eq!(resp.counter.completion_tokens, 1);
    assert_eq!(resp.counter.total_tokens, 1);
}

#[test]
fn aggregate_last_prompt_count_wins() {
    let tokens = vec![
        Token::PromptTokenCount(1),
        Token::PromptTokenCount(7),
        Token::Stop,
    ];
    let resp = aggregate(&tokens);
    assert_eq!(resp.counter.prompt_tokens, 7);
    assert_eq!(resp.counter.completion_tokens, 0);
    assert_eq!(resp.counter.total_tokens, 7);
}

#[test]
fn aggregate_counts_empty_content_tokens() {
    let tokens = vec![text(""), text(""), Token::Stop];
    let resp = aggregate(&tokens);
    assert_eq!(resp.choices[0].message.content, "");
    assert_eq!(resp.counter.completion_tokens, 2);
}
