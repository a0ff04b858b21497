use vstd::prelude::*;

verus! {

/// One event from the engine: stream metadata, one piece of generated
/// content, or a terminal condition. Exactly one finite stream of these
/// exists per request; it is consumed once and never restarted.
#[derive(Debug, Clone)]
pub enum Token {
    PromptTokenCount(usize),
    Token(String),
    Stop,
    CutOff,
    EndOfText,
}

/// Why generation stopped: not finished yet, an explicit stop condition, or
/// the length limit.
#[derive(Debug, Clone, Copy, PartialEq, Eq, Structural)]
pub enum FinishReason {
    Null,
    Stop,
    Length,
}

/// Token accounting for one completed request. `total_tokens` is established
/// only once stream consumption ends.
#[derive(Debug, Clone, Copy, PartialEq, Eq, Structural)]
pub struct TokenCounter {
    pub prompt_tokens: usize,
    pub completion_tokens: usize,
    pub total_tokens: usize,
}

/// Whether an event ends the aggregator's single pass over the stream.
pub open spec fn is_terminal(t: Token) -> bool {
    match t {
        Token::Stop | Token::CutOff | Token::EndOfText => true,
        _ => false,
    }
}

impl Token {
    /// Whether this event ends the aggregator's pass.
    pub fn is_terminal_event(&self) -> (r: bool)
        ensures
            r == is_terminal(*self),
    {
        match self {
            Token::Stop | Token::CutOff | Token::EndOfText => true,
            _ => false,
        }
    }
}

/// The aggregation outcome of a prefix of the token stream, in mathematical
/// form.
pub ghost struct AggView {
    pub prompt_tokens: int,
    pub completion_count: int,
    pub text: Seq<char>,
    pub finish_reason: FinishReason,
    pub done: bool,
}

/// The aggregation state before any event arrives.
pub open spec fn agg_init() -> AggView {
    AggView {
        prompt_tokens: 0,
        completion_count: 0,
        text: Seq::empty(),
        finish_reason: FinishReason::Null,
        done: false,
    }
}

/// How one event changes the aggregation state: a prompt count overwrites the
/// prompt total, a content token is appended and counted, and a terminal
/// event fixes the finish reason and ends the pass; nothing after a terminal
/// event is consumed.
pub open spec fn agg_step(st: AggView, t: Token) -> AggView {
    if st.done {
        st
    } else {
        match t {
            Token::PromptTokenCount(n) => AggView { prompt_tokens: n as int, ..st },
            Token::Token(s) => AggView {
                completion_count: st.completion_count + 1,
                text: st.text + s@,
                ..st
            },
            Token::Stop => AggView { finish_reason: FinishReason::Stop, done: true, ..st },
            Token::CutOff => AggView { finish_reason: FinishReason::Length, done: true, ..st },
            Token::EndOfText => AggView { finish_reason: FinishReason::Length, done: true, ..st },
        }
    }
}

/// The aggregation outcome of a whole event sequence: the fold of `agg_step`
/// over it, starting from the initial state.
pub open spec fn agg_fold(toks: Seq<Token>) -> AggView
    decreases toks.len(),
{
    if toks.len() == 0 {
        agg_init()
    } else {
        agg_step(agg_fold(toks.drop_last()), toks.last())
    }
}

/// Once the fold over a prefix has terminated, the events after that prefix
/// change nothing: the aggregator's single pass stops at the first terminal
/// event.
pub proof fn lemma_agg_fold_absorbs(toks: Seq<Token>, i: int)
    requires
        0 <= i <= toks.len(),
        agg_fold(toks.take(i)).done,
    ensures
        agg_fold(toks) == agg_fold(toks.take(i)),
    decreases toks.len() - i,
{
    if i == toks.len() {
        assert(toks.take(i) =~= toks);
    } else {
        assert(toks.take(i + 1).drop_last() =~= toks.take(i));
        assert(agg_fold(toks.take(i + 1)) == agg_fold(toks.take(i)));
        lemma_agg_fold_absorbs(toks, i + 1);
    }
}

} // verus!
