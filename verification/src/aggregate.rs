use vstd::prelude::*;
use vstd::string::StringExecFns;

use crate::request::ChatRecord;
use crate::role::Role;
use crate::token::{
    agg_fold, is_terminal, lemma_agg_fold_absorbs, AggView, FinishReason, Token, TokenCounter,
};

verus! {

/// The single choice of an aggregated completion.
#[derive(Debug, Clone)]
pub struct ChatChoice {
    pub message: ChatRecord,
    pub index: usize,
    pub finish_reason: FinishReason,
}

/// A fully aggregated completion, the non-streaming response shape.
#[derive(Debug, Clone)]
pub struct ChatResponse {
    pub object: String,
    pub choices: Vec<ChatChoice>,
    pub counter: TokenCounter,
}

/// The sum of two counts, capped at the largest representable value.
pub open spec fn sat_add_usize(a: usize, b: usize) -> usize {
    if a + b <= usize::MAX {
        (a + b) as usize
    } else {
        usize::MAX
    }
}

/// Whether the four running aggregation values agree with a mathematical
/// aggregation state.
pub open spec fn agg_matches(
    prompt_tokens: usize,
    completion_tokens: usize,
    text: Seq<char>,
    finish_reason: FinishReason,
    v: AggView,
) -> bool {
    prompt_tokens as int == v.prompt_tokens && completion_tokens as int == v.completion_count
        && text == v.text && finish_reason == v.finish_reason
}

/// Aggregate a finite token stream into one completion.
///
/// A single pass consumes events up to and including the first terminal
/// event, ignoring the rest: each prompt count overwrites the prompt total,
/// each content token is appended to the text and counted, and the first
/// terminal event fixes the finish reason (`Stop` for an explicit stop,
/// `Length` for a cut-off or end of text). A stream with no terminal event is
/// consumed whole and leaves the finish reason `Null`. The response carries
/// exactly one choice at index zero, spoken by the assistant, and a counter
/// whose total is the capped sum of prompt and completion counts.
pub fn aggregate(tokens: &Vec<Token>) -> (resp: ChatResponse)
    ensures
        resp.object@ == "chat.completion"@,
        resp.choices@.len() == 1,
        resp.choices@[0].index == 0,
        resp.choices@[0].message.role == Role::Assistant,
        resp.choices@[0].message.content@ == agg_fold(tokens@).text,
        resp.choices@[0].finish_reason == agg_fold(tokens@).finish_reason,
        resp.counter.prompt_tokens as int == agg_fold(tokens@).prompt_tokens,
        resp.counter.completion_tokens as int == agg_fold(tokens@).completion_count,
        resp.counter.total_tokens == sat_add_usize(
            resp.counter.prompt_tokens,
            resp.counter.completion_tokens,
        ),
{
    let mut prompt_tokens: usize = 0;
    let mut completion_tokens: usize = 0;
    let mut text = String::new();
    let mut finish_reason = FinishReason::Null;
    let n = tokens.len();
    let mut i: usize = 0;
    let mut done = false;
    while i < n && !done
        invariant
            n == tokens@.len(),
            i <= n,
            completion_tokens <= i,
            !done ==> !agg_fold(tokens@.take(i as int)).done && agg_matches(
                prompt_tokens,
                completion_tokens,
                text@,
                finish_reason,
                agg_fold(tokens@.take(i as int)),
            ),
            done ==> agg_matches(
                prompt_tokens,
                completion_tokens,
                text@,
                finish_reason,
                agg_fold(tokens@),
            ),
        decreases n - i,
    {
        proof {
            assert(tokens@.take(i + 1).drop_last() =~= tokens@.take(i as int));
            assert(tokens@.take(i + 1).last() == tokens@[i as int]);
        }
        match &tokens[i] {
            Token::PromptTokenCount(k) => {
                prompt_tokens = *k;
            },
            Token::Token(s) => {
                text.append(s.as_str());
                completion_tokens = completion_tokens + 1;
            },
            Token::Stop => {
                finish_reason = FinishReason::Stop;
                done = true;
                proof {
                    lemma_agg_fold_absorbs(tokens@, i + 1);
                }
            },
            Token::CutOff => {
                finish_reason = FinishReason::Length;
                done = true;
                proof {
                    lemma_agg_fold_absorbs(tokens@, i + 1);
                }
            },
            Token::EndOfText => {
                finish_reason = FinishReason::Length;
                done = true;
                proof {
                    lemma_agg_fold_absorbs(tokens@, i + 1);
                }
            },
        }
        i = i + 1;
    }
    proof {
        if !done {
            assert(tokens@.take(i as int) =~= tokens@);
        }
    }
    let total_tokens = if prompt_tokens <= usize::MAX - completion_tokens {
        prompt_tokens + completion_tokens
    } else {
        usize::MAX
    };
    let counter = TokenCounter { prompt_tokens, completion_tokens, total_tokens };
    let mut choices: Vec<ChatChoice> = Vec::new();
    choices.push(
        ChatChoice {
            message: ChatRecord { role: Role::Assistant, content: text },
            index: 0,
            finish_reason,
        },
    );
    ChatResponse { object: String::from_str("chat.completion"), choices, counter }
}

} // verus!
