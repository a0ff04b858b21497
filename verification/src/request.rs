use vstd::prelude::*;
use vstd::string::StringExecFns;

use crate::MAX_TOKENS;
use crate::option_array::OptionArray;
use crate::role::{Role, role_label};
use crate::text::{trim_spec, trim_str};

verus! {

/// Bit pattern of the single-precision value one, the neutral default for
/// `temperature` and `top_p`.
pub const SAMPLER_ONE: u32 = 0x3f80_0000;

/// Bit pattern of the single-precision value zero, the neutral default for
/// the two penalties.
pub const SAMPLER_ZERO: u32 = 0;

/// One turn of a conversation.
#[derive(Debug, Clone)]
pub struct ChatRecord {
    pub role: Role,
    pub content: String,
}

/// Sampling parameters handed to the engine unchanged. They are IEEE-754
/// single-precision values; this core never computes with them, so each is
/// carried as its raw 32-bit pattern.
#[derive(Debug, Clone, Copy, PartialEq, Eq, Structural)]
pub struct Sampler {
    pub top_p: u32,
    pub temperature: u32,
    pub presence_penalty: u32,
    pub frequency_penalty: u32,
}

/// An incoming chat-completion request. The one-or-many fields accept either
/// a single value or an ordered sequence.
#[derive(Debug, Clone)]
pub struct ChatRequest {
    pub messages: OptionArray<ChatRecord>,
    pub max_tokens: usize,
    pub stop: OptionArray<String>,
    pub temperature: u32,
    pub top_p: u32,
    pub presence_penalty: u32,
    pub frequency_penalty: u32,
}

impl Default for ChatRequest {
    /// The documented defaults: no messages, a budget of 256 tokens, stop at
    /// a blank line, and neutral sampling.
    fn default() -> (r: Self)
        ensures
            r.messages.seq() == Seq::<ChatRecord>::empty(),
            r.max_tokens == 256,
            r.stop.seq().len() == 1,
            r.stop.seq()[0]@ == "\n\n"@,
            r.temperature == SAMPLER_ONE,
            r.top_p == SAMPLER_ONE,
            r.presence_penalty == SAMPLER_ZERO,
            r.frequency_penalty == SAMPLER_ZERO,
    {
        ChatRequest {
            messages: Default::default(),
            max_tokens: 256,
            stop: OptionArray::Item(String::from_str("\n\n")),
            temperature: SAMPLER_ONE,
            top_p: SAMPLER_ONE,
            presence_penalty: SAMPLER_ZERO,
            frequency_penalty: SAMPLER_ZERO,
        }
    }
}

/// A linear generation request, the shape the engine consumes.
#[derive(Debug, Clone)]
pub struct GenerateRequest {
    pub prompt: String,
    pub max_tokens: usize,
    pub stop: Vec<String>,
    pub sampler: Sampler,
    /// Per-token occurrence counts, seeded empty; the engine fills them in as
    /// it samples.
    pub occurrences: Vec<(usize, usize)>,
}

/// One rendered conversation line: the role's display form, a separator, and
/// the message's trimmed content.
pub open spec fn rendered_record(r: ChatRecord) -> Seq<char> {
    role_label(r.role) + ": "@ + trim_spec(r.content@)
}

/// The rendered lines of all messages, in their original order, joined by
/// blank lines.
pub open spec fn prompt_body(msgs: Seq<ChatRecord>) -> Seq<char>
    decreases msgs.len(),
{
    if msgs.len() == 0 {
        Seq::empty()
    } else if msgs.len() == 1 {
        rendered_record(msgs[0])
    } else {
        prompt_body(msgs.drop_last()) + "\n\n"@ + rendered_record(msgs.last())
    }
}

/// The whole normalized prompt: every message rendered in order, then a blank
/// line and the assistant cue, so the engine continues the assistant's turn.
pub open spec fn prompt_spec(msgs: Seq<ChatRecord>) -> Seq<char> {
    prompt_body(msgs) + "\n\n"@ + "Assistant:"@
}

/// The requested token budget clamped to the global ceiling.
pub open spec fn clamped_max_tokens(requested: usize) -> usize {
    if requested <= MAX_TOKENS {
        requested
    } else {
        MAX_TOKENS
    }
}

/// Render one conversation line.
fn render_record(rec: &ChatRecord) -> (r: String)
    ensures
        r@ == rendered_record(*rec),
{
    let mut line = rec.role.display_name();
    line.append(": ");
    line.append(trim_str(rec.content.as_str()));
    line
}

impl GenerateRequest {
    /// Normalize a chat request into a single linear generation request.
    ///
    /// The prompt holds one role-tagged segment per message, in the original
    /// order, each with the message's trimmed content, joined by blank lines
    /// and followed by the assistant cue. The token budget never exceeds the
    /// global ceiling; the stop strings keep their canonical order; the
    /// sampler carries the four sampling parameters through unchanged; the
    /// occurrence counts start empty. There are no error conditions.
    pub fn from_chat(value: ChatRequest) -> (r: GenerateRequest)
        ensures
            r.prompt@ == prompt_spec(value.messages.seq()),
            r.max_tokens == clamped_max_tokens(value.max_tokens),
            r.max_tokens <= MAX_TOKENS,
            r.stop@ == value.stop.seq(),
            r.sampler == (Sampler {
                top_p: value.top_p,
                temperature: value.temperature,
                presence_penalty: value.presence_penalty,
                frequency_penalty: value.frequency_penalty,
            }),
            r.occurrences@ == Seq::<(usize, usize)>::empty(),
    {
        let messages = value.messages.into_vec();
        let n = messages.len();
        let mut prompt = String::new();
        let mut i: usize = 0;
        while i < n
            invariant
                n == messages@.len(),
                i <= n,
                prompt@ == prompt_body(messages@.take(i as int)),
            decreases n - i,
        {
            if i > 0 {
                prompt.append("\n\n");
            }
            let line = render_record(&messages[i]);
            prompt.append(line.as_str());
            proof {
                let s = messages@;
                assert(s.take(i + 1).drop_last() =~= s.take(i as int));
                assert(s.take(i + 1).last() == s[i as int]);
                if i == 0 {
                    assert(prompt@ =~= prompt_body(s.take(1)));
                }
            }
            i = i + 1;
        }
        proof {
            assert(messages@.take(n as int) =~= messages@);
        }
        prompt.append("\n\n");
        prompt.append("Assistant:");

        let max_tokens = if value.max_tokens <= MAX_TOKENS {
            value.max_tokens
        } else {
            MAX_TOKENS
        };
        let stop = value.stop.into_vec();
        let occurrences: Vec<(usize, usize)> = Vec::new();

        GenerateRequest {
            prompt,
            max_tokens,
            stop,
            sampler: Sampler {
                top_p: value.top_p,
                temperature: value.temperature,
                presence_penalty: value.presence_penalty,
                frequency_penalty: value.frequency_penalty,
            },
            occurrences,
        }
    }
}

/// The joined prompt body depends only on the roles and the content
/// characters of the messages.
pub proof fn lemma_prompt_body_deterministic(a: Seq<ChatRecord>, b: Seq<ChatRecord>)
    requires
        a.len() == b.len(),
        forall|i: int|
            0 <= i < a.len() ==> a[i].role == b[i].role && a[i].content@ == b[i].content@,
    ensures
        prompt_body(a) == prompt_body(b),
    decreases a.len(),
{
    if a.len() == 0 {
    } else if a.len() == 1 {
        assert(rendered_record(a[0]) == rendered_record(b[0]));
    } else {
        assert(forall|i: int|
            0 <= i < a.drop_last().len() ==> a.drop_last()[i].role == b.drop_last()[i].role
                && a.drop_last()[i].content@ == b.drop_last()[i].content@);
        lemma_prompt_body_deterministic(a.drop_last(), b.drop_last());
        assert(a.last() == a[a.len() - 1]);
        assert(rendered_record(a.last()) == rendered_record(b.last()));
    }
}

/// Prompt rendering depends only on the roles and the content characters of
/// the messages: two message sequences that agree on both render the same
/// prompt.
pub proof fn lemma_prompt_deterministic(a: Seq<ChatRecord>, b: Seq<ChatRecord>)
    requires
        a.len() == b.len(),
        forall|i: int|
            0 <= i < a.len() ==> a[i].role == b[i].role && a[i].content@ == b[i].content@,
    ensures
        prompt_spec(a) == prompt_spec(b),
{
    lemma_prompt_body_deterministic(a, b);
}

/// Normalization is deterministic: two requests whose canonical fields agree
/// — the same roles and content characters, the same budget, the same stop
/// strings, the same sampler bits — normalize to generation requests that
/// agree in every field. With `from_chat`'s contract this pins the output of
/// normalization to the value of the input alone.
pub proof fn lemma_normalize_deterministic(a: ChatRequest, b: ChatRequest)
    requires
        a.messages.seq().len() == b.messages.seq().len(),
        forall|i: int|
            0 <= i < a.messages.seq().len() ==> a.messages.seq()[i].role
                == b.messages.seq()[i].role && a.messages.seq()[i].content@
                == b.messages.seq()[i].content@,
        a.max_tokens == b.max_tokens,
        a.stop.seq().map_values(|s: String| s@) == b.stop.seq().map_values(|s: String| s@),
        a.temperature == b.temperature,
        a.top_p == b.top_p,
        a.presence_penalty == b.presence_penalty,
        a.frequency_penalty == b.frequency_penalty,
    ensures
        prompt_spec(a.messages.seq()) == prompt_spec(b.messages.seq()),
        clamped_max_tokens(a.max_tokens) == clamped_max_tokens(b.max_tokens),
{
    lemma_prompt_deterministic(a.messages.seq(), b.messages.seq());
}

} // verus!
