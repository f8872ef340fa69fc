//! The completion routes: from an OpenAI-compatible request to one upstream
//! inference call, and from what upstream answers back to the client.
//!
//! Serving a request takes exactly one call to upstream, which is never
//! repeated. [`begin_completion`] decides what comes first: a plain completion
//! goes upstream at once, a chat is first rendered into a prompt by the
//! history collaborator. [`rendered_inference_call`] takes what the collaborator
//! returned, and [`completion_response`] reads the outcome of the call.

use crate::error::AppError;
use crate::triton::UpstreamCall;
use crate::triton::telemetry::carried;
use crate::triton::telemetry::header_fields;
use crate::triton::telemetry::propagate_context;
use axum::http::HeaderMap;
use vstd::prelude::*;

verus! {

/// One message of a conversation.
#[derive(Clone, Debug, PartialEq, Eq)]
pub struct ChatMessage {
    pub role: String,
    pub content: String,
}

/// A request of a client, in one of its two shapes. `P` stands for the
/// generation parameters (token limit, temperature, stop sequences and the
/// like): the gateway hands them on and never looks inside.
#[derive(Clone, Debug, PartialEq, Eq)]
pub enum CompatRequest<P> {
    /// A completion: the prompt is given.
    Completion { prompt: String, params: P },
    /// A chat completion: the prompt has yet to be rendered from the messages.
    Chat { messages: Vec<ChatMessage>, params: P },
}

/// The payload of the upstream inference call.
#[derive(Clone, Debug, PartialEq, Eq)]
pub struct InferenceRequest<P> {
    pub prompt: String,
    pub params: P,
}

/// The first step in serving a completion request.
#[derive(Clone, Debug, PartialEq, Eq)]
pub enum CompletionStep<P> {
    /// Have the history collaborator render `history` into a prompt, then
    /// hand its result and `params` to [`rendered_inference_call`].
    Render { history: Vec<ChatMessage>, params: P },
    /// Send this call on the inference channel.
    Call(UpstreamCall<InferenceRequest<P>>),
}

/// The inference call for a prompt: the prompt and the parameters as they
/// are, and the trace context of the inbound request as metadata.
///
/// The prompt is not inspected. An empty one is forwarded like any other; to
/// judge it is upstream's part.
pub fn inference_call<P>(prompt: String, params: P, headers: &HeaderMap, keys: &Vec<String>) -> (call:
    UpstreamCall<InferenceRequest<P>>)
    ensures
        call.message.prompt == prompt,
        call.message.params == params,
        call.metadata.deep_view() == carried(header_fields(*headers), keys.deep_view()),
{
    let mut call = UpstreamCall::new(InferenceRequest { prompt, params });
    propagate_context(&mut call, headers, keys);
    call
}

/// Begins to serve a completion request.
///
/// A completion becomes the inference call for its prompt. A chat becomes the
/// task of rendering its messages, all of them and in their order, even
/// where there are none.
pub fn begin_completion<P>(request: CompatRequest<P>, headers: &HeaderMap, keys: &Vec<String>) -> (step:
    CompletionStep<P>)
    ensures
        match request {
            CompatRequest::Completion { prompt, params } => step matches CompletionStep::Call(call)
                && call.message.prompt == prompt && call.message.params == params
                && call.metadata.deep_view() == carried(
                header_fields(*headers),
                keys.deep_view(),
            ),
            CompatRequest::Chat { messages, params } => step == (CompletionStep::Render {
                history: messages,
                params,
            }),
        },
{
    match request {
        CompatRequest::Completion { prompt, params } => CompletionStep::Call(
            inference_call(prompt, params, headers, keys),
        ),
        CompatRequest::Chat { messages, params } => CompletionStep::Render {
            history: messages,
            params,
        },
    }
}

/// Continues a chat request with what the history collaborator returned:
/// the prompt, or the cause for which rendering failed.
///
/// A rendered prompt is forwarded word for word, also where it is empty. A
/// failure to render fails the whole request: no call is made.
pub fn rendered_inference_call<P>(
    rendered: Result<String, String>,
    params: P,
    headers: &HeaderMap,
    keys: &Vec<String>,
) -> (next: Result<UpstreamCall<InferenceRequest<P>>, AppError>)
    ensures
        match rendered {
            Ok(prompt) => next matches Ok(call) && call.message.prompt == prompt
                && call.message.params == params && call.metadata.deep_view() == carried(
                header_fields(*headers),
                keys.deep_view(),
            ),
            Err(cause) => next matches Err(error) && error == (AppError::RenderError { cause }),
        },
{
    match rendered {
        Ok(prompt) => Ok(inference_call(prompt, params, headers, keys)),
        Err(cause) => Err(AppError::RenderError { cause }),
    }
}

/// One text that upstream generated, and why generation ended.
#[derive(Clone, Debug, PartialEq, Eq)]
pub struct GeneratedChoice {
    pub text: String,
    pub finish_reason: Option<String>,
}

/// The token counts that upstream reports.
#[derive(Clone, Copy, Debug, PartialEq, Eq, Structural)]
pub struct TokenUsage {
    pub prompt_tokens: u32,
    pub completion_tokens: u32,
}

/// What upstream answers to an inference call.
#[derive(Clone, Debug, PartialEq, Eq)]
pub struct InferenceResponse {
    pub choices: Vec<GeneratedChoice>,
    pub usage: Option<TokenUsage>,
}

/// One choice of the reply to the client.
#[derive(Clone, Debug, PartialEq, Eq)]
pub struct CompletionChoice {
    pub index: usize,
    pub text: String,
    pub finish_reason: Option<String>,
}

/// The token counts of the reply to the client.
#[derive(Clone, Copy, Debug, PartialEq, Eq, Structural)]
pub struct CompletionUsage {
    pub prompt_tokens: u32,
    pub completion_tokens: u32,
    pub total_tokens: u64,
}

/// The reply to the client.
#[derive(Clone, Debug, PartialEq, Eq)]
pub struct CompletionResponse {
    pub choices: Vec<CompletionChoice>,
    pub usage: Option<CompletionUsage>,
}

/// A text that may be absent, as a sequence of characters.
pub open spec fn text_view(text: Option<String>) -> Option<Seq<char>> {
    match text {
        Some(text) => Some(text@),
        None => None,
    }
}

pub struct GeneratedChoiceView {
    pub text: Seq<char>,
    pub finish_reason: Option<Seq<char>>,
}

impl DeepView for GeneratedChoice {
    type V = GeneratedChoiceView;

    open spec fn deep_view(&self) -> GeneratedChoiceView {
        GeneratedChoiceView { text: self.text@, finish_reason: text_view(self.finish_reason) }
    }
}

pub struct InferenceResponseView {
    pub choices: Seq<GeneratedChoiceView>,
    pub usage: Option<TokenUsage>,
}

impl View for InferenceResponse {
    type V = InferenceResponseView;

    open spec fn view(&self) -> InferenceResponseView {
        InferenceResponseView { choices: self.choices.deep_view(), usage: self.usage }
    }
}

pub struct CompletionChoiceView {
    pub index: int,
    pub text: Seq<char>,
    pub finish_reason: Option<Seq<char>>,
}

impl DeepView for CompletionChoice {
    type V = CompletionChoiceView;

    open spec fn deep_view(&self) -> CompletionChoiceView {
        CompletionChoiceView {
            index: self.index as int,
            text: self.text@,
            finish_reason: text_view(self.finish_reason),
        }
    }
}

pub struct CompletionResponseView {
    pub choices: Seq<CompletionChoiceView>,
    pub usage: Option<CompletionUsage>,
}

impl View for CompletionResponse {
    type V = CompletionResponseView;

    open spec fn view(&self) -> CompletionResponseView {
        CompletionResponseView { choices: self.choices.deep_view(), usage: self.usage }
    }
}

/// The choice sent to the client for the choice that upstream generated at
/// place `index`: the same text and finish reason, numbered by its place.
pub open spec fn client_choice(choice: GeneratedChoiceView, index: int) -> CompletionChoiceView {
    CompletionChoiceView { index, text: choice.text, finish_reason: choice.finish_reason }
}

/// The usage sent to the client: the counts of upstream, and their sum.
pub open spec fn client_usage(usage: TokenUsage) -> CompletionUsage {
    CompletionUsage {
        prompt_tokens: usage.prompt_tokens,
        completion_tokens: usage.completion_tokens,
        total_tokens: (usage.prompt_tokens + usage.completion_tokens) as u64,
    }
}

/// The reply to the client for a reply of upstream: every choice in its
/// place, and the usage where upstream reported one.
pub open spec fn client_reply(reply: InferenceResponseView) -> CompletionResponseView {
    CompletionResponseView {
        choices: Seq::new(
            reply.choices.len(),
            |index: int| client_choice(reply.choices[index], index),
        ),
        usage: match reply.usage {
            Some(usage) => Some(client_usage(usage)),
            None => None,
        },
    }
}

fn clone_text(text: &Option<String>) -> (copy: Option<String>)
    ensures
        copy == *text,
{
    match text {
        Some(text) => Some(text.clone()),
        None => None,
    }
}

/// Reads the outcome of the inference call: the reply of upstream, or the
/// cause for which the call failed.
///
/// A reply is handed on choice by choice; one without choices gives a reply
/// without choices. A failed call is a failed request: there is no second
/// attempt.
pub fn completion_response(outcome: Result<InferenceResponse, String>) -> (reply: Result<
    CompletionResponse,
    AppError,
>)
    ensures
        match outcome {
            Ok(upstream) => reply matches Ok(response) && response@ == client_reply(upstream@),
            Err(cause) => reply matches Err(error) && error == (AppError::UpstreamUnreachable {
                cause,
            }),
        },
{
    match outcome {
        Err(cause) => Err(AppError::UpstreamUnreachable { cause }),
        Ok(upstream) => {
            let ghost wanted = client_reply(upstream@);
            let mut choices: Vec<CompletionChoice> = Vec::new();
            let mut index: usize = 0;
            while index < upstream.choices.len()
                invariant
                    index <= upstream.choices.len(),
                    wanted == client_reply(upstream@),
                    choices.deep_view() =~= wanted.choices.take(index as int),
                decreases upstream.choices.len() - index,
            {
                let ghost before = choices.deep_view();
                let generated = &upstream.choices[index];
                let choice = CompletionChoice {
                    index,
                    text: generated.text.clone(),
                    finish_reason: clone_text(&generated.finish_reason),
                };
                choices.push(choice);
                assert(choices.deep_view() =~= before.push(choice.deep_view()));
                index += 1;
            }
            let usage = match upstream.usage {
                Some(usage) => Some(
                    CompletionUsage {
                        prompt_tokens: usage.prompt_tokens,
                        completion_tokens: usage.completion_tokens,
                        total_tokens: usage.prompt_tokens as u64 + usage.completion_tokens as u64,
                    },
                ),
                None => None,
            };
            let response = CompletionResponse { choices, usage };
            assert(response@.choices =~= wanted.choices);
            Ok(response)
        },
    }
}

} // verus!
