//! The request pipeline as a state machine. The machine decides; whoever
//! drives it performs each action on the cache or the model and hands back
//! what came of it as the next event.

use crate::classifier::{classified, classify_output};
use crate::error::{Failure, STATUS_NOT_FOUND, STATUS_OK};
use crate::prompt::{build_prompt, prompt_text, MAX_TOKENS};
use crate::sentiment::{stored_sentiment, Sentiment};
use crate::text::trimmed;
use crate::wire::{
    answer_frame, decode_request, decoded, encode_response, law_sentiment_text_is_plain, quoted,
    sentiment_text, SentimentAnalysisResponse,
};
use vstd::prelude::*;
use vstd::slice::slice_to_vec;
use vstd::string::StringExecFns;

verus! {

/// What is sent back to the client.
#[derive(Debug)]
pub struct Reply {
    pub status: u16,
    pub body: String,
}

/// A `Reply` as mathematical values.
pub struct ReplyView {
    pub status: u16,
    pub body: Seq<char>,
}

impl View for Reply {
    type V = ReplyView;

    open spec fn view(&self) -> ReplyView {
        ReplyView { status: self.status, body: self.body@ }
    }
}

/// What the driver is asked to do next.
#[derive(Debug)]
pub enum Action {
    /// Read the cache entry under `key`.
    Lookup { key: String },
    /// Invoke the generation model on `prompt`, for at most `max_tokens`
    /// tokens.
    Infer { prompt: String, max_tokens: u32 },
    /// Write `value` into the cache under `key`.
    Store { key: String, value: Vec<u8> },
    /// Send the reply: the request is done.
    Respond(Reply),
}

/// An `Action` as mathematical values.
pub enum ActionView {
    Lookup { key: Seq<char> },
    Infer { prompt: Seq<char>, max_tokens: u32 },
    Store { key: Seq<char>, value: Seq<u8> },
    Respond(ReplyView),
}

impl View for Action {
    type V = ActionView;

    open spec fn view(&self) -> ActionView {
        match self {
            Action::Lookup { key } => ActionView::Lookup { key: key@ },
            Action::Infer { prompt, max_tokens } => ActionView::Infer {
                prompt: prompt@,
                max_tokens: *max_tokens,
            },
            Action::Store { key, value } => ActionView::Store { key: key@, value: value@ },
            Action::Respond(reply) => ActionView::Respond(reply@),
        }
    }
}

/// What the driver reports to the machine.
#[derive(Debug)]
pub enum Event {
    /// A request came in with this body. An absent body is an empty one.
    Request { body: Vec<u8> },
    /// The cache holds `value` under the key.
    CacheHit { value: Vec<u8> },
    /// The cache holds nothing under the key.
    CacheMiss,
    /// The cache could not be read.
    CacheUnavailable,
    /// The model generated `text`.
    Generated { text: String },
    /// The model could not be invoked.
    InferenceFailed,
    /// The cache took the entry.
    Stored,
    /// The cache did not take the entry.
    StoreFailed,
}

/// An `Event` as mathematical values.
pub enum EventView {
    Request { body: Seq<u8> },
    CacheHit { value: Seq<u8> },
    CacheMiss,
    CacheUnavailable,
    Generated { text: Seq<char> },
    InferenceFailed,
    Stored,
    StoreFailed,
}

impl View for Event {
    type V = EventView;

    open spec fn view(&self) -> EventView {
        match self {
            Event::Request { body } => EventView::Request { body: body@ },
            Event::CacheHit { value } => EventView::CacheHit { value: value@ },
            Event::CacheMiss => EventView::CacheMiss,
            Event::CacheUnavailable => EventView::CacheUnavailable,
            Event::Generated { text } => EventView::Generated { text: text@ },
            Event::InferenceFailed => EventView::InferenceFailed,
            Event::Stored => EventView::Stored,
            Event::StoreFailed => EventView::StoreFailed,
        }
    }
}

/// Where a request stands.
#[derive(Debug)]
pub enum State {
    /// No request has come in yet.
    Start,
    /// The cache was asked for the entry of `sentence`.
    AwaitingCache { sentence: String },
    /// The model was asked to classify `sentence`.
    AwaitingModel { sentence: String },
    /// The cache was asked to keep `sentiment`.
    AwaitingStore { sentiment: Sentiment },
    /// The reply was handed out.
    Done,
}

/// A `State` as mathematical values.
pub enum StateView {
    Start,
    AwaitingCache { sentence: Seq<char> },
    AwaitingModel { sentence: Seq<char> },
    AwaitingStore { sentiment: Sentiment },
    Done,
}

impl View for State {
    type V = StateView;

    open spec fn view(&self) -> StateView {
        match self {
            State::Start => StateView::Start,
            State::AwaitingCache { sentence } => StateView::AwaitingCache { sentence: sentence@ },
            State::AwaitingModel { sentence } => StateView::AwaitingModel { sentence: sentence@ },
            State::AwaitingStore { sentiment } => StateView::AwaitingStore {
                sentiment: *sentiment,
            },
            State::Done => StateView::Done,
        }
    }
}

/// The reply that answers a request with `sentiment`.
pub open spec fn answer(sentiment: Option<Sentiment>) -> ReplyView {
    ReplyView { status: STATUS_OK, body: answer_frame(quoted(sentiment_text(sentiment))) }
}

/// The reply that reports `failure`.
pub open spec fn refusal(failure: Failure) -> ReplyView {
    ReplyView { status: failure.spec_status(), body: failure.spec_message() }
}

/// The reply for a path that is not served.
pub open spec fn not_found() -> ReplyView {
    ReplyView { status: STATUS_NOT_FOUND, body: "Not found"@ }
}

/// The request to the model for `sentence`, and the state that waits for it.
pub open spec fn ask_model(sentence: Seq<char>) -> (StateView, ActionView) {
    (
        StateView::AwaitingModel { sentence },
        ActionView::Infer { prompt: prompt_text(sentence), max_tokens: MAX_TOKENS },
    )
}

/// The end of a request with `reply`.
pub open spec fn finish(reply: ReplyView) -> (StateView, ActionView) {
    (StateView::Done, ActionView::Respond(reply))
}

/// The state that follows `state` on `event`, and the action to perform.
///
/// A request is decoded and its sentence trimmed once; the trimmed sentence
/// is the cache key and the text that goes into the prompt. A cache entry
/// that is the stored form of a label answers the request. Anything else
/// from the cache (nothing, an entry that is no label, a failure) sends the
/// sentence to the model. A label read from the model's output is written to
/// the cache and then answered, whether or not the write succeeded; output
/// without a label is answered with the empty sentiment and not written.
/// Only a body that cannot be decoded and a failed model invocation end the
/// request with a failure. An event that the state does not wait for ends it
/// with an internal failure.
pub open spec fn next(state: StateView, event: EventView) -> (StateView, ActionView) {
    match (state, event) {
        (StateView::Start, EventView::Request { body }) => match decoded(body) {
            Ok(sentence) => (
                StateView::AwaitingCache { sentence: trimmed(sentence) },
                ActionView::Lookup { key: trimmed(sentence) },
            ),
            Err(e) => finish(refusal(Failure::Decode(e))),
        },
        (StateView::AwaitingCache { sentence }, EventView::CacheHit { value }) => {
            match stored_sentiment(value) {
                Some(sentiment) => finish(answer(Some(sentiment))),
                None => ask_model(sentence),
            }
        },
        (StateView::AwaitingCache { sentence }, EventView::CacheMiss) => ask_model(sentence),
        (StateView::AwaitingCache { sentence }, EventView::CacheUnavailable) => ask_model(
            sentence,
        ),
        (StateView::AwaitingModel { sentence }, EventView::Generated { text }) => {
            match classified(text) {
                Some(sentiment) => (
                    StateView::AwaitingStore { sentiment },
                    ActionView::Store { key: sentence, value: sentiment.stored_form() },
                ),
                None => finish(answer(None)),
            }
        },
        (StateView::AwaitingModel { sentence }, EventView::InferenceFailed) => finish(
            refusal(Failure::Inference),
        ),
        (StateView::AwaitingStore { sentiment }, EventView::Stored) => finish(
            answer(Some(sentiment)),
        ),
        (StateView::AwaitingStore { sentiment }, EventView::StoreFailed) => finish(
            answer(Some(sentiment)),
        ),
        _ => finish(refusal(Failure::Internal)),
    }
}

impl Reply {
    /// The reply that answers a request with `sentiment`.
    pub fn answer(sentiment: Option<Sentiment>) -> (reply: Reply)
        ensures
            reply@ == answer(sentiment),
    {
        let response = SentimentAnalysisResponse::from_sentiment(sentiment);
        proof {
            law_sentiment_text_is_plain(sentiment);
        }
        match encode_response(&response) {
            Ok(body) => Reply { status: STATUS_OK, body },
            // Not taken: the text of a label needs no escape.
            Err(failure) => Reply::failure(failure),
        }
    }

    /// The reply that reports `failure`.
    pub fn failure(failure: Failure) -> (reply: Reply)
        ensures
            reply@ == refusal(failure),
    {
        Reply { status: failure.status(), body: String::from_str(failure.message()) }
    }

    /// The reply for a path that is not served.
    pub fn not_found() -> (reply: Reply)
        ensures
            reply@ == not_found(),
    {
        Reply { status: STATUS_NOT_FOUND, body: String::from_str("Not found") }
    }
}

/// Asks the model to classify `sentence`.
fn to_model(sentence: String) -> (r: (State, Action))
    ensures
        (r.0@, r.1@) == ask_model(sentence@),
{
    let prompt = build_prompt(sentence.as_str());
    (State::AwaitingModel { sentence }, Action::Infer { prompt, max_tokens: MAX_TOKENS })
}

/// Ends the request with `reply`.
fn to_end(reply: Reply) -> (r: (State, Action))
    ensures
        (r.0@, r.1@) == finish(reply@),
{
    (State::Done, Action::Respond(reply))
}

/// Takes the request one step further: from the state it stands in and the
/// event that came in to the state that follows and the action to perform.
pub fn step(state: State, event: Event) -> (r: (State, Action))
    ensures
        (r.0@, r.1@) == next(state@, event@),
{
    match (state, event) {
        (State::Start, Event::Request { body }) => match decode_request(body.as_slice()) {
            Ok(request) => {
                let sentence = request.normalized();
                let key = sentence.clone();
                (State::AwaitingCache { sentence }, Action::Lookup { key })
            },
            Err(e) => to_end(Reply::failure(Failure::Decode(e))),
        },
        (State::AwaitingCache { sentence }, Event::CacheHit { value }) => {
            match Sentiment::from_bytes(value.as_slice()) {
                Some(sentiment) => to_end(Reply::answer(Some(sentiment))),
                None => to_model(sentence),
            }
        },
        (State::AwaitingCache { sentence }, Event::CacheMiss) => to_model(sentence),
        (State::AwaitingCache { sentence }, Event::CacheUnavailable) => to_model(sentence),
        (State::AwaitingModel { sentence }, Event::Generated { text }) => {
            match classify_output(text.as_str()) {
                Ok(sentiment) => {
                    let value = slice_to_vec(sentiment.as_bytes());
                    (State::AwaitingStore { sentiment }, Action::Store { key: sentence, value })
                },
                Err(_) => to_end(Reply::answer(None)),
            }
        },
        (State::AwaitingModel { sentence: _ }, Event::InferenceFailed) => to_end(
            Reply::failure(Failure::Inference),
        ),
        (State::AwaitingStore { sentiment }, Event::Stored) => to_end(
            Reply::answer(Some(sentiment)),
        ),
        (State::AwaitingStore { sentiment }, Event::StoreFailed) => to_end(
            Reply::answer(Some(sentiment)),
        ),
        _ => to_end(Reply::failure(Failure::Internal)),
    }
}

} // verus!
