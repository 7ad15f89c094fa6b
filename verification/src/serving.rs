//! A model of the cache and the generation model, the course of a request
//! that is served against them, and what holds of every such course.

use crate::classifier::classified;
use crate::error::{is_client_error, is_server_error, DecodeError, Failure, STATUS_OK};
use crate::pipeline::{
    answer, next, refusal, ActionView, EventView, ReplyView, StateView,
};
use crate::prompt::{prompt_text, MAX_TOKENS};
use crate::sentiment::{stored_sentiment, Sentiment};
use crate::text::trimmed;
use crate::wire::decoded;
use vstd::prelude::*;

verus! {

/// The collaborators of the pipeline.
pub struct Backends {
    /// What the cache holds under each key.
    pub cache: Map<Seq<char>, Seq<u8>>,
    /// Whether the cache can be read.
    pub cache_readable: bool,
    /// Whether the cache takes new entries.
    pub cache_writable: bool,
    /// What the model generates for a prompt and a token limit, or `None`
    /// where its invocation fails.
    pub model: spec_fn(Seq<char>, u32) -> Option<Seq<char>>,
}

/// How a request went.
pub struct Served {
    /// The reply, or `None` where the rounds ran out before there was one.
    pub reply: Option<ReplyView>,
    /// The collaborators afterwards.
    pub backends: Backends,
    /// The actions that the pipeline asked for, in order.
    pub actions: Seq<ActionView>,
}

/// What comes of `action` when it is performed on `backends`: the event to
/// report and the collaborators afterwards. A reply is nothing to perform;
/// the course of a request ends with it.
pub open spec fn perform(action: ActionView, backends: Backends) -> (EventView, Backends) {
    match action {
        ActionView::Lookup { key } => if !backends.cache_readable {
            (EventView::CacheUnavailable, backends)
        } else if backends.cache.contains_key(key) {
            (EventView::CacheHit { value: backends.cache[key] }, backends)
        } else {
            (EventView::CacheMiss, backends)
        },
        ActionView::Infer { prompt, max_tokens } => match (backends.model)(prompt, max_tokens) {
            Some(text) => (EventView::Generated { text }, backends),
            None => (EventView::InferenceFailed, backends),
        },
        ActionView::Store { key, value } => if backends.cache_writable {
            (EventView::Stored, Backends { cache: backends.cache.insert(key, value), ..backends })
        } else {
            (EventView::StoreFailed, backends)
        },
        ActionView::Respond(_) => (EventView::CacheMiss, backends),
    }
}

/// The course of a request from `state` on `event`: each action is performed
/// on the collaborators and its outcome reported, for at most `rounds`
/// actions before the reply.
pub open spec fn drive(state: StateView, event: EventView, backends: Backends, rounds: nat) -> Served
    decreases rounds,
{
    let (following, action) = next(state, event);
    match action {
        ActionView::Respond(reply) => Served {
            reply: Some(reply),
            backends,
            actions: seq![action],
        },
        _ => if rounds == 0 {
            Served { reply: None, backends, actions: seq![action] }
        } else {
            let (outcome, after) = perform(action, backends);
            let rest = drive(following, outcome, after, (rounds - 1) as nat);
            Served { reply: rest.reply, backends: rest.backends, actions: seq![action] + rest.actions }
        },
    }
}

/// The course of a request with `body`, served against `backends`.
pub open spec fn serve(body: Seq<u8>, backends: Backends) -> Served {
    drive(StateView::Start, EventView::Request { body }, backends, 3)
}

/// Whether one of `actions` invokes the model.
pub open spec fn invokes_model(actions: Seq<ActionView>) -> bool {
    exists|i: int| 0 <= i < actions.len() && #[trigger] actions[i] is Infer
}

/// Whether one of `actions` writes to the cache.
pub open spec fn writes_cache(actions: Seq<ActionView>) -> bool {
    exists|i: int| 0 <= i < actions.len() && #[trigger] actions[i] is Store
}

/// Whether the cache answers for `key`: it can be read and holds the stored
/// form of a label under `key`.
pub open spec fn cache_answers(backends: Backends, key: Seq<char>) -> bool {
    &&& backends.cache_readable
    &&& backends.cache.contains_key(key)
    &&& stored_sentiment(backends.cache[key]) is Some
}

/// Every request is answered, after at most three actions on the
/// collaborators, and the reply is the last action.
pub proof fn law_every_request_is_answered(body: Seq<u8>, backends: Backends)
    ensures
        serve(body, backends).reply is Some,
        1 <= serve(body, backends).actions.len() <= 4,
        serve(body, backends).actions.last() == ActionView::Respond(
            serve(body, backends).reply->0,
        ),
{
    reveal_with_fuel(drive, 4);
}

/// An answer with a label is no answer without one.
proof fn lemma_answers_differ(sentiment: Sentiment)
    ensures
        answer(Some(sentiment)) != answer(None),
{
    reveal_strlit("positive");
    reveal_strlit("negative");
    reveal_strlit("neutral");
    assert(answer(Some(sentiment)).body.len() != answer(None).body.len());
}

/// A sentence that was classified is answered from the cache when it is sent
/// again: where a request was answered with a label and the cache took what
/// was written, the same body served against that cache, as long as it can
/// be read, gets the same reply without the model being invoked. The model
/// and the cache's readiness to take entries may have changed in between.
pub proof fn law_second_request_hits_cache(
    body: Seq<u8>,
    first: Backends,
    second: Backends,
    sentiment: Sentiment,
)
    requires
        serve(body, first).reply == Some(answer(Some(sentiment))),
        first.cache_writable || !writes_cache(serve(body, first).actions),
        second.cache == serve(body, first).backends.cache,
        second.cache_readable,
    ensures
        serve(body, second).reply == serve(body, first).reply,
        !invokes_model(serve(body, second).actions),
        !writes_cache(serve(body, second).actions),
        serve(body, second).backends == second,
{
    reveal_with_fuel(drive, 4);
    lemma_answers_differ(sentiment);
    let (awaiting, lookup) = next(StateView::Start, EventView::Request { body });
    assert(decoded(body) is Ok);
    let key = trimmed(decoded(body)->Ok_0);
    let (found, _) = perform(lookup, first);
    let (thereafter, asked) = next(awaiting, found);
    if asked is Infer {
        let (generated, _) = perform(asked, first);
        let (storing, store) = next(thereafter, generated);
        assert(store is Store);
        let written = store->Store_value;
        assert(stored_sentiment(written) is Some) by {
            crate::sentiment::law_label_is_read_back(classified(generated->Generated_text)->0);
        }
        assert(serve(body, first).actions[2] is Store);
        assert(first.cache_writable);
        assert(second.cache == first.cache.insert(key, written));
        crate::sentiment::law_label_is_read_back(classified(generated->Generated_text)->0);
    } else {
        assert(second.cache == first.cache);
    }
    let hit = serve(body, second);
    assert(hit.actions.len() == 2);
    assert(hit.actions[0] is Lookup && hit.actions[1] is Respond);
}

/// A sentence that the cache holds nothing for is sent to the model: the
/// cache is asked under the trimmed sentence, then the model is invoked on
/// the prompt for the trimmed sentence, with the token limit.
pub proof fn law_fresh_sentence_goes_to_model(
    body: Seq<u8>,
    backends: Backends,
    sentence: Seq<char>,
)
    requires
        decoded(body) == Ok::<Seq<char>, DecodeError>(sentence),
        !backends.cache.contains_key(trimmed(sentence)),
    ensures
        serve(body, backends).actions.len() >= 3,
        serve(body, backends).actions[0] == (ActionView::Lookup { key: trimmed(sentence) }),
        serve(body, backends).actions[1] == (ActionView::Infer {
            prompt: prompt_text(trimmed(sentence)),
            max_tokens: MAX_TOKENS,
        }),
{
    reveal_with_fuel(drive, 4);
}

/// Output of the model that holds no label is answered with the empty
/// sentiment, under the status of an answer, and nothing is written to the
/// cache.
pub proof fn law_unrecognized_output_is_answered_empty(
    body: Seq<u8>,
    backends: Backends,
    sentence: Seq<char>,
    output: Seq<char>,
)
    requires
        decoded(body) == Ok::<Seq<char>, DecodeError>(sentence),
        !cache_answers(backends, trimmed(sentence)),
        (backends.model)(prompt_text(trimmed(sentence)), MAX_TOKENS) == Some(output),
        classified(output) is None,
    ensures
        serve(body, backends).reply == Some(answer(None)),
        answer(None).status == STATUS_OK,
        !writes_cache(serve(body, backends).actions),
        serve(body, backends).backends == backends,
{
    reveal_with_fuel(drive, 4);
    let served = serve(body, backends);
    assert(served.actions.len() == 3);
    assert(served.actions[0] is Lookup && served.actions[1] is Infer && served.actions[2]
        is Respond);
}

/// A body that cannot be decoded is refused with a client error, and neither
/// the cache nor the model is touched. An empty body is such a body.
pub proof fn law_undecodable_body_is_refused(body: Seq<u8>, backends: Backends)
    requires
        body.len() == 0 || decoded(body) is Err,
    ensures
        decoded(body) is Err,
        body.len() == 0 ==> decoded(body) == Err::<Seq<char>, DecodeError>(DecodeError::Absent),
        serve(body, backends).reply == Some(refusal(Failure::Decode(decoded(body)->Err_0))),
        is_client_error(serve(body, backends).reply->0.status),
        serve(body, backends).actions.len() == 1,
        !invokes_model(serve(body, backends).actions),
        !writes_cache(serve(body, backends).actions),
        serve(body, backends).backends == backends,
{
    reveal_with_fuel(drive, 4);
}

/// A failed invocation of the model is reported as a server error, and
/// nothing is written to the cache: the lookup that missed stays the only
/// use of it.
pub proof fn law_failed_inference_is_reported(
    body: Seq<u8>,
    backends: Backends,
    sentence: Seq<char>,
)
    requires
        decoded(body) == Ok::<Seq<char>, DecodeError>(sentence),
        !cache_answers(backends, trimmed(sentence)),
        (backends.model)(prompt_text(trimmed(sentence)), MAX_TOKENS) is None,
    ensures
        serve(body, backends).reply == Some(refusal(Failure::Inference)),
        is_server_error(serve(body, backends).reply->0.status),
        !writes_cache(serve(body, backends).actions),
        serve(body, backends).backends == backends,
{
    reveal_with_fuel(drive, 4);
    let served = serve(body, backends);
    assert(served.actions.len() == 3);
    assert(served.actions[0] is Lookup && served.actions[1] is Infer && served.actions[2]
        is Respond);
}

/// Whether the cache takes an entry makes no difference to the reply.
pub proof fn law_store_failure_is_swallowed(body: Seq<u8>, backends: Backends)
    ensures
        serve(body, Backends { cache_writable: false, ..backends }).reply == serve(
            body,
            Backends { cache_writable: true, ..backends },
        ).reply,
{
    reveal_with_fuel(drive, 4);
}

/// The sentiment of every answer is the canonical text of a label or empty,
/// and only a body that cannot be decoded or a failed invocation of the
/// model keeps a request from being answered.
pub proof fn law_replies_are_canonical(body: Seq<u8>, backends: Backends)
    ensures
        ({
            let reply = serve(body, backends).reply->0;
            ||| reply == answer(None)
            ||| reply == answer(Some(Sentiment::Positive))
            ||| reply == answer(Some(Sentiment::Negative))
            ||| reply == answer(Some(Sentiment::Neutral))
            ||| decoded(body) is Err && reply == refusal(Failure::Decode(decoded(body)->Err_0))
            ||| reply == refusal(Failure::Inference) && invokes_model(
                serve(body, backends).actions,
            )
        }),
{
    reveal_with_fuel(drive, 4);
    let served = serve(body, backends);
    if served.reply->0 == refusal(Failure::Inference) {
        assert(served.actions[1] is Infer);
    }
}

/// A request changes the cache at most under its own key, the trimmed
/// sentence, and what it writes there is the stored form of a label.
pub proof fn law_only_labels_are_cached(body: Seq<u8>, backends: Backends)
    ensures
        ({
            let after = serve(body, backends).backends;
            ||| after == backends
            ||| exists|sentiment: Sentiment|
                decoded(body) is Ok && after == (Backends {
                    cache: backends.cache.insert(
                        trimmed(decoded(body)->Ok_0),
                        #[trigger] sentiment.stored_form(),
                    ),
                    ..backends
                })
        }),
{
    reveal_with_fuel(drive, 4);
}

/// The cache is read and written under one key, and that key is the
/// sentence that goes into the prompt: the trimmed sentence of the request.
pub proof fn law_one_key_throughout(body: Seq<u8>, backends: Backends, i: int)
    requires
        0 <= i < serve(body, backends).actions.len(),
    ensures
        ({
            let action = serve(body, backends).actions[i];
            let sentence = trimmed(decoded(body)->Ok_0);
            &&& action is Lookup ==> action->Lookup_key == sentence
            &&& action is Store ==> action->Store_key == sentence
            &&& action is Infer ==> action->prompt == prompt_text(sentence) && action->max_tokens
                == MAX_TOKENS
        }),
{
    reveal_with_fuel(drive, 4);
}

} // verus!
