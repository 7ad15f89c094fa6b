use std::collections::HashMap;

use sentiment_analysis::pipeline::{step, Action, Event, Reply, State};
use sentiment_analysis::prompt::build_prompt;
use sentiment_analysis::sentiment::Sentiment;

/// A cache and a model that live in memory, with a record of what was asked
/// of them.
struct Backends {
    cache: HashMap<String, Vec<u8>>,
    cache_readable: bool,
    cache_writable: bool,
    output: Option<String>,
    lookups: Vec<String>,
    prompts: Vec<(String, u32)>,
    writes: Vec<(String, Vec<u8>)>,
}

fn backends(output: Option<&str>) -> Backends {
    Backends {
        cache: HashMap::new(),
        cache_readable: true,
        cache_writable: true,
        output: output.map(str::to_string),
        lookups: Vec::new(),
        prompts: Vec::new(),
        writes: Vec::new(),
    }
}

fn serve(body: &[u8], backends: &mut Backends) -> Reply {
    let (mut state, mut action) = step(State::Start, Event::Request { body: body.to_vec() });
    for _ in 0..4 {
        let event = match action {
            Action::Respond(reply) => {
                assert!(matches!(state, State::Done));
                return reply;
            }
            Action::Lookup { key } => {
                backends.lookups.push(key.clone());
                if !backends.cache_readable {
                    Event::CacheUnavailable
                } else {
                    match backends.cache.get(&key) {
                        Some(value) => Event::CacheHit { value: value.clone() },
                        None => Event::CacheMiss,
                    }
                }
            }
            Action::Infer { prompt, max_tokens } => {
                backends.prompts.push((prompt, max_tokens));
                match &backends.output {
                    Some(text) => Event::Generated { text: text.clone() },
                    None => Event::InferenceFailed,
                }
            }
            Action::Store { key, value } => {
                backends.writes.push((key.clone(), value.clone()));
                if backends.cache_writable {
                    backends.cache.insert(key, value);
                    Event::Stored
                } else {
                    Event::StoreFailed
                }
            }
        };
        let (next, then) = step(state, event);
        state = next;
        action = then;
    }
    panic!("no reply after three actions");
}

#[test]
fn fresh_sentence_is_classified_and_cached() {
    let mut b = backends(Some("Bot: positive\nUser: more"));
    let reply = serve(br#"{"sentence":"I am so happy today"}"#, &mut b);
    assert_eq!(reply.status, 200);
    assert_eq!(reply.body, r#"{"sentiment":"positive"}"#);
    assert_eq!(b.lookups, vec!["I am so happy today".to_string()]);
    assert_eq!(b.prompts, vec![(build_prompt("I am so happy today"), 8)]);
    assert_eq!(b.writes, vec![("I am so happy today".to_string(), b"positive".to_vec())]);
    assert_eq!(b.cache.get("I am so happy today"), Some(&b"positive".to_vec()));
}

#[test]
fn second_request_is_answered_from_the_cache() {
    let body = br#"{"sentence":"I am so sad today"}"#;
    let mut b = backends(Some("Bot: negative"));
    let first = serve(body, &mut b);
    b.output = Some("Bot: positive".to_string());
    let second = serve(body, &mut b);
    assert_eq!(first.status, 200);
    assert_eq!(first.body, r#"{"sentiment":"negative"}"#);
    assert_eq!(second.status, first.status);
    assert_eq!(second.body, first.body);
    assert_eq!(b.lookups.len(), 2);
    assert_eq!(b.prompts.len(), 1);
    assert_eq!(b.writes.len(), 1);
}

#[test]
fn lookup_before_any_write_misses_and_goes_to_the_model() {
    let (state, action) = step(State::Start, Event::Request { body: br#"{"sentence":"new"}"#.to_vec() });
    match &action {
        Action::Lookup { key } => assert_eq!(key, "new"),
        other => panic!("{:?}", other),
    }
    let (state, action) = step(state, Event::CacheMiss);
    assert!(matches!(state, State::AwaitingModel { .. }));
    match action {
        Action::Infer { prompt, max_tokens } => {
            assert_eq!(prompt, build_prompt("new"));
            assert_eq!(max_tokens, 8);
        }
        other => panic!("{:?}", other),
    }
}

#[test]
fn sentence_is_trimmed_once_for_key_and_prompt() {
    let mut b = backends(Some("Bot: neutral"));
    let reply = serve(br#"{"sentence":"  Hi, my name is Bob \n"}"#, &mut b);
    assert_eq!(reply.body, r#"{"sentiment":"neutral"}"#);
    assert_eq!(b.lookups, vec!["Hi, my name is Bob".to_string()]);
    assert_eq!(b.prompts[0].0, build_prompt("Hi, my name is Bob"));
    assert_eq!(b.writes[0].0, "Hi, my name is Bob");
    let again = serve(br#"{"sentence":"Hi, my name is Bob"}"#, &mut b);
    assert_eq!(again.body, reply.body);
    assert_eq!(b.prompts.len(), 1);
}

#[test]
fn blank_sentence_is_served_under_the_empty_key() {
    let mut b = backends(Some("Bot: neutral"));
    let reply = serve(br#"{"sentence":"   "}"#, &mut b);
    assert_eq!(reply.status, 200);
    assert_eq!(b.lookups, vec![String::new()]);
    assert_eq!(b.prompts[0].0, build_prompt(""));
    assert_eq!(b.cache.get(""), Some(&b"neutral".to_vec()));
}

#[test]
fn unrecognized_output_is_answered_empty_and_not_cached() {
    let mut b = backends(Some("Bot: somewhat positive-ish"));
    let reply = serve(br#"{"sentence":"hm"}"#, &mut b);
    assert_eq!(reply.status, 200);
    assert_eq!(reply.body, r#"{"sentiment":""}"#);
    assert!(b.writes.is_empty());
    assert!(b.cache.is_empty());
    let again = serve(br#"{"sentence":"hm"}"#, &mut b);
    assert_eq!(again.body, r#"{"sentiment":""}"#);
    assert_eq!(b.prompts.len(), 2);
}

#[test]
fn absent_body_is_refused_without_touching_cache_or_model() {
    let mut b = backends(Some("Bot: positive"));
    let reply = serve(b"", &mut b);
    assert_eq!(reply.status, 400);
    assert_eq!(reply.body, "Request body is missing");
    assert!(b.lookups.is_empty());
    assert!(b.prompts.is_empty());
    assert!(b.writes.is_empty());
}

#[test]
fn malformed_body_is_refused_without_touching_cache_or_model() {
    let mut b = backends(Some("Bot: positive"));
    let reply = serve(b"I am so happy today", &mut b);
    assert_eq!(reply.status, 400);
    assert_eq!(reply.body, "Request body is malformed");
    assert!(b.lookups.is_empty());
    assert!(b.prompts.is_empty());
    assert!(b.writes.is_empty());
}

#[test]
fn failed_inference_is_a_server_error_and_writes_nothing() {
    let mut b = backends(None);
    let reply = serve(br#"{"sentence":"x"}"#, &mut b);
    assert_eq!(reply.status, 500);
    assert_eq!(reply.body, "Inference failed");
    assert_eq!(b.lookups.len(), 1);
    assert_eq!(b.prompts.len(), 1);
    assert!(b.writes.is_empty());
    assert!(b.cache.is_empty());
}

#[test]
fn failed_store_does_not_fail_the_request() {
    let mut b = backends(Some("Bot: positive"));
    b.cache_writable = false;
    let reply = serve(br#"{"sentence":"x"}"#, &mut b);
    assert_eq!(reply.status, 200);
    assert_eq!(reply.body, r#"{"sentiment":"positive"}"#);
    assert_eq!(b.writes.len(), 1);
    assert!(b.cache.is_empty());
}

#[test]
fn unreadable_cache_counts_as_a_miss() {
    let mut b = backends(Some("Bot: negative"));
    b.cache.insert("x".to_string(), b"positive".to_vec());
    b.cache_readable = false;
    let reply = serve(br#"{"sentence":"x"}"#, &mut b);
    assert_eq!(reply.status, 200);
    assert_eq!(reply.body, r#"{"sentiment":"negative"}"#);
    assert_eq!(b.prompts.len(), 1);
}

#[test]
fn cache_entry_that_is_no_label_counts_as_a_miss() {
    for stale in [&b""[..], b"Positive", b" positive", b"happy", &[0xff, 0xfe]] {
        let mut b = backends(Some("Bot: neutral"));
        b.cache.insert("x".to_string(), stale.to_vec());
        let reply = serve(br#"{"sentence":"x"}"#, &mut b);
        assert_eq!(reply.status, 200);
        assert_eq!(reply.body, r#"{"sentiment":"neutral"}"#);
        assert_eq!(b.prompts.len(), 1);
        assert_eq!(b.cache.get("x"), Some(&b"neutral".to_vec()));
    }
}

#[test]
fn cached_label_is_answered_without_the_model() {
    for sentiment in [Sentiment::Positive, Sentiment::Negative, Sentiment::Neutral] {
        let mut b = backends(None);
        b.cache.insert("x".to_string(), sentiment.as_bytes().to_vec());
        let reply = serve(br#"{"sentence":" x "}"#, &mut b);
        assert_eq!(reply.status, 200);
        assert_eq!(reply.body, format!("{{\"sentiment\":\"{}\"}}", sentiment.as_str()));
        assert!(b.prompts.is_empty());
        assert!(b.writes.is_empty());
    }
}

#[test]
fn event_out_of_turn_ends_the_request_with_an_internal_failure() {
    let cases = vec![
        (State::Start, Event::CacheMiss),
        (State::Start, Event::Stored),
        (State::AwaitingCache { sentence: "x".to_string() }, Event::Generated { text: "Bot: positive".to_string() }),
        (State::AwaitingCache { sentence: "x".to_string() }, Event::Request { body: Vec::new() }),
        (State::AwaitingModel { sentence: "x".to_string() }, Event::CacheHit { value: b"positive".to_vec() }),
        (State::AwaitingModel { sentence: "x".to_string() }, Event::StoreFailed),
        (State::AwaitingStore { sentiment: Sentiment::Neutral }, Event::InferenceFailed),
        (State::AwaitingStore { sentiment: Sentiment::Neutral }, Event::CacheUnavailable),
        (State::Done, Event::Request { body: br#"{"sentence":"x"}"#.to_vec() }),
        (State::Done, Event::Stored),
    ];
    for (state, event) in cases {
        let (next, action) = step(state, event);
        assert!(matches!(next, State::Done));
        match action {
            Action::Respond(reply) => {
                assert_eq!(reply.status, 500);
                assert_eq!(reply.body, "Internal error");
            }
            other => panic!("{:?}", other),
        }
    }
}

#[test]
fn answers_for_each_sentiment() {
    assert_eq!(Reply::answer(Some(Sentiment::Positive)).body, r#"{"sentiment":"positive"}"#);
    assert_eq!(Reply::answer(Some(Sentiment::Negative)).body, r#"{"sentiment":"negative"}"#);
    assert_eq!(Reply::answer(Some(Sentiment::Neutral)).body, r#"{"sentiment":"neutral"}"#);
    assert_eq!(Reply::answer(None).body, r#"{"sentiment":""}"#);
    assert_eq!(Reply::answer(None).status, 200);
}

#[test]
fn not_found_reply() {
    let reply = Reply::not_found();
    assert_eq!(reply.status, 404);
    assert_eq!(reply.body, "Not found");
}
