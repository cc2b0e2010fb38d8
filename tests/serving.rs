use std::collections::BTreeMap;

use plagiarism_server::batch::{
    check_body_size, project_batch, validate_pairs, ClassificationBatch, RawPair, TextPair,
    DEFAULT_MAX_BODY_BYTES,
};
use plagiarism_server::error::ServeError;
use plagiarism_server::guard::{Acquire, AccessGuard, GuardStatus};
use plagiarism_server::pipeline::{Action, DispatchOutcome, Event, Reply, RequestFlow, Stage};
use serde_json::Value;

type Prediction = BTreeMap<String, Value>;

fn prediction(label: &str, score: f64) -> Prediction {
    let mut p = BTreeMap::new();
    p.insert("label".to_string(), Value::from(label));
    p.insert("score".to_string(), Value::from(score));
    p
}

fn decode(body: &[u8]) -> Option<Vec<RawPair>> {
    let items: Vec<serde_json::Map<String, Value>> = serde_json::from_slice(body).ok()?;
    let field = |m: &serde_json::Map<String, Value>, k: &str| {
        m.get(k).and_then(|v| v.as_str()).map(|s| s.to_string())
    };
    Some(
        items
            .iter()
            .map(|m| RawPair { text_a: field(m, "text_a"), text_b: field(m, "text_b") })
            .collect(),
    )
}

/// Runs one request through the pipeline; returns the reply, whether the body
/// was decoded, and how many times the model was called.
fn serve<F>(body: &str, limit: usize, mut model: F) -> (Reply, bool, usize)
where
    F: FnMut(&ClassificationBatch) -> Result<Vec<Prediction>, ()>,
{
    let mut flow = RequestFlow::new(limit);
    let mut decoded = false;
    let mut calls = 0;
    let mut action = flow.step::<Prediction>(Event::BodyArrived { len: body.len() });
    loop {
        let event = match action {
            Action::Decode => {
                decoded = true;
                Event::Decoded(decode(body.as_bytes()))
            }
            Action::Classify(batch) => {
                calls += 1;
                match model(&batch) {
                    Ok(p) => Event::Dispatched(DispatchOutcome::Predicted(p)),
                    Err(()) => Event::Dispatched(DispatchOutcome::ModelFailed),
                }
            }
            Action::Encode(preds) => Event::Encoded(serde_json::to_vec(&preds).ok()),
            Action::Respond(reply) => {
                assert!(flow.is_finished());
                return (reply, decoded, calls);
            }
        };
        assert!(flow.awaits(&event));
        action = flow.step(event);
    }
}

fn echo_model(batch: &ClassificationBatch) -> Result<Vec<Prediction>, ()> {
    Ok(batch
        .texts_a
        .iter()
        .zip(batch.texts_b.iter())
        .map(|(a, b)| prediction(&format!("{}|{}", a, b), 0.5))
        .collect())
}

#[test]
fn identical_pair_scenario() {
    let body = r#"[{"text_a":"the cat sat","text_b":"the cat sat"}]"#;
    let (reply, _, calls) = serve(body, DEFAULT_MAX_BODY_BYTES, |b| {
        assert_eq!(b.texts_a, vec!["the cat sat".to_string()]);
        assert_eq!(b.texts_b, vec!["the cat sat".to_string()]);
        Ok(vec![prediction("plagiarized", 1.0)])
    });
    assert_eq!(calls, 1);
    assert_eq!(reply.status(), 200);
    match reply {
        Reply::Success(bytes) => {
            assert_eq!(String::from_utf8(bytes).unwrap(), r#"[{"label":"plagiarized","score":1.0}]"#)
        }
        Reply::Failure(e) => panic!("unexpected failure {:?}", e),
    }
}

#[test]
fn empty_request_scenario() {
    let (reply, _, calls) = serve("[]", DEFAULT_MAX_BODY_BYTES, |b| {
        assert_eq!(b.len(), 0);
        assert!(b.texts_b.is_empty());
        Ok(vec![])
    });
    assert_eq!(calls, 1);
    assert_eq!(reply.status(), 200);
    match reply {
        Reply::Success(bytes) => assert_eq!(bytes, b"[]".to_vec()),
        Reply::Failure(e) => panic!("unexpected failure {:?}", e),
    }
}

#[test]
fn order_and_size_are_kept() {
    let body = r#"[{"text_a":"a1","text_b":"b1"},{"text_a":"a2","text_b":"b2"},{"text_a":"a3","text_b":"b3"}]"#;
    let (reply, _, calls) = serve(body, DEFAULT_MAX_BODY_BYTES, echo_model);
    assert_eq!(calls, 1);
    let bytes = match reply {
        Reply::Success(bytes) => bytes,
        Reply::Failure(e) => panic!("unexpected failure {:?}", e),
    };
    let out: Vec<Prediction> = serde_json::from_slice(&bytes).unwrap();
    let labels: Vec<&str> = out.iter().map(|p| p["label"].as_str().unwrap()).collect();
    assert_eq!(labels, vec!["a1|b1", "a2|b2", "a3|b3"]);
}

#[test]
fn missing_text_b_is_malformed_without_model_call() {
    let body = r#"[{"text_a":"x","text_b":"y"},{"text_a":"only a"}]"#;
    let (reply, decoded, calls) = serve(body, DEFAULT_MAX_BODY_BYTES, echo_model);
    assert!(decoded);
    assert_eq!(calls, 0);
    assert_eq!(reply.status(), 400);
    assert!(matches!(reply, Reply::Failure(ServeError::MalformedPayload)));
}

#[test]
fn non_string_field_is_malformed() {
    let (reply, _, calls) = serve(r#"[{"text_a":1,"text_b":"y"}]"#, 1024, echo_model);
    assert_eq!(calls, 0);
    assert!(matches!(reply, Reply::Failure(ServeError::MalformedPayload)));
}

#[test]
fn invalid_body_is_malformed() {
    let (reply, decoded, calls) = serve("not json", 1024, echo_model);
    assert!(decoded);
    assert_eq!(calls, 0);
    assert!(matches!(reply, Reply::Failure(ServeError::MalformedPayload)));
}

#[test]
fn oversized_body_is_refused_before_decoding() {
    let body = r#"[{"text_a":"x","text_b":"y"}]"#;
    let (reply, decoded, calls) = serve(body, body.len() - 1, echo_model);
    assert!(!decoded);
    assert_eq!(calls, 0);
    assert_eq!(reply.status(), 413);
    assert!(matches!(reply, Reply::Failure(ServeError::OversizedPayload)));
}

#[test]
fn body_at_the_limit_is_accepted() {
    let body = r#"[{"text_a":"x","text_b":"y"}]"#;
    let (reply, decoded, calls) = serve(body, body.len(), echo_model);
    assert!(decoded);
    assert_eq!(calls, 1);
    assert_eq!(reply.status(), 200);
}

#[test]
fn model_failure_does_not_affect_next_request() {
    let body = r#"[{"text_a":"x","text_b":"y"}]"#;
    let mut guard = AccessGuard::new();
    let (first, _, _) = serve(body, 1024, |_| {
        assert_eq!(guard.try_acquire(1), Acquire::Granted);
        assert!(guard.release(1, false));
        Err(())
    });
    assert_eq!(first.status(), 500);
    assert!(matches!(first, Reply::Failure(ServeError::ModelError)));
    let (second, _, calls) = serve(body, 1024, |b| {
        assert_eq!(guard.try_acquire(2), Acquire::Granted);
        assert!(guard.release(2, false));
        echo_model(b)
    });
    assert_eq!(calls, 1);
    assert_eq!(second.status(), 200);
}

#[test]
fn poisoned_guard_gives_lock_error() {
    let mut flow = RequestFlow::with_default_limit();
    assert!(matches!(flow.step::<u8>(Event::BodyArrived { len: 2 }), Action::Decode));
    assert!(matches!(flow.step::<u8>(Event::Decoded(Some(vec![]))), Action::Classify(_)));
    let a = flow.step::<u8>(Event::Dispatched(DispatchOutcome::GuardPoisoned));
    assert_eq!(flow.stage, Stage::Errored);
    match a {
        Action::Respond(r) => {
            assert_eq!(r.status(), 500);
            assert!(matches!(r, Reply::Failure(ServeError::LockError)));
        }
        _ => panic!("expected a reply"),
    }
}

#[test]
fn encoding_failure_gives_encoding_error() {
    let mut flow = RequestFlow::new(8);
    flow.step::<u8>(Event::BodyArrived { len: 2 });
    flow.step::<u8>(Event::Decoded(Some(vec![])));
    assert!(matches!(
        flow.step::<u8>(Event::Dispatched(DispatchOutcome::Predicted(vec![]))),
        Action::Encode(v) if v.is_empty()
    ));
    match flow.step::<u8>(Event::Encoded(None)) {
        Action::Respond(r) => assert!(matches!(r, Reply::Failure(ServeError::EncodingError))),
        _ => panic!("expected a reply"),
    }
    assert!(flow.is_finished());
}

#[test]
fn finished_flow_awaits_nothing() {
    let mut flow = RequestFlow::new(0);
    flow.step::<u8>(Event::BodyArrived { len: 1 });
    assert_eq!(flow.stage, Stage::Errored);
    assert!(!flow.awaits::<u8>(&Event::Decoded(None)));
    assert!(!flow.awaits::<u8>(&Event::BodyArrived { len: 0 }));
}

#[test]
fn status_codes_by_error() {
    assert_eq!(ServeError::MalformedPayload.status_code(), 400);
    assert_eq!(ServeError::OversizedPayload.status_code(), 413);
    assert_eq!(ServeError::LockError.status_code(), 500);
    assert_eq!(ServeError::ModelError.status_code(), 500);
    assert_eq!(ServeError::EncodingError.status_code(), 500);
    assert!(ServeError::MalformedPayload.is_client_error());
    assert!(ServeError::OversizedPayload.is_client_error());
    assert!(!ServeError::ModelError.is_client_error());
}

#[test]
fn body_size_check() {
    assert_eq!(check_body_size(0, 0), Ok(()));
    assert_eq!(check_body_size(DEFAULT_MAX_BODY_BYTES, DEFAULT_MAX_BODY_BYTES), Ok(()));
    assert_eq!(
        check_body_size(DEFAULT_MAX_BODY_BYTES + 1, DEFAULT_MAX_BODY_BYTES),
        Err(ServeError::OversizedPayload)
    );
    assert_eq!(DEFAULT_MAX_BODY_BYTES, 1048576);
}

#[test]
fn validate_and_project_keep_order() {
    let raw = vec![
        RawPair { text_a: Some("one".to_string()), text_b: Some("uno".to_string()) },
        RawPair { text_a: Some("two".to_string()), text_b: Some("dos".to_string()) },
    ];
    let pairs: Vec<TextPair> = validate_pairs(&raw).unwrap();
    assert_eq!(pairs.len(), 2);
    let b = project_batch(&pairs);
    assert_eq!(b.texts_a, vec!["one".to_string(), "two".to_string()]);
    assert_eq!(b.texts_b, vec!["uno".to_string(), "dos".to_string()]);
    assert_eq!(b.len(), 2);
}

#[test]
fn validate_refuses_missing_text_a() {
    let raw = vec![RawPair { text_a: None, text_b: Some("b".to_string()) }];
    assert!(matches!(validate_pairs(&raw), Err(ServeError::MalformedPayload)));
}

#[test]
fn guard_serialises_holders() {
    // A test double records when each request enters and leaves the model.
    let mut guard = AccessGuard::new();
    let mut clock: u64 = 0;
    let mut intervals: Vec<(u64, u64, u64)> = Vec::new();
    let mut inside: Option<(u64, u64)> = None;
    let mut waiting: Vec<u64> = vec![1, 2, 3];
    while !waiting.is_empty() || inside.is_some() {
        // Every waiting request tries once per tick; the holder finishes after one tick.
        if let Some((who, since)) = inside {
            clock += 1;
            assert!(guard.release(who, false));
            intervals.push((who, since, clock));
            inside = None;
        }
        let mut still_waiting = Vec::new();
        for &who in &waiting {
            match guard.try_acquire(who) {
                Acquire::Granted => {
                    assert!(inside.is_none());
                    clock += 1;
                    inside = Some((who, clock));
                }
                Acquire::Wait => still_waiting.push(who),
                Acquire::Poisoned => panic!("guard poisoned"),
            }
        }
        waiting = still_waiting;
    }
    assert_eq!(intervals.len(), 3);
    for (i, x) in intervals.iter().enumerate() {
        for y in intervals.iter().skip(i + 1) {
            assert!(x.2 <= y.1 || y.2 <= x.1, "overlap between {:?} and {:?}", x, y);
        }
    }
    assert_eq!(guard.status(), GuardStatus::Available);
}

#[test]
fn guard_refuses_release_by_non_holder() {
    let mut guard = AccessGuard::new();
    assert_eq!(guard.try_acquire(7), Acquire::Granted);
    assert_eq!(guard.try_acquire(8), Acquire::Wait);
    assert!(!guard.release(8, true));
    assert_eq!(guard.status(), GuardStatus::Held(7));
}

#[test]
fn abnormal_release_poisons_for_good() {
    let mut guard = AccessGuard::new();
    assert_eq!(guard.try_acquire(1), Acquire::Granted);
    assert!(guard.release(1, true));
    assert_eq!(guard.status(), GuardStatus::Poisoned);
    assert_eq!(guard.try_acquire(2), Acquire::Poisoned);
    assert!(!guard.release(1, false));
    assert_eq!(guard.try_acquire(3), Acquire::Poisoned);
    assert_eq!(guard.status(), GuardStatus::Poisoned);
}
