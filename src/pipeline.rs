use vstd::prelude::*;

use crate::batch::{
    all_complete,
    batch_matches_raw,
    check_body_size,
    project_batch,
    projection_of_validated,
    validate_pairs,
    ClassificationBatch,
    RawPair,
    DEFAULT_MAX_BODY_BYTES,
};
use crate::error::{status_of, ServeError, STATUS_OK};

verus! {

/// Where one request stands in its pipeline.
#[derive(Debug, Clone, Copy, PartialEq, Eq, Structural)]
pub enum Stage {
    Received,
    Decoding,
    Dispatching,
    Encoding,
    Sent,
    Errored,
}

/// What came back from one guarded model call.
#[derive(Debug)]
pub enum DispatchOutcome<P> {
    /// The model classified the batch.
    Predicted(Vec<P>),
    /// The model reported a failure for this batch.
    ModelFailed,
    /// The guard could not be acquired because it is poisoned.
    GuardPoisoned,
}

/// What the caller reports back after performing an action.
#[derive(Debug)]
pub enum Event<P> {
    /// The body has arrived and is `len` bytes long.
    BodyArrived { len: usize },
    /// The body was decoded into records, or was not valid structured data.
    Decoded(Option<Vec<RawPair>>),
    /// The model call is over.
    Dispatched(DispatchOutcome<P>),
    /// The predictions were encoded into these bytes, or could not be.
    Encoded(Option<Vec<u8>>),
}

/// The final answer to a request.
#[derive(Debug)]
pub enum Reply {
    Success(Vec<u8>),
    Failure(ServeError),
}

/// What the caller has to do next.
#[derive(Debug)]
pub enum Action<P> {
    /// Decode the body into records.
    Decode,
    /// Acquire the guard, call the model once with this batch, release the guard.
    Classify(ClassificationBatch),
    /// Encode these predictions.
    Encode(Vec<P>),
    /// Send this reply; the request is over.
    Respond(Reply),
}

pub open spec fn reply_status(r: Reply) -> u16 {
    match r {
        Reply::Success(_) => STATUS_OK,
        Reply::Failure(e) => status_of(e),
    }
}

impl Reply {
    /// HTTP status of this reply.
    pub fn status(&self) -> (r: u16)
        ensures
            r == reply_status(*self),
    {
        match self {
            Reply::Success(_) => STATUS_OK,
            Reply::Failure(e) => e.status_code(),
        }
    }
}

/// The pipeline of one request. Requests share nothing through it.
#[derive(Debug)]
pub struct RequestFlow {
    pub stage: Stage,
    pub max_body_bytes: usize,
}

/// The stage in which event `e` is the one awaited.
pub open spec fn awaited<P>(stage: Stage, e: Event<P>) -> bool {
    match e {
        Event::BodyArrived { .. } => stage == Stage::Received,
        Event::Decoded(_) => stage == Stage::Decoding,
        Event::Dispatched(_) => stage == Stage::Dispatching,
        Event::Encoded(_) => stage == Stage::Encoding,
    }
}

/// The request ends with `reply`.
pub open spec fn ends_with<P>(a: Action<P>, next: RequestFlow, reply: Reply) -> bool {
    &&& a == Action::<P>::Respond(reply)
    &&& next.stage == match reply {
        Reply::Success(_) => Stage::Sent,
        Reply::Failure(_) => Stage::Errored,
    }
}

/// The request fails with `err`.
pub open spec fn fails_with<P>(a: Action<P>, next: RequestFlow, err: ServeError) -> bool {
    ends_with(a, next, Reply::Failure(err))
}

/// `a` and `next` are the answer of a pipeline in state `cur` to event `e`.
pub open spec fn step_rel<P>(cur: RequestFlow, e: Event<P>, a: Action<P>, next: RequestFlow) -> bool {
    &&& next.max_body_bytes == cur.max_body_bytes
    &&& match e {
        Event::BodyArrived { len } => if len > cur.max_body_bytes {
            fails_with(a, next, ServeError::OversizedPayload)
        } else {
            a is Decode && next.stage == Stage::Decoding
        },
        Event::Decoded(None) => fails_with(a, next, ServeError::MalformedPayload),
        Event::Decoded(Some(raw)) => if all_complete(raw@) {
            &&& next.stage == Stage::Dispatching
            &&& a is Classify
            &&& a->Classify_0.wf()
            &&& batch_matches_raw(a->Classify_0, raw@)
        } else {
            fails_with(a, next, ServeError::MalformedPayload)
        },
        Event::Dispatched(DispatchOutcome::Predicted(preds)) => {
            a == Action::Encode(preds) && next.stage == Stage::Encoding
        },
        Event::Dispatched(DispatchOutcome::ModelFailed) => fails_with(
            a,
            next,
            ServeError::ModelError,
        ),
        Event::Dispatched(DispatchOutcome::GuardPoisoned) => fails_with(
            a,
            next,
            ServeError::LockError,
        ),
        Event::Encoded(Some(bytes)) => ends_with(a, next, Reply::Success(bytes)),
        Event::Encoded(None) => fails_with(a, next, ServeError::EncodingError),
    }
}

impl RequestFlow {
    /// A fresh pipeline that refuses bodies over `max_body_bytes`.
    pub fn new(max_body_bytes: usize) -> (f: RequestFlow)
        ensures
            f.stage == Stage::Received,
            f.max_body_bytes == max_body_bytes,
    {
        RequestFlow { stage: Stage::Received, max_body_bytes }
    }

    /// A fresh pipeline with the default body-size limit.
    pub fn with_default_limit() -> (f: RequestFlow)
        ensures
            f.stage == Stage::Received,
            f.max_body_bytes == DEFAULT_MAX_BODY_BYTES,
    {
        RequestFlow::new(DEFAULT_MAX_BODY_BYTES)
    }

    /// Whether the request has been answered.
    pub fn is_finished(&self) -> (r: bool)
        ensures
            r == (self.stage == Stage::Sent || self.stage == Stage::Errored),
    {
        match self.stage {
            Stage::Sent | Stage::Errored => true,
            _ => false,
        }
    }

    /// Whether `e` is the event this pipeline waits for.
    pub fn awaits<P>(&self, e: &Event<P>) -> (r: bool)
        ensures
            r == awaited(self.stage, *e),
    {
        match e {
            Event::BodyArrived { .. } => self.stage == Stage::Received,
            Event::Decoded(_) => self.stage == Stage::Decoding,
            Event::Dispatched(_) => self.stage == Stage::Dispatching,
            Event::Encoded(_) => self.stage == Stage::Encoding,
        }
    }

    /// Takes the outcome of the last action and says what to do next.
    pub fn step<P>(&mut self, e: Event<P>) -> (a: Action<P>)
        requires
            awaited(old(self).stage, e),
        ensures
            step_rel(*old(self), e, a, *final(self)),
    {
        match e {
            Event::BodyArrived { len } => match check_body_size(len, self.max_body_bytes) {
                Ok(()) => {
                    self.stage = Stage::Decoding;
                    Action::Decode
                },
                Err(err) => self.fail(err),
            },
            Event::Decoded(None) => self.fail(ServeError::MalformedPayload),
            Event::Decoded(Some(raw)) => match validate_pairs(&raw) {
                Ok(pairs) => {
                    let batch = project_batch(&pairs);
                    proof {
                        projection_of_validated(batch, pairs@, raw@);
                    }
                    self.stage = Stage::Dispatching;
                    Action::Classify(batch)
                },
                Err(err) => self.fail(err),
            },
            Event::Dispatched(DispatchOutcome::Predicted(preds)) => {
                self.stage = Stage::Encoding;
                Action::Encode(preds)
            },
            Event::Dispatched(DispatchOutcome::ModelFailed) => self.fail(ServeError::ModelError),
            Event::Dispatched(DispatchOutcome::GuardPoisoned) => self.fail(ServeError::LockError),
            Event::Encoded(Some(bytes)) => {
                self.stage = Stage::Sent;
                Action::Respond(Reply::Success(bytes))
            },
            Event::Encoded(None) => self.fail(ServeError::EncodingError),
        }
    }

    fn fail<P>(&mut self, err: ServeError) -> (a: Action<P>)
        ensures
            fails_with(a, *final(self), err),
            final(self).max_body_bytes == old(self).max_body_bytes,
    {
        self.stage = Stage::Errored;
        Action::Respond(Reply::Failure(err))
    }
}

/// Once a request has been answered, the pipeline awaits no further event: in
/// particular it never asks for the model again.
pub proof fn finished_awaits_nothing<P>(stage: Stage, e: Event<P>)
    requires
        stage == Stage::Sent || stage == Stage::Errored,
    ensures
        !awaited(stage, e),
{
}

/// Order and size are kept: the model is handed, in request order, the texts
/// of every record, and when it returns one prediction per pair, exactly those
/// predictions, as many as there were records and in the same order, are
/// encoded and sent with a success status.
pub proof fn order_and_size_preserved<P>(
    f0: RequestFlow,
    raw: Vec<RawPair>,
    a1: Action<P>,
    f1: RequestFlow,
    preds: Vec<P>,
    a2: Action<P>,
    f2: RequestFlow,
    bytes: Vec<u8>,
    a3: Action<P>,
    f3: RequestFlow,
)
    requires
        all_complete(raw@),
        step_rel(f0, Event::Decoded(Some(raw)), a1, f1),
        a1 is Classify ==> preds@.len() == a1->Classify_0.spec_len(),
        step_rel(f1, Event::Dispatched(DispatchOutcome::Predicted(preds)), a2, f2),
        step_rel(f2, Event::Encoded(Some(bytes)), a3, f3),
    ensures
        a1 is Classify,
        batch_matches_raw(a1->Classify_0, raw@),
        a2 == Action::<P>::Encode(preds),
        preds@.len() == raw@.len(),
        a3 == Action::<P>::Respond(Reply::Success(bytes)),
        reply_status(a3->Respond_0) == STATUS_OK,
        f3.stage == Stage::Sent,
{
}

/// An empty request hands the model an empty batch; when the model answers it
/// with no predictions, the request succeeds with an empty result.
pub proof fn empty_request_succeeds<P>(
    f0: RequestFlow,
    raw: Vec<RawPair>,
    a1: Action<P>,
    f1: RequestFlow,
    preds: Vec<P>,
    a2: Action<P>,
    f2: RequestFlow,
)
    requires
        raw@.len() == 0,
        step_rel(f0, Event::Decoded(Some(raw)), a1, f1),
        a1 is Classify ==> preds@.len() == a1->Classify_0.spec_len(),
        step_rel(f1, Event::Dispatched(DispatchOutcome::Predicted(preds)), a2, f2),
    ensures
        a1 is Classify,
        a1->Classify_0.spec_len() == 0,
        a1->Classify_0.texts_b@.len() == 0,
        preds@.len() == 0,
        a2 == Action::<P>::Encode(preds),
        f2.stage == Stage::Encoding,
{
}

/// A record without `text_b` makes the request fail with `MalformedPayload`
/// before any model call, and the pipeline asks for none afterwards.
pub proof fn missing_text_b_is_malformed<P>(
    f0: RequestFlow,
    raw: Vec<RawPair>,
    i: int,
    a: Action<P>,
    f1: RequestFlow,
    later: Event<P>,
)
    requires
        0 <= i < raw@.len(),
        raw@[i].text_b is None,
        step_rel(f0, Event::Decoded(Some(raw)), a, f1),
    ensures
        a == Action::<P>::Respond(Reply::Failure(ServeError::MalformedPayload)),
        reply_status(a->Respond_0) == 400,
        f1.stage == Stage::Errored,
        !awaited(f1.stage, later),
{
    assert(!crate::batch::complete(raw@[i]));
}

/// A body over the limit makes the request fail with `OversizedPayload`
/// without being decoded, and the pipeline asks for nothing afterwards.
pub proof fn oversized_body_is_refused<P>(
    f0: RequestFlow,
    len: usize,
    a: Action<P>,
    f1: RequestFlow,
    later: Event<P>,
)
    requires
        len > f0.max_body_bytes,
        step_rel(f0, Event::BodyArrived { len }, a, f1),
    ensures
        a == Action::<P>::Respond(Reply::Failure(ServeError::OversizedPayload)),
        reply_status(a->Respond_0) == 413,
        f1.stage == Stage::Errored,
        !awaited(f1.stage, later),
{
}

/// A failing model call ends its own request with `ModelError` and nothing
/// else: the pipeline keeps no state between requests, and a fresh one for the
/// next request proceeds to decoding any body within the limit.
pub proof fn model_failure_is_isolated<P>(
    f0: RequestFlow,
    a: Action<P>,
    f1: RequestFlow,
    g0: RequestFlow,
    len: usize,
    b: Action<P>,
    g1: RequestFlow,
)
    requires
        step_rel(f0, Event::Dispatched(DispatchOutcome::ModelFailed), a, f1),
        g0.stage == Stage::Received,
        len <= g0.max_body_bytes,
        step_rel(g0, Event::BodyArrived { len }, b, g1),
    ensures
        a == Action::<P>::Respond(Reply::Failure(ServeError::ModelError)),
        reply_status(a->Respond_0) == 500,
        b is Decode,
        g1.stage == Stage::Decoding,
{
}

} // verus!
