use vstd::prelude::*;

use crate::error::ServeError;

verus! {

/// Largest request body accepted unless configured otherwise.
pub const DEFAULT_MAX_BODY_BYTES: usize = 1048576;

/// One record of a request as it came off the wire: either field may be absent.
#[derive(Debug, Clone)]
pub struct RawPair {
    pub text_a: Option<String>,
    pub text_b: Option<String>,
}

/// One validated record of a request: the two texts to compare.
#[derive(Debug, Clone)]
pub struct TextPair {
    pub text_a: String,
    pub text_b: String,
}

/// The two parallel sequences handed to the model in one call.
#[derive(Debug, Clone)]
pub struct ClassificationBatch {
    pub texts_a: Vec<String>,
    pub texts_b: Vec<String>,
}

/// A record with both of its fields present.
pub open spec fn complete(r: RawPair) -> bool {
    r.text_a.is_some() && r.text_b.is_some()
}

/// Every record of the request has both fields.
pub open spec fn all_complete(raw: Seq<RawPair>) -> bool {
    forall|i: int| 0 <= i < raw.len() ==> #[trigger] complete(raw[i])
}

/// `pairs` holds the fields of `raw`, record by record, in order.
pub open spec fn pairs_match_raw(pairs: Seq<TextPair>, raw: Seq<RawPair>) -> bool {
    &&& pairs.len() == raw.len()
    &&& forall|i: int|
        0 <= i < raw.len() ==> {
            &&& #[trigger] raw[i].text_a == Some(pairs[i].text_a)
            &&& raw[i].text_b == Some(pairs[i].text_b)
        }
}

/// The batch projects `pairs`: the i-th text of each side is the i-th record's.
pub open spec fn batch_matches(b: ClassificationBatch, pairs: Seq<TextPair>) -> bool {
    &&& b.texts_a@.len() == pairs.len()
    &&& b.texts_b@.len() == pairs.len()
    &&& forall|i: int|
        0 <= i < pairs.len() ==> {
            &&& #[trigger] b.texts_a@[i] == pairs[i].text_a
            &&& b.texts_b@[i] == pairs[i].text_b
        }
}

/// The batch projects the records of `raw`, all of which are complete.
pub open spec fn batch_matches_raw(b: ClassificationBatch, raw: Seq<RawPair>) -> bool {
    &&& b.texts_a@.len() == raw.len()
    &&& b.texts_b@.len() == raw.len()
    &&& forall|i: int|
        0 <= i < raw.len() ==> {
            &&& #[trigger] raw[i].text_a == Some(b.texts_a@[i])
            &&& raw[i].text_b == Some(b.texts_b@[i])
        }
}

impl ClassificationBatch {
    /// Both sides have one text per record.
    pub open spec fn wf(&self) -> bool {
        self.texts_a@.len() == self.texts_b@.len()
    }

    pub open spec fn spec_len(&self) -> nat {
        self.texts_a@.len()
    }

    /// Number of text pairs in the batch.
    pub fn len(&self) -> (r: usize)
        ensures
            r == self.spec_len(),
    {
        self.texts_a.len()
    }
}

/// Refuses a body of `len` bytes when it exceeds `max_body_bytes`.
pub fn check_body_size(len: usize, max_body_bytes: usize) -> (r: Result<(), ServeError>)
    ensures
        r is Ok <==> len <= max_body_bytes,
        r is Err ==> r == Err::<(), ServeError>(ServeError::OversizedPayload),
{
    if len > max_body_bytes {
        Err(ServeError::OversizedPayload)
    } else {
        Ok(())
    }
}

/// Turns the decoded records into text pairs; fails with `MalformedPayload`
/// when any record lacks a field.
pub fn validate_pairs(raw: &Vec<RawPair>) -> (r: Result<Vec<TextPair>, ServeError>)
    ensures
        r is Ok <==> all_complete(raw@),
        r is Ok ==> pairs_match_raw(r->Ok_0@, raw@),
        r is Err ==> r->Err_0 == ServeError::MalformedPayload,
{
    let mut out: Vec<TextPair> = Vec::new();
    let mut i: usize = 0;
    while i < raw.len()
        invariant
            i <= raw@.len(),
            pairs_match_raw(out@, raw@.subrange(0, i as int)),
            all_complete(raw@.subrange(0, i as int)),
        decreases raw@.len() - i,
    {
        let rec = &raw[i];
        match (&rec.text_a, &rec.text_b) {
            (Some(a), Some(b)) => {
                out.push(TextPair { text_a: a.clone(), text_b: b.clone() });
            },
            _ => {
                assert(!complete(raw@[i as int]));
                return Err(ServeError::MalformedPayload);
            },
        }
        i = i + 1;
        assert(raw@.subrange(0, i as int) =~= raw@.subrange(0, i - 1).push(raw@[i - 1]));
    }
    assert(raw@.subrange(0, raw@.len() as int) =~= raw@);
    Ok(out)
}

/// Projects the records into the two parallel sequences of one model call.
pub fn project_batch(pairs: &Vec<TextPair>) -> (b: ClassificationBatch)
    ensures
        b.wf(),
        batch_matches(b, pairs@),
{
    let mut texts_a: Vec<String> = Vec::new();
    let mut texts_b: Vec<String> = Vec::new();
    let mut i: usize = 0;
    while i < pairs.len()
        invariant
            i <= pairs@.len(),
            batch_matches(
                ClassificationBatch { texts_a, texts_b },
                pairs@.subrange(0, i as int),
            ),
        decreases pairs@.len() - i,
    {
        texts_a.push(pairs[i].text_a.clone());
        texts_b.push(pairs[i].text_b.clone());
        i = i + 1;
    }
    let b = ClassificationBatch { texts_a, texts_b };
    assert(pairs@.subrange(0, pairs@.len() as int) =~= pairs@);
    b
}

/// Validating and then projecting yields a batch that holds, in request
/// order, exactly the texts of the records.
pub proof fn projection_of_validated(b: ClassificationBatch, pairs: Seq<TextPair>, raw: Seq<RawPair>)
    requires
        pairs_match_raw(pairs, raw),
        batch_matches(b, pairs),
    ensures
        batch_matches_raw(b, raw),
        b.spec_len() == raw.len(),
{
    assert forall|i: int| 0 <= i < raw.len() implies {
        &&& #[trigger] raw[i].text_a == Some(b.texts_a@[i])
        &&& raw[i].text_b == Some(b.texts_b@[i])
    } by {
        assert(b.texts_a@[i] == pairs[i].text_a);
    }
}

} // verus!
