//! What holds of a body across its operations.

use crate::body::froze;
use crate::body::took;
use crate::body::Body;
use crate::body::BodyError;
use crate::body::BodyFrozen;
use crate::body::Source;
use bytes::Bytes;
use vstd::prelude::*;

verus! {

/// Bytes put into a body come back: aggregating a body made from a chunk
/// gives that chunk, and a pull yields it unless it is empty.
pub proof fn lemma_bytes_come_back<R, S>(body: Body<R, S>, data: Bytes)
    requires
        body.source() == Source::<R, S>::Once(data),
    ensures
        body.source().collected() == Some(Ok::<Bytes, BodyError>(data)),
        body.source().pulled() is Some,
        body.source().pulled()->0 is Some ==> body.source().pulled()->0->0 == Ok::<
            Bytes,
            BodyError,
        >(data),
{
}

/// After `take`, whether it succeeded or not, the body is frozen: every
/// read fails with `BodyFrozen`, the length is unknown, and another `take`
/// fails and changes nothing.
pub proof fn lemma_taken_body_is_frozen<R, S>(
    before: Body<R, S>,
    after: Body<R, S>,
    taken: Result<Body<R, S>, BodyFrozen>,
)
    requires
        took(before, after, taken),
    ensures
        after.source() is Frozen,
        after.source().collected() == Some(Err::<Bytes, BodyError>(BodyError::BodyFrozen)),
        after.source().pulled() == Some(Some(Err::<Bytes, BodyError>(BodyError::BodyFrozen))),
        after.source().length() is None,
        forall|later: Body<R, S>, again: Result<Body<R, S>, BodyFrozen>|
            took(after, later, again) ==> again is Err && later == after,
{
}

/// What `take` hands out is the body as it was, source and media type.
pub proof fn lemma_take_hands_out_all<R, S>(
    before: Body<R, S>,
    after: Body<R, S>,
    taken: Result<Body<R, S>, BodyFrozen>,
)
    requires
        took(before, after, taken),
        !(before.source() is Frozen),
    ensures
        taken is Ok,
        taken->Ok_0.source() == before.source(),
        taken->Ok_0.mime_type() == before.mime_type(),
{
}

/// After `freeze` every read fails with `BodyFrozen`.
pub proof fn lemma_frozen_body_fails<R, S>(before: Body<R, S>, after: Body<R, S>)
    requires
        froze(before, after),
    ensures
        after.source().collected() == Some(Err::<Bytes, BodyError>(BodyError::BodyFrozen)),
        after.source().pulled() == Some(Some(Err::<Bytes, BodyError>(BodyError::BodyFrozen))),
        forall|later: Body<R, S>, again: Result<Body<R, S>, BodyFrozen>|
            took(after, later, again) ==> again is Err,
{
}

} // verus!
