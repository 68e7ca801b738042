//! What holds of every computation that takes a source read by read.
//!
//! A source is known by the events that its reads give. The laws below are
//! stated of [`outcome`], the phase that calls of `Digester::step`, one for
//! each event of a run, lead to.

use crate::algorithm::HashAlgorithm;
use crate::backend::siphash_value;
use crate::digester::{advance, outcome, Phase, ReadEvent};
use crate::error::HashError;
use crate::hex::{all_lower_hex, lemma_lower_hex_shape};
use vstd::prelude::*;

verus! {

/// Whether an event delivers bytes: it neither ends the source nor fails.
pub open spec fn delivers(event: ReadEvent) -> bool {
    event matches ReadEvent::Bytes(chunk) && chunk@.len() > 0
}

/// Whether an event says that the source is at its end.
pub open spec fn ends(event: ReadEvent) -> bool {
    event matches ReadEvent::Bytes(chunk) && chunk@.len() == 0
}

/// Whether every event of a run delivers bytes.
pub open spec fn all_deliver(events: Seq<ReadEvent>) -> bool {
    forall|i: int| 0 <= i < events.len() ==> delivers(#[trigger] events[i])
}

/// The bytes that a run of events delivers, in the order of the events.
pub open spec fn content(events: Seq<ReadEvent>) -> Seq<u8>
    decreases events.len(),
{
    if events.len() == 0 {
        Seq::empty()
    } else {
        content(events.drop_last()) + match events.last() {
            ReadEvent::Bytes(chunk) => chunk@,
            ReadEvent::Failed(_) => Seq::empty(),
        }
    }
}

/// While every read delivers bytes the computation keeps reading, and it
/// has absorbed exactly the bytes delivered, in their order.
pub proof fn lemma_reading_absorbs_content(algorithm: HashAlgorithm, events: Seq<ReadEvent>)
    requires
        all_deliver(events),
    ensures
        outcome(algorithm, events) == Phase::Reading(content(events)),
    decreases events.len(),
{
    if events.len() > 0 {
        assert(delivers(events[events.len() - 1]));
        lemma_reading_absorbs_content(algorithm, events.drop_last());
    }
}

/// Once a computation has finished or failed, further events change nothing.
pub proof fn lemma_settled_stays(
    algorithm: HashAlgorithm,
    head: Seq<ReadEvent>,
    tail: Seq<ReadEvent>,
)
    requires
        !(outcome(algorithm, head) is Reading),
    ensures
        outcome(algorithm, head + tail) == outcome(algorithm, head),
    decreases tail.len(),
{
    if tail.len() == 0 {
        assert(head + tail =~= head);
    } else {
        lemma_settled_stays(algorithm, head, tail.drop_last());
        assert((head + tail).drop_last() =~= head + tail.drop_last());
        assert((head + tail).last() == tail.last());
    }
}

/// A source that is read to its end gives the digest of the bytes it
/// delivered, whatever is tried after the end.
pub proof fn law_digest_of_content(
    algorithm: HashAlgorithm,
    data: Seq<ReadEvent>,
    end: ReadEvent,
    rest: Seq<ReadEvent>,
)
    requires
        all_deliver(data),
        ends(end),
    ensures
        outcome(algorithm, data.push(end) + rest) == Phase::Finished(
            algorithm.digest(content(data)),
        ),
{
    lemma_reading_absorbs_content(algorithm, data);
    assert(data.push(end).drop_last() =~= data);
    lemma_settled_stays(algorithm, data.push(end), rest);
}

/// Under SipHash the digest of every content, of whatever length, is
/// sixteen lowercase hexadecimal digits.
pub proof fn law_siphash_digest_is_sixteen_digits(content: Seq<u8>)
    ensures
        HashAlgorithm::SipHash.digest(content).len() == HashAlgorithm::SipHash.hex_len(),
        HashAlgorithm::SipHash.digest(content).len() == 16,
        all_lower_hex(HashAlgorithm::SipHash.digest(content)),
{
    lemma_lower_hex_shape(siphash_value(content) as nat, 16);
}

/// A source without any bytes still gives a digest, that of the empty
/// content, and no error.
pub proof fn law_empty_source_has_digest(algorithm: HashAlgorithm, end: ReadEvent)
    requires
        ends(end),
    ensures
        outcome(algorithm, seq![end]) == Phase::Finished(algorithm.digest(Seq::empty())),
{
    let none = Seq::<ReadEvent>::empty();
    law_digest_of_content(algorithm, none, end, none);
    assert(none.push(end) + none =~= seq![end]);
}

/// Determinism: two sources that deliver the same bytes give the same
/// digest under the same algorithm.
pub proof fn law_same_content_same_digest(
    algorithm: HashAlgorithm,
    first: Seq<ReadEvent>,
    first_end: ReadEvent,
    second: Seq<ReadEvent>,
    second_end: ReadEvent,
)
    requires
        all_deliver(first),
        ends(first_end),
        all_deliver(second),
        ends(second_end),
        content(first) == content(second),
    ensures
        outcome(algorithm, first.push(first_end)) == outcome(algorithm, second.push(second_end)),
        outcome(algorithm, first.push(first_end)) is Finished,
{
    law_digest_of_content(algorithm, first, first_end, Seq::empty());
    law_digest_of_content(algorithm, second, second_end, Seq::empty());
    assert(first.push(first_end) + Seq::<ReadEvent>::empty() =~= first.push(first_end));
    assert(second.push(second_end) + Seq::<ReadEvent>::empty() =~= second.push(second_end));
}

/// Chunking invariance: a content that arrives in pieces, cut anywhere,
/// gives the digest that it gives when it arrives in one read.
pub proof fn law_chunking_does_not_matter(
    algorithm: HashAlgorithm,
    pieces: Seq<ReadEvent>,
    whole: ReadEvent,
    end: ReadEvent,
)
    requires
        all_deliver(pieces),
        ends(end),
        whole matches ReadEvent::Bytes(chunk) && chunk@ == content(pieces),
    ensures
        outcome(algorithm, pieces.push(end)) == outcome(algorithm, seq![whole, end]),
        outcome(algorithm, pieces.push(end)) == Phase::Finished(
            algorithm.digest(content(pieces)),
        ),
{
    law_digest_of_content(algorithm, pieces, end, Seq::empty());
    assert(pieces.push(end) + Seq::<ReadEvent>::empty() =~= pieces.push(end));
    let single = seq![whole, end];
    let none = Seq::<ReadEvent>::empty();
    assert(single.drop_last() =~= seq![whole]);
    assert(seq![whole].drop_last() =~= none);
    assert(outcome(algorithm, none) == Phase::Reading(Seq::<u8>::empty()));
    assert(outcome(algorithm, seq![whole]) == advance(
        algorithm,
        Phase::Reading(Seq::<u8>::empty()),
        whole,
    ));
    assert(Seq::<u8>::empty() + content(pieces) =~= content(pieces));
    if content(pieces).len() == 0 {
        assert(algorithm.digest(Seq::<u8>::empty()) == algorithm.digest(content(pieces))) by {
            assert(content(pieces) =~= Seq::<u8>::empty());
        }
    }
}

/// A source that fails after delivering some bytes, or none, gives the
/// failure with its cause and never a digest, whatever is tried after.
pub proof fn law_failure_gives_no_digest(
    algorithm: HashAlgorithm,
    data: Seq<ReadEvent>,
    cause: std::io::Error,
    rest: Seq<ReadEvent>,
)
    requires
        all_deliver(data),
    ensures
        outcome(algorithm, data.push(ReadEvent::Failed(cause)) + rest) == Phase::Failed(
            HashError::SourceReadFailure(cause),
        ),
        !(outcome(algorithm, data.push(ReadEvent::Failed(cause)) + rest) is Finished),
{
    let failed = data.push(ReadEvent::Failed(cause));
    lemma_reading_absorbs_content(algorithm, data);
    assert(failed.drop_last() =~= data);
    lemma_settled_stays(algorithm, failed, rest);
}

} // verus!
