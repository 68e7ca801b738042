//! A digest computed piece by piece.

use crate::algorithm::HashAlgorithm;
use crate::backend::{
    md5_finished, md5_input, md5_message, md5_new, md5_result_str, sha1_finished, sha1_input,
    sha1_message, sha1_new, sha1_result_str, sip_finish, sip_keys, sip_new, sip_write_u8,
    sip_written, MD5_MAX_BYTES, SHA1_MAX_BYTES,
};
use crate::error::HashError;
use crate::hex::{all_lower_hex, hex_u64};
use crypto::md5::Md5;
use crypto::sha1::Sha1;
#[allow(deprecated)]
use std::hash::SipHasher;
use vstd::prelude::*;

verus! {

/// What one read of the source gave.
pub enum ReadEvent<'a> {
    /// The bytes that the read delivered; none when the source is at its end.
    Bytes(&'a [u8]),
    /// The read failed, for this cause.
    Failed(std::io::Error),
}

impl<'a> ReadEvent<'a> {
    /// The event that a read into `buffer` gave: a count says how many bytes
    /// the read put at the front of the buffer, an error is the failure.
    pub fn of_read(buffer: &'a [u8], read: Result<usize, std::io::Error>) -> (event: ReadEvent<'a>)
        requires
            read matches Ok(count) ==> count <= buffer@.len(),
        ensures
            match read {
                Ok(count) => event matches ReadEvent::Bytes(chunk) && chunk@ == buffer@.take(
                    count as int,
                ),
                Err(cause) => event == ReadEvent::Failed(cause),
            },
    {
        match read {
            Ok(count) => ReadEvent::Bytes(vstd::slice::slice_subrange(buffer, 0, count)),
            Err(cause) => ReadEvent::Failed(cause),
        }
    }
}

/// Where a computation stands after an event.
pub enum Progress {
    /// The source may hold more: read on.
    Reading(Digester),
    /// The source is at its end: this is the digest.
    Finished(String),
    /// Reading failed: there is no digest.
    Failed(HashError),
}

/// Where a computation stands, as mathematics: what has been absorbed, the
/// digest, or the failure.
pub enum Phase {
    Reading(Seq<u8>),
    Finished(Seq<char>),
    Failed(HashError),
}

impl View for Progress {
    type V = Phase;

    /// The phase that this progress stands for.
    open spec fn view(&self) -> Phase {
        match *self {
            Progress::Reading(digester) => Phase::Reading(digester@),
            Progress::Finished(digest) => Phase::Finished(digest@),
            Progress::Failed(error) => Phase::Failed(error),
        }
    }
}

/// The phase that follows `phase` on `event` under `algorithm`. While
/// reading, bytes are absorbed, a read without bytes ends the source and
/// gives the digest, and a failed read ends the computation with its cause.
/// A phase that is not reading stays as it is.
pub open spec fn advance(algorithm: HashAlgorithm, phase: Phase, event: ReadEvent) -> Phase {
    match phase {
        Phase::Reading(absorbed) => match event {
            ReadEvent::Bytes(chunk) => if chunk@.len() == 0 {
                Phase::Finished(algorithm.digest(absorbed))
            } else {
                Phase::Reading(absorbed + chunk@)
            },
            ReadEvent::Failed(cause) => Phase::Failed(HashError::SourceReadFailure(cause)),
        },
        _ => phase,
    }
}

/// The phase reached from the start after a run of events.
pub open spec fn outcome(algorithm: HashAlgorithm, events: Seq<ReadEvent>) -> Phase
    decreases events.len(),
{
    if events.len() == 0 {
        Phase::Reading(Seq::empty())
    } else {
        advance(algorithm, outcome(algorithm, events.drop_last()), events.last())
    }
}

/// The hasher at work, one variant for each algorithm.
enum Engine {
    SipHash(SipHasher),
    Sha1(Sha1),
    Md5(Md5),
}

/// The state of one digest computation: the algorithm and what it has
/// absorbed so far.
pub struct Digester {
    engine: Engine,
    /// The number of bytes absorbed, kept for the algorithms that limit it.
    length: u64,
}

impl Engine {
    /// The algorithm that the hasher implements.
    spec fn algorithm(self) -> HashAlgorithm {
        match self {
            Engine::SipHash(_) => HashAlgorithm::SipHash,
            Engine::Sha1(_) => HashAlgorithm::Sha1,
            Engine::Md5(_) => HashAlgorithm::MD5,
        }
    }

    /// The bytes that the hasher has taken in.
    spec fn absorbed(self) -> Seq<u8> {
        match self {
            Engine::SipHash(hasher) => sip_written(hasher),
            Engine::Sha1(hasher) => sha1_message(hasher),
            Engine::Md5(hasher) => md5_message(hasher),
        }
    }

    /// Whether the hasher is as it was made here and still takes input.
    spec fn open(self) -> bool {
        match self {
            Engine::SipHash(hasher) => sip_keys(hasher) == (0u64, 0u64),
            Engine::Sha1(hasher) => !sha1_finished(hasher),
            Engine::Md5(hasher) => !md5_finished(hasher),
        }
    }

    /// Feeds a chunk to the hasher: SipHash byte by byte, the block digests
    /// the chunk at once.
    fn absorb(&mut self, chunk: &[u8])
        requires
            old(self).open(),
            old(self).algorithm().accepts(old(self).absorbed().len() + chunk@.len()),
        ensures
            final(self).open(),
            final(self).algorithm() == old(self).algorithm(),
            final(self).absorbed() == old(self).absorbed() + chunk@,
    {
        match self {
            Engine::SipHash(hasher) => {
                let ghost before = sip_written(*hasher);
                let mut i: usize = 0;
                while i < chunk.len()
                    invariant
                        i <= chunk@.len(),
                        sip_keys(*hasher) == (0u64, 0u64),
                        sip_written(*hasher) == before + chunk@.take(i as int),
                    decreases chunk.len() - i,
                {
                    sip_write_u8(hasher, chunk[i]);
                    i += 1;
                }
            },
            Engine::Sha1(hasher) => sha1_input(hasher, chunk),
            Engine::Md5(hasher) => md5_input(hasher, chunk),
        }
    }
}

impl View for Digester {
    type V = Seq<u8>;

    /// The bytes absorbed so far, in the order in which they came.
    closed spec fn view(&self) -> Seq<u8> {
        self.engine.absorbed()
    }
}

impl Digester {
    /// The algorithm that the computation runs.
    pub closed spec fn algorithm(&self) -> HashAlgorithm {
        self.engine.algorithm()
    }

    #[verifier::type_invariant]
    closed spec fn well_formed(&self) -> bool {
        &&& self.engine.open()
        &&& !(self.engine is SipHash) ==> self.length == self.engine.absorbed().len()
        &&& self.engine is Sha1 ==> self.length <= SHA1_MAX_BYTES
    }

    /// Starts a computation that has absorbed nothing.
    pub fn new(algorithm: HashAlgorithm) -> (digester: Digester)
        ensures
            digester.algorithm() == algorithm,
            digester@ == Seq::<u8>::empty(),
    {
        let engine = match algorithm {
            HashAlgorithm::SipHash => Engine::SipHash(sip_new()),
            HashAlgorithm::Sha1 => Engine::Sha1(sha1_new()),
            HashAlgorithm::MD5 => Engine::Md5(md5_new()),
        };
        Digester { engine, length: 0 }
    }

    /// Whether `count` more bytes can be absorbed.
    pub fn can_absorb(&self, count: usize) -> (can: bool)
        ensures
            can == self.algorithm().accepts(self@.len() + count as nat),
    {
        proof {
            use_type_invariant(self);
        }
        match &self.engine {
            Engine::SipHash(_) => true,
            Engine::Sha1(_) => count as u64 <= SHA1_MAX_BYTES - self.length,
            Engine::Md5(_) => count as u64 <= MD5_MAX_BYTES - self.length,
        }
    }

    /// Absorbs a chunk after what was absorbed before. A chunk without bytes
    /// is always taken; one with bytes must fit within the algorithm's limit.
    pub fn absorb(self, chunk: &[u8]) -> (next: Digester)
        requires
            chunk@.len() > 0 ==> self.algorithm().accepts(self@.len() + chunk@.len()),
        ensures
            next.algorithm() == self.algorithm(),
            next@ == self@ + chunk@,
    {
        proof {
            use_type_invariant(&self);
        }
        let mut engine = self.engine;
        engine.absorb(chunk);
        let length = match &engine {
            Engine::SipHash(_) => self.length,
            _ => self.length + chunk.len() as u64,
        };
        Digester { engine, length }
    }

    /// Takes what one read of the source gave and says how to go on. The
    /// end of the source and a failed read are always taken; bytes must fit
    /// within the algorithm's limit.
    pub fn step(self, event: ReadEvent) -> (next: Progress)
        requires
            event matches ReadEvent::Bytes(chunk) ==> chunk@.len() > 0
                ==> self.algorithm().accepts(self@.len() + chunk@.len()),
        ensures
            next@ == advance(self.algorithm(), Phase::Reading(self@), event),
            next matches Progress::Reading(digester) ==> digester.algorithm() == self.algorithm(),
            next matches Progress::Finished(digest) ==> digest@.len() == self.algorithm().hex_len()
                && all_lower_hex(digest@),
    {
        match event {
            ReadEvent::Bytes(chunk) => {
                if chunk.len() == 0 {
                    Progress::Finished(self.finish())
                } else {
                    Progress::Reading(self.absorb(chunk))
                }
            },
            ReadEvent::Failed(cause) => Progress::Failed(HashError::SourceReadFailure(cause)),
        }
    }

    /// Ends the computation and gives the digest of all that was absorbed.
    pub fn finish(self) -> (digest: String)
        ensures
            digest@ == self.algorithm().digest(self@),
            digest@.len() == self.algorithm().hex_len(),
            all_lower_hex(digest@),
    {
        proof {
            use_type_invariant(&self);
        }
        match self.engine {
            Engine::SipHash(hasher) => hex_u64(sip_finish(&hasher)),
            Engine::Sha1(hasher) => sha1_result_str(hasher),
            Engine::Md5(hasher) => md5_result_str(hasher),
        }
    }
}

} // verus!
