//! The algorithm identifier and its resolution from a name.

use crate::backend::{md5_hex, sha1_hex, siphash_value, MD5_MAX_BYTES, SHA1_MAX_BYTES};
use crate::digester::Digester;
use crate::error::HashError;
use crate::hex::{all_lower_hex, lower_hex};
use vstd::prelude::*;
use vstd::utf8::{encode_utf8, encode_utf8_decode_utf8};

verus! {

/// The supported hash algorithms.
#[derive(Clone, Copy, PartialEq, Eq, Structural, Debug)]
pub enum HashAlgorithm {
    SipHash,
    Sha1,
    MD5,
}

/// Whether two pieces of text hold the same characters.
pub(crate) fn same_text(left: &str, right: &str) -> (same: bool)
    ensures
        same == (left@ == right@),
{
    let left_bytes = left.as_bytes();
    let right_bytes = right.as_bytes();
    proof {
        encode_utf8_decode_utf8(left@);
        encode_utf8_decode_utf8(right@);
    }
    if left_bytes.len() != right_bytes.len() {
        return false;
    }
    let mut i: usize = 0;
    while i < left_bytes.len()
        invariant
            i <= left_bytes@.len(),
            left_bytes@.len() == right_bytes@.len(),
            left_bytes@.take(i as int) == right_bytes@.take(i as int),
            left_bytes@ == encode_utf8(left@),
            right_bytes@ == encode_utf8(right@),
        decreases left_bytes.len() - i,
    {
        if left_bytes[i] != right_bytes[i] {
            return false;
        }
        assert(left_bytes@.take(i + 1) == left_bytes@.take(i as int).push(left_bytes@[i as int]));
        assert(right_bytes@.take(i + 1) == right_bytes@.take(i as int).push(
            right_bytes@[i as int],
        ));
        i += 1;
    }
    assert(left_bytes@ == left_bytes@.take(i as int));
    assert(right_bytes@ == right_bytes@.take(i as int));
    true
}

impl HashAlgorithm {
    /// The algorithm that a name stands for, if it stands for one.
    pub open spec fn named(name: Seq<char>) -> Option<HashAlgorithm> {
        if name == "siphash"@ {
            Some(HashAlgorithm::SipHash)
        } else if name == "sha1"@ {
            Some(HashAlgorithm::Sha1)
        } else if name == "md5"@ {
            Some(HashAlgorithm::MD5)
        } else {
            None
        }
    }

    /// The number of characters in every digest of the algorithm.
    pub open spec fn hex_len(self) -> nat {
        match self {
            HashAlgorithm::SipHash => 16,
            HashAlgorithm::Sha1 => 40,
            HashAlgorithm::MD5 => 32,
        }
    }

    /// Whether the algorithm can hash a content of `length` bytes.
    pub open spec fn accepts(self, length: nat) -> bool {
        match self {
            HashAlgorithm::SipHash => true,
            HashAlgorithm::Sha1 => length <= SHA1_MAX_BYTES,
            HashAlgorithm::MD5 => length <= MD5_MAX_BYTES,
        }
    }

    /// The digest of a content under the algorithm.
    pub open spec fn digest(self, content: Seq<u8>) -> Seq<char> {
        match self {
            HashAlgorithm::SipHash => lower_hex(siphash_value(content) as nat, 16),
            HashAlgorithm::Sha1 => sha1_hex(content),
            HashAlgorithm::MD5 => md5_hex(content),
        }
    }

    /// Resolves a name, which is matched exactly as it is written. A name
    /// that stands for no algorithm is an error that carries the name.
    pub fn of(algorithm: &str) -> (found: Result<HashAlgorithm, HashError>)
        ensures
            match Self::named(algorithm@) {
                Some(known) => found == Ok::<HashAlgorithm, HashError>(known),
                None => found matches Err(HashError::UnknownAlgorithm(name)) && name@
                    == algorithm@,
            },
    {
        if same_text(algorithm, "siphash") {
            Ok(HashAlgorithm::SipHash)
        } else if same_text(algorithm, "sha1") {
            Ok(HashAlgorithm::Sha1)
        } else if same_text(algorithm, "md5") {
            Ok(HashAlgorithm::MD5)
        } else {
            Err(HashError::UnknownAlgorithm(algorithm.to_owned()))
        }
    }
}

/// A hasher that reads a source to its end and gives the digest of what it
/// read as lowercase hexadecimal text.
pub trait HexHasher {
    /// The digest that the hasher gives for a content.
    spec fn digest_of(&self, content: Seq<u8>) -> Seq<char>;

    /// The number of characters in every digest that the hasher gives.
    spec fn digest_len(&self) -> nat;

    /// Whether the hasher can take a content of `length` bytes.
    spec fn takes(&self, length: nat) -> bool;

    /// Reads `read` to its end and gives the digest of all its bytes. The
    /// source, which as a slice holds no more than `usize::MAX` bytes, must
    /// be one that the hasher can take.
    fn hex_str(&self, read: &mut &[u8]) -> (digest: String)
        requires
            old(read)@.len() <= usize::MAX ==> self.takes(old(read)@.len()),
        ensures
            digest@ == self.digest_of(old(read)@),
            digest@.len() == self.digest_len(),
            all_lower_hex(digest@),
            final(read)@.len() == 0,
    ;
}

impl HexHasher for HashAlgorithm {
    open spec fn digest_of(&self, content: Seq<u8>) -> Seq<char> {
        self.digest(content)
    }

    open spec fn digest_len(&self) -> nat {
        self.hex_len()
    }

    open spec fn takes(&self, length: nat) -> bool {
        self.accepts(length)
    }

    fn hex_str(&self, read: &mut &[u8]) -> (digest: String) {
        let content: &[u8] = *read;
        let length = content.len();
        let digester = Digester::new(*self).absorb(content);
        *read = vstd::slice::slice_subrange(content, length, length);
        digester.finish()
    }
}

} // verus!
