//! Digests of byte streams under a selectable hash algorithm, rendered as
//! lowercase hexadecimal text.
//!
//! [`algorithm`] holds the algorithm identifier and the hasher over in-memory
//! sources, [`digester`] the computation that takes a source read by read,
//! [`laws`] what holds of every such computation. This module itself keeps
//! the selector of the command line, which offers two of the algorithms.

pub mod algorithm;
pub mod backend;
pub mod digester;
pub mod error;
pub mod hex;
pub mod laws;

use crate::algorithm::{same_text, HashAlgorithm, HexHasher};
use crate::error::HashError;
use vstd::prelude::*;

verus! {

/// The algorithms that the command line offers.
#[derive(Clone, Copy, PartialEq, Eq, Structural, Debug)]
pub enum HashAlgorithms {
    ShipHash,
    Sha1,
}

impl HashAlgorithms {
    /// The selection that a name stands for, if it stands for one. SipHash
    /// goes by its own name, `siphash`, and by the name of its subcommand,
    /// `shiphash`.
    pub open spec fn named(name: Seq<char>) -> Option<HashAlgorithms> {
        if name == "siphash"@ || name == "shiphash"@ {
            Some(HashAlgorithms::ShipHash)
        } else if name == "sha1"@ {
            Some(HashAlgorithms::Sha1)
        } else {
            None
        }
    }

    /// The algorithm that a selection runs.
    pub open spec fn spec_algorithm(self) -> HashAlgorithm {
        match self {
            HashAlgorithms::ShipHash => HashAlgorithm::SipHash,
            HashAlgorithms::Sha1 => HashAlgorithm::Sha1,
        }
    }

    /// The algorithm that a selection runs.
    #[verifier::when_used_as_spec(spec_algorithm)]
    pub fn algorithm(self) -> (algorithm: HashAlgorithm)
        ensures
            algorithm == self.spec_algorithm(),
    {
        match self {
            HashAlgorithms::ShipHash => HashAlgorithm::SipHash,
            HashAlgorithms::Sha1 => HashAlgorithm::Sha1,
        }
    }

    /// Resolves a name, which is matched exactly as it is written. A name
    /// that stands for no selection is an error that carries the name.
    pub fn of(algorithm: &str) -> (found: Result<HashAlgorithms, HashError>)
        ensures
            match Self::named(algorithm@) {
                Some(known) => found == Ok::<HashAlgorithms, HashError>(known),
                None => found matches Err(HashError::UnknownAlgorithm(name)) && name@
                    == algorithm@,
            },
    {
        if same_text(algorithm, "siphash") || same_text(algorithm, "shiphash") {
            Ok(HashAlgorithms::ShipHash)
        } else if same_text(algorithm, "sha1") {
            Ok(HashAlgorithms::Sha1)
        } else {
            Err(HashError::UnknownAlgorithm(algorithm.to_owned()))
        }
    }
}

impl HexHasher for HashAlgorithms {
    open spec fn digest_of(&self, content: Seq<u8>) -> Seq<char> {
        self.algorithm().digest(content)
    }

    open spec fn digest_len(&self) -> nat {
        self.algorithm().hex_len()
    }

    open spec fn takes(&self, length: nat) -> bool {
        self.algorithm().accepts(length)
    }

    fn hex_str(&self, read: &mut &[u8]) -> (digest: String) {
        self.algorithm().hex_str(read)
    }
}

} // verus!
