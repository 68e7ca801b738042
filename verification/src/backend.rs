//! The hash functions themselves, which this crate calls and does not prove.
//!
//! Each hasher is described by the bytes it has taken in so far; what it
//! returns at the end is a function of those bytes, known here by name only.

#![allow(deprecated)]

use crate::hex::all_lower_hex;
use crypto::digest::Digest;
use crypto::md5::Md5;
use crypto::sha1::Sha1;
use std::hash::Hasher;
use std::hash::SipHasher;
use vstd::prelude::*;

verus! {

/// `std::hash::SipHasher`, the SipHash 2-4 hasher of std, as an opaque value.
#[verifier::external_type_specification]
#[verifier::external_body]
pub struct ExSipHasher(SipHasher);

/// `crypto::sha1::Sha1`, as an opaque value.
#[verifier::external_type_specification]
#[verifier::external_body]
pub struct ExSha1(Sha1);

/// `crypto::md5::Md5`, as an opaque value.
#[verifier::external_type_specification]
#[verifier::external_body]
pub struct ExMd5(Md5);

/// `std::io::Error`, as an opaque value.
#[verifier::external_type_specification]
#[verifier::external_body]
pub struct ExIoError(std::io::Error);

/// The two keys that a `SipHasher` was made with.
pub uninterp spec fn sip_keys(hasher: SipHasher) -> (u64, u64);

/// The bytes written into a `SipHasher` since it was made, one `write_u8`
/// each, in order.
pub uninterp spec fn sip_written(hasher: SipHasher) -> Seq<u8>;

/// What `SipHasher::finish` returns once these bytes have been written one
/// by one into a hasher whose keys are both zero.
pub uninterp spec fn siphash_value(bytes: Seq<u8>) -> u64;

/// The message that a `Sha1` has been fed since it was made.
pub uninterp spec fn sha1_message(hasher: Sha1) -> Seq<u8>;

/// Whether a `Sha1` has produced its result, after which it takes no input.
pub uninterp spec fn sha1_finished(hasher: Sha1) -> bool;

/// What `Digest::result_str` returns on a `Sha1` that has been fed this
/// message.
pub uninterp spec fn sha1_hex(message: Seq<u8>) -> Seq<char>;

/// The message that an `Md5` has been fed since it was made.
pub uninterp spec fn md5_message(hasher: Md5) -> Seq<u8>;

/// Whether an `Md5` has produced its result, after which it takes no input.
pub uninterp spec fn md5_finished(hasher: Md5) -> bool;

/// What `Digest::result_str` returns on an `Md5` that has been fed this
/// message.
pub uninterp spec fn md5_hex(message: Seq<u8>) -> Seq<char>;

/// The longest message, in bytes, whose length in bits a `Sha1` can count.
pub const SHA1_MAX_BYTES: u64 = 0x1fff_ffff_ffff_ffff;

/// The longest message, in bytes, whose length an `Md5` can count.
pub const MD5_MAX_BYTES: u64 = 0xffff_ffff_ffff_ffff;

/// `SipHasher::new`: a hasher with both keys zero, into which nothing has
/// been written.
#[verifier::external_body]
pub(crate) fn sip_new() -> (hasher: SipHasher)
    ensures
        sip_keys(hasher) == (0u64, 0u64),
        sip_written(hasher) == Seq::<u8>::empty(),
{
    SipHasher::new()
}

/// `Hasher::write_u8` on a `SipHasher`: the byte is written after those
/// written before, and the keys stay.
#[verifier::external_body]
pub(crate) fn sip_write_u8(hasher: &mut SipHasher, byte: u8)
    ensures
        sip_keys(*final(hasher)) == sip_keys(*old(hasher)),
        sip_written(*final(hasher)) == sip_written(*old(hasher)).push(byte),
{
    hasher.write_u8(byte)
}

/// `Hasher::finish` on a `SipHasher`: the hash value of the bytes written,
/// which under zero keys depends on them alone.
#[verifier::external_body]
pub(crate) fn sip_finish(hasher: &SipHasher) -> (value: u64)
    ensures
        sip_keys(*hasher) == (0u64, 0u64) ==> value == siphash_value(sip_written(*hasher)),
{
    hasher.finish()
}

/// `Sha1::new`: a hasher that has taken no input and given no result.
#[verifier::external_body]
pub(crate) fn sha1_new() -> (hasher: Sha1)
    ensures
        sha1_message(hasher) == Seq::<u8>::empty(),
        !sha1_finished(hasher),
{
    Sha1::new()
}

/// `Digest::input` on a `Sha1`: the chunk is added at the end of the
/// message. The call panics once the result has been produced, or when the
/// message's length in bits no longer fits in 64 bits.
#[verifier::external_body]
pub(crate) fn sha1_input(hasher: &mut Sha1, chunk: &[u8])
    requires
        !sha1_finished(*old(hasher)),
        sha1_message(*old(hasher)).len() + chunk@.len() <= SHA1_MAX_BYTES,
    ensures
        sha1_message(*final(hasher)) == sha1_message(*old(hasher)) + chunk@,
        !sha1_finished(*final(hasher)),
{
    hasher.input(chunk)
}

/// `Digest::result_str` on a `Sha1`: the 20 bytes of the message's digest
/// as 40 lowercase hexadecimal digits.
#[verifier::external_body]
pub(crate) fn sha1_result_str(hasher: Sha1) -> (digest: String)
    ensures
        digest@ == sha1_hex(sha1_message(hasher)),
        digest@.len() == 40,
        all_lower_hex(digest@),
{
    let mut hasher = hasher;
    hasher.result_str()
}

/// `Md5::new`: a hasher that has taken no input and given no result.
#[verifier::external_body]
pub(crate) fn md5_new() -> (hasher: Md5)
    ensures
        md5_message(hasher) == Seq::<u8>::empty(),
        !md5_finished(hasher),
{
    Md5::new()
}

/// `Digest::input` on an `Md5`: the chunk is added at the end of the
/// message. The call panics once the result has been produced, and where
/// overflow is checked also when the 64-bit byte count overflows.
#[verifier::external_body]
pub(crate) fn md5_input(hasher: &mut Md5, chunk: &[u8])
    requires
        !md5_finished(*old(hasher)),
        md5_message(*old(hasher)).len() + chunk@.len() <= MD5_MAX_BYTES,
    ensures
        md5_message(*final(hasher)) == md5_message(*old(hasher)) + chunk@,
        !md5_finished(*final(hasher)),
{
    hasher.input(chunk)
}

/// `Digest::result_str` on an `Md5`: the 16 bytes of the message's digest
/// as 32 lowercase hexadecimal digits.
#[verifier::external_body]
pub(crate) fn md5_result_str(hasher: Md5) -> (digest: String)
    ensures
        digest@ == md5_hex(md5_message(hasher)),
        digest@.len() == 32,
        all_lower_hex(digest@),
{
    let mut hasher = hasher;
    hasher.result_str()
}

} // verus!
