//! File delivery: an object is handed out only under the name of its own
//! content hash.

use blake2::Digest;
use vstd::prelude::*;

verus! {

/// The BLAKE2b-512 digest of some bytes, in lower-case hexadecimal.
pub uninterp spec fn blake2b512_hex(content: Seq<u8>) -> Seq<char>;

/// Feeds the bytes to `blake2::Blake2b512` through `Digest::update`, takes
/// `Digest::finalize` and formats the output with `{:x}`.
///
/// Claimed of it: the text depends on the bytes alone.
#[verifier::external_body]
fn digest_hex(content: &[u8]) -> (res: String)
    ensures
        res@ == blake2b512_hex(content@),
{
    let mut hasher = blake2::Blake2b512::new();
    hasher.update(content);
    format!("{:x}", hasher.finalize())
}

/// How a request for an object is answered once the object has been read.
#[derive(Debug, Clone, Copy, PartialEq, Eq, Structural)]
pub enum Delivery {
    /// The object is sent.
    Content,
    /// The hash in the request is not the object's.
    InvalidHash,
}

/// How an object is delivered, given its computed digest and the hash that
/// the request names. The two are compared as they are: a hash in upper case
/// names nothing.
pub open spec fn delivery_of(computed: Seq<char>, claimed: Seq<char>) -> Delivery {
    if computed == claimed {
        Delivery::Content
    } else {
        Delivery::InvalidHash
    }
}

/// The HTTP status of a delivery.
pub open spec fn delivery_status(delivery: Delivery) -> u16 {
    match delivery {
        Delivery::Content => 200,
        Delivery::InvalidHash => 400,
    }
}

/// Decides on a delivery from the digest computed of the object and the hash
/// named in the request.
pub fn check_hash(computed: &String, claimed: &String) -> (res: Delivery)
    ensures
        res == delivery_of(computed@, claimed@),
{
    if *computed == *claimed {
        Delivery::Content
    } else {
        Delivery::InvalidHash
    }
}

/// Decides on the delivery of an object that has been read from the bucket.
pub fn get(content: &[u8], claimed: &String) -> (res: Delivery)
    ensures
        res == delivery_of(blake2b512_hex(content@), claimed@),
{
    let computed = digest_hex(content);
    check_hash(&computed, claimed)
}

impl Delivery {
    /// The HTTP status of the answer.
    pub fn status(&self) -> (res: u16)
        ensures
            res == delivery_status(*self),
    {
        match self {
            Delivery::Content => 200,
            Delivery::InvalidHash => 400,
        }
    }
}

} // verus!
