//! Signed payloads: the values an unsigned transaction can carry while
//! still proving authorship.
//!
//! A payload embeds the submitter's public key; a detachable signature
//! over the payload's message bytes travels beside it and is checked by
//! the admission validator.

use vstd::prelude::*;

use crate::codec::append_bytes;
use crate::codec::clone_bytes;
use crate::codec::number_payload_message;
use crate::codec::price_payload_message;
use crate::codec::push_u32_le;
use crate::codec::push_u64_le;
use crate::parser::PricePoint;

verus! {

/// A number and the public key of whoever vouches for it.
pub struct Payload {
    pub number: u64,
    pub public: Vec<u8>,
}

impl Payload {
    /// The embedded public key.
    pub fn public(&self) -> (r: Vec<u8>)
        ensures
            r@ == self.public@,
    {
        clone_bytes(&self.public)
    }

    /// The bytes this payload's detachable signature covers.
    pub fn signing_message(&self) -> (r: Vec<u8>)
        ensures
            r@ == number_payload_message(self.number, self.public@),
    {
        let mut out: Vec<u8> = Vec::new();
        push_u64_le(&mut out, self.number);
        append_bytes(&mut out, &self.public);
        proof {
            assert(out@ =~= number_payload_message(self.number, self.public@));
        }
        out
    }
}

/// A fixed-point price and the public key of whoever vouches for it.
pub struct PayloadPrice {
    pub price: PricePoint,
    pub public: Vec<u8>,
}

impl PayloadPrice {
    /// The embedded public key.
    pub fn public(&self) -> (r: Vec<u8>)
        ensures
            r@ == self.public@,
    {
        clone_bytes(&self.public)
    }

    /// The bytes this payload's detachable signature covers.
    pub fn signing_message(&self) -> (r: Vec<u8>)
        ensures
            r@ == price_payload_message(self.price.integer, self.price.fraction, self.public@),
    {
        let mut out: Vec<u8> = Vec::new();
        push_u64_le(&mut out, self.price.integer);
        push_u32_le(&mut out, self.price.fraction);
        append_bytes(&mut out, &self.public);
        proof {
            assert(out@ =~= price_payload_message(
                self.price.integer,
                self.price.fraction,
                self.public@,
            ));
        }
        out
    }
}

} // verus!
