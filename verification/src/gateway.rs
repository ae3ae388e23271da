//! The submission gateway: three strategies for handing a candidate
//! state-transition call to the ledger, and the admission predicate every
//! network participant runs on an unsigned candidate before letting it
//! into the pending pool.
//!
//! The three strategies trade authenticity against fee liability: a
//! signed transaction authenticates its caller and charges a fee; a plain
//! unsigned one carries no proof of origin at all; an unsigned one with a
//! signed payload costs the submitter nothing yet proves authorship
//! through a detachable signature the validator checks.

use vstd::prelude::*;

use crate::codec::number_payload_message;
use crate::codec::price_payload_message;
use crate::crypto::pk_of;
use crate::crypto::sig_valid;
use crate::crypto::sr25519_verify;
use crate::crypto::SigningIdentity;
use crate::errors::SigningError;
use crate::errors::ValidationError;
use crate::parser::PricePoint;
use crate::payload::Payload;
use crate::payload::PayloadPrice;

verus! {

/// Priority granted to every admitted unsigned candidate.
pub const UNSIGNED_TXS_PRIORITY: u64 = 100;

/// An admitted candidate stays valid for this many blocks.
pub const UNSIGNED_TX_LONGEVITY: u64 = 3;

/// The tag an admitted candidate provides: the literal kind of the call,
/// the pool's replay protection.
#[derive(Clone, Copy, PartialEq, Eq, Structural, Debug)]
pub enum CallTag {
    NumberUnsigned,
    NumberSignedPayload,
    PriceSignedPayload,
}

/// A positive admission decision.
#[derive(Clone, Copy, PartialEq, Eq, Structural, Debug)]
pub struct ValidTransaction {
    pub priority: u64,
    pub provides: CallTag,
    pub longevity: u64,
    pub propagate: bool,
}

/// A candidate state-transition call, as the pool sees it.
pub enum Call {
    SubmitNumberSigned { number: u64 },
    SubmitNumberUnsigned { number: u64 },
    SubmitNumberUnsignedWithSignedPayload { payload: Payload, signature: Vec<u8> },
    SubmitPriceUnsignedWithSignedPayload { payload: PayloadPrice, signature: Vec<u8> },
}

/// The decision every admitted unsigned candidate receives: fixed
/// priority, its call-kind tag, three-block longevity, propagated to
/// peers.
pub open spec fn valid_tx(tag: CallTag) -> ValidTransaction {
    ValidTransaction {
        priority: UNSIGNED_TXS_PRIORITY,
        provides: tag,
        longevity: UNSIGNED_TX_LONGEVITY,
        propagate: true,
    }
}

/// The admission rule.
///
/// A plain unsigned number submission is admitted on its tag alone, with
/// no authenticity check beyond replay protection — a deliberately weak
/// trust tier. A payload submission is admitted exactly when its
/// detachable signature verifies over the payload's message bytes
/// against the embedded public key. Any other call shape — including
/// signed calls, which authenticate elsewhere — is rejected.
pub open spec fn expected_decision(c: Call) -> Result<ValidTransaction, ValidationError> {
    match c {
        Call::SubmitNumberUnsigned { number } => Ok(valid_tx(CallTag::NumberUnsigned)),
        Call::SubmitNumberUnsignedWithSignedPayload { payload, signature } => if sig_valid(
            signature@,
            number_payload_message(payload.number, payload.public@),
            payload.public@,
        ) {
            Ok(valid_tx(CallTag::NumberSignedPayload))
        } else {
            Err(ValidationError::BadSignature)
        },
        Call::SubmitPriceUnsignedWithSignedPayload { payload, signature } => if sig_valid(
            signature@,
            price_payload_message(payload.price.integer, payload.price.fraction, payload.public@),
            payload.public@,
        ) {
            Ok(valid_tx(CallTag::PriceSignedPayload))
        } else {
            Err(ValidationError::BadSignature)
        },
        Call::SubmitNumberSigned { .. } => Err(ValidationError::UnsupportedCall),
    }
}

/// The admission validation predicate: pure — it mutates nothing — and
/// decides exactly as `expected_decision` states.
pub fn validate_unsigned(call: &Call) -> (r: Result<ValidTransaction, ValidationError>)
    ensures
        r == expected_decision(*call),
{
    match call {
        Call::SubmitNumberUnsigned { number: _ } => Ok(
            ValidTransaction {
                priority: UNSIGNED_TXS_PRIORITY,
                provides: CallTag::NumberUnsigned,
                longevity: UNSIGNED_TX_LONGEVITY,
                propagate: true,
            },
        ),
        Call::SubmitNumberUnsignedWithSignedPayload { payload, signature } => {
            let msg = payload.signing_message();
            if sr25519_verify(signature, &msg, &payload.public) {
                Ok(
                    ValidTransaction {
                        priority: UNSIGNED_TXS_PRIORITY,
                        provides: CallTag::NumberSignedPayload,
                        longevity: UNSIGNED_TX_LONGEVITY,
                        propagate: true,
                    },
                )
            } else {
                Err(ValidationError::BadSignature)
            }
        },
        Call::SubmitPriceUnsignedWithSignedPayload { payload, signature } => {
            let msg = payload.signing_message();
            if sr25519_verify(signature, &msg, &payload.public) {
                Ok(
                    ValidTransaction {
                        priority: UNSIGNED_TXS_PRIORITY,
                        provides: CallTag::PriceSignedPayload,
                        longevity: UNSIGNED_TX_LONGEVITY,
                        propagate: true,
                    },
                )
            } else {
                Err(ValidationError::BadSignature)
            }
        },
        Call::SubmitNumberSigned { .. } => Err(ValidationError::UnsupportedCall),
    }
}

/// Signed strategy: the transaction is authenticated by the local
/// identity and charges it a fee; without a local identity it fails
/// explicitly.
pub fn build_signed_submission(id: Option<&SigningIdentity>, number: u64) -> (r: Result<
    Call,
    SigningError,
>)
    ensures
        match r {
            Ok(c) => id is Some && c == (Call::SubmitNumberSigned { number }),
            Err(e) => e == SigningError::NoLocalIdentity && id is None,
        },
{
    match id {
        Some(_) => Ok(Call::SubmitNumberSigned { number }),
        None => Err(SigningError::NoLocalIdentity),
    }
}

/// Plain unsigned strategy: no signer, no embedded authenticity proof;
/// admission rests on the tag rule alone.
pub fn build_unsigned_submission(number: u64) -> (c: Call)
    ensures
        c == (Call::SubmitNumberUnsigned { number }),
{
    Call::SubmitNumberUnsigned { number }
}

/// Unsigned-with-signed-payload strategy for a number: the transaction
/// itself is unsigned — the submitter pays no fee — but the payload
/// embeds the identity's public key and a detachable signature the
/// admission rule will accept.
pub fn build_number_signed_payload_submission(id: Option<&SigningIdentity>, number: u64) -> (r:
    Result<Call, SigningError>)
    requires
        id matches Some(i) ==> i.wf(),
    ensures
        match r {
            Ok(c) => id matches Some(i) && c matches Call::SubmitNumberUnsignedWithSignedPayload {
                payload,
                signature,
            } && payload.number == number && payload.public@ == pk_of(i.seed_view()) && sig_valid(
                signature@,
                number_payload_message(number, payload.public@),
                payload.public@,
            ) && expected_decision(c) == Ok::<ValidTransaction, ValidationError>(
                valid_tx(CallTag::NumberSignedPayload),
            ),
            Err(e) => e == SigningError::NoLocalIdentity && id is None,
        },
{
    match id {
        Some(identity) => {
            let public = identity.public_key();
            let payload = Payload { number, public };
            let msg = payload.signing_message();
            let signature = identity.sign(&msg);
            Ok(Call::SubmitNumberUnsignedWithSignedPayload { payload, signature })
        },
        None => Err(SigningError::NoLocalIdentity),
    }
}

/// Unsigned-with-signed-payload strategy for a price: the preferred way
/// to attribute authorship without cost to the submitter.
pub fn build_price_signed_payload_submission(id: Option<&SigningIdentity>, price: PricePoint) -> (r:
    Result<Call, SigningError>)
    requires
        id matches Some(i) ==> i.wf(),
    ensures
        match r {
            Ok(c) => id matches Some(i) && c matches Call::SubmitPriceUnsignedWithSignedPayload {
                payload,
                signature,
            } && payload.price == price && payload.public@ == pk_of(i.seed_view()) && sig_valid(
                signature@,
                price_payload_message(price.integer, price.fraction, payload.public@),
                payload.public@,
            ) && expected_decision(c) == Ok::<ValidTransaction, ValidationError>(
                valid_tx(CallTag::PriceSignedPayload),
            ),
            Err(e) => e == SigningError::NoLocalIdentity && id is None,
        },
{
    match id {
        Some(identity) => {
            let public = identity.public_key();
            let payload = PayloadPrice { price, public };
            let msg = payload.signing_message();
            let signature = identity.sign(&msg);
            Ok(Call::SubmitPriceUnsignedWithSignedPayload { payload, signature })
        },
        None => Err(SigningError::NoLocalIdentity),
    }
}

/// Interpret the pool's answer to a submitted candidate: a rejection is
/// terminal to this invocation.
pub fn submission_outcome(pool_accepted: bool) -> (r: Result<(), SigningError>)
    ensures
        pool_accepted ==> r is Ok,
        !pool_accepted ==> r == Err::<(), SigningError>(SigningError::SubmissionRejected),
{
    if pool_accepted {
        Ok(())
    } else {
        Err(SigningError::SubmissionRejected)
    }
}

/// Admission law for number payloads: the candidate is admitted, tagged
/// with its call kind, exactly when the detachable signature verifies
/// over the payload's message bytes against the embedded key; a tampered
/// signature is rejected as `BadSignature`.
pub proof fn lemma_number_payload_admission(payload: Payload, signature: Vec<u8>)
    ensures
        sig_valid(
            signature@,
            number_payload_message(payload.number, payload.public@),
            payload.public@,
        ) ==> expected_decision(Call::SubmitNumberUnsignedWithSignedPayload { payload, signature })
            == Ok::<ValidTransaction, ValidationError>(valid_tx(CallTag::NumberSignedPayload)),
        !sig_valid(
            signature@,
            number_payload_message(payload.number, payload.public@),
            payload.public@,
        ) ==> expected_decision(Call::SubmitNumberUnsignedWithSignedPayload { payload, signature })
            == Err::<ValidTransaction, ValidationError>(ValidationError::BadSignature),
{
}

/// Admission law for price payloads, as for number payloads.
pub proof fn lemma_price_payload_admission(payload: PayloadPrice, signature: Vec<u8>)
    ensures
        sig_valid(
            signature@,
            price_payload_message(payload.price.integer, payload.price.fraction, payload.public@),
            payload.public@,
        ) ==> expected_decision(Call::SubmitPriceUnsignedWithSignedPayload { payload, signature })
            == Ok::<ValidTransaction, ValidationError>(valid_tx(CallTag::PriceSignedPayload)),
        !sig_valid(
            signature@,
            price_payload_message(payload.price.integer, payload.price.fraction, payload.public@),
            payload.public@,
        ) ==> expected_decision(Call::SubmitPriceUnsignedWithSignedPayload { payload, signature })
            == Err::<ValidTransaction, ValidationError>(ValidationError::BadSignature),
{
}

} // verus!
