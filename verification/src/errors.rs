//! Error taxonomy of the adapters and the credential signer.
//!
//! Codec failures have their own type, `crate::codec::DecodeError`. Webhook
//! dispatch failures never surface as values of these types: the delivery
//! engine recovers from them through its retry policy.

use vstd::prelude::*;

verus! {

/// Why a credential could not be signed: bad key material, or the signing
/// call itself failed.
#[derive(Clone, Copy, Debug, PartialEq, Eq, Structural)]
pub enum SigningError {
    InvalidKey,
    SigningFailed,
}

impl SigningError {
    /// A short stable description.
    pub fn as_str(&self) -> (r: &'static str)
        ensures
            (*self is InvalidKey) ==> r@ == "invalid key material"@,
            (*self is SigningFailed) ==> r@ == "signing failed"@,
    {
        match self {
            SigningError::InvalidKey => "invalid key material",
            SigningError::SigningFailed => "signing failed",
        }
    }
}

/// Why a store-adapter call failed.
#[derive(Clone, Copy, Debug, PartialEq, Eq, Structural)]
pub enum AdapterError {
    /// A signed token inside a vendor payload does not have the expected
    /// three-segment shape, or its payload is not canonical base64url.
    MalformedToken,
    /// A vendor payload does not match the expected shape: it is not valid
    /// structured data, or a required field is missing.
    MalformedResponse,
    /// The vendor answered with a non-success HTTP status.
    VendorUnavailable,
    /// A fresh bearer assertion could not be minted for the call.
    Signing(SigningError),
}

impl AdapterError {
    /// A short stable description.
    pub fn as_str(&self) -> (r: &'static str)
        ensures
            (*self is MalformedToken) ==> r@ == "malformed token"@,
            (*self is MalformedResponse) ==> r@ == "malformed response"@,
            (*self is VendorUnavailable) ==> r@ == "vendor unavailable"@,
            (*self is Signing) ==> r@ == "signing error"@,
    {
        match self {
            AdapterError::MalformedToken => "malformed token",
            AdapterError::MalformedResponse => "malformed response",
            AdapterError::VendorUnavailable => "vendor unavailable",
            AdapterError::Signing(_) => "signing error",
        }
    }
}

/// Accepts exactly the success statuses of a vendor call: any 2xx answer.
pub fn check_vendor_status(status: u16) -> (r: Result<(), AdapterError>)
    ensures
        r is Ok <==> 200 <= status < 300,
        r is Err ==> r->Err_0 == AdapterError::VendorUnavailable,
{
    if 200 <= status && status < 300 {
        Ok(())
    } else {
        Err(AdapterError::VendorUnavailable)
    }
}

} // verus!
