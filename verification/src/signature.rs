//! Who signed a request: recovery of the signer's address from a recoverable
//! signature over a digest, and the policy on requests that carry none.

use vstd::prelude::*;
use vstd::slice::slice_subrange;

verus! {

/// Why no signer could be named.
#[derive(Clone, Copy, Debug, PartialEq, Eq, Structural)]
pub enum VerificationError {
    /// The signature is not sixty-five bytes that end in a recovery
    /// identifier.
    MalformedSignature,
    /// No address could be recovered from the signature and the digest.
    RecoveryFailed,
}

/// The parity that a recovery identifier stands for: `0` and `1` as they are,
/// `27` and `28` for even and odd, and from `35` on by whether the number is
/// even. Every other value is no recovery identifier.
pub open spec fn recovery_parity(v: u8) -> Option<bool> {
    if v == 0 || v == 27 {
        Some(false)
    } else if v == 1 || v == 28 {
        Some(true)
    } else if v >= 35 {
        Some(v % 2 == 0)
    } else {
        None
    }
}

/// Whether `signature` is a recoverable-signature encoding: two scalars of
/// thirty-two bytes each, then one recovery identifier.
pub open spec fn is_recoverable_encoding(signature: Seq<u8>) -> bool {
    signature.len() == 65 && recovery_parity(signature[64]) is Some
}

/// The address that signed `digest`, as recovered from the two scalars and
/// the parity of a signature; `None` where there is none to recover.
pub uninterp spec fn recovered_signer(scalars: Seq<u8>, odd_y: bool, digest: Seq<u8>) -> Option<
    Seq<u8>,
>;

/// What recovery comes to, once the curve has answered.
pub open spec fn recovery_outcome(signer: Option<Seq<u8>>) -> Result<Seq<u8>, VerificationError> {
    match signer {
        Some(address) => Ok(address),
        None => Err(VerificationError::RecoveryFailed),
    }
}

/// What `verify` answers for a signature and a digest. The signature's form
/// is judged first; a digest that is not thirty-two bytes long cannot be
/// recovered from.
pub open spec fn verification_outcome(signature: Seq<u8>, digest: Seq<u8>) -> Result<
    Seq<u8>,
    VerificationError,
> {
    if !is_recoverable_encoding(signature) {
        Err(VerificationError::MalformedSignature)
    } else if digest.len() != 32 {
        Err(VerificationError::RecoveryFailed)
    } else {
        recovery_outcome(
            recovered_signer(
                signature.subrange(0, 64),
                recovery_parity(signature[64])->0,
                digest,
            ),
        )
    }
}

/// A verdict with its address read as a sequence of bytes.
pub open spec fn verdict_view(verdict: Result<[u8; 20], VerificationError>) -> Result<
    Seq<u8>,
    VerificationError,
> {
    match verdict {
        Ok(address) => Ok(address@),
        Err(fault) => Err(fault),
    }
}

/// Decides `recovery_parity`.
pub fn parity_of(v: u8) -> (parity: Option<bool>)
    ensures
        parity == recovery_parity(v),
{
    if v == 0 || v == 27 {
        Some(false)
    } else if v == 1 || v == 28 {
        Some(true)
    } else if v >= 35 {
        Some(v % 2 == 0)
    } else {
        None
    }
}

/// `alloy_primitives::SignatureError`, the reason recovery gives for
/// failing. It is carried and never looked into.
#[verifier::external_type_specification]
#[verifier::external_body]
pub struct ExSignatureError(alloy_primitives::SignatureError);

/// `alloy_primitives::Signature::recover_address_from_prehash`, on the
/// signature made of the two big-endian scalars in `scalars` and the parity
/// `odd_y`: the address of the key that signed `digest`, or an error where
/// the curve yields no such key. The outcome depends on these three values
/// alone. The lengths are those without which making the signature or the
/// digest would panic.
#[verifier::external_body]
fn recover_signer(scalars: &[u8], odd_y: bool, digest: &[u8]) -> (recovered: Result<
    [u8; 20],
    alloy_primitives::SignatureError,
>)
    requires
        scalars@.len() == 64,
        digest@.len() == 32,
    ensures
        match recovered {
            Ok(address) => recovered_signer(scalars@, odd_y, digest@) == Some(address@),
            Err(_) => recovered_signer(scalars@, odd_y, digest@) is None,
        },
{
    alloy_primitives::Signature::from_bytes_and_parity(scalars, odd_y)
        .recover_address_from_prehash(&alloy_primitives::B256::from_slice(digest))
        .map(|address| address.into_array())
}

/// What the curve gave, with the address read as a sequence of bytes.
pub open spec fn recovered_view(
    recovered: Result<[u8; 20], alloy_primitives::SignatureError>,
) -> Option<Seq<u8>> {
    match recovered {
        Ok(address) => Some(address@),
        Err(_) => None,
    }
}

/// The answer that goes with what the curve gave: the address, or
/// `RecoveryFailed` where there was none.
pub fn recovery_result(recovered: Result<[u8; 20], alloy_primitives::SignatureError>) -> (verdict:
    Result<[u8; 20], VerificationError>)
    ensures
        verdict_view(verdict) == recovery_outcome(recovered_view(recovered)),
{
    match recovered {
        Ok(address) => Ok(address),
        Err(_) => Err(VerificationError::RecoveryFailed),
    }
}

/// Recovers the address that signed `message_hash`. The digest is taken as
/// it is and not hashed again.
///
/// Fails with `MalformedSignature` unless `signature` is sixty-five bytes
/// that end in a recovery identifier, and with `RecoveryFailed` where the
/// digest is not thirty-two bytes or the curve yields no signer. The answer
/// is a function of the two byte strings alone.
pub fn verify(signature: &[u8], message_hash: &[u8]) -> (verdict: Result<
    [u8; 20],
    VerificationError,
>)
    ensures
        verdict_view(verdict) == verification_outcome(signature@, message_hash@),
{
    if signature.len() != 65 {
        return Err(VerificationError::MalformedSignature);
    }
    let odd_y = match parity_of(signature[64]) {
        Some(parity) => parity,
        None => {
            return Err(VerificationError::MalformedSignature);
        },
    };
    if message_hash.len() != 32 {
        return Err(VerificationError::RecoveryFailed);
    }
    let scalars = slice_subrange(signature, 0, 64);
    recovery_result(recover_signer(scalars, odd_y, message_hash))
}

/// Whether a request must be signed.
#[derive(Clone, Copy, Debug, PartialEq, Eq, Structural)]
pub enum AuthenticationMode {
    /// A request with an empty signature or an empty prompt hash is taken
    /// unauthenticated: nothing is verified and nothing is held against it.
    /// A signature that fails verification is reported and the request goes
    /// on.
    Optional,
    /// Every request is verified, an empty field being a malformed one, and
    /// a request whose signature fails is turned away.
    Required,
}

/// What authentication found out about a request.
#[derive(Clone, Copy, Debug, PartialEq, Eq)]
pub enum Authentication {
    /// Nothing was verified: the request came unsigned and the mode lets it.
    Skipped,
    /// The signature is that of `signer`.
    Verified { signer: [u8; 20] },
    /// The signature did not verify.
    Failed { fault: VerificationError },
}

/// An `Authentication` with its address read as a sequence of bytes.
pub enum AuthenticationView {
    Skipped,
    Verified { signer: Seq<u8> },
    Failed { fault: VerificationError },
}

impl View for Authentication {
    type V = AuthenticationView;

    open spec fn view(&self) -> AuthenticationView {
        match *self {
            Authentication::Skipped => AuthenticationView::Skipped,
            Authentication::Verified { signer } => AuthenticationView::Verified {
                signer: signer@,
            },
            Authentication::Failed { fault } => AuthenticationView::Failed { fault },
        }
    }
}

/// Whether a request with these fields goes unverified under `mode`.
pub open spec fn is_unauthenticated(
    mode: AuthenticationMode,
    signature: Seq<u8>,
    prompt_hash: Seq<u8>,
) -> bool {
    mode == AuthenticationMode::Optional && (signature.len() == 0 || prompt_hash.len() == 0)
}

/// What `authenticate` answers.
pub open spec fn authentication_outcome(
    mode: AuthenticationMode,
    signature: Seq<u8>,
    prompt_hash: Seq<u8>,
) -> AuthenticationView {
    if is_unauthenticated(mode, signature, prompt_hash) {
        AuthenticationView::Skipped
    } else {
        match verification_outcome(signature, prompt_hash) {
            Ok(signer) => AuthenticationView::Verified { signer },
            Err(fault) => AuthenticationView::Failed { fault },
        }
    }
}

/// Whether a request with this authentication is turned away under `mode`.
pub open spec fn is_turned_away(mode: AuthenticationMode, found: AuthenticationView) -> bool {
    mode == AuthenticationMode::Required && found is Failed
}

/// Authenticates a request under `mode`: skips an unsigned one where the
/// mode is `Optional`, and verifies every other.
pub fn authenticate(mode: AuthenticationMode, signature: &[u8], prompt_hash: &[u8]) -> (found:
    Authentication)
    ensures
        found@ == authentication_outcome(mode, signature@, prompt_hash@),
{
    let unsigned = signature.len() == 0 || prompt_hash.len() == 0;
    match mode {
        AuthenticationMode::Optional => {
            if unsigned {
                return Authentication::Skipped;
            }
        },
        AuthenticationMode::Required => {},
    }
    match verify(signature, prompt_hash) {
        Ok(signer) => Authentication::Verified { signer },
        Err(fault) => Authentication::Failed { fault },
    }
}

/// Decides `is_turned_away`.
pub fn turns_away(mode: AuthenticationMode, found: &Authentication) -> (away: bool)
    ensures
        away == is_turned_away(mode, found@),
{
    match mode {
        AuthenticationMode::Optional => false,
        AuthenticationMode::Required => match found {
            Authentication::Failed { .. } => true,
            _ => false,
        },
    }
}

/// Verification is a function of its input: two verdicts on one signature
/// and one digest are the same verdict.
pub proof fn verification_is_deterministic(
    signature: Seq<u8>,
    digest: Seq<u8>,
    first: Result<[u8; 20], VerificationError>,
    second: Result<[u8; 20], VerificationError>,
)
    requires
        verdict_view(first) == verification_outcome(signature, digest),
        verdict_view(second) == verification_outcome(signature, digest),
    ensures
        verdict_view(first) == verdict_view(second),
{
}

/// A signature that is no recoverable-signature encoding is refused as
/// malformed, whatever the digest, and no address is named for it.
pub proof fn malformed_signature_is_refused(signature: Seq<u8>, digest: Seq<u8>)
    requires
        !is_recoverable_encoding(signature),
    ensures
        verification_outcome(signature, digest) == Err::<Seq<u8>, VerificationError>(
            VerificationError::MalformedSignature,
        ),
{
}

/// Under `Optional`, a request with an empty signature or an empty prompt
/// hash is skipped, and a skipped or failed one is never turned away.
pub proof fn optional_mode_admits_unsigned(signature: Seq<u8>, prompt_hash: Seq<u8>)
    ensures
        signature.len() == 0 || prompt_hash.len() == 0 ==> authentication_outcome(
            AuthenticationMode::Optional,
            signature,
            prompt_hash,
        ) == AuthenticationView::Skipped,
        !is_turned_away(
            AuthenticationMode::Optional,
            authentication_outcome(AuthenticationMode::Optional, signature, prompt_hash),
        ),
{
}

} // verus!
