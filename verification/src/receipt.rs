//! The receipt side of the pipeline: preparing the program identity and
//! the proving input, checking a downloaded proof artifact against the
//! known program identity, and the caller's final acceptance of the
//! decoded envelope. Cryptographic artifact verification and the
//! application-level commitment comparison stay separate layers.

use vstd::prelude::*;
use crate::envelope::VerifiedResponse;
use crate::hashing::{hex_of, lemma_hex_of_len, request_hash_of, to_hex, verify_response};

verus! {

/// Everything a pipeline stage can fail with. No error is ever swallowed:
/// each stage either hands its result on or stops with one of these.
#[derive(Debug)]
pub enum PipelineError {
    /// The fetch or the proving backend could not be reached.
    Transport(String),
    /// The program binary could not be read, so it has no identity.
    InvalidProgram,
    /// The request identifier could not be encoded as proving input.
    InputEncoding,
    /// The downloaded artifact does not decode as a receipt: a protocol
    /// violation, not an ordinary failure.
    MalformedArtifact,
    /// A successful session carried no receipt URL: a protocol violation.
    MissingReceiptUrl,
    /// The artifact decoded but its cryptographic verification failed.
    VerificationFailed,
    /// The backend reported a terminal status other than success.
    SessionFailed { status: String, error_msg: Option<String> },
}

#[verifier::external_type_specification]
#[verifier::external_body]
pub struct ExReceipt(risc0_zkvm::Receipt);

/// The identity digest of a program binary, as `risc0_zkvm` computes it.
/// It depends on the binary alone and is constant for a given build.
pub uninterp spec fn image_id_of(program: Seq<u8>) -> Seq<u8>;

/// Whether a byte blob decodes as a program binary, so that it has an
/// image id at all. It depends on the blob alone.
pub uninterp spec fn program_decodes(program: Seq<u8>) -> bool;

/// Whether a byte string decodes as a proof receipt. It depends on the
/// bytes alone.
pub uninterp spec fn receipt_decodes(bytes: Seq<u8>) -> bool;

/// The proving input encoding of a request identifier, as the engine's
/// serializer computes it. It depends on the identifier alone.
pub uninterp spec fn input_words_of(url: Seq<char>) -> Seq<u32>;

/// Relies on `risc0_zkvm::compute_image_id`: the image id of a program
/// binary is a pure function of its bytes, a 32-byte digest; whether the
/// blob decodes as a program at all is likewise a function of the bytes,
/// and an unreadable binary yields an error, never a panic.
#[verifier::external_body]
fn compute_image_id_bytes(program: &[u8]) -> (r: Option<Vec<u8>>)
    ensures
        r is Some <==> program_decodes(program@),
        r matches Some(b) ==> b@ == image_id_of(program@) && b@.len() == 32,
{
    match risc0_zkvm::compute_image_id(program) {
        Ok(d) => Some(d.as_bytes().to_vec()),
        Err(_) => None,
    }
}

/// Relies on `risc0_zkvm::serde::to_vec`: serializes a value into the
/// engine's native word encoding, a pure function of the value. For a
/// string the serializer only appends words to a vector, so it cannot
/// fail.
#[verifier::external_body]
fn encode_input(url: &str) -> (r: Option<Vec<u32>>)
    ensures
        r is Some,
        r matches Some(w) ==> w@ == input_words_of(url@),
{
    match risc0_zkvm::serde::to_vec(url) {
        Ok(w) => Some(w),
        Err(_) => None,
    }
}

/// Relies on `bytemuck::cast_slice`: reinterprets words as bytes in place,
/// keeping the total byte length; from `u32` to `u8` it cannot fail.
#[verifier::external_body]
fn words_to_bytes(words: &[u32]) -> (r: Vec<u8>)
    ensures
        r@.len() == 4 * words@.len(),
{
    bytemuck::cast_slice::<u32, u8>(words).to_vec()
}

/// Relies on `bincode::serde::decode_from_slice`: decodes a receipt from
/// its serialized bytes; whether the bytes decode depends on the bytes
/// alone.
#[verifier::external_body]
fn decode_receipt(bytes: &[u8]) -> (r: Option<risc0_zkvm::Receipt>)
    ensures
        r is Some <==> receipt_decodes(bytes@),
{
    match bincode::serde::decode_from_slice::<risc0_zkvm::Receipt, _>(
        bytes,
        bincode::config::legacy(),
    ) {
        Ok((receipt, _)) => Some(receipt),
        Err(_) => None,
    }
}

/// Relies on `risc0_zkvm::Receipt::verify`: cryptographic verification
/// that the receipt proves an execution of the program with the given
/// 32-byte image id. Nothing is assumed of its outcome; the caller
/// decides from the returned flag.
#[verifier::external_body]
fn verify_receipt(receipt: &risc0_zkvm::Receipt, image_id: &[u8; 32]) -> (r: bool)
{
    receipt.verify(risc0_zkvm::Digest::from(*image_id)).is_ok()
}

/// The hexadecimal program identity used to key uploads, recomputed from
/// the program bytes: it succeeds exactly when the blob decodes as a
/// program.
pub fn image_id_hex(program: &[u8]) -> (r: Result<String, PipelineError>)
    ensures
        r is Ok <==> program_decodes(program@),
        r matches Ok(h) ==> h@ == hex_of(image_id_of(program@)) && h@.len() == 64,
        r matches Err(e) ==> e is InvalidProgram,
{
    match compute_image_id_bytes(program) {
        Some(b) => {
            proof {
                lemma_hex_of_len(b@);
            }
            Ok(to_hex(b.as_slice()))
        },
        None => Err(PipelineError::InvalidProgram),
    }
}

/// Serializes the request identifier into the engine's input bytes. Any
/// identifier encodes, so this always succeeds; the byte content is the
/// machine's own view of the encoded words.
pub fn prepare_input(url: &str) -> (r: Result<Vec<u8>, PipelineError>)
    ensures
        r is Ok,
        r matches Ok(b) ==> b@.len() == 4 * input_words_of(url@).len(),
{
    match encode_input(url) {
        Some(words) => Ok(words_to_bytes(words.as_slice())),
        None => Err(PipelineError::InputEncoding),
    }
}

/// Checks a downloaded artifact: decodes it and verifies it
/// cryptographically against the program identity. Fails closed: a
/// malformed artifact is reported distinctly from a verification failure,
/// and a receipt is handed back only when both steps passed.
pub fn check_artifact(bytes: &[u8], image_id: &[u8; 32]) -> (r: Result<
    risc0_zkvm::Receipt,
    PipelineError,
>)
    ensures
        r is Ok ==> receipt_decodes(bytes@),
        !receipt_decodes(bytes@) <==> (r matches Err(e) && e is MalformedArtifact),
        r matches Err(e) ==> e is MalformedArtifact || e is VerificationFailed,
{
    match decode_receipt(bytes) {
        None => Err(PipelineError::MalformedArtifact),
        Some(receipt) => {
            if verify_receipt(&receipt, image_id) {
                Ok(receipt)
            } else {
                Err(PipelineError::VerificationFailed)
            }
        },
    }
}

/// Whether the caller accepts a decoded envelope: the artifact must have
/// verified cryptographically, and the envelope's commitment must equal
/// the commitment of the request the caller believes it made. The two
/// layers are independent; either alone is not enough.
pub open spec fn envelope_accepted(
    receipt_valid: bool,
    envelope: VerifiedResponse,
    url: Seq<char>,
) -> bool {
    receipt_valid && envelope.attests(url)
}

/// The caller's final consistency check: recomputes the commitment for
/// the original request identifier and compares it byte-for-byte with the
/// commitment inside the decoded envelope, then combines the result with
/// the artifact's own verification outcome.
pub fn accept_envelope(receipt_valid: bool, envelope: &VerifiedResponse, url: &str) -> (r: bool)
    ensures
        r == envelope_accepted(receipt_valid, *envelope, url@),
{
    if receipt_valid {
        verify_response(envelope.request_hash.as_str(), url)
    } else {
        false
    }
}

/// An envelope sealed over the same identifier the caller checks against
/// is accepted once its artifact verified.
pub proof fn lemma_attested_envelope_accepted(envelope: VerifiedResponse, url: Seq<char>)
    requires
        envelope.attests(url),
    ensures
        envelope_accepted(true, envelope, url),
{
}

/// Swapping the commitment inside a decoded envelope is caught by the
/// final comparison even when the artifact itself verified: the two
/// checks are independent layers.
pub proof fn lemma_tampered_envelope_rejected(
    receipt_valid: bool,
    envelope: VerifiedResponse,
    url: Seq<char>,
)
    requires
        envelope.request_hash@ != request_hash_of(url),
    ensures
        !envelope_accepted(receipt_valid, envelope, url),
{
}

} // verus!
