//! The encodings that the pipeline goes through, each done by the crate that
//! owns the format: base64 text, the gzip stream, the serialized circuit and the
//! serialized witness.
//!
//! Nothing in this file is proved. Each function calls one outside function, and
//! its contract gives the result a name, so that the callers can say exactly
//! which bytes they pass on.

use vstd::prelude::*;

verus! {

/// The error of `base64`'s decoders.
#[verifier::external_type_specification]
#[verifier::external_body]
pub struct ExDecodeError(base64::DecodeError);

/// The error of std's readers.
#[verifier::external_type_specification]
#[verifier::external_body]
pub struct ExIoError(std::io::Error);

/// The error of `bincode`'s serializers, which they hand out in a box.
#[verifier::external_type_specification]
#[verifier::external_body]
pub struct ExEncodeErrorKind(bincode::ErrorKind);

/// A circuit, as `acir` holds it in memory.
#[verifier::external_type_specification]
#[verifier::external_body]
pub struct ExCircuit(acir::circuit::Circuit);

/// An assignment of field elements to witness indices, as `acir` holds it.
#[verifier::external_type_specification]
#[verifier::external_body]
pub struct ExWitnessMap(acir::native_types::WitnessMap);

/// The bytes that standard base64 text stands for; `None` for text that is not
/// standard base64 with canonical padding.
pub uninterp spec fn base64_decoding(text: Seq<char>) -> Option<Seq<u8>>;

/// The circuit that a serialized circuit holds; `None` for bytes that are no
/// serialized circuit.
pub uninterp spec fn parsed_circuit(bytes: Seq<u8>) -> Option<acir::circuit::Circuit>;

/// The content of the first member of a gzip stream; `None` for bytes that do
/// not start with a well-formed member.
pub uninterp spec fn gunzipped(bytes: Seq<u8>) -> Option<Seq<u8>>;

/// The serialized form of a witness map; `None` for one that cannot be
/// serialized.
pub uninterp spec fn witness_encoding(witness: acir::native_types::WitnessMap) -> Option<Seq<u8>>;

/// Calls `decode` of `base64`'s `STANDARD` engine. The contract claims that the
/// outcome depends on the text alone: the same text decodes to the same bytes, or
/// fails, every time.
#[verifier::external_body]
pub(crate) fn decode_base64(text: &str) -> (r: Result<Vec<u8>, base64::DecodeError>)
    ensures
        match r {
            Ok(bytes) => base64_decoding(text@) == Some(bytes@),
            Err(_) => base64_decoding(text@) is None,
        },
{
    base64::Engine::decode(&base64::engine::general_purpose::STANDARD, text)
}

/// Calls `Circuit::deserialize_circuit` of `acir`. The contract claims that the
/// outcome depends on the bytes alone.
#[verifier::external_body]
pub(crate) fn parse_circuit(bytes: &[u8]) -> (r: Result<acir::circuit::Circuit, std::io::Error>)
    ensures
        match r {
            Ok(circuit) => parsed_circuit(bytes@) == Some(circuit),
            Err(_) => parsed_circuit(bytes@) is None,
        },
{
    acir::circuit::Circuit::deserialize_circuit(bytes)
}

/// Reads a `GzDecoder` of `flate2` over the bytes to its end. The contract
/// claims that the outcome depends on the bytes alone.
#[verifier::external_body]
pub(crate) fn gunzip(bytes: &[u8]) -> (r: Result<Vec<u8>, std::io::Error>)
    ensures
        match r {
            Ok(content) => gunzipped(bytes@) == Some(content@),
            Err(_) => gunzipped(bytes@) is None,
        },
{
    let mut decoder = flate2::bufread::GzDecoder::new(bytes);
    let mut content = Vec::<u8>::new();
    match std::io::Read::read_to_end(&mut decoder, &mut content) {
        Ok(_) => Ok(content),
        Err(e) => Err(e),
    }
}

/// Calls `bincode::serialize` on a witness map. The contract claims that the
/// outcome depends on the map alone.
#[verifier::external_body]
pub(crate) fn encode_witness(witness: &acir::native_types::WitnessMap) -> (r: Result<
    Vec<u8>,
    Box<bincode::ErrorKind>,
>)
    ensures
        match r {
            Ok(bytes) => witness_encoding(*witness) == Some(bytes@),
            Err(_) => witness_encoding(*witness) is None,
        },
{
    bincode::serialize(witness)
}

} // verus!
