//! Building a threshold-ECDSA signing request for a text message and
//! rendering the returned signature.

use vstd::prelude::*;

verus! {

/// The attached budget, in cycles, that a signing request with the test key
/// costs.
pub const SIGNING_BUDGET_CYCLES: u128 = 10_000_000_000;

/// The SHA-256 digest of the UTF-8 encoding of a text.
pub uninterp spec fn sha256_of_text(text: Seq<char>) -> Seq<u8>;

/// Relies on sha2's `Sha256::digest` over the text's UTF-8 bytes: the result
/// is a function of the text alone, 32 bytes long.
#[verifier::external_body]
fn sha256_text(text: &str) -> (r: Vec<u8>)
    ensures
        r@ == sha256_of_text(text@),
        r@.len() == 32,
{
    <sha2::Sha256 as sha2::Digest>::digest(text.as_bytes()).to_vec()
}

/// The lowercase hexadecimal digit of a value below 16.
pub open spec fn hex_digit(n: int) -> char
    recommends
        0 <= n < 16,
{
    seq!['0', '1', '2', '3', '4', '5', '6', '7', '8', '9', 'a', 'b', 'c', 'd', 'e', 'f'][n]
}

/// Two lowercase hexadecimal digits per byte, high half first.
pub open spec fn hex_of(bytes: Seq<u8>) -> Seq<char>
    decreases bytes.len(),
{
    if bytes.len() == 0 {
        Seq::empty()
    } else {
        seq![hex_digit(bytes[0] as int / 16), hex_digit(bytes[0] as int % 16)] + hex_of(bytes.drop_first())
    }
}

/// Relies on `hex::encode`, which writes each byte as two lowercase digits,
/// high half first.
#[verifier::external_body]
fn hex_encode(bytes: &Vec<u8>) -> (r: String)
    ensures
        r@ == hex_of(bytes@),
{
    hex::encode(bytes)
}

/// The name of the signing key used for local testing.
pub open spec fn test_key_name() -> Seq<char> {
    "dfx_test_key"@
}

/// A request to sign a message hash with a secp256k1 key.
#[derive(Clone, Debug)]
pub struct SignRequest {
    pub message_hash: Vec<u8>,
    pub derivation_path: Vec<Vec<u8>>,
    pub key_name: String,
}

/// The request that signs `message` with the test key under the empty
/// derivation path.
pub fn sign_request(message: &str) -> (r: SignRequest)
    ensures
        r.message_hash@ == sha256_of_text(message@),
        r.message_hash@.len() == 32,
        r.derivation_path@.len() == 0,
        r.key_name@ == test_key_name(),
{
    let message_hash = sha256_text(message);
    let key_name = "dfx_test_key".to_owned();
    SignRequest { message_hash, derivation_path: Vec::new(), key_name }
}

/// The textual form in which a signature is handed back to the user.
pub fn signature_hex(signature: &Vec<u8>) -> (r: String)
    ensures
        r@ == hex_of(signature@),
        r@.len() == 2 * signature@.len(),
{
    proof {
        lemma_hex_length(signature@);
    }
    hex_encode(signature)
}

/// Hexadecimal text is twice as long as the bytes it encodes.
pub proof fn lemma_hex_length(bytes: Seq<u8>)
    ensures
        hex_of(bytes).len() == 2 * bytes.len(),
    decreases bytes.len(),
{
    if bytes.len() > 0 {
        lemma_hex_length(bytes.drop_first());
    }
}

} // verus!
