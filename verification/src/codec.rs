//! Conversions between bytes and text that are left to `solana_sdk`, to
//! `base64` and to the standard library.
//!
//! The functions of this module are not proved. Each makes one conversion
//! and states of it that its result depends on its argument alone; the
//! result itself is only named.

use base64::Engine;
use vstd::prelude::*;

verus! {

/// The text that `solana_sdk` prints for the address of the given 32 bytes:
/// their base58 form.
pub uninterp spec fn address_text(bytes: Seq<u8>) -> Seq<char>;

/// The 32 bytes that `solana_sdk` reads from a text as an address, or
/// nothing where it does not accept the text.
pub uninterp spec fn address_of_text(text: Seq<char>) -> Option<Seq<u8>>;

/// The text that `solana_sdk` prints for the signature of the given 64
/// bytes: their base58 form.
pub uninterp spec fn signature_text(bytes: Seq<u8>) -> Seq<char>;

/// The 64 bytes that `solana_sdk` reads from a text as a signature, or
/// nothing where it does not accept the text.
pub uninterp spec fn signature_of_text(text: Seq<char>) -> Option<Seq<u8>>;

/// The text that the standard `base64` engine encodes the bytes to.
pub uninterp spec fn base64_text(bytes: Seq<u8>) -> Seq<char>;

/// The bytes that the standard `base64` engine decodes the text to, or
/// nothing where it does not accept the text.
pub uninterp spec fn base64_bytes(text: Seq<char>) -> Option<Seq<u8>>;

/// The text that `String::from_utf8_lossy` makes of `bytes`: the text they
/// encode, with U+FFFD in place of each ill-formed sequence.
pub uninterp spec fn lossy_text(bytes: Seq<u8>) -> Seq<char>;

/// The extension that `std::path::Path::extension` finds in a path, or
/// nothing where it finds none.
pub uninterp spec fn path_extension(path: Seq<char>) -> Option<Seq<char>>;

/// `Pubkey`'s `to_string`, on the key made of `bytes` by `new_from_array`.
#[verifier::external_body]
pub(crate) fn pubkey_to_string(bytes: [u8; 32]) -> (r: String)
    ensures
        r@ == address_text(bytes@),
{
    solana_sdk::pubkey::Pubkey::new_from_array(bytes).to_string()
}

/// `Pubkey`'s `from_str`, and `to_bytes` on the key it gives.
#[verifier::external_body]
pub(crate) fn pubkey_from_str(text: &str) -> (r: Option<[u8; 32]>)
    ensures
        match r {
            Some(bytes) => address_of_text(text@) == Some(bytes@),
            None => address_of_text(text@) is None,
        },
{
    match text.parse::<solana_sdk::pubkey::Pubkey>() {
        Ok(key) => Some(key.to_bytes()),
        Err(_) => None,
    }
}

/// `Signature`'s `to_string`, on the signature made of `bytes` by `from`.
#[verifier::external_body]
pub(crate) fn signature_to_string(bytes: [u8; 64]) -> (r: String)
    ensures
        r@ == signature_text(bytes@),
{
    solana_sdk::signature::Signature::from(bytes).to_string()
}

/// `Signature`'s `from_str`, and the array of the signature it gives.
#[verifier::external_body]
pub(crate) fn signature_from_str(text: &str) -> (r: Option<[u8; 64]>)
    ensures
        match r {
            Some(bytes) => signature_of_text(text@) == Some(bytes@),
            None => signature_of_text(text@) is None,
        },
{
    match text.parse::<solana_sdk::signature::Signature>() {
        Ok(signature) => Some(*signature.as_array()),
        Err(_) => None,
    }
}

/// `encode` of the standard `base64` engine.
#[verifier::external_body]
pub(crate) fn base64_encode(bytes: &[u8]) -> (r: String)
    ensures
        r@ == base64_text(bytes@),
{
    base64::engine::general_purpose::STANDARD.encode(bytes)
}

/// `decode` of the standard `base64` engine.
#[verifier::external_body]
pub(crate) fn base64_decode(text: &str) -> (r: Option<Vec<u8>>)
    ensures
        match r {
            Some(bytes) => base64_bytes(text@) == Some(bytes@),
            None => base64_bytes(text@) is None,
        },
{
    match base64::engine::general_purpose::STANDARD.decode(text) {
        Ok(bytes) => Some(bytes),
        Err(_) => None,
    }
}

/// `String::from_utf8_lossy`, then the owned copy of what it gives.
#[verifier::external_body]
pub(crate) fn text_from_utf8_lossy(bytes: &[u8]) -> (r: String)
    ensures
        r@ == lossy_text(bytes@),
{
    String::from_utf8_lossy(bytes).into_owned()
}

/// `Path::extension` on the path that `Path::new` makes of the text, as
/// text.
#[verifier::external_body]
pub(crate) fn extension_of(path: &str) -> (r: Option<String>)
    ensures
        match r {
            Some(extension) => path_extension(path@) == Some(extension@),
            None => path_extension(path@) is None,
        },
{
    match std::path::Path::new(path).extension() {
        Some(extension) => Some(extension.to_string_lossy().into_owned()),
        None => None,
    }
}

} // verus!
