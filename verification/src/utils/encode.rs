//! Pictures as text: the base64 form in which the image carries them.

use base64::{engine::general_purpose, Engine};
use vstd::prelude::*;

verus! {

/// The base64 text of bytes, in the standard alphabet and without padding.
pub uninterp spec fn base64_text(bytes: Seq<u8>) -> Seq<char>;

/// The text that stands for a picture in the image: its bytes in base64,
/// and nothing for a picture that is missing or too large to encode.
pub open spec fn asset_text(asset: Option<Seq<u8>>) -> Seq<char> {
    match asset {
        Some(bytes) => if bytes.len() <= usize::MAX / 4 {
            base64_text(bytes)
        } else {
            Seq::empty()
        },
        None => Seq::empty(),
    }
}

/// What an optional vector of bytes holds.
pub open spec fn bytes_of(asset: &Option<Vec<u8>>) -> Option<Seq<u8>> {
    match asset {
        Some(bytes) => Some(bytes@),
        None => None,
    }
}

/// `Engine::encode` of the engine `STANDARD_NO_PAD` returns the bytes in
/// base64, a function of the bytes alone. It panics where the length of the
/// text cannot be computed or allocated, which `requires` leaves out.
#[verifier::external_body]
fn encode_base64(bytes: &Vec<u8>) -> (text: String)
    requires
        bytes@.len() <= usize::MAX / 4,
    ensures
        text@ == base64_text(bytes@),
{
    general_purpose::STANDARD_NO_PAD.encode(bytes)
}

/// Encodes a picture for the image: see [`asset_text`].
pub fn encode_asset(asset: &Option<Vec<u8>>) -> (text: String)
    ensures
        text@ == asset_text(bytes_of(asset)),
{
    match asset {
        Some(bytes) => {
            if bytes.len() <= usize::MAX / 4 {
                encode_base64(bytes)
            } else {
                String::new()
            }
        },
        None => String::new(),
    }
}

} // verus!
