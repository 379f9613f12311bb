use vstd::prelude::*;

verus! {

/// The padded base64 encoding, in the standard alphabet, of `bytes`.
pub uninterp spec fn base64_standard(bytes: Seq<u8>) -> Seq<char>;

/// Relies on base64's `STANDARD.encode` (`Engine::encode`): the padded
/// standard-alphabet encoding, four characters for each started group of
/// three bytes. It panics only when that length overflows `usize`, which
/// the bound on the input rules out.
#[verifier::external_body]
fn encode_base64(bytes: &[u8]) -> (r: String)
    requires
        bytes@.len() < usize::MAX / 2,
    ensures
        r@ == base64_standard(bytes@),
        r@.len() == 4 * ((bytes@.len() + 2) / 3),
{
    base64::Engine::encode(&base64::engine::general_purpose::STANDARD, bytes)
}

/// The data URL of an image of type `kind` whose base64 text is `encoded`.
pub open spec fn data_url(kind: Seq<char>, encoded: Seq<char>) -> Seq<char> {
    "data:image/"@ + kind + ";base64,"@ + encoded
}

/// Builds the data URL of an image of type `kind` from its base64 text.
pub fn data_url_of_encoded(kind: &str, encoded: &str) -> (r: String)
    ensures
        r@ == data_url(kind@, encoded@),
{
    let mut url = "data:image/".to_owned();
    url.append(kind);
    url.append(";base64,");
    url.append(encoded);
    url
}

/// The data URL that carries the image of type `kind` (such as `png`)
/// whose file holds `bytes`, for use as an image's source.
pub fn image_data_url(kind: &str, bytes: &[u8]) -> (r: String)
    requires
        bytes@.len() < usize::MAX / 2,
    ensures
        r@ == data_url(kind@, base64_standard(bytes@)),
{
    let encoded = encode_base64(bytes);
    data_url_of_encoded(kind, encoded.as_str())
}

} // verus!
