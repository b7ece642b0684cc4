use vstd::prelude::*;

use crate::gateway::PublishRequest;
use crate::segment::{wire_name, Segment};

verus! {

/// The standard, padded base64 text of some bytes.
pub uninterp spec fn base64_of(b: Seq<u8>) -> Seq<char>;

/// Relies on base64's `Engine::encode` with the `STANDARD` engine: the
/// result depends on the bytes alone, and with padding every started group
/// of three bytes becomes four characters. It panics only when that length
/// overflows `usize`, which the bound on the input rules out.
#[verifier::external_body]
fn encode_base64(b: &[u8]) -> (r: String)
    requires
        b@.len() <= usize::MAX / 2,
    ensures
        r@ == base64_of(b@),
        r@.len() == 4 * ((b@.len() + 2) / 3),
{
    base64::Engine::encode(&base64::engine::general_purpose::STANDARD, b)
}

/// Builds the publish request that a sender posts for `role`.
/// With `active` set it carries the title, the text and the image bytes
/// encoded as base64; with `active` unset it carries three empty fields,
/// which clears the segment's status.
pub fn compose_request(
    role: Segment,
    session: String,
    active: bool,
    title: String,
    text: String,
    image: &[u8],
) -> (r: PublishRequest)
    requires
        image@.len() <= usize::MAX / 2,
    ensures
        r.role@ == wire_name(role),
        r.session@ == session@,
        active ==> r.title@ == title@ && r.text@ == text@ && r.image@ == base64_of(image@),
        active ==> r.image@.len() == 4 * ((image@.len() + 2) / 3),
        !active ==> r.title@.len() == 0 && r.text@.len() == 0 && r.image@.len() == 0,
{
    let role_name = String::from_str(role.name());
    if active {
        PublishRequest { role: role_name, session, title, text, image: encode_base64(image) }
    } else {
        PublishRequest {
            role: role_name,
            session,
            title: String::new(),
            text: String::new(),
            image: String::new(),
        }
    }
}

} // verus!
