//! The part of a request body that goes to the authorization service.

use vstd::prelude::*;
use vstd::slice::slice_subrange;
use vstd::slice::slice_to_vec;
use vstd::utf8::decode_utf8;
use vstd::utf8::decode_utf8_encode_utf8;
use vstd::utf8::encode_utf8;
use vstd::utf8::valid_utf8;

verus! {

/// `bytes::Bytes`, a shared run of bytes.
#[verifier::external_type_specification]
#[verifier::external_body]
pub struct ExBytes(bytes::Bytes);

/// The bytes that a `bytes::Bytes` holds.
pub uninterp spec fn bytes_held(held: bytes::Bytes) -> Seq<u8>;

/// Calls `<bytes::Bytes as AsRef<[u8]>>::as_ref`, which lends the bytes held as
/// a slice. No slice is longer than `isize::MAX` bytes.
#[verifier::external_body]
fn bytes_as_slice(held: &bytes::Bytes) -> (slice: &[u8])
    ensures
        slice@ == bytes_held(*held),
        slice@.len() <= isize::MAX,
{
    held.as_ref()
}

/// The text that `String::from_utf8_lossy` reads out of bytes.
pub uninterp spec fn utf8_lossy(bytes: Seq<u8>) -> Seq<char>;

/// Calls `String::from_utf8_lossy`. Bytes that are UTF-8 are decoded as they
/// stand; what the replacement characters make of other bytes is not spelled out.
#[verifier::external_body]
pub(crate) fn text_of_bytes(slice: &[u8]) -> (text: String)
    ensures
        text@ == utf8_lossy(slice@),
        valid_utf8(slice@) ==> text@ == decode_utf8(slice@),
{
    String::from_utf8_lossy(slice).into_owned()
}

/// How much of a request body is sent along, and in what form.
#[derive(Debug, Clone, Copy)]
pub struct BodyOptions {
    /// The most bytes that are sent.
    pub max_request_bytes: u32,
    /// Whether a longer body is cut to size; otherwise none of it is sent.
    pub allow_partial_message: bool,
    /// Whether the body is sent as raw bytes; otherwise it is sent as text.
    pub pack_as_bytes: bool,
}

/// A request body that was read ahead of time.
#[derive(Debug)]
pub struct BufferedBody(pub bytes::Bytes);

impl View for BufferedBody {
    type V = Seq<u8>;

    open spec fn view(&self) -> Seq<u8> {
        bytes_held(self.0)
    }
}

impl BodyOptions {
    /// The bytes of a body that may be sent: all of them if they are within the
    /// limit; otherwise as many as the limit allows, or none.
    pub open spec fn admitted(self, body: Seq<u8>) -> Seq<u8> {
        if body.len() <= self.max_request_bytes {
            body
        } else if self.allow_partial_message {
            body.take(self.max_request_bytes as int)
        } else {
            Seq::empty()
        }
    }
}

/// Whether these are the text form, the raw form and the size that go to the
/// service for a body: what may be sent of it in one of the two forms, and the
/// length of the whole body. Without options or without a body there is
/// nothing, of length zero.
pub open spec fn extracted(
    body_opts: Option<BodyOptions>,
    body: Option<Seq<u8>>,
    text: Seq<char>,
    raw: Seq<u8>,
    size: int,
) -> bool {
    match (body_opts, body) {
        (Some(opts), Some(bytes)) => {
            &&& size == bytes.len()
            &&& if opts.pack_as_bytes {
                text == Seq::<char>::empty() && raw == opts.admitted(bytes)
            } else {
                text == utf8_lossy(opts.admitted(bytes)) && raw == Seq::<u8>::empty() && (
                valid_utf8(opts.admitted(bytes)) ==> text == decode_utf8(opts.admitted(bytes)))
            }
        },
        _ => text == Seq::<char>::empty() && raw == Seq::<u8>::empty() && size == 0,
    }
}

/// The bytes of a body that may be there.
pub open spec fn bytes_of(body: Option<&BufferedBody>) -> Option<Seq<u8>> {
    match body {
        Some(buffered) => Some(buffered@),
        None => None,
    }
}

/// The body of a request as the authorization service gets it: as text, as raw
/// bytes, and the length of the whole body.
pub fn extract_body(body_opts: &Option<BodyOptions>, buffered: Option<&BufferedBody>) -> (result: (
    String,
    Vec<u8>,
    i64,
))
    ensures
        extracted(*body_opts, bytes_of(buffered), result.0@, result.1@, result.2 as int),
{
    match (body_opts, buffered) {
        (Some(opts), Some(body)) => {
            let max_size: usize = opts.max_request_bytes as usize;
            let bytes = bytes_as_slice(&body.0);
            let original_size: i64 = bytes.len() as i64;
            let truncated: &[u8] = if bytes.len() > max_size {
                if !opts.allow_partial_message {
                    slice_subrange(bytes, 0, 0)
                } else {
                    slice_subrange(bytes, 0, max_size)
                }
            } else {
                bytes
            };
            assert(truncated@ =~= opts.admitted(body@));
            if opts.pack_as_bytes {
                (String::new(), slice_to_vec(truncated), original_size)
            } else {
                (text_of_bytes(truncated), Vec::new(), original_size)
            }
        },
        _ => (String::new(), Vec::new(), 0),
    }
}

/// No more of a body is sent than the limit allows, and what is sent is how the
/// body begins.
pub proof fn sent_bytes_are_a_bounded_prefix(opts: BodyOptions, body: Seq<u8>)
    ensures
        opts.admitted(body).len() <= opts.max_request_bytes,
        opts.admitted(body).is_prefix_of(body),
{
}

/// A body never goes out in both forms, and its size is told in full even
/// where the body itself is cut or left out.
pub proof fn one_form_and_full_size(
    opts: BodyOptions,
    body: Seq<u8>,
    text: Seq<char>,
    raw: Seq<u8>,
    size: int,
)
    requires
        extracted(Some(opts), Some(body), text, raw, size),
    ensures
        text.len() == 0 || raw.len() == 0,
        size == body.len(),
{
}

/// A body within the limit arrives whole: as raw bytes it is what is sent, and
/// as text it can be read back from what is sent if it is UTF-8.
pub proof fn body_within_limit_arrives_whole(
    opts: BodyOptions,
    body: Seq<u8>,
    text: Seq<char>,
    raw: Seq<u8>,
    size: int,
)
    requires
        extracted(Some(opts), Some(body), text, raw, size),
        body.len() <= opts.max_request_bytes,
    ensures
        opts.pack_as_bytes ==> raw == body,
        !opts.pack_as_bytes && valid_utf8(body) ==> encode_utf8(text) == body,
{
    if valid_utf8(body) {
        decode_utf8_encode_utf8(body);
    }
}

} // verus!
