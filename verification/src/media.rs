//! Image storage: decoding embedded payloads, transcoding to the canonical
//! lossless WebP format, and deriving the deterministic filenames that make
//! repeated publishing overwrite instead of duplicate.
//!
//! The byte-level work of base64 decoding and image transcoding is done by
//! outside crates behind trusted wrappers; everything that decides filenames,
//! fallbacks and failure handling is verified.

use vstd::prelude::*;
use vstd::string::*;
use base64::Engine;

use crate::bytes::{
    contains_seq, contains_bytes, dec_rep, spec_find_byte, find_byte, lower_bytes, to_lower_ascii,
    sub_bytes, usize_to_dec,
};

verus! {

/// What the base64 standard-alphabet decoder yields for an input, if it
/// accepts it; decoding is a function of the input bytes alone.
pub uninterp spec fn base64_decoding(s: Seq<u8>) -> Option<Seq<u8>>;

/// Whether the image crate can decode these bytes as a known raster format;
/// a function of the bytes alone.
pub uninterp spec fn image_decodable(b: Seq<u8>) -> bool;

/// The lossless WebP re-encoding of the image decoded from `b`, or `None` if
/// encoding fails; a function of the bytes alone.
pub uninterp spec fn webp_reencoding(b: Seq<u8>) -> Option<Seq<u8>>;

/// Relies on base64's `Engine::decode` with the `STANDARD` engine: the result
/// is determined by the input bytes, and decoding either fails or yields the
/// decoded payload.
#[verifier::external_body]
fn decode_base64(s: &[u8]) -> (r: Option<Vec<u8>>)
    ensures
        (r is Some) == (base64_decoding(s@) is Some),
        r matches Some(v) ==> base64_decoding(s@) == Some(v@),
{
    base64::engine::general_purpose::STANDARD.decode(s).ok()
}

/// Outcome of an attempt to re-encode arbitrary bytes as lossless WebP.
pub enum TranscodeOutcome {
    /// The bytes decoded as an image and re-encoded; the WebP bytes.
    Webp(Vec<u8>),
    /// The bytes are not a decodable image.
    Undecodable,
    /// The bytes decoded, but encoding them as WebP failed.
    EncodeFailed,
}

/// Relies on image's `load_from_memory` (decoding is a function of the bytes
/// alone) and `codecs::webp::WebPEncoder::encode` in lossless mode (the
/// encoding of the decoded RGBA pixels is a function of the bytes alone).
/// The pixel buffer handed to the encoder always matches the dimensions the
/// decoder reports, so the encoder's dimension check cannot trip.
#[verifier::external_body]
fn transcode_to_webp(b: &[u8]) -> (r: TranscodeOutcome)
    ensures
        (r is Undecodable) == !image_decodable(b@),
        r matches TranscodeOutcome::Webp(v) ==> webp_reencoding(b@) == Some(v@),
        (r is Webp) == (image_decodable(b@) && webp_reencoding(b@) is Some),
{
    let img = match image::load_from_memory(b) {
        Ok(i) => i,
        Err(_) => return TranscodeOutcome::Undecodable,
    };
    let rgba = img.to_rgba8();
    let (w, h) = rgba.dimensions();
    let mut out: Vec<u8> = Vec::new();
    let enc = image::codecs::webp::WebPEncoder::new_lossless(&mut out);
    match enc.encode(rgba.as_raw(), w, h, image::ExtendedColorType::Rgba8) {
        Ok(()) => TranscodeOutcome::Webp(out),
        Err(_) => TranscodeOutcome::EncodeFailed,
    }
}

/// Fallback extension for an embedded image whose payload could not be
/// decoded, inferred from the data-URL MIME header.
pub open spec fn data_header_ext(header: Seq<u8>) -> Seq<u8> {
    if contains_seq(header, ("image/png").spec_bytes()) {
        ("png").spec_bytes()
    } else if contains_seq(header, ("image/gif").spec_bytes()) {
        ("gif").spec_bytes()
    } else if contains_seq(header, ("image/webp").spec_bytes()) {
        ("webp").spec_bytes()
    } else if contains_seq(header, ("image/heic").spec_bytes()) || contains_seq(
        header,
        ("image/heif").spec_bytes(),
    ) {
        ("heic").spec_bytes()
    } else {
        ("jpg").spec_bytes()
    }
}

fn data_header_ext_bytes(header: &[u8]) -> (r: Vec<u8>)
    ensures
        r@ == data_header_ext(header@),
{
    if contains_bytes(header, "image/png".as_bytes_vec().as_slice()) {
        "png".as_bytes_vec()
    } else if contains_bytes(header, "image/gif".as_bytes_vec().as_slice()) {
        "gif".as_bytes_vec()
    } else if contains_bytes(header, "image/webp".as_bytes_vec().as_slice()) {
        "webp".as_bytes_vec()
    } else if contains_bytes(header, "image/heic".as_bytes_vec().as_slice()) || contains_bytes(
        header,
        "image/heif".as_bytes_vec().as_slice(),
    ) {
        "heic".as_bytes_vec()
    } else {
        "jpg".as_bytes_vec()
    }
}

/// Last index `i < upto` with `s[i] == b`, if any.
pub open spec fn spec_rfind_byte(s: Seq<u8>, upto: int, b: u8) -> Option<int>
    decreases upto,
{
    if upto <= 0 || upto > s.len() {
        None
    } else if s[upto - 1] == b {
        Some(upto - 1)
    } else {
        spec_rfind_byte(s, upto - 1, b)
    }
}

fn rfind_byte(s: &[u8], upto: usize, b: u8) -> (r: Option<usize>)
    requires
        upto <= s@.len(),
    ensures
        match r {
            Some(i) => spec_rfind_byte(s@, upto as int, b) == Some(i as int) && i < upto
                && s@[i as int] == b,
            None => spec_rfind_byte(s@, upto as int, b) is None,
        },
{
    let mut e = upto;
    while e > 0
        invariant
            e <= upto <= s@.len(),
            spec_rfind_byte(s@, upto as int, b) == spec_rfind_byte(s@, e as int, b),
        decreases e,
    {
        if s[e - 1] == b {
            return Some(e - 1);
        }
        e = e - 1;
    }
    None
}

/// The lower-cased extension candidate of a URL: everything after the last
/// `.` of the last path segment, with any query string removed.
pub open spec fn url_ext_candidate(url: Seq<u8>) -> Seq<u8> {
    let trimmed = match spec_find_byte(url, 0, 63u8) {
        Some(q) => url.subrange(0, q),
        None => url,
    };
    let fname = match spec_rfind_byte(trimmed, trimmed.len() as int, 47u8) {
        Some(sl) => trimmed.subrange(sl + 1, trimmed.len() as int),
        None => trimmed,
    };
    let ext = match spec_rfind_byte(fname, fname.len() as int, 46u8) {
        Some(d) => fname.subrange(d + 1, fname.len() as int),
        None => fname,
    };
    lower_bytes(ext)
}

/// The image file extensions accepted from a URL.
pub open spec fn known_image_ext(e: Seq<u8>) -> bool {
    ||| e == ("png").spec_bytes()
    ||| e == ("jpg").spec_bytes()
    ||| e == ("jpeg").spec_bytes()
    ||| e == ("webp").spec_bytes()
    ||| e == ("gif").spec_bytes()
    ||| e == ("bmp").spec_bytes()
    ||| e == ("tiff").spec_bytes()
    ||| e == ("avif").spec_bytes()
}

/// The extension guessed from a URL, accepted only if it is a known image
/// extension.
pub open spec fn guess_ext_spec(url: Seq<u8>) -> Option<Seq<u8>> {
    if known_image_ext(url_ext_candidate(url)) {
        Some(url_ext_candidate(url))
    } else {
        None
    }
}

/// Guesses an image file extension from a URL: the lower-cased text after the
/// last `.` of the final path segment (query string ignored), accepted only
/// if it is one of the known raster-image extensions.
pub fn guess_extension_from_url(url: &[u8]) -> (r: Option<Vec<u8>>)
    ensures
        match r {
            Some(e) => guess_ext_spec(url@) == Some(e@),
            None => guess_ext_spec(url@) is None,
        },
{
    let trimmed: Vec<u8> = match find_byte(url, 0, 63u8) {
        Some(q) => sub_bytes(url, 0, q),
        None => sub_bytes(url, 0, url.len()),
    };
    proof {
        assert(url@.subrange(0, url@.len() as int) =~= url@);
    }
    let fname: Vec<u8> = match rfind_byte(trimmed.as_slice(), trimmed.len(), 47u8) {
        Some(sl) => sub_bytes(trimmed.as_slice(), sl + 1, trimmed.len()),
        None => sub_bytes(trimmed.as_slice(), 0, trimmed.len()),
    };
    proof {
        assert(trimmed@.subrange(0, trimmed@.len() as int) =~= trimmed@);
    }
    let ext: Vec<u8> = match rfind_byte(fname.as_slice(), fname.len(), 46u8) {
        Some(d) => sub_bytes(fname.as_slice(), d + 1, fname.len()),
        None => sub_bytes(fname.as_slice(), 0, fname.len()),
    };
    proof {
        assert(fname@.subrange(0, fname@.len() as int) =~= fname@);
    }
    let low = to_lower_ascii(ext.as_slice());
    let known = {
        let ls = low.as_slice();
        crate::bytes::bytes_eq(ls, "png".as_bytes_vec().as_slice()) || crate::bytes::bytes_eq(
            ls,
            "jpg".as_bytes_vec().as_slice(),
        ) || crate::bytes::bytes_eq(ls, "jpeg".as_bytes_vec().as_slice())
            || crate::bytes::bytes_eq(ls, "webp".as_bytes_vec().as_slice())
            || crate::bytes::bytes_eq(ls, "gif".as_bytes_vec().as_slice())
            || crate::bytes::bytes_eq(ls, "bmp".as_bytes_vec().as_slice())
            || crate::bytes::bytes_eq(ls, "tiff".as_bytes_vec().as_slice())
            || crate::bytes::bytes_eq(ls, "avif".as_bytes_vec().as_slice())
    };
    if known {
        Some(low)
    } else {
        None
    }
}

/// Extension for a fetched remote image that could not be transcoded: taken
/// from the response content type, then from the URL, with `jpg` as the
/// final fallback.
pub open spec fn content_type_ext(ct: Seq<u8>, url: Seq<u8>) -> Seq<u8> {
    if contains_seq(ct, ("image/png").spec_bytes()) {
        ("png").spec_bytes()
    } else if contains_seq(ct, ("image/webp").spec_bytes()) {
        ("webp").spec_bytes()
    } else if contains_seq(ct, ("image/gif").spec_bytes()) {
        ("gif").spec_bytes()
    } else if contains_seq(ct, ("image/jpeg").spec_bytes()) {
        ("jpg").spec_bytes()
    } else {
        match guess_ext_spec(url) {
            Some(e) => e,
            None => ("jpg").spec_bytes(),
        }
    }
}

fn content_type_ext_bytes(ct: &[u8], url: &[u8]) -> (r: Vec<u8>)
    ensures
        r@ == content_type_ext(ct@, url@),
{
    if contains_bytes(ct, "image/png".as_bytes_vec().as_slice()) {
        "png".as_bytes_vec()
    } else if contains_bytes(ct, "image/webp".as_bytes_vec().as_slice()) {
        "webp".as_bytes_vec()
    } else if contains_bytes(ct, "image/gif".as_bytes_vec().as_slice()) {
        "gif".as_bytes_vec()
    } else if contains_bytes(ct, "image/jpeg".as_bytes_vec().as_slice()) {
        "jpg".as_bytes_vec()
    } else {
        match guess_extension_from_url(url) {
            Some(e) => e,
            None => "jpg".as_bytes_vec(),
        }
    }
}

/// The role of a stored image within one document: the single cover, or an
/// inline image with its ordinal.
#[derive(Clone, Copy, PartialEq, Eq, Structural)]
pub enum ImageRole {
    Cover,
    Inline(usize),
}

/// The canonical filename of a stored image: `cover_<slug>.<ext>` for the
/// cover, `img_<slug>_<ordinal>.<ext>` for inline images. Being a function of
/// slug, role and extension alone is what makes repeated runs overwrite.
pub open spec fn image_filename(slug: Seq<u8>, role: ImageRole, ext: Seq<u8>) -> Seq<u8> {
    match role {
        ImageRole::Cover => ("cover_").spec_bytes() + slug + (".").spec_bytes() + ext,
        ImageRole::Inline(n) => ("img_").spec_bytes() + slug + ("_").spec_bytes() + dec_rep(
            n as nat,
        ) + (".").spec_bytes() + ext,
    }
}

pub fn build_image_filename(slug: &[u8], role: ImageRole, ext: &[u8]) -> (r: Vec<u8>)
    ensures
        r@ == image_filename(slug@, role, ext@),
{
    let mut out: Vec<u8>;
    match role {
        ImageRole::Cover => {
            out = "cover_".as_bytes_vec();
            out.extend_from_slice(slug);
        },
        ImageRole::Inline(n) => {
            out = "img_".as_bytes_vec();
            out.extend_from_slice(slug);
            let sep = "_".as_bytes_vec();
            out.extend_from_slice(sep.as_slice());
            let digits = usize_to_dec(n);
            out.extend_from_slice(digits.as_slice());
        },
    }
    let dot = ".".as_bytes_vec();
    out.extend_from_slice(dot.as_slice());
    out.extend_from_slice(ext);
    out
}

/// An image the pipeline decided to write, with its canonical filename.
pub struct StoredImage {
    pub filename: Vec<u8>,
    pub bytes: Vec<u8>,
}

/// Spec-level stored image.
pub struct StoredImageSpec {
    pub filename: Seq<u8>,
    pub bytes: Seq<u8>,
}

impl View for StoredImage {
    type V = StoredImageSpec;

    open spec fn view(&self) -> StoredImageSpec {
        StoredImageSpec { filename: self.filename@, bytes: self.bytes@ }
    }
}

/// A fetched remote image: the response content type and body.
pub struct FetchResponse {
    pub content_type: Vec<u8>,
    pub body: Vec<u8>,
}

/// Spec-level fetched response.
pub struct FetchResponseSpec {
    pub content_type: Seq<u8>,
    pub body: Seq<u8>,
}

impl View for FetchResponse {
    type V = FetchResponseSpec;

    open spec fn view(&self) -> FetchResponseSpec {
        FetchResponseSpec { content_type: self.content_type@, body: self.body@ }
    }
}

/// What storing an embedded data-URL image yields: the payload after the
/// first comma is base64-decoded (failure to split or decode fails the
/// reference); a decodable image is re-encoded as WebP (an encoding failure
/// fails the reference); undecodable payload bytes are stored as they are,
/// with an extension inferred from the MIME header.
pub open spec fn store_data_url_spec(url: Seq<u8>, slug: Seq<u8>, role: ImageRole) -> Option<
    StoredImageSpec,
> {
    match spec_find_byte(url, 0, 44u8) {
        None => None,
        Some(c) => {
            let header = url.subrange(0, c);
            let body = url.subrange(c + 1, url.len() as int);
            match base64_decoding(body) {
                None => None,
                Some(data) => if image_decodable(data) {
                    match webp_reencoding(data) {
                        Some(w) => Some(
                            StoredImageSpec {
                                filename: image_filename(slug, role, ("webp").spec_bytes()),
                                bytes: w,
                            },
                        ),
                        None => None,
                    }
                } else {
                    Some(
                        StoredImageSpec {
                            filename: image_filename(slug, role, data_header_ext(header)),
                            bytes: data,
                        },
                    )
                },
            }
        },
    }
}

/// The view of an optional stored image.
pub open spec fn stored_opt_view(r: Option<StoredImage>) -> Option<StoredImageSpec> {
    match r {
        Some(img) => Some(img@),
        None => None,
    }
}

/// Stores one embedded data-URL image under its canonical filename; `None`
/// is a per-reference failure and leaves the caller's markup untouched.
pub fn store_data_url_image(url: &[u8], slug: &[u8], role: ImageRole) -> (r: Option<StoredImage>)
    ensures
        stored_opt_view(r) == store_data_url_spec(url@, slug@, role),
{
    let c = match find_byte(url, 0, 44u8) {
        None => {
            return None;
        },
        Some(c) => c,
    };
    let n = url.len();
    let header = sub_bytes(url, 0, c);
    let body = sub_bytes(url, c + 1, n);
    let data = match decode_base64(body.as_slice()) {
        None => {
            return None;
        },
        Some(d) => d,
    };
    match transcode_to_webp(data.as_slice()) {
        TranscodeOutcome::Webp(w) => {
            let ext = "webp".as_bytes_vec();
            let filename = build_image_filename(slug, role, ext.as_slice());
            Some(StoredImage { filename, bytes: w })
        },
        TranscodeOutcome::Undecodable => {
            let ext = data_header_ext_bytes(header.as_slice());
            let filename = build_image_filename(slug, role, ext.as_slice());
            Some(StoredImage { filename, bytes: data })
        },
        TranscodeOutcome::EncodeFailed => None,
    }
}

/// What storing a fetched remote image yields: a failed fetch fails the
/// reference; a decodable body is re-encoded as WebP (an encoding failure
/// fails the reference); an undecodable body is stored as it is, with an
/// extension from the content type or URL.
pub open spec fn store_remote_spec(
    resp: Option<FetchResponseSpec>,
    url: Seq<u8>,
    slug: Seq<u8>,
    role: ImageRole,
) -> Option<StoredImageSpec> {
    match resp {
        None => None,
        Some(rsp) => if image_decodable(rsp.body) {
            match webp_reencoding(rsp.body) {
                Some(w) => Some(
                    StoredImageSpec {
                        filename: image_filename(slug, role, ("webp").spec_bytes()),
                        bytes: w,
                    },
                ),
                None => None,
            }
        } else {
            Some(
                StoredImageSpec {
                    filename: image_filename(slug, role, content_type_ext(rsp.content_type, url)),
                    bytes: rsp.body,
                },
            )
        },
    }
}

/// The view of an optional fetch response.
pub open spec fn resp_opt_view(r: &Option<FetchResponse>) -> Option<FetchResponseSpec> {
    match r {
        Some(rsp) => Some(rsp@),
        None => None,
    }
}

/// Stores one fetched remote image under its canonical filename; `None` is a
/// per-reference failure (the fetch failed, or re-encoding failed).
pub fn store_remote_image(resp: &Option<FetchResponse>, url: &[u8], slug: &[u8], role: ImageRole)
    -> (r: Option<StoredImage>)
    ensures
        stored_opt_view(r) == store_remote_spec(resp_opt_view(resp), url@, slug@, role),
{
    let rsp = match resp {
        None => {
            return None;
        },
        Some(rsp) => rsp,
    };
    match transcode_to_webp(rsp.body.as_slice()) {
        TranscodeOutcome::Webp(w) => {
            let ext = "webp".as_bytes_vec();
            let filename = build_image_filename(slug, role, ext.as_slice());
            Some(StoredImage { filename, bytes: w })
        },
        TranscodeOutcome::Undecodable => {
            let ext = content_type_ext_bytes(rsp.content_type.as_slice(), url);
            let filename = build_image_filename(slug, role, ext.as_slice());
            let bytes = rsp.body.clone();
            Some(StoredImage { filename, bytes })
        },
        TranscodeOutcome::EncodeFailed => None,
    }
}

} // verus!
