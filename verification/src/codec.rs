use vstd::prelude::*;

use crate::errors::ShellError;

verus! {

/// The base64 rendering (standard alphabet, padded) of a byte sequence, as
/// `base64`'s general-purpose standard engine computes it. The result depends
/// on the bytes alone.
pub uninterp spec fn base64_chars_of(bytes: Seq<u8>) -> Seq<char>;

/// The PNG encoding of a `width` x `height` RGBA image, as the `image` crate
/// computes it for an 8-bit RGBA buffer. The result depends on the arguments
/// alone.
pub uninterp spec fn png_bytes_of(width: u32, height: u32, rgba: Seq<u8>) -> Seq<u8>;

/// The number of bytes in a square RGBA (or BGRA) pixel buffer of the given
/// edge length: four bytes per pixel.
pub open spec fn pixel_buffer_len(size: u32) -> nat {
    4 * (size as nat) * (size as nat)
}

/// An input longer than this is never handed to the base64 engine, which
/// keeps its output-length computation far from overflow.
pub const MAX_BASE64_INPUT_LEN: usize = 0x4000_0000;

/// Relies on `base64::engine::general_purpose::STANDARD.encode`: the standard
/// padded base64 rendering of the input bytes, a function of the bytes
/// alone, four output characters for every started group of three input
/// bytes. The length bound keeps the engine's output-size computation from
/// overflowing, the one input it refuses.
#[verifier::external_body]
fn base64_encode(bytes: &Vec<u8>) -> (r: String)
    requires
        bytes@.len() <= MAX_BASE64_INPUT_LEN,
    ensures
        r@ == base64_chars_of(bytes@),
        r@.len() == 4 * ((bytes@.len() + 2) / 3),
{
    <base64::engine::GeneralPurpose as base64::Engine>::encode(
        &base64::engine::general_purpose::STANDARD,
        bytes,
    )
}

/// Relies on `image::RgbaImage::from_raw` and `ImageBuffer::write_to`: a
/// buffer of exactly `size * size * 4` bytes becomes a square RGBA image,
/// and a successful write produces its PNG encoding, a function of the
/// arguments alone. For a nonzero size the write succeeds: a zero width or
/// height is the one thing the PNG encoder refuses for an exact-length
/// 8-bit RGBA buffer, and the in-memory cursor cannot fail.
#[verifier::external_body]
fn png_encode_square(size: u32, rgba: Vec<u8>) -> (r: Option<Vec<u8>>)
    requires
        rgba@.len() == pixel_buffer_len(size),
    ensures
        r matches Some(png) ==> png@ == png_bytes_of(size, size, rgba@),
        size >= 1 ==> r is Some,
{
    let img = image::RgbaImage::from_raw(size, size, rgba)?;
    let mut png: Vec<u8> = Vec::new();
    img.write_to(&mut std::io::Cursor::new(&mut png), image::ImageFormat::Png)
        .ok()?;
    Some(png)
}

/// A BGRA byte sequence with its red and blue channels exchanged, so an RGBA
/// sequence (and conversely: the exchange is its own inverse).
pub open spec fn swap_red_blue(s: Seq<u8>) -> Seq<u8> {
    Seq::new(
        s.len(),
        |i: int|
            if i % 4 == 0 {
                s[i + 2]
            } else if i % 4 == 2 {
                s[i - 2]
            } else {
                s[i]
            },
    )
}

/// Exchanging red and blue touches neither the green nor the alpha channel:
/// byte offsets 1 and 3 of every pixel come through unchanged.
pub proof fn lemma_swap_red_blue_preserves_green_alpha(s: Seq<u8>, i: int)
    requires
        0 <= i < s.len(),
        i % 4 == 1 || i % 4 == 3,
    ensures
        swap_red_blue(s)[i] == s[i],
{
}

/// Exchanging red and blue twice restores the original buffer.
pub proof fn lemma_swap_red_blue_involutive(s: Seq<u8>)
    requires
        s.len() % 4 == 0,
    ensures
        swap_red_blue(swap_red_blue(s)) == s,
{
    let t = swap_red_blue(swap_red_blue(s));
    assert forall|i: int| 0 <= i < s.len() implies t[i] == s[i] by {
        if i % 4 == 0 {
            assert((i + 2) % 4 == 2);
        } else if i % 4 == 2 {
            assert((i - 2) % 4 == 0);
        }
    }
    assert(t =~= s);
}

/// Reorders a BGRA pixel buffer (as a native surface stores it) into the
/// canonical RGBA layout by swapping the red and blue channel of every pixel.
pub fn bgra_to_rgba(bgra: &Vec<u8>) -> (r: Vec<u8>)
    requires
        bgra@.len() % 4 == 0,
    ensures
        r@ == swap_red_blue(bgra@),
{
    let n_bytes: usize = bgra.len();
    let n_pixels: usize = n_bytes / 4;
    let mut out: Vec<u8> = Vec::new();
    let mut p: usize = 0;
    while p < n_pixels
        invariant
            n_bytes == bgra@.len(),
            bgra@.len() % 4 == 0,
            n_pixels == bgra@.len() / 4,
            p <= n_pixels,
            out@.len() == 4 * p,
            forall|k: int| 0 <= k < 4 * p ==> out@[k] == swap_red_blue(bgra@)[k],
        decreases n_pixels - p,
    {
        proof {
            assert(4 * (p as int) + 4 <= 4 * (n_pixels as int));
            assert(4 * (n_pixels as int) == n_bytes as int);
        }
        let base: usize = 4 * p;
        out.push(bgra[base + 2]);
        out.push(bgra[base + 1]);
        out.push(bgra[base]);
        out.push(bgra[base + 3]);
        p = p + 1;
    }
    assert(out@ =~= swap_red_blue(bgra@));
    out
}

/// The portable form of an encoded image: the PNG bytes rendered as a
/// `data:` URI with a base64 payload.
pub open spec fn data_url_of(png: Seq<u8>) -> Seq<char> {
    "data:image/png;base64,"@ + base64_chars_of(png)
}

/// Encodes a square RGBA pixel buffer as a PNG image and wraps it as a
/// `data:image/png;base64,...` URL. For a nonzero size it fails - with
/// `EncodeError` - exactly when the PNG bytes outgrow the base64 input
/// bound.
pub fn encode_rgba_as_data_url(size: u32, rgba: Vec<u8>) -> (r: Result<String, ShellError>)
    requires
        rgba@.len() == pixel_buffer_len(size),
    ensures
        r matches Ok(url) ==> url@ == data_url_of(png_bytes_of(size, size, rgba@)),
        r matches Err(e) ==> e == ShellError::EncodeError,
        size >= 1 ==> ((r is Err) <==> png_bytes_of(size, size, rgba@).len()
            > MAX_BASE64_INPUT_LEN),
{
    let ghost rgba_view = rgba@;
    let png = match png_encode_square(size, rgba) {
        Some(png) => png,
        None => {
            return Err(ShellError::EncodeError);
        },
    };
    if png.len() > MAX_BASE64_INPUT_LEN {
        return Err(ShellError::EncodeError);
    }
    let payload = base64_encode(&png);
    let mut url = String::from_str("data:image/png;base64,");
    url.append(payload.as_str());
    assert(url@ == data_url_of(png_bytes_of(size, size, rgba_view)));
    Ok(url)
}

} // verus!
