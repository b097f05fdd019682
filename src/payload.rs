//! The transport form of a rendered page: a PNG image as a base64 data URI.
use crate::error::RenderError;
use base64::Engine;
use vstd::prelude::*;

verus! {

/// The standard base64 alphabet (RFC 4648, section 4).
pub open spec fn base64_alphabet() -> Seq<char> {
    seq!['A', 'B', 'C', 'D', 'E', 'F', 'G', 'H', 'I', 'J', 'K', 'L', 'M', 'N', 'O', 'P', 'Q', 'R', 'S', 'T', 'U', 'V', 'W', 'X', 'Y', 'Z', 'a', 'b', 'c', 'd', 'e', 'f', 'g', 'h', 'i', 'j', 'k', 'l', 'm', 'n', 'o', 'p', 'q', 'r', 's', 't', 'u', 'v', 'w', 'x', 'y', 'z', '0', '1', '2', '3', '4', '5', '6', '7', '8', '9', '+', '/']
}

/// The base64 digit for the six-bit value `v`.
pub open spec fn base64_digit(v: int) -> char {
    base64_alphabet()[v]
}

/// Standard base64 with padding: each group of three bytes becomes four
/// digits of six bits each; a last group of one or two bytes becomes two or
/// three digits followed by `=` to four characters.
pub open spec fn base64_of(b: Seq<u8>) -> Seq<char>
    decreases b.len(),
{
    if b.len() == 0 {
        Seq::empty()
    } else if b.len() == 1 {
        seq![base64_digit((b[0] as int) / 4), base64_digit(((b[0] as int) % 4) * 16), '=', '=']
    } else if b.len() == 2 {
        seq![
            base64_digit((b[0] as int) / 4),
            base64_digit(((b[0] as int) % 4) * 16 + (b[1] as int) / 16),
            base64_digit(((b[1] as int) % 16) * 4),
            '=',
        ]
    } else {
        seq![
            base64_digit((b[0] as int) / 4),
            base64_digit(((b[0] as int) % 4) * 16 + (b[1] as int) / 16),
            base64_digit(((b[1] as int) % 16) * 4 + (b[2] as int) / 64),
            base64_digit((b[2] as int) % 64),
        ] + base64_of(b.subrange(3, b.len() as int))
    }
}

/// Relies on base64's `STANDARD` engine `encode`: the standard alphabet, with
/// padding.
#[verifier::external_body]
pub(crate) fn base64_encode(bytes: &Vec<u8>) -> (r: String)
    ensures
        r@ == base64_of(bytes@),
{
    base64::engine::general_purpose::STANDARD.encode(bytes)
}

/// The eight bytes that open every PNG file.
pub open spec fn png_signature() -> Seq<u8> {
    seq![0x89u8, 0x50u8, 0x4eu8, 0x47u8, 0x0du8, 0x0au8, 0x1au8, 0x0au8]
}

/// The big-endian 32-bit number in `b` at `i .. i + 4`.
pub open spec fn be_u32_at(b: Seq<u8>, i: int) -> int {
    b[i] * 0x1000000 + b[i + 1] * 0x10000 + b[i + 2] * 0x100 + b[i + 3]
}

/// `b` opens as a PNG file whose header chunk (IHDR, the first chunk) gives
/// an image of `width` by `height` pixels.
pub open spec fn png_header_says(b: Seq<u8>, width: u32, height: u32) -> bool {
    &&& b.len() >= 24
    &&& b.subrange(0, 8) == png_signature()
    &&& be_u32_at(b, 16) == width
    &&& be_u32_at(b, 20) == height
}

/// What stands before the encoded image in a payload.
pub open spec fn png_uri_prefix() -> Seq<char> {
    "data:image/png;base64,"@
}

/// The payload that carries a PNG whose base64 text is `encoded`.
pub open spec fn png_data_uri_spec(encoded: Seq<char>) -> Seq<char> {
    png_uri_prefix() + encoded
}

/// A rendered page, ready for transport.
#[derive(Debug, PartialEq, Eq)]
pub struct RenderedPage {
    pub image_data: String,
    pub width: u32,
    pub height: u32,
    pub page_num: usize,
}

/// Wraps the base64 text of a PNG as a data URI.
pub fn png_data_uri(encoded: &str) -> (r: String)
    ensures
        r@ == png_data_uri_spec(encoded@),
{
    let mut uri = String::from_str("data:image/png;base64,");
    uri.append(encoded);
    proof {
        reveal_strlit("data:image/png;base64,");
    }
    uri
}

/// The rendered page for a bitmap of `width` by `height` pixels whose PNG
/// encoding has the base64 text `encoded`. An empty bitmap is no image.
pub fn assemble_page(page_num: usize, width: u32, height: u32, encoded: &str) -> (r: Result<
    RenderedPage,
    RenderError,
>)
    ensures
        (width == 0 || height == 0) <==> r is Err,
        r is Err ==> (r->Err_0 matches RenderError::RasterizationFailed { page_num: n, .. } && n
            == page_num),
        r matches Ok(pg) ==> {
            &&& pg.image_data@ == png_data_uri_spec(encoded@)
            &&& pg.width == width
            &&& pg.height == height
            &&& pg.page_num == page_num
        },
{
    if width == 0 || height == 0 {
        return Err(
            RenderError::RasterizationFailed {
                page_num,
                cause: String::from_str("the engine produced an empty bitmap"),
            },
        );
    }
    Ok(RenderedPage { image_data: png_data_uri(encoded), width, height, page_num })
}

} // verus!
