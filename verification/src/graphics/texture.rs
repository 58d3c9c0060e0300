use vstd::prelude::*;

verus! {

/// Message of the error for bytes that are no picture.
pub const UNDECODABLE: &'static str = "texture data is not a decodable PNG image";

/// Largest extent, plus one, that the size of a texture can express.
pub const SIZE_LIMIT: u32 = 65_536;

/// Size of a two-dimensional texture as the renderer takes it.
#[derive(Clone, Copy, Debug, PartialEq, Eq, Structural)]
pub struct TextureKind {
    pub width: u16,
    pub height: u16,
}

/// A decoded picture: its extent in pixels and its pixels, row by row, four
/// bytes each (red, green, blue, alpha).
#[derive(Clone, Debug, PartialEq, Eq)]
pub struct TextureData {
    pub width: u32,
    pub height: u32,
    pub pixels: Vec<u8>,
    /// The extent as the renderer takes it: without the bits that a 16-bit
    /// size cannot hold.
    pub kind: TextureKind,
}

/// What a PNG decoder makes of `data`: width, height and the pixels as 8-bit
/// RGBA, or `None` where `data` is no PNG image that it decodes.
pub uninterp spec fn png_rgba8(data: Seq<u8>) -> Option<(u32, u32, Seq<u8>)>;

/// A decoded picture with its pixels as a sequence.
pub open spec fn decoded_view(r: Option<(u32, u32, Vec<u8>)>) -> Option<(u32, u32, Seq<u8>)> {
    match r {
        Some(d) => Some((d.0, d.1, d.2@)),
        None => None,
    }
}

/// Decodes a PNG image with `image::load`, turns it into 8-bit RGBA with
/// `DynamicImage::to_rgba8`, and takes its extent and its bytes with
/// `ImageBuffer::dimensions` and `ImageBuffer::into_raw`. An image that
/// `image::load` refuses gives `None`.
///
/// Trusted: the result is a function of the bytes alone, which the contract
/// names `png_rgba8`. Nothing is claimed of what that function is.
#[verifier::external_body]
fn decode_png(data: &[u8]) -> (r: Option<(u32, u32, Vec<u8>)>)
    ensures
        decoded_view(r) == png_rgba8(data@),
{
    let decoded = image::load(std::io::Cursor::new(data), image::ImageFormat::Png).ok()?;
    let rgba = decoded.to_rgba8();
    let (width, height) = rgba.dimensions();
    Some((width, height, rgba.into_raw()))
}

/// The extent `extent` as a texture size holds it.
pub open spec fn size_of(extent: u32) -> u16 {
    (extent % SIZE_LIMIT) as u16
}

/// Exec form of `size_of`.
pub fn texture_size(extent: u32) -> (s: u16)
    ensures
        s == size_of(extent),
        extent < SIZE_LIMIT ==> s == extent,
{
    (extent % SIZE_LIMIT) as u16
}

/// The texture made of a decoded picture.
pub fn texture_of(width: u32, height: u32, pixels: Vec<u8>) -> (t: TextureData)
    ensures
        t.width == width,
        t.height == height,
        t.pixels == pixels,
        t.kind == (TextureKind { width: size_of(width), height: size_of(height) }),
{
    TextureData {
        width,
        height,
        pixels,
        kind: TextureKind { width: texture_size(width), height: texture_size(height) },
    }
}

/// Decodes the PNG image `data` into a texture.
///
/// The result is `Ok` exactly when the decoder accepts `data`; it then holds
/// what the decoder made of it, and the texture kind of that extent.
pub fn load_texture(data: &[u8]) -> (r: Result<TextureData, String>)
    ensures
        r.is_ok() <==> png_rgba8(data@).is_some(),
        r matches Ok(t) ==> {
            &&& t.width == png_rgba8(data@).unwrap().0
            &&& t.height == png_rgba8(data@).unwrap().1
            &&& t.pixels@ == png_rgba8(data@).unwrap().2
            &&& t.kind == (TextureKind { width: size_of(t.width), height: size_of(t.height) })
        },
        r matches Err(e) ==> e@ == UNDECODABLE@,
{
    match decode_png(data) {
        Some((width, height, pixels)) => Ok(texture_of(width, height, pixels)),
        None => Err(UNDECODABLE.to_owned()),
    }
}

} // verus!
