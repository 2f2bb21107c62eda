use vstd::prelude::*;

verus! {

#[verifier::external_type_specification]
#[verifier::external_body]
pub struct ExImageError(image::ImageError);

/// Length of the padded base64 text of `n` bytes.
pub open spec fn base64_len(n: nat) -> nat {
    4 * ((n + 2) / 3)
}

/// The standard padded base64 text of some bytes.
pub uninterp spec fn base64_of(b: Seq<u8>) -> Seq<char>;

/// The PNG file of an RGBA image of the given size.
pub uninterp spec fn png_of(width: u32, height: u32, rgba: Seq<u8>) -> Seq<u8>;

/// Relies on base64's `STANDARD` engine and its `encode`: the standard
/// alphabet with padding, four characters for each started group of three
/// bytes. It panics only when that length does not fit in `usize`.
#[verifier::external_body]
fn encode_base64(b: &[u8]) -> (r: String)
    requires
        base64_len(b@.len()) <= usize::MAX,
    ensures
        r@ == base64_of(b@),
        r@.len() == base64_len(b@.len()),
{
    base64::Engine::encode(&base64::engine::general_purpose::STANDARD, b)
}

/// Relies on image's `ImageBuffer::from_raw`, which accepts a buffer that
/// holds at least four bytes for each pixel, and on
/// `DynamicImage::write_to` with the PNG format, which encodes it. The PNG
/// encoder refuses only a zero width or height, and writing into a `Vec`
/// cannot fail.
#[verifier::external_body]
fn encode_png(width: u32, height: u32, rgba: Vec<u8>) -> (r: Result<Vec<u8>, image::ImageError>)
    requires
        4 * (width as int) * (height as int) <= rgba@.len(),
    ensures
        (width > 0 && height > 0) <==> (r is Ok),
        r matches Ok(p) ==> p@ == png_of(width, height, rgba@),
{
    let img = image::RgbaImage::from_raw(width, height, rgba).unwrap();
    let mut out: Vec<u8> = Vec::new();
    image::DynamicImage::ImageRgba8(img)
        .write_to(&mut std::io::Cursor::new(&mut out), image::ImageOutputFormat::Png)
        .map(|_| out)
}

/// Relies on `ToString` of `image::ImageError`, for the text of the error.
#[verifier::external_body]
fn image_error_text(e: &image::ImageError) -> (r: String) {
    e.to_string()
}

/// Why no screenshot could be produced.
#[derive(Clone, Debug)]
pub enum ScreenshotError {
    /// No display was found.
    NoScreens,
    /// The pixel buffer is smaller than its size says.
    BadBuffer,
    /// The image could not be encoded; the encoder's explanation.
    Encode(String),
}

impl ScreenshotError {
    /// The text reported to the server.
    pub fn message(&self) -> (r: String)
        ensures
            self matches ScreenshotError::NoScreens ==> r@ == "no screens found"@,
            self matches ScreenshotError::BadBuffer ==> r@ == "image buffer too small"@,
            self matches ScreenshotError::Encode(m) ==> r@ == m@,
    {
        match self {
            ScreenshotError::NoScreens => String::from_str("no screens found"),
            ScreenshotError::BadBuffer => String::from_str("image buffer too small"),
            ScreenshotError::Encode(m) => m.clone(),
        }
    }
}

/// The display to capture among `count`: the requested one when it exists,
/// the first one otherwise.
pub open spec fn display_for(count: nat, index: Option<usize>) -> nat {
    match index {
        Some(i) => if i < count {
            i as nat
        } else {
            0
        },
        None => 0,
    }
}

/// Picks the display to capture among `count` enumerated displays. An index
/// out of range, or none, selects the first display; with no display at all
/// there is nothing to capture.
pub fn select_display(count: usize, index: Option<usize>) -> (r: Result<usize, ScreenshotError>)
    ensures
        count == 0 <==> r is Err,
        r matches Err(e) ==> e is NoScreens,
        r matches Ok(i) ==> i as nat == display_for(count as nat, index) && i < count,
{
    if count == 0 {
        return Err(ScreenshotError::NoScreens);
    }
    match index {
        Some(i) if i < count => Ok(i),
        _ => Ok(0),
    }
}

/// Whether the PNG of an image is small enough for its base64 text to be
/// counted in `usize`.
pub open spec fn png_fits(width: u32, height: u32, rgba: Seq<u8>) -> bool {
    png_of(width, height, rgba).len() / 3 < usize::MAX / 4
}

/// Encodes a captured RGBA image as PNG and then as base64 text. A buffer
/// too small for its size is refused; an image of zero width or height
/// cannot be encoded; any other image gives its text, unless that text
/// would not fit in memory.
pub fn screenshot_text(width: u32, height: u32, rgba: Vec<u8>) -> (r: Result<String, ScreenshotError>)
    ensures
        4 * (width as int) * (height as int) > rgba@.len() <==> r matches Err(
            ScreenshotError::BadBuffer,
        ),
        4 * (width as int) * (height as int) <= rgba@.len() && width > 0 && height > 0 && png_fits(
            width,
            height,
            rgba@,
        ) ==> r is Ok,
        r matches Err(ScreenshotError::Encode(_)) ==> 4 * (width as int) * (height as int)
            <= rgba@.len() && !(width > 0 && height > 0 && png_fits(width, height, rgba@)),
        r matches Ok(s) ==> s@ == base64_of(png_of(width, height, rgba@)),
        !(r matches Err(ScreenshotError::NoScreens)),
{
    assert((width as int) * (height as int) <= 0xffff_ffffint * 0xffff_ffffint) by (nonlinear_arith)
        requires
            width <= 0xffff_ffffint,
            height <= 0xffff_ffffint,
    ;
    let pixels_count: u64 = (width as u64) * (height as u64);
    let room: u64 = (rgba.len() as u64) / 4;
    if pixels_count > room {
        assert(4 * (width as int) * (height as int) > rgba@.len()) by (nonlinear_arith)
            requires
                pixels_count == (width as int) * (height as int),
                pixels_count > room,
                room == rgba@.len() / 4,
        ;
        return Err(ScreenshotError::BadBuffer);
    }
    assert(4 * (width as int) * (height as int) <= rgba@.len()) by (nonlinear_arith)
        requires
            pixels_count == (width as int) * (height as int),
            pixels_count <= room,
            room == rgba@.len() / 4,
    ;
    match encode_png(width, height, rgba) {
        Ok(png) => {
            if png.len() / 3 >= usize::MAX / 4 {
                return Err(ScreenshotError::Encode(String::from_str("image too large")));
            }
            Ok(encode_base64(png.as_slice()))
        },
        Err(e) => Err(ScreenshotError::Encode(image_error_text(&e))),
    }
}

} // verus!
