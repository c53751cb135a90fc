use vstd::prelude::*;

use crate::model::Rectangle;

verus! {

/// Why a capture request failed.
#[derive(Debug, Clone, Copy, PartialEq, Eq, Structural)]
pub enum CaptureError {
    /// The requested width or height is zero.
    EmptyRegion,
    /// The display could not be reached.
    ConnectionFailure,
    /// The region's origin lies outside the screen.
    OutOfBoundsOrigin,
    /// The display refused the pixel request.
    RequestFailure,
}

/// Why an encode, decode or thumbnail step failed.
#[derive(Debug, Clone, Copy, PartialEq, Eq, Structural)]
pub enum EncodeError {
    /// The pixel buffer does not hold four bytes for each pixel.
    SizeMismatch,
    /// The codec could not read or write the image.
    CodecFailure,
}

/// The largest side of the thumbnails that the library makes.
pub const THUMBNAIL_SIZE: u32 = 150;

/// Four bytes per pixel, in reading order.
pub struct PixelBuffer {
    pub width: u32,
    pub height: u32,
    pub pixels: Vec<u8>,
}

/// Bytes of a buffer in red, green, blue, alpha order, made from one in blue,
/// green, red, alpha order; a trailing partial pixel is dropped.
pub open spec fn rgba_of_bgra(b: Seq<u8>) -> Seq<u8> {
    Seq::new(
        (b.len() / 4 * 4) as nat,
        |i: int|
            if i % 4 == 0 {
                b[i + 2]
            } else if i % 4 == 2 {
                b[i - 2]
            } else {
                b[i]
            },
    )
}

/// Reorders blue, green, red, alpha pixels into red, green, blue, alpha.
pub fn bgra_to_rgba(bgra: &[u8]) -> (r: Vec<u8>)
    ensures
        r@ == rgba_of_bgra(bgra@),
{
    let n = bgra.len();
    let whole = n / 4 * 4;
    let mut rgba: Vec<u8> = Vec::with_capacity(whole);
    let mut i: usize = 0;
    while i < whole
        invariant
            n == bgra@.len(),
            whole == n / 4 * 4,
            i % 4 == 0,
            i <= whole,
            rgba@.len() == i,
            forall|k: int| 0 <= k < i ==> rgba@[k] == #[trigger] rgba_of_bgra(bgra@)[k],
        decreases whole - i,
    {
        rgba.push(bgra[i + 2]);
        rgba.push(bgra[i + 1]);
        rgba.push(bgra[i]);
        rgba.push(bgra[i + 3]);
        proof {
            let s = rgba_of_bgra(bgra@);
            assert(s[i as int] == bgra@[i + 2]);
            assert(s[i + 1] == bgra@[i + 1]);
            assert(s[i + 2] == bgra@[i as int]);
            assert(s[i + 3] == bgra@[i + 3]);
        }
        i = i + 4;
    }
    assert(rgba@ =~= rgba_of_bgra(bgra@));
    rgba
}

/// The buffer with the alpha byte of every whole pixel set to fully opaque.
pub open spec fn opaque(b: Seq<u8>) -> Seq<u8> {
    Seq::new(b.len(), |i: int| if i % 4 == 3 && i < b.len() / 4 * 4 { 255u8 } else { b[i] })
}

/// Sets the alpha byte of every whole pixel to fully opaque.
pub fn normalize_alpha(pixels: &mut Vec<u8>)
    ensures
        final(pixels)@ == opaque(old(pixels)@),
{
    let n = pixels.len();
    let whole = n / 4 * 4;
    let mut i: usize = 0;
    while i < whole
        invariant
            n == old(pixels)@.len(),
            pixels@.len() == n,
            whole == n / 4 * 4,
            i % 4 == 0,
            i <= whole,
            forall|k: int| 0 <= k < i ==> pixels@[k] == #[trigger] opaque(old(pixels)@)[k],
            forall|k: int| i <= k < n ==> pixels@[k] == old(pixels)@[k],
        decreases whole - i,
    {
        pixels.set(i + 3, 255);
        i = i + 4;
    }
    assert(pixels@ =~= opaque(old(pixels)@));
}

/// Refuses a region with no area.
pub fn check_dimensions(width: u32, height: u32) -> (r: Result<(), CaptureError>)
    ensures
        r is Err <==> width == 0 || height == 0,
        r is Err ==> r->Err_0 == CaptureError::EmptyRegion,
{
    if width == 0 || height == 0 {
        Err(CaptureError::EmptyRegion)
    } else {
        Ok(())
    }
}

/// The part of a requested region that a screen can deliver.
pub open spec fn clamped_region(
    x: i32,
    y: i32,
    width: u32,
    height: u32,
    screen_width: u16,
    screen_height: u16,
) -> Result<Rectangle, CaptureError> {
    if width == 0 || height == 0 {
        Err(CaptureError::EmptyRegion)
    } else if x < 0 || y < 0 || x >= screen_width || y >= screen_height {
        Err(CaptureError::OutOfBoundsOrigin)
    } else {
        Ok(
            Rectangle {
                x,
                y,
                width: if width <= screen_width - x { width } else { (screen_width - x) as u32 },
                height: if height <= screen_height - y { height } else { (screen_height - y) as u32 },
            },
        )
    }
}

/// Checks a requested region against the screen and shrinks it so that it
/// ends within the screen.
pub fn clamp_region(
    x: i32,
    y: i32,
    width: u32,
    height: u32,
    screen_width: u16,
    screen_height: u16,
) -> (r: Result<Rectangle, CaptureError>)
    ensures
        r == clamped_region(x, y, width, height, screen_width, screen_height),
{
    check_dimensions(width, height)?;
    let sw = screen_width as i32;
    let sh = screen_height as i32;
    if x < 0 || y < 0 || x >= sw || y >= sh {
        return Err(CaptureError::OutOfBoundsOrigin);
    }
    let room_w = (sw - x) as u32;
    let room_h = (sh - y) as u32;
    let w = if width <= room_w { width } else { room_w };
    let h = if height <= room_h { height } else { room_h };
    Ok(Rectangle { x, y, width: w, height: h })
}

#[verifier::external_type_specification]
#[verifier::external_body]
pub struct ExImageError(image::ImageError);

/// The PNG file that the `image` crate writes for a red, green, blue, alpha
/// buffer of the given size, or `None` when it refuses to write one.
pub uninterp spec fn png_encoding(pixels: Seq<u8>, width: u32, height: u32) -> Option<Seq<u8>>;

/// The size and red, green, blue, alpha pixels that the `image` crate reads
/// from an encoded image, or `None` when it cannot read it.
pub uninterp spec fn decoded_image(bytes: Seq<u8>) -> Option<(u32, u32, Seq<u8>)>;

/// The pixels that Lanczos resampling with a radius of three gives when a
/// red, green, blue, alpha image is brought to a new size.
pub uninterp spec fn lanczos_resized(
    pixels: Seq<u8>,
    width: u32,
    height: u32,
    new_width: u32,
    new_height: u32,
) -> Seq<u8>;

/// Relies on `image::write_buffer_with_format` with `ExtendedColorType::Rgba8`
/// and `ImageFormat::Png`, into a byte vector: the PNG file, or the encoder's
/// error. The encoder panics unless the buffer holds exactly four bytes per
/// pixel.
#[verifier::external_body]
fn write_png(pixels: &[u8], width: u32, height: u32) -> (r: Result<Vec<u8>, image::ImageError>)
    requires
        pixels@.len() == width * height * 4,
    ensures
        r is Ok <==> png_encoding(pixels@, width, height) is Some,
        r is Ok ==> r->Ok_0@ == png_encoding(pixels@, width, height)->0,
{
    let mut out = std::io::Cursor::new(Vec::new());
    image::write_buffer_with_format(
        &mut out,
        pixels,
        width,
        height,
        image::ExtendedColorType::Rgba8,
        image::ImageFormat::Png,
    )?;
    Ok(out.into_inner())
}

/// Relies on `image::load_from_memory`, with the decoded image turned into
/// red, green, blue, alpha bytes by `DynamicImage::to_rgba8`.
#[verifier::external_body]
fn read_image(bytes: &[u8]) -> (r: Result<PixelBuffer, image::ImageError>)
    ensures
        r is Ok <==> decoded_image(bytes@) is Some,
        r is Ok ==> decoded_image(bytes@) == Some(
            (r->Ok_0.width, r->Ok_0.height, r->Ok_0.pixels@),
        ),
{
    let img = image::load_from_memory(bytes)?.to_rgba8();
    Ok(PixelBuffer { width: img.width(), height: img.height(), pixels: img.into_raw() })
}

/// Relies on `image::imageops::resize` with `FilterType::Lanczos3`: a new
/// buffer of exactly the requested size. It allocates a floating-point
/// buffer of `width * new_height` pixels on the way, which must fit.
#[verifier::external_body]
fn resample(pixels: &[u8], width: u32, height: u32, new_width: u32, new_height: u32) -> (r: Vec<u8>)
    requires
        pixels@.len() == width * height * 4,
        width * new_height * 16 <= isize::MAX,
        new_width * new_height * 4 <= isize::MAX,
    ensures
        r@ == lanczos_resized(pixels@, width, height, new_width, new_height),
        r@.len() == new_width * new_height * 4,
{
    let src = image::ImageBuffer::<image::Rgba<u8>, &[u8]>::from_raw(width, height, pixels)
        .expect("the buffer holds every pixel");
    image::imageops::resize(&src, new_width, new_height, image::imageops::FilterType::Lanczos3)
        .into_raw()
}

/// `a * b * k`, without overflow.
fn product(a: u32, b: u32, k: u32) -> (r: u128)
    ensures
        r == a * b * k,
        r <= 0xffff_ffff_ffff_ffff * 0xffff_ffff,
{
    assert(a * b <= 0xffff_ffff_ffff_ffff) by (nonlinear_arith)
        requires
            a <= 0xffff_ffff,
            b <= 0xffff_ffff,
    ;
    let ab: u128 = (a as u128) * (b as u128);
    assert(ab * (k as u128) <= 0xffff_ffff_ffff_ffff * 0xffff_ffff) by (nonlinear_arith)
        requires
            ab <= 0xffff_ffff_ffff_ffff,
            k <= 0xffff_ffff,
    ;
    ab * (k as u128)
}

/// Encodes red, green, blue, alpha pixels as a PNG file.
pub fn encode_png(rgba: &[u8], width: u32, height: u32) -> (r: Result<Vec<u8>, EncodeError>)
    ensures
        rgba@.len() != width * height * 4 ==> r == Err::<Vec<u8>, EncodeError>(
            EncodeError::SizeMismatch,
        ),
        rgba@.len() == width * height * 4 ==> match png_encoding(rgba@, width, height) {
            Some(png) => r is Ok && r->Ok_0@ == png,
            None => r == Err::<Vec<u8>, EncodeError>(EncodeError::CodecFailure),
        },
{
    let expected: u128 = product(width, height, 4);
    if rgba.len() as u128 != expected {
        return Err(EncodeError::SizeMismatch);
    }
    match write_png(rgba, width, height) {
        Ok(png) => Ok(png),
        Err(_) => Err(EncodeError::CodecFailure),
    }
}

/// The pixel buffer that decoding gives, when it holds four bytes per pixel.
pub open spec fn decoded_pixels(bytes: Seq<u8>) -> Option<(u32, u32, Seq<u8>)> {
    match decoded_image(bytes) {
        Some((w, h, px)) => if px.len() == w * h * 4 {
            Some((w, h, px))
        } else {
            None
        },
        None => None,
    }
}

/// Decodes an encoded image into red, green, blue, alpha pixels.
pub fn decode_image(bytes: &[u8]) -> (r: Result<PixelBuffer, EncodeError>)
    ensures
        match decoded_pixels(bytes@) {
            Some((w, h, px)) => r is Ok && r->Ok_0.width == w && r->Ok_0.height == h
                && r->Ok_0.pixels@ == px,
            None => r is Err && r->Err_0 == EncodeError::CodecFailure,
        },
        r is Ok ==> r->Ok_0.pixels@.len() == r->Ok_0.width * r->Ok_0.height * 4,
{
    match read_image(bytes) {
        Ok(img) => {
            let expected: u128 = product(img.width, img.height, 4);
            if img.pixels.len() as u128 != expected {
                Err(EncodeError::CodecFailure)
            } else {
                Ok(img)
            }
        },
        Err(_) => Err(EncodeError::CodecFailure),
    }
}

/// `side * target / other`, rounded to the nearest whole number with halves
/// going up, and at least one.
pub open spec fn scaled_side(side: int, other: int, target: int) -> int {
    let s = (2 * side * target + other) / (2 * other);
    if s < 1 {
        1
    } else {
        s
    }
}

/// The size of a thumbnail: the image scaled, aspect ratio kept, so that its
/// larger side is `max_side`; no side is ever below one.
pub open spec fn thumbnail_size(width: u32, height: u32, max_side: u32) -> (u32, u32) {
    let target: int = if max_side < 1 { 1 } else { max_side as int };
    if width == 0 || height == 0 {
        (width, height)
    } else if width >= height {
        (target as u32, scaled_side(height as int, width as int, max_side as int) as u32)
    } else {
        (scaled_side(width as int, height as int, max_side as int) as u32, target as u32)
    }
}

proof fn lemma_scaled_side_bound(side: int, other: int, target: int)
    requires
        0 < side <= other,
        0 <= target,
    ensures
        (2 * side * target + other) / (2 * other) <= target,
{
    assert(2 * side * target + other < (2 * other) * (target + 1)) by (nonlinear_arith)
        requires
            0 < side <= other,
            0 <= target,
    ;
    vstd::arithmetic::div_mod::lemma_multiply_divide_lt(
        2 * side * target + other,
        2 * other,
        target + 1,
    );
}

fn scale_side(side: u32, other: u32, target: u32) -> (r: u32)
    requires
        0 < side <= other,
    ensures
        r == scaled_side(side as int, other as int, target as int),
{
    let num: u128 = product(side, target, 2) + (other as u128);
    let den: u128 = 2 * (other as u128);
    let s = num / den;
    proof {
        assert(side * target * 2 == 2 * side * target) by (nonlinear_arith);
        lemma_scaled_side_bound(side as int, other as int, target as int);
    }
    if s < 1 {
        1
    } else {
        s as u32
    }
}

/// The size of the thumbnail of an image of the given size.
pub fn thumbnail_dimensions(width: u32, height: u32, max_side: u32) -> (r: (u32, u32))
    ensures
        r == thumbnail_size(width, height, max_side),
{
    let target = if max_side < 1 { 1 } else { max_side };
    if width == 0 || height == 0 {
        (width, height)
    } else if width >= height {
        (target, scale_side(height, width, max_side))
    } else {
        (scale_side(width, height, max_side), target)
    }
}

/// The resampling fits in memory.
pub open spec fn resample_fits(width: u32, new_width: u32, new_height: u32) -> bool {
    width * new_height * 16 <= isize::MAX && new_width * new_height * 4 <= isize::MAX
}

/// The encoded thumbnail of an encoded image, or `None` where a step fails.
pub open spec fn thumbnail_of(bytes: Seq<u8>, max_side: u32) -> Option<Seq<u8>> {
    match decoded_pixels(bytes) {
        Some((w, h, px)) => {
            let (nw, nh) = thumbnail_size(w, h, max_side);
            if resample_fits(w, nw, nh) {
                png_encoding(lanczos_resized(px, w, h, nw, nh), nw, nh)
            } else {
                None
            }
        },
        None => None,
    }
}

/// Decodes an image, scales it so that its larger side is `max_size` with
/// the aspect ratio kept, and encodes the result as a PNG file.
pub fn create_thumbnail(bytes: &[u8], max_size: u32) -> (r: Result<Vec<u8>, EncodeError>)
    ensures
        match thumbnail_of(bytes@, max_size) {
            Some(t) => r is Ok && r->Ok_0@ == t,
            None => r == Err::<Vec<u8>, EncodeError>(EncodeError::CodecFailure),
        },
{
    let img = decode_image(bytes)?;
    let (nw, nh) = thumbnail_dimensions(img.width, img.height, max_size);
    let wide: u128 = product(img.width, nh, 16);
    let out: u128 = product(nw, nh, 4);
    if wide > isize::MAX as u128 || out > isize::MAX as u128 {
        return Err(EncodeError::CodecFailure);
    }
    let small = resample(img.pixels.as_slice(), img.width, img.height, nw, nh);
    match write_png(small.as_slice(), nw, nh) {
        Ok(png) => Ok(png),
        Err(_) => Err(EncodeError::CodecFailure),
    }
}

/// The thumbnail kept with an encoded image: empty when none can be made.
pub open spec fn thumbnail_or_empty(png: Seq<u8>) -> Seq<u8> {
    match thumbnail_of(png, THUMBNAIL_SIZE) {
        Some(t) => t,
        None => Seq::empty(),
    }
}

/// The thumbnail of an encoded image, or an empty buffer when none can be
/// made.
pub fn thumbnail_or_default(png: &[u8]) -> (r: Vec<u8>)
    ensures
        r@ == thumbnail_or_empty(png@),
{
    match create_thumbnail(png, THUMBNAIL_SIZE) {
        Ok(t) => t,
        Err(_) => Vec::new(),
    }
}

/// A captured screen region, ready to be copied and stored.
pub struct Screenshot {
    /// The pixels in red, green, blue, alpha order.
    pub rgba: Vec<u8>,
    /// The pixels as a PNG file.
    pub png: Vec<u8>,
    /// A small PNG of the capture; empty when none could be made.
    pub thumbnail: Vec<u8>,
}

/// Turns captured blue, green, red, alpha pixels into what is copied and
/// stored: the reordered pixels, their PNG encoding and its thumbnail.
pub fn prepare_screenshot(bgra: &[u8], width: u32, height: u32) -> (r: Result<Screenshot, EncodeError>)
    ensures
        rgba_of_bgra(bgra@).len() != width * height * 4 ==> r == Err::<Screenshot, EncodeError>(
            EncodeError::SizeMismatch,
        ),
        rgba_of_bgra(bgra@).len() == width * height * 4 ==> match png_encoding(
            rgba_of_bgra(bgra@),
            width,
            height,
        ) {
            Some(png) => r is Ok && r->Ok_0.rgba@ == rgba_of_bgra(bgra@) && r->Ok_0.png@ == png
                && r->Ok_0.thumbnail@ == thumbnail_or_empty(png),
            None => r == Err::<Screenshot, EncodeError>(EncodeError::CodecFailure),
        },
{
    let rgba = bgra_to_rgba(bgra);
    let png = encode_png(rgba.as_slice(), width, height)?;
    let thumbnail = thumbnail_or_default(png.as_slice());
    Ok(Screenshot { rgba, png, thumbnail })
}

} // verus!
