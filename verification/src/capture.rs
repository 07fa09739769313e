//! The screenshot as an 8-bit RGBA image: decoding the PNG the screenshot
//! tool writes and widening its pixels to four channels.

use png::{ColorType, Decoder, DecodingError, Transformations};
use std::io::Cursor;
use vstd::prelude::*;

verus! {

/// A screenshot: `width` x `height` pixels, four bytes (R, G, B, A) each,
/// row after row.
pub struct Rgba8Image {
    pub width: u32,
    pub height: u32,
    pub data: Vec<u8>,
}

/// How the samples of a decoded PNG frame are laid out per pixel.
#[derive(Clone, Copy, Debug, PartialEq, Eq)]
pub enum PixelLayout {
    Grayscale,
    Rgb,
    Indexed,
    GrayscaleAlpha,
    Rgba,
}

#[verifier::external_type_specification]
#[verifier::external_body]
pub struct ExDecodingError(png::DecodingError);

/// One decoded PNG frame: its pixel layout, size and the output buffer cut to
/// the frame's byte size.
pub struct PngFrame {
    pub layout: PixelLayout,
    pub width: u32,
    pub height: u32,
    pub samples: Vec<u8>,
}

impl View for PngFrame {
    type V = (PixelLayout, u32, u32, Seq<u8>);

    open spec fn view(&self) -> (PixelLayout, u32, u32, Seq<u8>) {
        (self.layout, self.width, self.height, self.samples@)
    }
}

/// The first frame that the `png` crate decodes from the file bytes `png`
/// when asked to expand palettes and low bit depths and to strip 16-bit
/// samples to 8 bits: its layout, width, height and samples; `None` when
/// decoding fails.
pub uninterp spec fn png_first_frame(png: Seq<u8>) -> Option<(PixelLayout, u32, u32, Seq<u8>)>;

/// Samples per pixel of an 8-bit frame of the given layout.
pub open spec fn layout_channels(layout: PixelLayout) -> nat {
    match layout {
        PixelLayout::Grayscale => 1,
        PixelLayout::Rgb => 3,
        PixelLayout::Indexed => 1,
        PixelLayout::GrayscaleAlpha => 2,
        PixelLayout::Rgba => 4,
    }
}

/// Decodes the first frame of a PNG file with the `png` crate:
/// `png::Decoder::new` over the bytes, `set_transformations(EXPAND | STRIP_16)`,
/// `read_info`, a buffer of `Reader::output_buffer_size` bytes (absent only
/// when the frame cannot fit the address space, which is reported as
/// `LimitsExceeded`, as `next_frame` itself does), `Reader::next_frame`, the
/// buffer cut to `OutputInfo::buffer_size`, and the frame's `png::ColorType`
/// told apart variant by variant.
///
/// The contract claims that the outcome is a function of the bytes alone,
/// named `png_first_frame`, and that success and failure agree with it. Of a
/// decoded frame it claims what `Reader::output_color_type` and
/// `OutputInfo::buffer_size` show for these transformations: palettes are
/// expanded (never `Indexed`), samples are 8 bits, so the buffer holds
/// exactly `width * height * channels` bytes (the frame lies within the image,
/// so `next_frame` has filled that much). It says nothing of the sample
/// values. An image whose buffer cannot be allocated does not return.
#[verifier::external_body]
fn decode_png_frame(png: &[u8]) -> (res: Result<PngFrame, png::DecodingError>)
    ensures
        match res {
            Ok(frame) => png_first_frame(png@) == Some(frame@),
            Err(_) => png_first_frame(png@) is None,
        },
        res matches Ok(frame) ==> frame.layout != PixelLayout::Indexed,
        res matches Ok(frame) ==> frame.samples@.len() == frame.width * frame.height
            * layout_channels(frame.layout),
{
    let mut decoder = Decoder::new(Cursor::new(png));
    decoder.set_transformations(Transformations::EXPAND | Transformations::STRIP_16);
    let mut reader = decoder.read_info()?;
    let mut samples = vec![0u8; reader.output_buffer_size().ok_or(DecodingError::LimitsExceeded)?];
    let info = reader.next_frame(&mut samples)?;
    samples.truncate(info.buffer_size());
    let layout = match info.color_type {
        ColorType::Grayscale => PixelLayout::Grayscale,
        ColorType::Rgb => PixelLayout::Rgb,
        ColorType::Indexed => PixelLayout::Indexed,
        ColorType::GrayscaleAlpha => PixelLayout::GrayscaleAlpha,
        ColorType::Rgba => PixelLayout::Rgba,
    };
    Ok(PngFrame { layout, width: info.width, height: info.height, samples })
}

/// Three-channel RGB samples widened to RGBA with full alpha; a trailing
/// partial pixel is dropped.
pub open spec fn rgb_to_rgba(s: Seq<u8>) -> Seq<u8> {
    Seq::new(
        (s.len() / 3 * 4) as nat,
        |i: int| if i % 4 == 3 { 255u8 } else { s[(i / 4) * 3 + i % 4] },
    )
}

/// Grey samples widened to RGBA: the grey value in all three colour
/// channels, full alpha.
pub open spec fn gray_to_rgba(s: Seq<u8>) -> Seq<u8> {
    Seq::new((s.len() * 4) as nat, |i: int| if i % 4 == 3 { 255u8 } else { s[i / 4] })
}

/// Grey-and-alpha samples widened to RGBA, keeping the alpha; a trailing
/// partial pixel is dropped.
pub open spec fn gray_alpha_to_rgba(s: Seq<u8>) -> Seq<u8> {
    Seq::new(
        (s.len() / 2 * 4) as nat,
        |i: int| if i % 4 == 3 { s[(i / 4) * 2 + 1] } else { s[(i / 4) * 2] },
    )
}

/// The RGBA samples for decoded samples of the given layout; `None` for a
/// layout that is not converted (palette indices).
pub open spec fn spec_rgba_samples(layout: PixelLayout, s: Seq<u8>) -> Option<Seq<u8>> {
    match layout {
        PixelLayout::Rgba => Some(s),
        PixelLayout::Rgb => Some(rgb_to_rgba(s)),
        PixelLayout::Grayscale => Some(gray_to_rgba(s)),
        PixelLayout::GrayscaleAlpha => Some(gray_alpha_to_rgba(s)),
        PixelLayout::Indexed => None,
    }
}

fn widen_rgb(s: &[u8]) -> (out: Vec<u8>)
    ensures
        out@ == rgb_to_rgba(s@),
{
    let len = s.len();
    let n = len / 3;
    assert(3 * n <= len) by (nonlinear_arith)
        requires n == len / 3;
    let mut out: Vec<u8> = Vec::new();
    let mut p: usize = 0;
    while p < n
        invariant
            len == s@.len(),
            n == s@.len() / 3,
            3 * n <= len,
            p <= n,
            out@.len() == p * 4,
            forall|i: int| 0 <= i < p * 4 ==> out@[i] == rgb_to_rgba(s@)[i],
        decreases n - p,
    {
        out.push(s[3 * p]);
        out.push(s[3 * p + 1]);
        out.push(s[3 * p + 2]);
        out.push(255);
        p = p + 1;
    }
    assert(out@ =~= rgb_to_rgba(s@));
    out
}

fn widen_gray(s: &[u8]) -> (out: Vec<u8>)
    ensures
        out@ == gray_to_rgba(s@),
{
    let n = s.len();
    let mut out: Vec<u8> = Vec::new();
    let mut p: usize = 0;
    while p < n
        invariant
            n == s@.len(),
            p <= n,
            out@.len() == p * 4,
            forall|i: int| 0 <= i < p * 4 ==> out@[i] == gray_to_rgba(s@)[i],
        decreases n - p,
    {
        let g = s[p];
        out.push(g);
        out.push(g);
        out.push(g);
        out.push(255);
        p = p + 1;
    }
    assert(out@ =~= gray_to_rgba(s@));
    out
}

fn widen_gray_alpha(s: &[u8]) -> (out: Vec<u8>)
    ensures
        out@ == gray_alpha_to_rgba(s@),
{
    let len = s.len();
    let n = len / 2;
    assert(2 * n <= len) by (nonlinear_arith)
        requires n == len / 2;
    let mut out: Vec<u8> = Vec::new();
    let mut p: usize = 0;
    while p < n
        invariant
            len == s@.len(),
            n == s@.len() / 2,
            2 * n <= len,
            p <= n,
            out@.len() == p * 4,
            forall|i: int| 0 <= i < p * 4 ==> out@[i] == gray_alpha_to_rgba(s@)[i],
        decreases n - p,
    {
        let g = s[2 * p];
        out.push(g);
        out.push(g);
        out.push(g);
        out.push(s[2 * p + 1]);
        p = p + 1;
    }
    assert(out@ =~= gray_alpha_to_rgba(s@));
    out
}

/// Widens decoded samples of the given layout to RGBA; `None` for palette
/// indices, which are not converted.
pub fn rgba_samples(layout: PixelLayout, samples: Vec<u8>) -> (res: Option<Vec<u8>>)
    ensures
        match res {
            Some(v) => spec_rgba_samples(layout, samples@) == Some(v@),
            None => spec_rgba_samples(layout, samples@) is None,
        },
{
    match layout {
        PixelLayout::Rgba => Some(samples),
        PixelLayout::Rgb => Some(widen_rgb(samples.as_slice())),
        PixelLayout::Grayscale => Some(widen_gray(samples.as_slice())),
        PixelLayout::GrayscaleAlpha => Some(widen_gray_alpha(samples.as_slice())),
        PixelLayout::Indexed => None,
    }
}

/// Why a screenshot could not be turned into an RGBA image.
#[derive(Debug)]
pub enum CaptureError {
    /// The PNG data could not be decoded.
    Decode(png::DecodingError),
    /// The decoded frame has a layout that is not converted.
    UnsupportedColorFormat,
}

/// The RGBA image `(width, height, data)` for a decoded frame; `None` when
/// its layout is not converted.
pub open spec fn spec_image_from_frame(frame: (PixelLayout, u32, u32, Seq<u8>)) -> Option<(u32, u32, Seq<u8>)> {
    match spec_rgba_samples(frame.0, frame.3) {
        Some(data) => Some((frame.1, frame.2, data)),
        None => None,
    }
}

/// The result for a decoded frame agrees with `spec_image_from_frame`.
pub open spec fn image_result_matches(
    frame: (PixelLayout, u32, u32, Seq<u8>),
    res: Result<Rgba8Image, CaptureError>,
) -> bool {
    match res {
        Ok(img) => spec_image_from_frame(frame) == Some((img.width, img.height, img.data@)),
        Err(e) => e is UnsupportedColorFormat && spec_image_from_frame(frame) is None,
    }
}

/// Turns a decoded PNG frame into an RGBA image of the same size.
pub fn image_from_frame(frame: PngFrame) -> (res: Result<Rgba8Image, CaptureError>)
    ensures
        image_result_matches(frame@, res),
{
    match rgba_samples(frame.layout, frame.samples) {
        Some(data) => Ok(Rgba8Image { width: frame.width, height: frame.height, data }),
        None => Err(CaptureError::UnsupportedColorFormat),
    }
}

/// Decodes the PNG screenshot `png` into an RGBA image.
pub fn screenshot_from_png(png: &[u8]) -> (res: Result<Rgba8Image, CaptureError>)
    ensures
        match png_first_frame(png@) {
            None => res matches Err(CaptureError::Decode(_)),
            Some(frame) => image_result_matches(frame, res),
        },
        !(res matches Err(CaptureError::UnsupportedColorFormat)),
        res matches Ok(img) ==> img.data@.len() == 4 * img.width * img.height,
{
    match decode_png_frame(png) {
        Ok(frame) => {
            proof {
                lemma_whole_frame_size(frame@);
            }
            image_from_frame(frame)
        },
        Err(e) => Err(CaptureError::Decode(e)),
    }
}

/// A frame that is not palette-indexed and holds whole pixels widens to an
/// image of exactly four bytes per pixel.
pub proof fn lemma_whole_frame_size(frame: (PixelLayout, u32, u32, Seq<u8>))
    requires
        frame.0 != PixelLayout::Indexed,
        frame.3.len() == frame.1 * frame.2 * layout_channels(frame.0),
    ensures
        spec_image_from_frame(frame) matches Some(img) && img.2.len() == 4 * frame.1 * frame.2,
{
    let n = frame.1 * frame.2;
    assert(n >= 0) by (nonlinear_arith)
        requires n == frame.1 * frame.2;
    assert(n * 3 / 3 == n) by (nonlinear_arith)
        requires n >= 0;
    assert(n * 2 / 2 == n) by (nonlinear_arith)
        requires n >= 0;
    assert(n * 3 / 3 * 4 == 4 * n);
    assert(4 * n == 4 * frame.1 * frame.2) by (nonlinear_arith)
        requires n == frame.1 * frame.2;
}

/// Every converted image holds whole four-byte pixels, one for each complete
/// decoded pixel; RGB and grey pixels become fully opaque with their colour
/// kept, and grey-and-alpha pixels keep their alpha.
pub proof fn lemma_rgba_samples_shape(s: Seq<u8>)
    ensures
        rgb_to_rgba(s).len() == s.len() / 3 * 4,
        forall|p: int|
            0 <= p < s.len() / 3 ==> rgb_to_rgba(s)[4 * p] == s[3 * p] && rgb_to_rgba(s)[4 * p + 1]
                == s[3 * p + 1] && rgb_to_rgba(s)[4 * p + 2] == s[3 * p + 2]
                && #[trigger] rgb_to_rgba(s)[4 * p + 3] == 255,
        gray_to_rgba(s).len() == s.len() * 4,
        forall|p: int|
            0 <= p < s.len() ==> gray_to_rgba(s)[4 * p] == s[p] && gray_to_rgba(s)[4 * p + 1] == s[p]
                && gray_to_rgba(s)[4 * p + 2] == s[p] && #[trigger] gray_to_rgba(s)[4 * p + 3] == 255,
        gray_alpha_to_rgba(s).len() == s.len() / 2 * 4,
        forall|p: int|
            0 <= p < s.len() / 2 ==> gray_alpha_to_rgba(s)[4 * p] == s[2 * p] && gray_alpha_to_rgba(
                s,
            )[4 * p + 1] == s[2 * p] && gray_alpha_to_rgba(s)[4 * p + 2] == s[2 * p]
                && #[trigger] gray_alpha_to_rgba(s)[4 * p + 3] == s[2 * p + 1],
{
    assert forall|p: int| 0 <= p < s.len() / 3 implies #[trigger] rgb_to_rgba(s)[4 * p + 3] == 255
        && rgb_to_rgba(s)[4 * p] == s[3 * p] && rgb_to_rgba(s)[4 * p + 1] == s[3 * p + 1]
        && rgb_to_rgba(s)[4 * p + 2] == s[3 * p + 2] by {
        assert(3 * p + 2 < s.len()) by (nonlinear_arith)
            requires 0 <= p < s.len() / 3;
    }
    assert forall|p: int| 0 <= p < s.len() / 2 implies #[trigger] gray_alpha_to_rgba(s)[4 * p + 3]
        == s[2 * p + 1] && gray_alpha_to_rgba(s)[4 * p] == s[2 * p] by {
        assert(2 * p + 1 < s.len()) by (nonlinear_arith)
            requires 0 <= p < s.len() / 2;
    }
}

} // verus!
