//! Captured frames: their layout, their comparison, their limits and their PNG encoding.
use vstd::prelude::*;

use crate::protocol::{failure, CuError, CuErrorView, ErrorCode, Viewport};

verus! {

/// One captured screen image.
#[derive(Debug)]
pub struct CapturedFrame {
    /// Dense row-major RGB8 pixels.
    pub pixels: Vec<u8>,
    pub width: u32,
    pub height: u32,
    /// Backend-defined identifier of the captured target.
    pub target: String,
}

/// A captured image with its pixels and its target as sequences.
pub struct FrameView {
    pub pixels: Seq<u8>,
    pub width: u32,
    pub height: u32,
    pub target: Seq<char>,
}

impl View for CapturedFrame {
    type V = FrameView;

    open spec fn view(&self) -> FrameView {
        FrameView {
            pixels: self.pixels@,
            width: self.width,
            height: self.height,
            target: self.target@,
        }
    }
}

impl FrameView {
    /// Whether the frame is non-empty and holds three bytes for each pixel.
    pub open spec fn valid(self) -> bool {
        &&& self.width > 0
        &&& self.height > 0
        &&& self.pixels.len() == self.width * self.height * 3
    }

    /// The dimensions of the frame.
    pub open spec fn viewport(self) -> Viewport {
        Viewport { width: self.width, height: self.height }
    }

    /// The three bytes of the pixel `(x, y)`.
    pub open spec fn pixel(self, x: int, y: int) -> (u8, u8, u8) {
        let at = (y * self.width + x) * 3;
        (self.pixels[at], self.pixels[at + 1], self.pixels[at + 2])
    }
}

impl Clone for CapturedFrame {
    fn clone(&self) -> (copy: Self)
        ensures
            copy@ == self@,
    {
        let pixels = self.pixels.clone();
        assert(pixels@ =~= self.pixels@);
        CapturedFrame {
            pixels,
            width: self.width,
            height: self.height,
            target: self.target.clone(),
        }
    }
}

/// The failure that refuses a frame whose byte count does not match its dimensions.
pub open spec fn invalid_frame() -> CuErrorView {
    failure(
        ErrorCode::CaptureFailed,
        "captured RGB frame has invalid dimensions or byte length"@,
    )
}

/// Refuse a frame that is empty or does not hold three bytes for each pixel.
pub fn validate_captured_frame(frame: &CapturedFrame) -> (result: Result<(), CuError>)
    ensures
        frame@.valid() ==> result is Ok,
        !frame@.valid() ==> (result matches Err(error) && error@ == invalid_frame()),
{
    assert(frame.width * frame.height <= 0xffff_fffe_0000_0001) by (nonlinear_arith)
        requires
            0 <= frame.width <= 0xffff_ffff,
            0 <= frame.height <= 0xffff_ffff,
    ;
    let area: u64 = frame.width as u64 * frame.height as u64;
    assert(area == frame.width * frame.height);
    assert(frame@.valid() ==> area * 3 == frame.pixels.len());
    let fits = match area.checked_mul(3) {
        Some(bytes) => bytes == frame.pixels.len() as u64,
        None => false,
    };
    if frame.width == 0 || frame.height == 0 || !fits {
        return Err(
            CuError::new(
                ErrorCode::CaptureFailed,
                "captured RGB frame has invalid dimensions or byte length",
            ),
        );
    }
    Ok(())
}

/// Whether two frames have the same dimensions and the same pixels.
pub fn frames_equal(first: &CapturedFrame, second: &CapturedFrame) -> (same: bool)
    ensures
        same == (first.width == second.width && first.height == second.height && first.pixels@
            == second.pixels@),
{
    if first.width != second.width || first.height != second.height || first.pixels.len()
        != second.pixels.len() {
        return false;
    }
    let mut i: usize = 0;
    while i < first.pixels.len()
        invariant
            i <= first.pixels.len(),
            first.pixels.len() == second.pixels.len(),
            forall|j: int| 0 <= j < i ==> first.pixels[j] == second.pixels[j],
        decreases first.pixels.len() - i,
    {
        if first.pixels[i] != second.pixels[i] {
            return false;
        }
        i += 1;
    }
    assert(first.pixels@ =~= second.pixels@);
    true
}

/// Optional bounds on the dimensions of a returned frame.
#[derive(Debug, Clone, Copy, PartialEq, Eq, Structural)]
pub struct CaptureLimits {
    pub max_width: Option<u32>,
    pub max_height: Option<u32>,
}

impl Default for CaptureLimits {
    fn default() -> (limits: Self)
        ensures
            limits.max_width is None,
            limits.max_height is None,
    {
        CaptureLimits { max_width: None, max_height: None }
    }
}

/// `value` times `numerator` over `denominator`, rounded down, but at least one.
pub open spec fn scaled(value: int, numerator: int, denominator: int) -> int {
    let quotient = value * numerator / denominator;
    if quotient < 1 {
        1
    } else if quotient > u32::MAX {
        u32::MAX as int
    } else {
        quotient
    }
}

impl CaptureLimits {
    /// Whether neither limit is zero.
    pub open spec fn usable(self) -> bool {
        self.max_width != Some(0u32) && self.max_height != Some(0u32)
    }

    /// The viewport scaled down to the width limit.
    pub open spec fn narrowed(self, viewport: Viewport) -> Viewport {
        match self.max_width {
            Some(max_width) if viewport.width > max_width => Viewport {
                width: max_width,
                height: scaled(
                    viewport.height as int,
                    max_width as int,
                    viewport.width as int,
                ) as u32,
            },
            _ => viewport,
        }
    }

    /// The viewport scaled down to the height limit.
    pub open spec fn lowered(self, viewport: Viewport) -> Viewport {
        match self.max_height {
            Some(max_height) if viewport.height > max_height => Viewport {
                width: scaled(
                    viewport.width as int,
                    max_height as int,
                    viewport.height as int,
                ) as u32,
                height: max_height,
            },
            _ => viewport,
        }
    }

    /// The frame dimensions under these limits: first the width is limited, then the height.
    pub open spec fn fitted(self, width: u32, height: u32) -> Viewport {
        let full = Viewport { width, height };
        if width == 0 || height == 0 {
            full
        } else {
            self.lowered(self.narrowed(full))
        }
    }

    /// Reject zero-sized capture limits.
    pub fn validate(self) -> (result: Result<(), CuError>)
        ensures
            self.usable() ==> result is Ok,
            !self.usable() ==> (result matches Err(error) && error@ == failure(
                ErrorCode::InvalidAction,
                "capture limits must be greater than zero"@,
            )),
    {
        let zero_width = match self.max_width {
            Some(width) => width == 0,
            None => false,
        };
        let zero_height = match self.max_height {
            Some(height) => height == 0,
            None => false,
        };
        if zero_width || zero_height {
            return Err(
                CuError::new(
                    ErrorCode::InvalidAction,
                    "capture limits must be greater than zero",
                ),
            );
        }
        Ok(())
    }

    /// The dimensions of a returned frame whose native dimensions are given.
    pub fn fit(self, width: u32, height: u32) -> (viewport: Viewport)
        ensures
            viewport == self.fitted(width, height),
    {
        let mut fitted = Viewport { width, height };
        if width == 0 || height == 0 {
            return fitted;
        }
        if let Some(max_width) = self.max_width {
            if fitted.width > max_width {
                let height: u32 = scaled_dimension(fitted.height, max_width, fitted.width);
                fitted = Viewport { width: max_width, height };
            }
        }
        if let Some(max_height) = self.max_height {
            if fitted.height > max_height {
                let width: u32 = scaled_dimension(fitted.width, max_height, fitted.height);
                fitted = Viewport { width, height: max_height };
            }
        }
        fitted
    }
}

/// Scale one dimension, rounding down but never to zero.
pub fn scaled_dimension(value: u32, numerator: u32, denominator: u32) -> (result: u32)
    requires
        denominator > 0,
    ensures
        result == scaled(value as int, numerator as int, denominator as int),
{
    assert(value * numerator <= 0xffff_fffe_0000_0001) by (nonlinear_arith)
        requires
            0 <= value <= 0xffff_ffff,
            0 <= numerator <= 0xffff_ffff,
    ;
    let quotient: u64 = value as u64 * numerator as u64 / denominator as u64;
    if quotient < 1 {
        1
    } else if quotient > u32::MAX as u64 {
        u32::MAX
    } else {
        quotient as u32
    }
}

/// A dimension scaled by a fraction below one does not grow.
proof fn scaled_shrinks(value: int, numerator: int, denominator: int)
    requires
        1 <= value <= u32::MAX,
        0 <= numerator < denominator,
    ensures
        1 <= scaled(value, numerator, denominator) <= value,
{
    assert(value * numerator <= value * denominator) by (nonlinear_arith)
        requires
            1 <= value,
            0 <= numerator < denominator,
    ;
    assert(value * numerator / denominator <= value) by (nonlinear_arith)
        requires
            value * numerator <= value * denominator,
            denominator > 0,
    ;
}

/// A fitted frame respects both limits, is never larger than the native frame in either
/// direction, and is never empty.
pub proof fn fitted_frames_respect_limits(limits: CaptureLimits, width: u32, height: u32)
    requires
        limits.usable(),
        width > 0,
        height > 0,
    ensures
        limits.max_width matches Some(max_width) ==> limits.fitted(width, height).width <= max_width,
        limits.max_height matches Some(max_height) ==> limits.fitted(width, height).height
            <= max_height,
        0 < limits.fitted(width, height).width <= width,
        0 < limits.fitted(width, height).height <= height,
{
    let full = Viewport { width, height };
    let narrowed = limits.narrowed(full);
    if let Some(max_width) = limits.max_width {
        if width > max_width {
            scaled_shrinks(height as int, max_width as int, width as int);
        }
    }
    if let Some(max_height) = limits.max_height {
        if narrowed.height > max_height {
            scaled_shrinks(narrowed.width as int, max_height as int, narrowed.height as int);
        }
    }
}

/// Whether `part` is to `whole` as `limit` is to `full`, rounded down, but at least one.
pub open spec fn in_proportion(part: int, whole: int, limit: int, full: int) -> bool {
    ||| 1 <= part && part * full <= whole * limit && whole * limit < (part + 1) * full
    ||| part == 1 && whole * limit < full
}

proof fn scaled_in_proportion(value: int, numerator: int, denominator: int)
    requires
        1 <= value <= u32::MAX,
        0 < numerator < denominator,
    ensures
        in_proportion(
            scaled(value, numerator, denominator),
            value,
            numerator,
            denominator,
        ),
        forall|part: int|
            in_proportion(part, value, numerator, denominator) ==> part == scaled(
                value,
                numerator,
                denominator,
            ),
{
    scaled_shrinks(value, numerator, denominator);
    let product = value * numerator;
    let quotient = product / denominator;
    assert(quotient * denominator <= product < (quotient + 1) * denominator && (quotient < 1
        ==> product < denominator)) by (nonlinear_arith)
        requires
            quotient == product / denominator,
            denominator > 0,
            product >= 0,
    ;
    assert(product >= 0) by (nonlinear_arith)
        requires
            product == value * numerator,
            value >= 0,
            numerator >= 0,
    ;
    assert(quotient <= value) by (nonlinear_arith)
        requires
            quotient * denominator <= product,
            product == value * numerator,
            0 < numerator < denominator,
            value >= 1,
    ;
    assert forall|part: int| in_proportion(part, value, numerator, denominator) implies part
        == scaled(value, numerator, denominator) by {
        if 1 <= part && part * denominator <= product && product < (part + 1) * denominator {
            assert(part == quotient) by (nonlinear_arith)
                requires
                    part * denominator <= product < (part + 1) * denominator,
                    quotient * denominator <= product < (quotient + 1) * denominator,
                    denominator > 0,
            ;
        } else {
            assert(quotient < 1) by (nonlinear_arith)
                requires
                    product < denominator,
                    quotient * denominator <= product,
                    denominator > 0,
            ;
        }
    }
}

/// A fitted frame keeps the native proportions. A frame that respects both limits is kept as it is.
/// One that is only too high gets the greatest height allowed, and a width in proportion. One that
/// is too wide gets the greatest width allowed and a height in proportion, and where that height is
/// still too great, the greatest height allowed and a width in proportion to both.
pub proof fn fitted_frames_keep_their_proportions(limits: CaptureLimits, width: u32, height: u32)
    requires
        limits.usable(),
        width > 0,
        height > 0,
    ensures
        ({
            let fitted = limits.fitted(width, height);
            let too_wide = limits.max_width matches Some(max_width) && width > max_width;
            let too_high = limits.max_height matches Some(max_height) && height > max_height;
            &&& !too_wide && !too_high ==> fitted.width == width && fitted.height == height
            &&& !too_wide && too_high ==> fitted.height == limits.max_height->0 && in_proportion(
                fitted.width as int,
                width as int,
                limits.max_height->0 as int,
                height as int,
            )
            &&& too_wide ==> forall|middle: int| #[trigger]
                in_proportion(
                    middle,
                    height as int,
                    limits.max_width->0 as int,
                    width as int,
                ) ==> {
                    if limits.max_height is None || middle <= limits.max_height->0 {
                        fitted.width == limits.max_width->0 && fitted.height == middle
                    } else {
                        fitted.height == limits.max_height->0 && in_proportion(
                            fitted.width as int,
                            limits.max_width->0 as int,
                            limits.max_height->0 as int,
                            middle,
                        )
                    }
                }
            &&& too_wide ==> exists|middle: int| #[trigger]
                in_proportion(middle, height as int, limits.max_width->0 as int, width as int)
        }),
{
    let full = Viewport { width, height };
    let narrowed = limits.narrowed(full);
    if let Some(max_width) = limits.max_width {
        if width > max_width {
            scaled_shrinks(height as int, max_width as int, width as int);
            scaled_in_proportion(height as int, max_width as int, width as int);
        }
    }
    if let Some(max_height) = limits.max_height {
        if narrowed.height > max_height {
            scaled_shrinks(narrowed.width as int, max_height as int, narrowed.height as int);
            scaled_in_proportion(narrowed.width as int, max_height as int, narrowed.height as int);
        }
    }
}

/// A frame that respects both limits already keeps its native dimensions.
pub proof fn fitting_frames_keep_their_size(limits: CaptureLimits, width: u32, height: u32)
    requires
        limits.max_width matches Some(max_width) ==> width <= max_width,
        limits.max_height matches Some(max_height) ==> height <= max_height,
    ensures
        limits.fitted(width, height) == (Viewport { width, height }),
{
}

/// Whether the samples of an image of some dimensions can be held in memory while it is scaled.
pub open spec fn scalable(width: u32, height: u32) -> bool {
    width * height * 16 <= isize::MAX
}

/// Whether bytes are an outcome of scaling an RGB8 image of one size down to another.
pub uninterp spec fn rescaled(
    pixels: Seq<u8>,
    width: u32,
    height: u32,
    new_width: u32,
    new_height: u32,
    outcome: Seq<u8>,
) -> bool;

/// Calls `image::DynamicImage::resize_exact` with the Lanczos filter on an RGB8 image.
///
/// Trusted: the result is an RGB8 image of the new dimensions, and an outcome of scaling this
/// image. Its bytes come from floating-point sampling, which may differ between machines, so two
/// calls may have different outcomes, and nothing more is said of them. The call keeps four
/// samples of four bytes for each pixel on its way.
#[verifier::external_body]
pub(crate) fn resize_rgb(pixels: Vec<u8>, width: u32, height: u32, target: Viewport) -> (resized:
    Vec<u8>)
    requires
        pixels@.len() == width * height * 3,
        scalable(width, height),
        0 < target.width <= width,
        0 < target.height <= height,
    ensures
        resized@.len() == target.width * target.height * 3,
        rescaled(pixels@, width, height, target.width, target.height, resized@),
{
    let native = image::RgbImage::from_raw(width, height, pixels);
    let native = image::DynamicImage::ImageRgb8(native.unwrap_or_default());
    let filter = image::imageops::FilterType::Lanczos3;
    native.resize_exact(target.width, target.height, filter).into_rgb8().into_raw()
}

/// The PNG file, or the encoder's diagnostic, of an RGB8 image.
pub uninterp spec fn rgb_png(width: u32, height: u32, pixels: Seq<u8>) -> Result<
    Seq<u8>,
    Seq<char>,
>;

/// An encoder's answer with its file and its diagnostic as sequences.
pub open spec fn answer_view(answer: Result<Vec<u8>, String>) -> Result<Seq<u8>, Seq<char>> {
    match answer {
        Ok(png) => Ok(png@),
        Err(message) => Err(message@),
    }
}

/// Calls `image::RgbImage::from_raw`, which takes a buffer that is at least as long as the image
/// and returns nothing otherwise, and then `write_to` with the PNG format.
///
/// Trusted: nothing comes back exactly when the buffer is too short; otherwise what comes back
/// depends on the dimensions and the bytes alone, and is named `rgb_png`.
#[verifier::external_body]
fn encode_rgb(width: u32, height: u32, pixels: &Vec<u8>) -> (encoded: Option<
    Result<Vec<u8>, String>,
>)
    requires
        height > 0 || width * 3 <= usize::MAX,
    ensures
        (encoded is None) == (pixels@.len() < width * height * 3),
        encoded matches Some(answer) ==> answer_view(answer) == rgb_png(width, height, pixels@),
{
    let image = image::RgbImage::from_raw(width, height, pixels.clone())?;
    let mut png = std::io::Cursor::new(Vec::new());
    match image.write_to(&mut png, image::ImageFormat::Png) {
        Ok(()) => Some(Ok(png.into_inner())),
        Err(error) => Some(Err(error.to_string())),
    }
}

/// What encoding a frame returns, given what the encoder returned for it.
pub open spec fn encoded_frame(
    frame: FrameView,
    png: Result<Seq<u8>, Seq<char>>,
) -> Result<Seq<u8>, CuErrorView> {
    if frame.pixels.len() < frame.width * frame.height * 3 {
        Err(
            failure(
                ErrorCode::CaptureFailed,
                "captured RGB frame cannot be represented as an image"@,
            ),
        )
    } else {
        match png {
            Ok(png) => Ok(png),
            Err(message) => Err(
                failure(
                    ErrorCode::CaptureFailed,
                    "failed to encode screenshot as PNG: "@ + message,
                ),
            ),
        }
    }
}

/// What the encoder's answer for a frame means: the file, or the failure to report.
///
/// `encoded` is absent where the frame has too few bytes for its dimensions.
pub fn png_result(encoded: Option<Result<Vec<u8>, String>>) -> (result: Result<Vec<u8>, CuError>)
    ensures
        match encoded {
            None => result matches Err(error) && error@ == failure(
                ErrorCode::CaptureFailed,
                "captured RGB frame cannot be represented as an image"@,
            ),
            Some(Ok(png)) => result matches Ok(bytes) && bytes@ == png@,
            Some(Err(message)) => result matches Err(error) && error@ == failure(
                ErrorCode::CaptureFailed,
                "failed to encode screenshot as PNG: "@ + message@,
            ),
        },
{
    match encoded {
        None => Err(
            CuError::new(
                ErrorCode::CaptureFailed,
                "captured RGB frame cannot be represented as an image",
            ),
        ),
        Some(Ok(png)) => Ok(png),
        Some(Err(message)) => {
            let mut text = "failed to encode screenshot as PNG: ".to_owned();
            text.append(&message);
            Err(CuError::new(ErrorCode::CaptureFailed, &text))
        },
    }
}

/// The bytes or the failure of a result, as sequences.
pub open spec fn bytes_view(result: Result<Vec<u8>, CuError>) -> Result<Seq<u8>, CuErrorView> {
    match result {
        Ok(bytes) => Ok(bytes@),
        Err(error) => Err(error@),
    }
}

/// Encode a frame as a PNG file.
pub fn encode_png(frame: &CapturedFrame) -> (result: Result<Vec<u8>, CuError>)
    requires
        frame.height > 0 || frame.width * 3 <= usize::MAX,
    ensures
        bytes_view(result) == encoded_frame(
            frame@,
            rgb_png(frame.width, frame.height, frame.pixels@),
        ),
{
    png_result(encode_rgb(frame.width, frame.height, &frame.pixels))
}

} // verus!
