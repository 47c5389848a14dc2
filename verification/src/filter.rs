//! The filter engine: one transformation of a whole buffer per call.
//!
//! Grayscale and brightness are computed pixel by pixel by the `image`
//! crate, on whole numbers; this module states what those calls return and
//! proves the engine's contract from that. Gaussian smoothing works in
//! floating point and is left to the host: for a blur of positive strength
//! the engine hands the untouched buffer back together with the strength.

use vstd::prelude::*;
use crate::buffer::{PixelBuffer, Raster};

verus! {

/// The transformation to apply.
#[derive(Debug, Clone, Copy, PartialEq, Eq)]
pub enum FilterSelector {
    Grayscale,
    Blur,
    Brightness,
    Identity,
}

/// The selector that a numeric code stands for: 0, 1 and 2 name the three
/// filters, every other code is the identity.
pub open spec fn selector_of(code: u32) -> FilterSelector {
    if code == 0 {
        FilterSelector::Grayscale
    } else if code == 1 {
        FilterSelector::Blur
    } else if code == 2 {
        FilterSelector::Brightness
    } else {
        FilterSelector::Identity
    }
}

impl FilterSelector {
    /// Reads a numeric code.
    pub fn from_code(code: u32) -> (selector: FilterSelector)
        ensures
            selector == selector_of(code),
    {
        match code {
            0 => FilterSelector::Grayscale,
            1 => FilterSelector::Blur,
            2 => FilterSelector::Brightness,
            _ => FilterSelector::Identity,
        }
    }
}

/// Luminance of a colour: the weights 0.2126, 0.7152 and 0.0722 for red,
/// green and blue, in ten-thousandths, the quotient rounded down. The
/// weights add up to one, so the luminance is at most 255.
pub open spec fn luminance(red: u8, green: u8, blue: u8) -> u8 {
    ((2126 * red + 7152 * green + 722 * blue) / 10000) as u8
}

/// The luminance of pixel `p` of a picture with four channels per pixel.
pub open spec fn pixel_luminance(data: Seq<u8>, p: int) -> u8 {
    luminance(data[4 * p], data[4 * p + 1], data[4 * p + 2])
}

/// Channel `i` of the grayscale picture: alpha as it was, every colour
/// channel the luminance of its pixel.
pub open spec fn gray_channel(data: Seq<u8>, i: int) -> u8 {
    if i % 4 == 3 {
        data[i]
    } else {
        pixel_luminance(data, i / 4)
    }
}

/// The channel values of the grayscale picture.
pub open spec fn grayscale_of(data: Seq<u8>) -> Seq<u8> {
    Seq::new(data.len(), |i: int| gray_channel(data, i))
}

/// Luminance and alpha of every pixel, two values per pixel: value `i`
/// belongs to pixel `i / 2`, the even ones being its luminance and the odd
/// ones its alpha.
pub open spec fn luma_alpha_of(data: Seq<u8>) -> Seq<u8> {
    Seq::new(
        data.len() / 2,
        |i: int|
            if i % 2 == 0 {
                pixel_luminance(data, i / 2)
            } else {
                data[4 * (i / 2) + 3]
            },
    )
}

/// A channel value moved by `amount` and held within 0 and 255.
pub open spec fn shifted(value: u8, amount: int) -> u8 {
    if value + amount > 255 {
        255
    } else if value + amount < 0 {
        0
    } else {
        (value + amount) as u8
    }
}

/// The channel values of the brightened picture: alpha as it was, every
/// colour channel moved by `amount`.
pub open spec fn brightened_of(data: Seq<u8>, amount: int) -> Seq<u8> {
    Seq::new(
        data.len(),
        |i: int|
            if i % 4 == 3 {
                data[i]
            } else {
                shifted(data[i], amount)
            },
    )
}

/// The grayscale version of a picture.
pub open spec fn gray(picture: Raster) -> Raster {
    Raster { data: grayscale_of(picture.data), ..picture }
}

/// A picture brightened by `amount` units per colour channel.
pub open spec fn brightened(picture: Raster, amount: int) -> Raster {
    Raster { data: brightened_of(picture.data, amount), ..picture }
}

/// `image::imageops::grayscale_alpha` on an eight bit RGBA picture.
///
/// Trusted: the result holds, for every pixel in order, the luminance of
/// its colour and then its alpha value.
#[verifier::external_body]
fn luma_alpha(width: u32, height: u32, data: &[u8]) -> (samples: Vec<u8>)
    requires
        data@.len() == width * height * 4,
    ensures
        samples@ == luma_alpha_of(data@),
{
    let picture = image::ImageBuffer::<image::Rgba<u8>, &[u8]>::from_raw(width, height, data);
    image::imageops::grayscale_alpha(&picture.unwrap()).into_raw()
}

/// `image::imageops::brighten` on an eight bit RGBA picture.
///
/// Trusted: every colour channel is moved by `value` and held within 0
/// and 255; alpha is copied. The crate adds `value` to a channel in `i32`,
/// which `requires` keeps from overflowing.
#[verifier::external_body]
fn brighten(width: u32, height: u32, data: &[u8], value: i32) -> (channels: Vec<u8>)
    requires
        data@.len() == width * height * 4,
        value + 255 <= i32::MAX,
    ensures
        channels@ == brightened_of(data@, value as int),
{
    let picture = image::ImageBuffer::<image::Rgba<u8>, &[u8]>::from_raw(width, height, data);
    image::imageops::brighten(&picture.unwrap(), value).into_raw()
}

/// Replaces the colour of every pixel by its luminance; alpha stays.
pub fn grayscale(buf: &PixelBuffer) -> (out: PixelBuffer)
    ensures
        out@ == gray(buf@),
        out@.well_formed(),
{
    let data = buf.data();
    let samples = luma_alpha(buf.width(), buf.height(), data);
    let pixels: usize = samples.len() / 2;
    let mut channels: Vec<u8> = Vec::with_capacity(data.len());
    let mut p: usize = 0;
    while p < pixels
        invariant
            p <= pixels,
            samples.len() == 2 * pixels,
            data@.len() == 4 * pixels,
            samples@ == luma_alpha_of(data@),
            channels@.len() == 4 * p,
            forall|i: int| 0 <= i < 4 * p ==> channels@[i] == gray_channel(data@, i),
        decreases pixels - p,
    {
        let luma = samples[2 * p];
        let alpha = samples[2 * p + 1];
        channels.push(luma);
        channels.push(luma);
        channels.push(luma);
        channels.push(alpha);
        p += 1;
    }
    assert(channels@ =~= grayscale_of(data@));
    buf.with_data(channels).unwrap()
}

/// Moves every colour channel by `hundredths` units, holding it within 0
/// and 255; alpha stays.
///
/// An offset beyond 255 either way changes no more than 255 does, so that
/// is the most that is handed on.
pub fn adjust_brightness(buf: &PixelBuffer, hundredths: i32) -> (out: PixelBuffer)
    ensures
        out@ == brightened(buf@, hundredths as int),
        out@.well_formed(),
{
    let offset: i32 = if hundredths > 255 {
        255
    } else if hundredths < -255 {
        -255
    } else {
        hundredths
    };
    let data = buf.data();
    let channels = brighten(buf.width(), buf.height(), data, offset);
    assert(channels@ =~= brightened_of(data@, hundredths as int));
    buf.with_data(channels).unwrap()
}

/// What the engine hands back.
#[derive(Debug, PartialEq, Eq)]
pub enum Filtered {
    /// The filter has been applied in full.
    Done(PixelBuffer),
    /// The buffer still awaits Gaussian smoothing with a standard
    /// deviation of the given number of hundredths of a pixel.
    Blur(PixelBuffer, i32),
}

/// Whether smoothing is left to the host: a blur of positive strength.
/// A strength of zero or less asks for no smoothing at all.
pub open spec fn blur_due(selector: FilterSelector, amount: int) -> bool {
    selector is Blur && amount > 0
}

/// What the engine itself makes of a picture. A blur changes nothing here:
/// either none is due or it is the host's to do.
pub open spec fn filtered(picture: Raster, selector: FilterSelector, amount: int) -> Raster {
    match selector {
        FilterSelector::Grayscale => gray(picture),
        FilterSelector::Brightness => brightened(picture, amount),
        FilterSelector::Blur => picture,
        FilterSelector::Identity => picture,
    }
}

/// Applies one filter to a buffer. `hundredths` is the strength: the
/// offset per colour channel for `Brightness`, the standard deviation in
/// hundredths of a pixel for `Blur`; `Grayscale` and `Identity` ignore it.
pub fn apply(buf: PixelBuffer, selector: FilterSelector, hundredths: i32) -> (out: Filtered)
    ensures
        blur_due(selector, hundredths as int) ==> out == Filtered::Blur(buf, hundredths),
        !blur_due(selector, hundredths as int) ==> (out matches Filtered::Done(done) && done@
            == filtered(buf@, selector, hundredths as int)),
        !blur_due(selector, hundredths as int) && (selector is Identity || selector is Blur) ==> out
            == Filtered::Done(buf),
{
    match selector {
        FilterSelector::Grayscale => Filtered::Done(grayscale(&buf)),
        FilterSelector::Brightness => Filtered::Done(adjust_brightness(&buf, hundredths)),
        FilterSelector::Blur => if hundredths > 0 {
            Filtered::Blur(buf, hundredths)
        } else {
            Filtered::Done(buf)
        },
        FilterSelector::Identity => Filtered::Done(buf),
    }
}

/// Grayscale is idempotent: the grayscale version of a grayscale picture
/// is that picture.
pub proof fn lemma_grayscale_idempotent(picture: Raster, amount: int, again: int)
    requires
        picture.well_formed(),
    ensures
        gray(gray(picture)) == gray(picture),
        filtered(
            filtered(picture, FilterSelector::Grayscale, amount),
            FilterSelector::Grayscale,
            again,
        ) == filtered(picture, FilterSelector::Grayscale, amount),
{
    assert(grayscale_of(grayscale_of(picture.data)) =~= grayscale_of(picture.data));
}

/// The identity changes nothing, whatever the strength, and every code
/// beyond the three filters stands for the identity.
pub proof fn lemma_identity(picture: Raster, code: u32, amount: int)
    ensures
        filtered(picture, FilterSelector::Identity, amount) == picture,
        !blur_due(FilterSelector::Identity, amount),
        code > 2 ==> selector_of(code) == FilterSelector::Identity,
{
}

/// Brightness saturates: a colour channel that the offset would carry
/// beyond 255 becomes 255, one that it would carry below 0 becomes 0, and
/// any other becomes the sum. Alpha is never touched.
pub proof fn lemma_brightness_saturates(picture: Raster, amount: int, i: int)
    requires
        0 <= i < picture.data.len(),
    ensures
        ({
            let before = picture.data[i];
            let after = filtered(picture, FilterSelector::Brightness, amount).data[i];
            &&& i % 4 == 3 ==> after == before
            &&& i % 4 != 3 && before + amount > 255 ==> after == 255
            &&& i % 4 != 3 && before + amount < 0 ==> after == 0
            &&& i % 4 != 3 && 0 <= before + amount <= 255 ==> after == before + amount
        }),
{
}

/// A blur of strength zero or less changes nothing and leaves nothing to
/// the host.
pub proof fn lemma_blur_without_strength(picture: Raster, amount: int)
    requires
        amount <= 0,
    ensures
        !blur_due(FilterSelector::Blur, amount),
        filtered(picture, FilterSelector::Blur, amount) == picture,
{
}

/// No filter changes the dimensions of a picture, and none breaks it.
pub proof fn lemma_dimensions_preserved(picture: Raster, selector: FilterSelector, amount: int)
    requires
        picture.well_formed(),
    ensures
        filtered(picture, selector, amount).width == picture.width,
        filtered(picture, selector, amount).height == picture.height,
        filtered(picture, selector, amount).well_formed(),
{
}

} // verus!
