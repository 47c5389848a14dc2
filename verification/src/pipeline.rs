//! The pipeline: payload in, payload out.
//!
//! Text is decoded to bytes, bytes to pixels; one filter is applied; the
//! pixels are written as a PNG and the PNG as text. A failure at any stage
//! is kept as a [`PipelineError`] by [`run`] and shown as the empty payload
//! by [`process_image`].
//!
//! Gaussian smoothing is the one step that is not done here. Where it is
//! due the pipeline stops with [`Step::Blur`]; the host smooths the channel
//! values and hands them to [`finish_blur`].

use vstd::prelude::*;
use crate::buffer::{PixelBuffer, Raster};
use crate::codec::{decode_image, encode_image, image_of, png_of};
use crate::error::PipelineError;
use crate::filter::{apply, blur_due, filtered, selector_of, FilterSelector, Filtered};
use crate::transport::{
    checked_encoded_len,
    decode,
    encode,
    encoded_len,
    standard_decoding,
    standard_encoding,
    well_formed_payload,
};

verus! {

/// Where a run of the pipeline has come to.
#[derive(Debug, PartialEq, Eq)]
pub enum Step {
    /// The run has ended with this payload.
    Done(String),
    /// The buffer awaits Gaussian smoothing with a standard deviation of
    /// the given number of hundredths of a pixel.
    Blur(PixelBuffer, i32),
}

/// The mathematical value of a [`Step`].
pub enum Outcome {
    Done(Seq<char>),
    Blur(Raster, int),
}

impl View for Step {
    type V = Outcome;

    open spec fn view(&self) -> Outcome {
        match self {
            Step::Done(text) => Outcome::Done(text@),
            Step::Blur(buf, hundredths) => Outcome::Blur(buf@, *hundredths as int),
        }
    }
}

/// The picture that a payload carries.
pub open spec fn loaded(text: Seq<char>) -> Result<Raster, PipelineError> {
    match standard_decoding(text) {
        None => Err(PipelineError::TransportDecode),
        Some(bytes) => match image_of(bytes) {
            None => Err(PipelineError::ImageDecode),
            Some(picture) => Ok(picture),
        },
    }
}

/// Whether `text` is a payload of `picture`: the Base64 text of its PNG
/// file, which decodes to that file again.
pub open spec fn carries(text: Seq<char>, picture: Raster) -> bool {
    &&& png_of(picture) matches Some(bytes)
    &&& text == standard_encoding(bytes)
    &&& standard_decoding(text) == Some(bytes)
    &&& well_formed_payload(text)
}

/// The payload that carries a picture as a PNG.
pub open spec fn stored(picture: Raster) -> Result<Seq<char>, PipelineError> {
    match png_of(picture) {
        None => Err(PipelineError::ImageEncode),
        Some(bytes) => if encoded_len(bytes.len()) <= usize::MAX {
            Ok(standard_encoding(bytes))
        } else {
            Err(PipelineError::ImageEncode)
        },
    }
}

/// What a run of the pipeline comes to.
pub open spec fn outcome(text: Seq<char>, selector: FilterSelector, amount: int) -> Result<
    Outcome,
    PipelineError,
> {
    match loaded(text) {
        Err(e) => Err(e),
        Ok(picture) => if blur_due(selector, amount) {
            Ok(Outcome::Blur(picture, amount))
        } else {
            match stored(filtered(picture, selector, amount)) {
                Err(e) => Err(e),
                Ok(payload) => Ok(Outcome::Done(payload)),
            }
        },
    }
}

/// What the host's smoothing comes to: the payload of the picture with the
/// smoothed channel values and the dimensions it had before.
pub open spec fn outcome_after_blur(picture: Raster, smoothed: Seq<u8>) -> Result<
    Seq<char>,
    PipelineError,
> {
    if smoothed.len() == picture.data.len() {
        stored(Raster { data: smoothed, ..picture })
    } else {
        Err(PipelineError::ImageEncode)
    }
}

/// The payload that stands for a result: the empty text for every failure.
pub open spec fn payload_or_sentinel(result: Result<Seq<char>, PipelineError>) -> Seq<char> {
    match result {
        Ok(text) => text,
        Err(_) => Seq::empty(),
    }
}

/// Decodes a payload into pixels.
pub fn load(payload: &str) -> (result: Result<PixelBuffer, PipelineError>)
    ensures
        match loaded(payload@) {
            Ok(picture) => result matches Ok(buf) && buf@ == picture,
            Err(e) => result == Err::<PixelBuffer, PipelineError>(e),
        },
        !well_formed_payload(payload@) ==> result == Err::<PixelBuffer, PipelineError>(
            PipelineError::TransportDecode,
        ),
{
    let bytes = decode(payload)?;
    decode_image(bytes.as_slice())
}

/// Encodes pixels into a payload.
pub fn store(buf: &PixelBuffer) -> (result: Result<String, PipelineError>)
    ensures
        match stored(buf@) {
            Ok(text) => result matches Ok(payload) && payload@ == text && carries(text, buf@),
            Err(e) => result == Err::<String, PipelineError>(e),
        },
{
    let bytes = encode_image(buf)?;
    if checked_encoded_len(bytes.len()).is_none() {
        return Err(PipelineError::ImageEncode);
    }
    Ok(encode(bytes.as_slice()))
}

/// Runs the pipeline and keeps the stage of a failure.
pub fn run(payload: &str, selector: FilterSelector, hundredths: i32) -> (result: Result<
    Step,
    PipelineError,
>)
    ensures
        match outcome(payload@, selector, hundredths as int) {
            Ok(o) => result matches Ok(step) && step@ == o,
            Err(e) => result == Err::<Step, PipelineError>(e),
        },
        result matches Ok(Step::Done(text)) ==> (loaded(payload@) matches Ok(picture) && carries(
            text@,
            filtered(picture, selector, hundredths as int),
        )),
        !well_formed_payload(payload@) ==> result == Err::<Step, PipelineError>(
            PipelineError::TransportDecode,
        ),
{
    let buf = load(payload)?;
    match apply(buf, selector, hundredths) {
        Filtered::Blur(buf, strength) => Ok(Step::Blur(buf, strength)),
        Filtered::Done(out) => {
            let text = store(&out)?;
            Ok(Step::Done(text))
        },
    }
}

/// Completes a run after the host has smoothed the buffer of a
/// [`Step::Blur`], and keeps the stage of a failure. Channel values that
/// do not fill the buffer's dimensions cannot be written.
pub fn resume(buffer: &PixelBuffer, smoothed: Vec<u8>) -> (result: Result<String, PipelineError>)
    ensures
        match outcome_after_blur(buffer@, smoothed@) {
            Ok(text) => result matches Ok(payload) && payload@ == text && carries(
                text,
                Raster { data: smoothed@, ..buffer@ },
            ),
            Err(e) => result == Err::<String, PipelineError>(e),
        },
{
    match buffer.with_data(smoothed) {
        Some(buf) => store(&buf),
        None => Err(PipelineError::ImageEncode),
    }
}

/// Runs the pipeline on a payload, a numeric filter code and a strength in
/// hundredths. Every failure comes out as the empty payload.
pub fn process_image(base64_input: &str, filter_type: u32, hundredths: i32) -> (step: Step)
    ensures
        ({
            let selector = selector_of(filter_type);
            let amount = hundredths as int;
            &&& step@ == match outcome(base64_input@, selector, amount) {
                Ok(o) => o,
                Err(_) => Outcome::Done(Seq::empty()),
            }
            &&& step matches Step::Done(payload) ==> {
                &&& well_formed_payload(payload@)
                &&& outcome(base64_input@, selector, amount) is Ok ==> (loaded(
                    base64_input@,
                ) matches Ok(picture) && carries(payload@, filtered(picture, selector, amount)))
            }
        }),
        !well_formed_payload(base64_input@) ==> step@ == Outcome::Done(Seq::empty()),
{
    match run(base64_input, FilterSelector::from_code(filter_type), hundredths) {
        Ok(step) => step,
        Err(_) => Step::Done(String::new()),
    }
}

/// Completes a run after the host has smoothed the buffer of a
/// [`Step::Blur`]. Every failure comes out as the empty payload.
pub fn finish_blur(buffer: &PixelBuffer, smoothed: Vec<u8>) -> (payload: String)
    ensures
        payload@ == payload_or_sentinel(outcome_after_blur(buffer@, smoothed@)),
        outcome_after_blur(buffer@, smoothed@) is Ok ==> carries(
            payload@,
            Raster { data: smoothed@, ..buffer@ },
        ),
        well_formed_payload(payload@),
{
    match resume(buffer, smoothed) {
        Ok(payload) => payload,
        Err(_) => String::new(),
    }
}

} // verus!
