use vstd::prelude::*;

use crate::background::{pixel_frame_wf, PixelFrame};
use crate::error::Error;

verus! {

/// An animation container being written to a byte sink.  The encoder state
/// itself is opaque: every contract about it lives on the trusted wrappers
/// below, which track the sink's collected bytes through `gif_sink_bytes`.
#[verifier::external_body]
pub struct GifSink {
    enc: gif::Encoder<Vec<u8>>,
}

/// The bytes a container sink has collected so far.
pub uninterp spec fn gif_sink_bytes(s: GifSink) -> Seq<u8>;

/// The container header `gif::Encoder::new` writes for a screen size: a
/// function of the dimensions alone.
pub uninterp spec fn gif_header_bytes(width: u16, height: u16) -> Seq<u8>;

/// The loop-extension block `gif::Encoder::set_repeat` writes: a function
/// of whether the animation repeats forever.
pub uninterp spec fn gif_repeat_bytes(infinite: bool) -> Seq<u8>;

/// The bytes one frame serializes to — control extension, descriptor,
/// palette and compressed data: a function of the frame's pixels, size,
/// delay and compression speed alone.
pub uninterp spec fn gif_frame_bytes(
    width: u16,
    height: u16,
    rgba: Seq<u8>,
    delay: u16,
    speed: int,
) -> Seq<u8>;

/// Relies on `gif::Encoder::new`: starts a container of the given screen
/// size over a fresh byte sink, writing the screen descriptor.  Writing to
/// a byte vector cannot fail, so the header write succeeds.
#[verifier::external_body]
fn gif_encoder_new(width: u16, height: u16) -> (r: Result<GifSink, Error>)
    ensures
        r is Ok,
        (match r {
            Ok(s) => gif_sink_bytes(s) == gif_header_bytes(width, height),
            Err(_) => true,
        }),
{
    match gif::Encoder::new(Vec::new(), width, height, &[]) {
        Ok(enc) => Ok(GifSink { enc }),
        Err(_) => Err(Error::ImageEncodeError("could not start the animation container".to_owned())),
    }
}

/// Relies on `gif::Encoder::set_repeat`: appends the loop extension for
/// infinite repetition.  Writing to a byte vector cannot fail.
#[verifier::external_body]
fn gif_set_repeat_infinite(sink: &mut GifSink) -> (r: Result<(), Error>)
    ensures
        r is Ok,
        gif_sink_bytes(*final(sink)) == gif_sink_bytes(*old(sink)) + gif_repeat_bytes(true),
{
    sink.enc.set_repeat(gif::Repeat::Infinite).map_err(
        |_| Error::ImageEncodeError("could not record the loop count".to_owned()),
    )
}

/// Relies on `gif::Frame::from_rgba_speed` (palette quantization),
/// `gif::Frame::make_lzw_pre_encoded` (compression) and
/// `gif::Encoder::write_lzw_pre_encoded_frame`: appends one frame with the
/// given delay and background disposal.  The frame constructor panics
/// unless the buffer holds exactly four bytes per pixel and the speed lies
/// in the documented 1..=30 range, so both are required; the compressor
/// always emits a valid minimum code size and a byte vector sink cannot
/// fail, so the write succeeds.
#[verifier::external_body]
fn gif_push_frame(
    sink: &mut GifSink,
    width: u16,
    height: u16,
    rgba: &mut Vec<u8>,
    delay: u16,
    speed: i32,
) -> (r: Result<(), Error>)
    requires
        old(rgba)@.len() == 4 * (width as int) * (height as int),
        1 <= speed <= 30,
    ensures
        r is Ok,
        gif_sink_bytes(*final(sink)) == gif_sink_bytes(*old(sink)) + gif_frame_bytes(
            width,
            height,
            old(rgba)@,
            delay,
            speed as int,
        ),
{
    let mut frame = gif::Frame::from_rgba_speed(width, height, rgba.as_mut_slice(), speed);
    frame.dispose = gif::DisposalMethod::Background;
    frame.delay = delay;
    frame.make_lzw_pre_encoded();
    sink.enc.write_lzw_pre_encoded_frame(&frame).map_err(
        |_| Error::ImageEncodeError("could not write an animation frame".to_owned()),
    )
}

/// Relies on `gif::Encoder::into_inner`: appends the one-byte trailer the
/// format fixes and hands back the collected bytes.  A byte vector sink
/// cannot fail.
#[verifier::external_body]
fn gif_finish(sink: GifSink) -> (r: Result<Vec<u8>, Error>)
    ensures
        r is Ok,
        (match r {
            Ok(bytes) => bytes@ == gif_sink_bytes(sink) + seq![0x3bu8],
            Err(_) => true,
        }),
{
    sink.enc.into_inner().map_err(
        |_| Error::ImageEncodeError("could not finish the animation container".to_owned()),
    )
}

/// The container a frame set is serialized into: a still image for exactly
/// one frame, an animation for more.
#[derive(Debug, Clone, Copy, PartialEq, Eq, Structural)]
pub enum EncodeFormat {
    PNG,
    GIF,
}

impl EncodeFormat {
    /// The short format name.
    pub fn get_str(&self) -> (r: &'static str)
        ensures
            *self is PNG ==> r@ == "png"@,
            *self is GIF ==> r@ == "gif"@,
    {
        match self {
            EncodeFormat::PNG => "png",
            EncodeFormat::GIF => "gif",
        }
    }

    /// The media type of this format.
    pub fn to_format(&self) -> (r: String)
        ensures
            *self is PNG ==> r@ == "image/png"@,
            *self is GIF ==> r@ == "image/gif"@,
    {
        match self {
            EncodeFormat::PNG => "image/png".to_owned(),
            EncodeFormat::GIF => "image/gif".to_owned(),
        }
    }
}

/// The serialized frames of an animation, in input order, each with the
/// same delay.
pub open spec fn spec_frames_bytes(images: Seq<PixelFrame>, delay: u16, speed: int, i: int) -> Seq<
    u8,
>
    decreases i,
{
    if i <= 0 {
        Seq::empty()
    } else {
        spec_frames_bytes(images, delay, speed, i - 1) + gif_frame_bytes(
            images[i - 1].width as u16,
            images[i - 1].height as u16,
            images[i - 1].rgba@,
            delay,
            speed,
        )
    }
}

/// The whole animation container for a frame set: the screen takes the
/// first frame's size, the animation loops forever, every frame carries the
/// same delay and they appear in input order, closed by the format's
/// trailer byte.
pub open spec fn spec_animation_bytes(images: Seq<PixelFrame>, delay: u16, speed: int) -> Seq<u8> {
    gif_header_bytes(images[0].width as u16, images[0].height as u16) + gif_repeat_bytes(true)
        + spec_frames_bytes(images, delay, speed, images.len() as int) + seq![0x3bu8]
}

/// Whether every frame of a set is well-formed and fits the animation
/// container's 16-bit dimensions.
pub open spec fn frames_encodable(images: Seq<PixelFrame>) -> bool {
    forall|i: int|
        0 <= i < images.len() ==> {
            &&& pixel_frame_wf(#[trigger] images[i])
            &&& images[i].width <= u16::MAX
            &&& images[i].height <= u16::MAX
        }
}

/// The frame serializer: still images go to the raster backend's codec,
/// animations through the animation container.
pub struct ImageEncoder {
    pub png_quality: u32,
    pub gif_quality: i32,
}

impl ImageEncoder {
    /// The default quality settings.
    pub fn new() -> (r: Self)
        ensures
            r.png_quality == 90,
            r.gif_quality == 10,
    {
        ImageEncoder { png_quality: 90, gif_quality: 10 }
    }

    /// Serializes a frame set: exactly one frame picks the still format and
    /// hands its raw pixels to the backend's codec; more than one frame
    /// picks the animation format with the given uniform delay and infinite
    /// looping; an empty set cannot be encoded.
    pub fn encode(&self, images: &Vec<PixelFrame>, delay: u16) -> (r: Result<
        (Vec<u8>, EncodeFormat),
        Error,
    >)
        requires
            frames_encodable(images@),
            1 <= self.gif_quality <= 30,
        ensures
            match r {
                Ok(out) => {
                    &&& images@.len() >= 1
                    &&& (out.1 is PNG <==> images@.len() == 1)
                    &&& (images@.len() == 1 ==> out.0@ == images@[0].rgba@)
                    &&& (images@.len() > 1 ==> out.0@ == spec_animation_bytes(
                        images@,
                        delay,
                        self.gif_quality as int,
                    ))
                },
                Err(e) => images@.len() == 0 && e is ImageEncodeError,
            },
    {
        if images.len() == 0 {
            return Err(Error::ImageEncodeError("no frame to encode".to_owned()));
        }
        if images.len() == 1 {
            let bytes = self.encode_image(&images[0]);
            Ok((bytes, EncodeFormat::PNG))
        } else {
            match self.encode_images(images, delay) {
                Ok(bytes) => Ok((bytes, EncodeFormat::GIF)),
                Err(e) => Err(e),
            }
        }
    }

    /// The still-image payload of one frame: its raw RGBA bytes, which the
    /// raster backend's still-image codec serializes.
    pub fn encode_image(&self, image: &PixelFrame) -> (r: Vec<u8>)
        ensures
            r@ == image.rgba@,
    {
        let mut out: Vec<u8> = Vec::new();
        let mut i: usize = 0;
        while i < image.rgba.len()
            invariant
                i <= image.rgba@.len(),
                out@ =~= image.rgba@.take(i as int),
            decreases image.rgba@.len() - i,
        {
            out.push(image.rgba[i]);
            i += 1;
        }
        proof {
            assert(out@ =~= image.rgba@);
        }
        out
    }

    /// Serializes an animated frame set: the screen takes the first frame's
    /// size, the animation loops forever, and every frame carries the same
    /// delay.  Frames are compressed one by one, in order.
    pub fn encode_images(&self, images: &Vec<PixelFrame>, delay: u16) -> (r: Result<Vec<u8>, Error>)
        requires
            frames_encodable(images@),
            images@.len() >= 1,
            1 <= self.gif_quality <= 30,
        ensures
            r matches Ok(bytes) && bytes@ == spec_animation_bytes(
                images@,
                delay,
                self.gif_quality as int,
            ),
    {
        let width = images[0].width as u16;
        let height = images[0].height as u16;
        let mut enc = match gif_encoder_new(width, height) {
            Ok(e) => e,
            Err(e) => {
                proof {
                    assert(false);
                }
                return Err(e);
            },
        };
        match gif_set_repeat_infinite(&mut enc) {
            Ok(()) => (),
            Err(e) => {
                proof {
                    assert(false);
                }
                return Err(e);
            },
        }
        let ghost prefix = gif_header_bytes(width, height) + gif_repeat_bytes(true);
        let mut i: usize = 0;
        while i < images.len()
            invariant
                i <= images@.len(),
                frames_encodable(images@),
                1 <= self.gif_quality <= 30,
                width == images@[0].width as u16,
                height == images@[0].height as u16,
                prefix == gif_header_bytes(width, height) + gif_repeat_bytes(true),
                gif_sink_bytes(enc) == prefix + spec_frames_bytes(
                    images@,
                    delay,
                    self.gif_quality as int,
                    i as int,
                ),
            decreases images@.len() - i,
        {
            let img = &images[i];
            let mut scratch = self.encode_image(img);
            let fw = img.width as u16;
            let fh = img.height as u16;
            proof {
                assert(scratch@.len() == 4 * (fw as int) * (fh as int)) by {
                    assert(pixel_frame_wf(images@[i as int]));
                    assert(4 * (img.width as int) * (img.height as int) == 4 * img.width * img.height)
                        by (nonlinear_arith);
                }
            }
            match gif_push_frame(&mut enc, fw, fh, &mut scratch, delay, self.gif_quality) {
                Ok(()) => (),
                Err(e) => {
                    proof {
                        assert(false);
                    }
                    return Err(e);
                },
            }
            proof {
                assert(gif_sink_bytes(enc) =~= prefix + spec_frames_bytes(
                    images@,
                    delay,
                    self.gif_quality as int,
                    i as int + 1,
                ));
            }
            i += 1;
        }
        match gif_finish(enc) {
            Ok(bytes) => {
                proof {
                    assert(bytes@ =~= spec_animation_bytes(images@, delay, self.gif_quality as int));
                }
                Ok(bytes)
            },
            Err(e) => {
                proof {
                    assert(false);
                }
                Err(e)
            },
        }
    }
}

} // verus!
