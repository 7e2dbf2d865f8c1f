//! The pixel encoder: one intensity byte becomes the bytes of one gray pixel.
use vstd::prelude::*;
use crate::fault::Fault;
use crate::geometry::PixelFormat;

verus! {

/// The formats that the encoder can produce.
pub open spec fn supported(format: PixelFormat) -> bool {
    format != PixelFormat::Unknown
}

/// Byte `k` of a pixel of the given intensity. The two colour formats carry
/// the intensity in each of their three channels and zero in any padding; the
/// single-byte format is always black.
pub open spec fn channel(format: PixelFormat, intensity: u8, k: int) -> u8 {
    if (format == PixelFormat::Rgb || format == PixelFormat::Bgr) && k < 3 {
        intensity
    } else {
        0
    }
}

/// The bytes of one pixel of the given intensity.
pub open spec fn encoded(format: PixelFormat, intensity: u8, bytes_per_pixel: nat) -> Seq<u8> {
    Seq::new(bytes_per_pixel, |k: int| channel(format, intensity, k))
}

/// Tells whether the encoder can produce `format`.
pub fn is_supported(format: PixelFormat) -> (r: bool)
    ensures
        r == supported(format),
{
    match format {
        PixelFormat::Rgb => true,
        PixelFormat::Bgr => true,
        PixelFormat::U8 => true,
        PixelFormat::Unknown => false,
    }
}

/// Byte `k` of a pixel of the given intensity.
pub fn channel_byte(format: PixelFormat, intensity: u8, k: usize) -> (b: u8)
    ensures
        b == channel(format, intensity, k as int),
{
    match format {
        PixelFormat::Rgb | PixelFormat::Bgr => if k < 3 {
            intensity
        } else {
            0
        },
        _ => 0,
    }
}

/// Encodes one intensity as a gray pixel of `bytes_per_pixel` bytes, or
/// reports that the format is not supported.
pub fn encode_pixel(intensity: u8, format: PixelFormat, bytes_per_pixel: usize) -> (r: Result<
    Vec<u8>,
    Fault,
>)
    ensures
        supported(format) ==> r is Ok && r->Ok_0@ == encoded(
            format,
            intensity,
            bytes_per_pixel as nat,
        ),
        !supported(format) ==> r is Err && r->Err_0 == Fault::UnsupportedPixelFormat,
{
    if !is_supported(format) {
        return Err(Fault::UnsupportedPixelFormat);
    }
    let mut bytes: Vec<u8> = Vec::new();
    let mut k: usize = 0;
    while k < bytes_per_pixel
        invariant
            k <= bytes_per_pixel,
            bytes@ == encoded(format, intensity, k as nat),
        decreases bytes_per_pixel - k,
    {
        bytes.push(channel_byte(format, intensity, k));
        k += 1;
        assert(bytes@ =~= encoded(format, intensity, k as nat));
    }
    Ok(bytes)
}

/// The two colour formats encode every intensity alike: the console draws in
/// shades of gray, so the order of the channels does not show.
pub proof fn lemma_rgb_bgr_agree(intensity: u8, bytes_per_pixel: nat)
    ensures
        encoded(PixelFormat::Rgb, intensity, bytes_per_pixel) == encoded(
            PixelFormat::Bgr,
            intensity,
            bytes_per_pixel,
        ),
{
    assert(encoded(PixelFormat::Rgb, intensity, bytes_per_pixel) =~= encoded(
        PixelFormat::Bgr,
        intensity,
        bytes_per_pixel,
    ));
}

/// The single-byte format encodes every intensity as zeros.
pub proof fn lemma_indexed_is_black(intensity: u8, bytes_per_pixel: nat)
    ensures
        encoded(PixelFormat::U8, intensity, bytes_per_pixel).len() == bytes_per_pixel,
        encoded(PixelFormat::U8, intensity, bytes_per_pixel) == Seq::new(
            bytes_per_pixel,
            |k: int| 0u8,
        ),
{
    assert(encoded(PixelFormat::U8, intensity, bytes_per_pixel) =~= Seq::new(
        bytes_per_pixel,
        |k: int| 0u8,
    ));
}

} // verus!
