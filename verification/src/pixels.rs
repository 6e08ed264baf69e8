use vstd::prelude::*;

use crate::error::{SdlError, SdlResult};

verus! {

/// The closed catalog of recognized pixel encodings.
///
/// Every member belongs to exactly one family: indexed (palette-based, 1, 4
/// or 8 bits per pixel), packed RGB with or without alpha (16, 24 or 32 bits),
/// planar YUV 4:2:0 (one full-resolution luma plane, two chroma planes at
/// half width and half height), or packed YUV 4:2:2 (two bytes per pixel,
/// chroma shared across adjacent pixel pairs but stored inline).
#[derive(Clone, Copy, PartialEq, Eq, Structural, Debug)]
pub enum PixelFormatEnum {
    Unknown,
    Index1LSB,
    Index1MSB,
    Index4LSB,
    Index4MSB,
    Index8,
    RGB332,
    RGB444,
    RGB555,
    BGR555,
    ARGB4444,
    RGBA4444,
    ABGR4444,
    BGRA4444,
    ARGB1555,
    RGBA5551,
    ABGR1555,
    BGRA5551,
    RGB565,
    BGR565,
    RGB24,
    BGR24,
    RGB888,
    RGBX8888,
    BGR888,
    BGRX8888,
    ARGB8888,
    RGBA8888,
    ABGR8888,
    BGRA8888,
    ARGB2101010,
    YV12,
    IYUV,
    YUY2,
    UYVY,
    YVYU,
}

impl PixelFormatEnum {
    /// The planar YUV 4:2:0 members: luma at full resolution, two chroma
    /// planes at half width and half height.
    pub open spec fn is_planar_yuv(self) -> bool {
        self == PixelFormatEnum::YV12 || self == PixelFormatEnum::IYUV
    }

    /// The packed YUV 4:2:2 members: two bytes per pixel, no separate planes.
    pub open spec fn is_packed_yuv(self) -> bool {
        ||| self == PixelFormatEnum::YUY2
        ||| self == PixelFormatEnum::UYVY
        ||| self == PixelFormatEnum::YVYU
    }

    /// The indexed members below one byte per pixel: no fixed per-pixel byte
    /// size exists for them.
    pub open spec fn is_sub_byte_indexed(self) -> bool {
        ||| self == PixelFormatEnum::Index1LSB
        ||| self == PixelFormatEnum::Index1MSB
        ||| self == PixelFormatEnum::Index4LSB
        ||| self == PixelFormatEnum::Index4MSB
    }

    /// The members that occupy exactly one byte per pixel.
    pub open spec fn is_one_byte(self) -> bool {
        self == PixelFormatEnum::RGB332 || self == PixelFormatEnum::Index8
    }

    /// The 24-bit packed RGB members.
    pub open spec fn is_three_byte(self) -> bool {
        self == PixelFormatEnum::RGB24 || self == PixelFormatEnum::BGR24
    }

    /// The 32-bit packed RGB/RGBX/ARGB members.
    pub open spec fn is_four_byte(self) -> bool {
        ||| self == PixelFormatEnum::RGB888
        ||| self == PixelFormatEnum::RGBX8888
        ||| self == PixelFormatEnum::BGR888
        ||| self == PixelFormatEnum::BGRX8888
        ||| self == PixelFormatEnum::ARGB8888
        ||| self == PixelFormatEnum::RGBA8888
        ||| self == PixelFormatEnum::ABGR8888
        ||| self == PixelFormatEnum::BGRA8888
        ||| self == PixelFormatEnum::ARGB2101010
    }

    /// Whether the encoding has a fixed per-pixel byte size at all. The
    /// unknown member and the sub-byte indexed members do not; the size
    /// queries fail on exactly these.
    pub open spec fn has_byte_size(self) -> bool {
        !(self == PixelFormatEnum::Unknown || self.is_sub_byte_indexed())
    }

    /// The fixed per-pixel byte size: 1 for 8-bit indexed and RGB332, 3 for
    /// the 24-bit layouts, 4 for the 32-bit layouts, and 2 for everything
    /// else with a fixed size (16-bit packed RGB, planar YUV 4:2:0 and packed
    /// YUV 4:2:2).
    pub open spec fn bytes_per_pixel(self) -> u32
        recommends
            self.has_byte_size(),
    {
        if self.is_one_byte() {
            1u32
        } else if self.is_three_byte() {
            3u32
        } else if self.is_four_byte() {
            4u32
        } else {
            2u32
        }
    }

    /// How many bytes a run of `n` pixels occupies. For the planar YUV 4:2:0
    /// members this is `(n / 2) * 3` with truncating division — a historical
    /// approximation that loses a pixel for odd `n`, preserved deliberately
    /// because callers may compensate for it. Every other member with a fixed
    /// size takes exactly `n` times its per-pixel size.
    pub open spec fn pixel_count_bytes(self, n: int) -> int
        recommends
            self.has_byte_size(),
    {
        if self.is_planar_yuv() {
            (n / 2) * 3
        } else {
            n * (self.bytes_per_pixel() as int)
        }
    }

    /// The total byte size of an image buffer with the given pitch (bytes per
    /// row) and height. For the planar YUV 4:2:0 members the luma plane takes
    /// `pitch * height` and each of the two chroma planes a quarter of that,
    /// at half pitch and half height with both divisions truncating; every
    /// other member takes `pitch * height` exactly.
    pub open spec fn pitch_height_bytes(self, pitch: int, height: int) -> int {
        if self.is_planar_yuv() {
            pitch * height + 2 * ((pitch / 2) * (height / 2))
        } else {
            pitch * height
        }
    }

    /// The fixed byte size of one pixel, or `UnsupportedEncoding` for the
    /// unknown member and the sub-byte indexed members, which have none.
    pub fn byte_size_per_pixel(&self) -> (r: SdlResult<u32>)
        ensures
            r == if self.has_byte_size() {
                Ok::<u32, SdlError>(self.bytes_per_pixel())
            } else {
                Err::<u32, SdlError>(SdlError::UnsupportedEncoding)
            },
    {
        match *self {
            PixelFormatEnum::RGB332 => Ok(1),
            PixelFormatEnum::RGB444
            | PixelFormatEnum::RGB555
            | PixelFormatEnum::BGR555
            | PixelFormatEnum::ARGB4444
            | PixelFormatEnum::RGBA4444
            | PixelFormatEnum::ABGR4444
            | PixelFormatEnum::BGRA4444
            | PixelFormatEnum::ARGB1555
            | PixelFormatEnum::RGBA5551
            | PixelFormatEnum::ABGR1555
            | PixelFormatEnum::BGRA5551
            | PixelFormatEnum::RGB565
            | PixelFormatEnum::BGR565 => Ok(2),
            PixelFormatEnum::RGB24 | PixelFormatEnum::BGR24 => Ok(3),
            PixelFormatEnum::RGB888
            | PixelFormatEnum::RGBX8888
            | PixelFormatEnum::BGR888
            | PixelFormatEnum::BGRX8888
            | PixelFormatEnum::ARGB8888
            | PixelFormatEnum::RGBA8888
            | PixelFormatEnum::ABGR8888
            | PixelFormatEnum::BGRA8888
            | PixelFormatEnum::ARGB2101010 => Ok(4),
            PixelFormatEnum::YV12 | PixelFormatEnum::IYUV => Ok(2),
            PixelFormatEnum::YUY2 | PixelFormatEnum::UYVY | PixelFormatEnum::YVYU => Ok(2),
            PixelFormatEnum::Index8 => Ok(1),
            PixelFormatEnum::Unknown
            | PixelFormatEnum::Index1LSB
            | PixelFormatEnum::Index1MSB
            | PixelFormatEnum::Index4LSB
            | PixelFormatEnum::Index4MSB => Err(SdlError::UnsupportedEncoding),
        }
    }

    /// The byte size of a run of `num_of_pixels` pixels, or
    /// `UnsupportedEncoding` for the unknown member and the sub-byte indexed
    /// members. For the planar YUV 4:2:0 members the result truncates for odd
    /// counts; see [`Self::pixel_count_bytes`].
    pub fn byte_size_of_pixels(&self, num_of_pixels: u32) -> (r: SdlResult<u32>)
        requires
            self.has_byte_size() ==> self.pixel_count_bytes(num_of_pixels as int) <= u32::MAX,
        ensures
            r == if self.has_byte_size() {
                Ok::<u32, SdlError>(self.pixel_count_bytes(num_of_pixels as int) as u32)
            } else {
                Err::<u32, SdlError>(SdlError::UnsupportedEncoding)
            },
    {
        match *self {
            PixelFormatEnum::RGB332 => Ok(num_of_pixels * 1),
            PixelFormatEnum::RGB444
            | PixelFormatEnum::RGB555
            | PixelFormatEnum::BGR555
            | PixelFormatEnum::ARGB4444
            | PixelFormatEnum::RGBA4444
            | PixelFormatEnum::ABGR4444
            | PixelFormatEnum::BGRA4444
            | PixelFormatEnum::ARGB1555
            | PixelFormatEnum::RGBA5551
            | PixelFormatEnum::ABGR1555
            | PixelFormatEnum::BGRA5551
            | PixelFormatEnum::RGB565
            | PixelFormatEnum::BGR565 => Ok(num_of_pixels * 2),
            PixelFormatEnum::RGB24 | PixelFormatEnum::BGR24 => Ok(num_of_pixels * 3),
            PixelFormatEnum::RGB888
            | PixelFormatEnum::RGBX8888
            | PixelFormatEnum::BGR888
            | PixelFormatEnum::BGRX8888
            | PixelFormatEnum::ARGB8888
            | PixelFormatEnum::RGBA8888
            | PixelFormatEnum::ABGR8888
            | PixelFormatEnum::BGRA8888
            | PixelFormatEnum::ARGB2101010 => Ok(num_of_pixels * 4),
            PixelFormatEnum::YV12 | PixelFormatEnum::IYUV => Ok((num_of_pixels / 2) * 3),
            PixelFormatEnum::YUY2 | PixelFormatEnum::UYVY | PixelFormatEnum::YVYU => Ok(
                num_of_pixels * 2,
            ),
            PixelFormatEnum::Index8 => Ok(num_of_pixels * 1),
            PixelFormatEnum::Unknown
            | PixelFormatEnum::Index1LSB
            | PixelFormatEnum::Index1MSB
            | PixelFormatEnum::Index4LSB
            | PixelFormatEnum::Index4MSB => Err(SdlError::UnsupportedEncoding),
        }
    }

    /// The total byte size of an image buffer, given its pitch (bytes per
    /// row) and height. Total over every member: it trusts the caller-supplied
    /// pitch and needs no fixed per-pixel size.
    pub fn byte_size_from_pitch_and_height(&self, pitch: usize, height: usize) -> (r: usize)
        requires
            self.pitch_height_bytes(pitch as int, height as int) <= usize::MAX,
        ensures
            r == self.pitch_height_bytes(pitch as int, height as int),
    {
        match *self {
            PixelFormatEnum::YV12 | PixelFormatEnum::IYUV => {
                // The Y plane is pitch * height; U and V each have half the
                // pitch and half the height of Y.
                proof {
                    vstd::arithmetic::mul::lemma_mul_nonnegative(
                        pitch as int,
                        height as int,
                    );
                    vstd::arithmetic::mul::lemma_mul_nonnegative(
                        pitch as int / 2,
                        height as int / 2,
                    );
                }
                let chroma: usize = (pitch / 2) * (height / 2);
                pitch * height + 2 * chroma
            },
            _ => pitch * height,
        }
    }
}

/// For every member with a fixed per-pixel size that is not planar, the byte
/// size of a run of pixels is exactly the pixel count times the per-pixel
/// size, for every count.
pub proof fn lemma_fixed_size_pixel_count(e: PixelFormatEnum, n: int)
    requires
        e.has_byte_size(),
        !e.is_planar_yuv(),
    ensures
        e.pixel_count_bytes(n) == n * (e.bytes_per_pixel() as int),
{
}

/// For the two planar YUV 4:2:0 members, the byte size of a run of pixels is
/// `(n / 2) * 3` with truncating division, for every count — the historical
/// approximation, kept as is.
pub proof fn lemma_planar_pixel_count(e: PixelFormatEnum, n: int)
    requires
        e.is_planar_yuv(),
    ensures
        e.pixel_count_bytes(n) == (n / 2) * 3,
{
}

/// For every member that is not planar, the buffer size for a pitch and a
/// height is exactly their product: the pitch-and-height query is branch-free
/// outside the two planar members.
pub proof fn lemma_non_planar_pitch_height(e: PixelFormatEnum, pitch: int, height: int)
    requires
        !e.is_planar_yuv(),
    ensures
        e.pitch_height_bytes(pitch, height) == pitch * height,
{
}

/// The members without a fixed per-pixel byte size — on which the two
/// fallible size queries fail, and the only ones on which they fail — are
/// exactly the unknown member and the four sub-byte indexed members.
pub proof fn lemma_unsupported_members(e: PixelFormatEnum)
    ensures
        !e.has_byte_size() <==> {
            ||| e == PixelFormatEnum::Unknown
            ||| e == PixelFormatEnum::Index1LSB
            ||| e == PixelFormatEnum::Index1MSB
            ||| e == PixelFormatEnum::Index4LSB
            ||| e == PixelFormatEnum::Index4MSB
        },
{
}

/// A color value, with or without an alpha channel, each channel an 8-bit
/// unsigned integer. Equality is structural: a color without alpha and a
/// color with alpha are never equal, even when the shared channels match.
#[derive(Clone, Copy, PartialEq, Eq, Structural, Debug)]
pub enum Color {
    RGB(u8, u8, u8),
    RGBA(u8, u8, u8, u8),
}

/// The channel values a color hands to the native packing service, tagged
/// with the primitive that receives them: the 3-channel primitive for a color
/// without alpha, the 4-channel primitive for one with alpha.
#[derive(Clone, Copy, PartialEq, Eq, Structural, Debug)]
pub enum PackingCall {
    Pack3(u8, u8, u8),
    Pack4(u8, u8, u8, u8),
}

impl Color {
    /// The three color channels, alpha discarded when present.
    pub open spec fn rgb(self) -> (u8, u8, u8) {
        match self {
            Color::RGB(r, g, b) => (r, g, b),
            Color::RGBA(r, g, b, _) => (r, g, b),
        }
    }

    /// The native packing call this color is converted through.
    pub open spec fn packing_call_spec(self) -> PackingCall {
        match self {
            Color::RGB(r, g, b) => PackingCall::Pack3(r, g, b),
            Color::RGBA(r, g, b, a) => PackingCall::Pack4(r, g, b, a),
        }
    }

    /// Projects either variant down to its three color channels, discarding
    /// alpha if present. Total, never fails.
    pub fn get_rgb(&self) -> (rgb: (u8, u8, u8))
        ensures
            rgb == self.rgb(),
    {
        match *self {
            Color::RGB(r, g, b) => (r, g, b),
            Color::RGBA(r, g, b, _) => (r, g, b),
        }
    }

    /// The call into the native packing service that turns this color into a
    /// packed integer: a color without alpha goes to the 3-channel primitive
    /// with `(r, g, b)`, a color with alpha to the 4-channel primitive with
    /// `(r, g, b, a)`. The packing rule itself — channel order, bit widths —
    /// is owned by the native library and is format-specific; no local
    /// arithmetic touches the channels.
    pub fn packing_call(&self) -> (c: PackingCall)
        ensures
            c == self.packing_call_spec(),
    {
        match *self {
            Color::RGB(r, g, b) => PackingCall::Pack3(r, g, b),
            Color::RGBA(r, g, b, a) => PackingCall::Pack4(r, g, b, a),
        }
    }

    /// Wraps the four channels handed back by the native 4-channel unpacking
    /// primitive. Unpacking always yields the alpha-bearing variant, even
    /// when the source format has no real alpha channel: the alpha is
    /// whatever the native format reported, so a color without alpha does not
    /// round-trip back to the alpha-free variant.
    pub fn from_unpacked(r: u8, g: u8, b: u8, a: u8) -> (c: Color)
        ensures
            c == Color::RGBA(r, g, b, a),
    {
        Color::RGBA(r, g, b, a)
    }
}

/// A color without alpha and a color with alpha are never equal, whatever
/// their channels: equality is structural, never a color-space comparison.
pub proof fn lemma_rgb_never_equals_rgba(r1: u8, g1: u8, b1: u8, r2: u8, g2: u8, b2: u8, a2: u8)
    ensures
        Color::RGB(r1, g1, b1) != Color::RGBA(r2, g2, b2, a2),
{
}

/// A non-owning handle to pixel-format metadata held by the native library.
/// The raw value identifies the native object; the handle must not be used
/// after the owning native object is destroyed, and nothing may be mutated
/// through it. The native packing primitives read the format description it
/// names.
#[derive(Clone, Copy, PartialEq, Eq, Structural, Debug)]
pub struct PixelFormat {
    raw: usize,
}

impl PixelFormat {
    /// The raw identity of the native object this handle names.
    pub closed spec fn id(self) -> usize {
        self.raw
    }

    /// Wraps the raw identity of a native format object into a handle. The
    /// caller is responsible for not letting the handle outlive the owner.
    pub fn from_raw(raw: usize) -> (f: PixelFormat)
        ensures
            f.id() == raw,
    {
        PixelFormat { raw }
    }

    /// The raw identity, for handing back to the native library.
    pub fn raw(&self) -> (r: usize)
        ensures
            r == self.id(),
    {
        self.raw
    }
}

/// A non-owning handle to a native palette object: a pure identity wrapper
/// with no independent lifecycle. It must not be used after the owning native
/// object is destroyed.
#[derive(Clone, Copy, PartialEq, Eq, Structural, Debug)]
pub struct Palette {
    raw: usize,
}

impl Palette {
    /// The raw identity of the native object this handle names.
    pub closed spec fn id(self) -> usize {
        self.raw
    }

    /// Wraps the raw identity of a native palette object into a handle. The
    /// caller is responsible for not letting the handle outlive the owner.
    pub fn from_raw(raw: usize) -> (p: Palette)
        ensures
            p.id() == raw,
    {
        Palette { raw }
    }

    /// The raw identity, for handing back to the native library.
    pub fn raw(&self) -> (r: usize)
        ensures
            r == self.id(),
    {
        self.raw
    }
}

} // verus!
