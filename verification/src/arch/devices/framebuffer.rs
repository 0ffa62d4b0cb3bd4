//! Linear framebuffers and the values that are written to them.

use vstd::prelude::*;
use vstd::std_specs::convert::FromSpecImpl;
use vstd::std_specs::ops::{AddSpecImpl, SubSpecImpl};
use core::ops::{Add, Sub};
use crate::arch::VirtualAddress;

verus! {

/// A position on the screen, counted from the top left corner.
#[derive(Clone, Copy, Debug, PartialEq, Eq, Structural)]
pub struct Pixel {
    pub x: usize,
    pub y: usize,
}

impl From<(usize, usize)> for Pixel {
    fn from(value: (usize, usize)) -> (pixel: Self) {
        Pixel { x: value.0, y: value.1 }
    }
}

impl FromSpecImpl<(usize, usize)> for Pixel {
    open spec fn obeys_from_spec() -> bool {
        true
    }

    open spec fn from_spec(value: (usize, usize)) -> Self {
        Pixel { x: value.0, y: value.1 }
    }
}

impl Add<(usize, usize)> for Pixel {
    type Output = Pixel;

    fn add(self, rhs: (usize, usize)) -> (moved: Pixel) {
        Pixel { x: self.x + rhs.0, y: self.y + rhs.1 }
    }
}

impl AddSpecImpl<(usize, usize)> for Pixel {
    open spec fn obeys_add_spec() -> bool {
        true
    }

    open spec fn add_req(self, rhs: (usize, usize)) -> bool {
        self.x + rhs.0 <= usize::MAX && self.y + rhs.1 <= usize::MAX
    }

    open spec fn add_spec(self, rhs: (usize, usize)) -> Pixel {
        Pixel { x: (self.x + rhs.0) as usize, y: (self.y + rhs.1) as usize }
    }
}

impl Sub<(usize, usize)> for Pixel {
    type Output = Pixel;

    fn sub(self, rhs: (usize, usize)) -> (moved: Pixel) {
        Pixel { x: self.x - rhs.0, y: self.y - rhs.1 }
    }
}

impl SubSpecImpl<(usize, usize)> for Pixel {
    open spec fn obeys_sub_spec() -> bool {
        true
    }

    open spec fn sub_req(self, rhs: (usize, usize)) -> bool {
        rhs.0 <= self.x && rhs.1 <= self.y
    }

    open spec fn sub_spec(self, rhs: (usize, usize)) -> Pixel {
        Pixel { x: (self.x - rhs.0) as usize, y: (self.y - rhs.1) as usize }
    }
}

/// A colour: the amounts of red, green and blue.
#[derive(Clone, Copy, Debug, PartialEq, Eq, Structural)]
pub struct Rgb {
    pub r: u8,
    pub g: u8,
    pub b: u8,
}

/// The colour as one number: blue in bits 0 to 7, green in bits 8 to 15, red
/// in bits 16 to 23, and bits 24 to 31 zero.
pub open spec fn argb32_of(color: Rgb) -> u32 {
    (color.b as u32) | ((color.g as u32) << 8) | ((color.r as u32) << 16)
}

/// The colour that a number stands for. Bits 24 to 31 are not looked at.
pub open spec fn rgb_of(value: u32) -> Rgb {
    Rgb { r: (value >> 16) as u8, g: (value >> 8) as u8, b: value as u8 }
}

/// Turning a colour into a number and back gives the colour; turning a
/// number into a colour and back gives its lowest 24 bits.
pub proof fn lemma_argb32_round_trip(color: Rgb, value: u32)
    ensures
        rgb_of(argb32_of(color)) == color,
        argb32_of(rgb_of(value)) == value & 0xff_ffff,
{
    let Rgb { r, g, b } = color;
    assert({
        let packed = (b as u32) | ((g as u32) << 8) | ((r as u32) << 16);
        &&& (packed >> 16) as u8 == r
        &&& (packed >> 8) as u8 == g
        &&& packed as u8 == b
    }) by (bit_vector);
    assert((value as u8 as u32) | (((value >> 8) as u8 as u32) << 8) | (((value >> 16) as u8
        as u32) << 16) == value & 0xff_ffff) by (bit_vector);
}

impl Rgb {
    /// Black.
    pub fn black() -> (color: Self)
        ensures
            color == (Rgb { r: 0, g: 0, b: 0 }),
    {
        Rgb { r: 0, g: 0, b: 0 }
    }

    /// White.
    pub fn white() -> (color: Self)
        ensures
            color == (Rgb { r: 0xff, g: 0xff, b: 0xff }),
    {
        Rgb { r: 0xff, g: 0xff, b: 0xff }
    }

    pub fn into_argb32(self) -> (value: u32)
        ensures
            value == argb32_of(self),
    {
        let Rgb { r, g, b } = self;
        let r = r as u32;
        let g = g as u32;
        let b = b as u32;
        assert(g << 8 <= 0xff00 && r << 16 <= 0xff_0000) by (bit_vector)
            requires
                g <= 0xff,
                r <= 0xff,
        ;
        b | g << 8 | r << 16
    }

    pub fn from_argb32(value: u32) -> (color: Self)
        ensures
            color == rgb_of(value),
    {
        let b = #[verifier::truncate] (value as u8);
        let g = #[verifier::truncate] ((value >> 8) as u8);
        let r = #[verifier::truncate] ((value >> 16) as u8);
        Self { r, g, b }
    }
}

impl From<u32> for Rgb {
    fn from(value: u32) -> (color: Self) {
        Self::from_argb32(value)
    }
}

impl FromSpecImpl<u32> for Rgb {
    open spec fn obeys_from_spec() -> bool {
        true
    }

    open spec fn from_spec(value: u32) -> Self {
        rgb_of(value)
    }
}

impl From<Rgb> for u32 {
    fn from(color: Rgb) -> (value: u32) {
        color.into_argb32()
    }
}

impl FromSpecImpl<Rgb> for u32 {
    open spec fn obeys_from_spec() -> bool {
        true
    }

    open spec fn from_spec(color: Rgb) -> u32 {
        argb32_of(color)
    }
}

/// Where the colours lie in a pixel of a framebuffer that is not plain RGB.
#[derive(Clone, Copy, Debug, PartialEq, Eq, Structural)]
pub struct CustomColorMode {
    // See: VESA mode info
    pub red_mask: u8,
    pub red_shift: u8,
    pub green_mask: u8,
    pub green_shift: u8,
    pub blue_mask: u8,
    pub blue_shift: u8,
}

/// How a pixel of a framebuffer holds its colour.
#[derive(Clone, Copy, Debug, PartialEq, Eq, Structural)]
pub enum ColorMode {
    Rgb,
    Custom(CustomColorMode),
}

/// What the boot loader reports of one framebuffer.
#[derive(Clone, Copy, Debug)]
pub struct FramebufferInfo {
    /// Linear framebuffer (virtual) address
    pub address: VirtualAddress,
    /// Bits per pixel
    pub bpp: u8,
    pub color_mode: ColorMode,
    /// Width in pixels
    pub width: usize,
    /// Height in pixels
    pub height: usize,
    /// Stride in bytes
    pub stride: usize,
}

/// One framebuffer as the boot loader describes it.
#[derive(Clone, Copy, Debug)]
pub struct FramebufferReport {
    /// Linear framebuffer (virtual) address
    pub address: u64,
    /// Width in pixels
    pub width: u64,
    /// Height in pixels
    pub height: u64,
    /// Bytes from one row to the next
    pub pitch: u64,
    /// Bits per pixel
    pub bpp: u16,
    /// Whether the pixels are plain RGB
    pub rgb: bool,
    /// Where the colours lie in a pixel
    pub masks: CustomColorMode,
}

impl FramebufferReport {
    /// The numbers of the report fit the types that the kernel keeps them
    /// in.
    pub open spec fn fits(self) -> bool {
        &&& self.address <= usize::MAX
        &&& self.width <= usize::MAX
        &&& self.height <= usize::MAX
        &&& self.pitch <= usize::MAX
        &&& self.bpp <= u8::MAX
    }

    /// What the kernel keeps of the report.
    pub open spec fn info(self) -> FramebufferInfo {
        FramebufferInfo {
            address: VirtualAddress(self.address as usize),
            bpp: self.bpp as u8,
            color_mode: if self.rgb {
                ColorMode::Rgb
            } else {
                ColorMode::Custom(self.masks)
            },
            width: self.width as usize,
            height: self.height as usize,
            stride: self.pitch as usize,
        }
    }
}

impl FramebufferInfo {
    /// What the kernel keeps of a report, or `None` where a number of the
    /// report does not fit.
    pub fn from_report(report: FramebufferReport) -> (info: Option<Self>)
        ensures
            info == if report.fits() {
                Some(report.info())
            } else {
                None
            },
    {
        if report.address > usize::MAX as u64 || report.width > usize::MAX as u64 || report.height
            > usize::MAX as u64 || report.pitch > usize::MAX as u64 || report.bpp > 255 {
            return None;
        }
        let color_mode = if report.rgb {
            ColorMode::Rgb
        } else {
            ColorMode::Custom(report.masks)
        };
        Some(
            FramebufferInfo {
                address: VirtualAddress::new(report.address as usize),
                bpp: report.bpp as u8,
                color_mode,
                width: report.width as usize,
                height: report.height as usize,
                stride: report.pitch as usize,
            },
        )
    }
}

/// The framebuffers that the boot loader reports.
#[derive(Clone, Copy, Debug)]
pub struct FramebufferList {
    pub entries: &'static [FramebufferInfo],
}

/// A framebuffer of 32 bits per pixel in plain RGB.
#[derive(Debug)]
pub struct RawFramebuffer {
    pub info: FramebufferInfo,
}

/// Bytes of one pixel.
pub const PIXEL_BYTES: usize = 4;

impl RawFramebuffer {
    pub const ARGB32_ONLY: bool = true;

    /// The framebuffer can be drawn to: it is plain RGB with 32 bits per
    /// pixel.
    pub open spec fn supported(info: FramebufferInfo) -> bool {
        info.color_mode == ColorMode::Rgb && info.bpp == 32
    }

    /// Accepts the framebuffer that `info` describes if it is plain RGB with
    /// 32 bits per pixel.
    pub fn new(info: FramebufferInfo) -> (framebuffer: Result<Self, ()>)
        ensures
            match framebuffer {
                Ok(accepted) => Self::supported(info) && accepted.info == info,
                Err(_) => !Self::supported(info),
            },
    {
        let plain = match info.color_mode {
            ColorMode::Rgb => true,
            ColorMode::Custom(_) => false,
        };
        if plain && info.bpp == 32 {
            Ok(Self { info })
        } else {
            Err(())
        }
    }

    /// `pixel` lies on the screen.
    pub open spec fn shows(&self, pixel: Pixel) -> bool {
        pixel.x < self.info.width && pixel.y < self.info.height
    }

    /// Whether `pixel` lies on the screen.
    pub fn contains(&self, pixel: Pixel) -> (shown: bool)
        ensures
            shown == self.shows(pixel),
    {
        pixel.x < self.info.width && pixel.y < self.info.height
    }

    /// Byte offset of `pixel` from the start of the framebuffer, or `None`
    /// where the offset does not fit the machine.
    pub fn pixel_offset(&self, pixel: Pixel) -> (offset: Option<usize>)
        ensures
            match offset {
                Some(bytes) => bytes == pixel.y * self.info.stride + pixel.x * PIXEL_BYTES,
                None => pixel.y * self.info.stride + pixel.x * PIXEL_BYTES > usize::MAX,
            },
    {
        let rows = pixel.y.checked_mul(self.info.stride);
        let columns = pixel.x.checked_mul(PIXEL_BYTES);
        match (rows, columns) {
            (Some(rows), Some(columns)) => {
                rows.checked_add(columns)
            },
            (None, _) => {
                assert(pixel.x * PIXEL_BYTES >= 0) by (nonlinear_arith);
                None
            },
            (_, None) => {
                assert(pixel.y * self.info.stride >= 0) by (nonlinear_arith);
                None
            },
        }
    }
}

/// A framebuffer that is set up for drawing.
#[derive(Debug)]
pub struct Framebuffer<'fb>(pub &'fb RawFramebuffer);

impl<'fb> Framebuffer<'fb> {
    pub fn new(framebuffer: &'fb RawFramebuffer) -> (wrapped: Self)
        ensures
            wrapped.0 == framebuffer,
    {
        Self(framebuffer)
    }

    pub fn raw(&self) -> (framebuffer: &'fb RawFramebuffer)
        ensures
            framebuffer == self.0,
    {
        self.0
    }
}

/// A rectangle on a framebuffer.
#[derive(Clone, Copy, Debug)]
pub struct Rect<'fb> {
    pub fb: &'fb RawFramebuffer,
    pub origin: Pixel,
    pub width: usize,
    pub height: usize,
}

impl<'fb> Rect<'fb> {
    /// The rectangle lies on the screen.
    pub open spec fn fits(fb: &RawFramebuffer, origin: Pixel, width: usize, height: usize) -> bool {
        origin.x + width <= fb.info.width && origin.y + height <= fb.info.height
    }

    /// Whether the rectangle lies on the screen.
    pub fn check_fits(fb: &Framebuffer, origin: Pixel, width: usize, height: usize) -> (fits: bool)
        ensures
            fits == Self::fits(fb.0, origin, width, height),
    {
        let info = &fb.0.info;
        width <= info.width && origin.x <= info.width - width && height <= info.height && origin.y
            <= info.height - height
    }

    /// The rectangle of the given size with its top left corner at `origin`.
    pub fn new(fb: &'fb Framebuffer, origin: Pixel, width: usize, height: usize) -> (rect: Self)
        requires
            Self::fits(fb.0, origin, width, height),
        ensures
            rect.fb == fb.0,
            rect.origin == origin,
            rect.width == width,
            rect.height == height,
    {
        Self { fb: fb.0, origin, width, height }
    }

    /// The pixel at column `x` and row `y` of the rectangle.
    pub fn pixel(&self, x: usize, y: usize) -> (pixel: Pixel)
        requires
            Self::fits(self.fb, self.origin, self.width, self.height),
            x < self.width,
            y < self.height,
        ensures
            pixel.x == self.origin.x + x,
            pixel.y == self.origin.y + y,
            self.fb.shows(pixel),
    {
        Pixel { x: self.origin.x + x, y: self.origin.y + y }
    }
}

} // verus!
