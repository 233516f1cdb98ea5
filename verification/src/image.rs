//! Bounds-checked interpretation of a raw frame buffer.
//!
//! A fetched frame is a strided pixel grid: rows of `width` pixels, each pixel
//! `channel_count` elements of `elem_size` bytes, and `padding_x` extra bytes
//! at the end of every row. [`Image`] holds the buffer together with the
//! header the driver attached to it and gives random access by pixel
//! coordinates that can never reach outside the buffer: out-of-range
//! coordinates, a missing buffer, or a buffer too short for the computed
//! position all answer "absent" instead of a wild address.
//!
//! An image borrows conceptually from the streaming session that produced it;
//! the lifetime parameter ties it to that session, so a frame cannot outlive
//! the session or survive the fetch that overwrites its buffer.

use core::marker::PhantomData;
use vstd::prelude::*;

use crate::consts::{XI_MONO16, XI_MONO8, XI_RAW16, XI_RAW8, XI_RGB24, XI_RGB32};

verus! {

/// The per-frame metadata the driver attaches to a fetched frame.
#[derive(Clone, Copy)]
pub struct FrameHeader {
    /// Width of the frame in pixels.
    pub width: u32,
    /// Height of the frame in pixels.
    pub height: u32,
    /// Extra bytes at the end of each row, for alignment.
    pub padding_x: u32,
    /// Pixel format of the frame data.
    pub format: i32,
    /// Filled buffer size in bytes; zero when the driver does not report it.
    pub bp_size: u32,
    /// Frame sequence number.
    pub nframe: u32,
    /// Frame sequence number reset only by acquisition start.
    pub acq_nframe: u32,
    /// Black level of the frame.
    pub black_level: u32,
    /// Horizontal offset between the sensor origin and the first pixel.
    pub absolute_offset_x: u32,
    /// Vertical offset between the sensor origin and the first line.
    pub absolute_offset_y: u32,
    /// Pixel format on the transport layer.
    pub transport_format: i32,
    /// Horizontal downsampling of the frame.
    pub downsampling_x: u32,
    /// Vertical downsampling of the frame.
    pub downsampling_y: u32,
    /// Exposure time used for this frame, in microseconds.
    pub exposure_time_us: u32,
    /// Caller-chosen word stored when the frame was captured.
    pub image_user_data: u32,
    /// Seconds part of the frame timestamp.
    pub ts_sec: u32,
    /// Sub-second part of the frame timestamp.
    pub ts_usec: u32,
}

/// Channels per pixel, derived from the pixel format by a fixed table:
/// monochrome and raw formats have one channel, 24-bit colour three, 32-bit
/// colour four, and an unrecognised format none, which makes the data of such
/// a frame read as empty rather than fail.
pub open spec fn spec_channel_count(format: i32) -> u32 {
    if format == XI_MONO8 {
        1
    } else if format == XI_MONO16 {
        1
    } else if format == XI_RAW8 {
        1
    } else if format == XI_RAW16 {
        1
    } else if format == XI_RGB24 {
        3
    } else if format == XI_RGB32 {
        4
    } else {
        0
    }
}

/// Channels per pixel for `format`; see [`spec_channel_count`].
pub fn channel_count(format: i32) -> (r: u32)
    ensures
        r == spec_channel_count(format),
{
    if format == XI_MONO8 {
        1
    } else if format == XI_MONO16 {
        1
    } else if format == XI_RAW8 {
        1
    } else if format == XI_RAW16 {
        1
    } else if format == XI_RGB24 {
        3
    } else if format == XI_RGB32 {
        4
    } else {
        0
    }
}

/// How many elements a frame's linear data holds: the reported byte length
/// divided by the element size when the driver reports one, otherwise the
/// computed pixel count `width * height * channels`.
pub open spec fn spec_data_len(header: FrameHeader, elem_size: u32) -> int
    recommends
        elem_size >= 1,
{
    if header.bp_size != 0 {
        header.bp_size as int / elem_size as int
    } else {
        header.width * header.height * spec_channel_count(header.format)
    }
}

/// The element index of the first element of pixel `(x, y)`: `y` full rows of
/// `width * channels` elements plus the row padding in elements, then `x`
/// pixels of `channels` elements.
pub open spec fn spec_pixel_index(header: FrameHeader, elem_size: u32, x: int, y: int) -> int
    recommends
        elem_size >= 1,
{
    y * (header.width * spec_channel_count(header.format) + header.padding_x as int
        / elem_size as int) + x * spec_channel_count(header.format)
}

/// What an [`Image`] abstracts to: its header, the buffer as a sequence of
/// elements, whether the driver handed a buffer at all, and the element size.
pub struct ImageView<T> {
    /// The frame metadata.
    pub header: FrameHeader,
    /// The buffer elements.
    pub elems: Seq<T>,
    /// Whether the driver handed a buffer; a frame without one has no data.
    pub buffer_valid: bool,
    /// Bytes per buffer element.
    pub elem_size: u32,
}

/// An image as it is captured by the camera: a borrowed, bounds-checked view
/// of one fetched frame's buffer. The lifetime ties the image to the
/// streaming session that produced it.
pub struct Image<'a, T> {
    header: FrameHeader,
    buffer: Vec<T>,
    buffer_valid: bool,
    elem_size: u32,
    producer: PhantomData<&'a T>,
}

impl<'a, T> View for Image<'a, T> {
    type V = ImageView<T>;

    closed spec fn view(&self) -> ImageView<T> {
        ImageView {
            header: self.header,
            elems: self.buffer@,
            buffer_valid: self.buffer_valid,
            elem_size: self.elem_size,
        }
    }
}

impl<'a, T> Image<'a, T> {
    /// Well-formedness: elements have a positive size, the row padding is a
    /// whole number of elements, and the buffer holds exactly the elements the
    /// header declares — none when the driver handed no buffer.
    #[verifier::type_invariant]
    spec fn wf(self) -> bool {
        &&& self.elem_size >= 1
        &&& self.header.padding_x as int % self.elem_size as int == 0
        &&& !self.buffer_valid ==> self.buffer@.len() == 0
        &&& self.buffer_valid ==> self.buffer@.len() == spec_data_len(self.header, self.elem_size)
    }
}

impl<'a, T: Copy> Image<'a, T> {
    /// Assemble an image from a fetched frame: the header the driver filled
    /// in, the buffer it transferred (empty when it handed none), and the
    /// element size of `T` in bytes.
    pub fn from_parts(
        header: FrameHeader,
        buffer: Vec<T>,
        buffer_valid: bool,
        elem_size: u32,
    ) -> (r: Image<'a, T>)
        requires
            elem_size >= 1,
            header.padding_x as int % elem_size as int == 0,
            !buffer_valid ==> buffer@.len() == 0,
            buffer_valid ==> buffer@.len() == spec_data_len(header, elem_size),
        ensures
            r@.header == header,
            r@.elems == buffer@,
            r@.buffer_valid == buffer_valid,
            r@.elem_size == elem_size,
    {
        Image { header, buffer, buffer_valid, elem_size, producer: PhantomData }
    }

    /// Get a pixel from the image.
    ///
    /// Returns the first element of the pixel at column `x`, row `y`, or
    /// `None` when the frame has no buffer, the coordinates lie outside the
    /// frame, or the buffer is too short for the computed position. No
    /// coordinate ever makes the read leave the buffer.
    pub fn pixel(&self, x: usize, y: usize) -> (r: Option<T>)
        ensures
            !self@.buffer_valid ==> r is None,
            x >= self@.header.width || y >= self@.header.height ==> r is None,
            self@.buffer_valid && x < self@.header.width && y < self@.header.height ==> {
                let i = spec_pixel_index(self@.header, self@.elem_size, x as int, y as int);
                &&& i < self@.elems.len() ==> r == Some(self@.elems[i])
                &&& i >= self@.elems.len() ==> r is None
            },
    {
        proof {
            use_type_invariant(self);
        }
        if !self.buffer_valid {
            return None;
        }
        if x >= self.header.width as usize || y >= self.header.height as usize {
            return None;
        }
        let channels = channel_count(self.header.format);
        let pad_elems = self.header.padding_x / self.elem_size;
        let w64: u64 = self.header.width as u64;
        let c64: u64 = channels as u64;
        proof {
            assert(w64 * c64 <= 0xffff_ffffu64 * 4) by (nonlinear_arith)
                requires
                    w64 <= 0xffff_ffffu64,
                    c64 <= 4u64,
            ;
        }
        let row_elems: u64 = w64 * c64 + pad_elems as u64;
        let y128: u128 = y as u128;
        let x128: u128 = x as u128;
        let row128: u128 = row_elems as u128;
        let c128: u128 = channels as u128;
        proof {
            assert(y128 * row128 <= 0xffff_ffffu128 * 0x8_0000_0000u128) by (nonlinear_arith)
                requires
                    y128 <= 0xffff_ffffu128,
                    row128 <= 0x8_0000_0000u128,
            ;
            assert(x128 * c128 <= 0xffff_ffffu128 * 4) by (nonlinear_arith)
                requires
                    x128 <= 0xffff_ffffu128,
                    c128 <= 4u128,
            ;
        }
        let index: u128 = y128 * row128 + x128 * c128;
        if index < self.buffer.len() as u128 {
            Some(self.buffer[index as usize])
        } else {
            None
        }
    }

    /// The raw frame data as a linear sequence of elements. Its length is the
    /// reported byte length divided by the element size when the driver
    /// reports one, otherwise the computed pixel count; a frame without a
    /// buffer has no data.
    pub fn data(&self) -> (r: &Vec<T>)
        ensures
            r@ == self@.elems,
            self@.buffer_valid ==> r@.len() == spec_data_len(self@.header, self@.elem_size),
            !self@.buffer_valid ==> r@.len() == 0,
    {
        proof {
            use_type_invariant(self);
        }
        &self.buffer
    }

    /// The frame metadata as the driver filled it in.
    pub fn header(&self) -> (r: FrameHeader)
        ensures
            r == self@.header,
    {
        self.header
    }

    /// Get the width of this image in pixels.
    pub fn width(&self) -> (r: u32)
        ensures
            r == self@.header.width,
    {
        self.header.width
    }

    /// Get the height of this image.
    pub fn height(&self) -> (r: u32)
        ensures
            r == self@.header.height,
    {
        self.header.height
    }

    /// Format of image data.
    pub fn format(&self) -> (r: i32)
        ensures
            r == self@.header.format,
    {
        self.header.format
    }

    /// Frame number.
    pub fn nframe(&self) -> (r: u32)
        ensures
            r == self@.header.nframe,
    {
        self.header.nframe
    }

    /// Image black level.
    pub fn black_level(&self) -> (r: u32)
        ensures
            r == self@.header.black_level,
    {
        self.header.black_level
    }

    /// Number of extra bytes provided at the end of each line for alignment.
    pub fn padding_x(&self) -> (r: u32)
        ensures
            r == self@.header.padding_x,
    {
        self.header.padding_x
    }

    /// Horizontal offset from the origin of the sensor to the first pixel.
    pub fn absolute_offset_x(&self) -> (r: u32)
        ensures
            r == self@.header.absolute_offset_x,
    {
        self.header.absolute_offset_x
    }

    /// Vertical offset from the origin of the sensor to the first line.
    pub fn absolute_offset_y(&self) -> (r: u32)
        ensures
            r == self@.header.absolute_offset_y,
    {
        self.header.absolute_offset_y
    }

    /// Current format of the pixels on the transport layer.
    pub fn transport_format(&self) -> (r: i32)
        ensures
            r == self@.header.transport_format,
    {
        self.header.transport_format
    }

    /// Horizontal downsampling.
    pub fn downsampling_x(&self) -> (r: u32)
        ensures
            r == self@.header.downsampling_x,
    {
        self.header.downsampling_x
    }

    /// Vertical downsampling.
    pub fn downsampling_y(&self) -> (r: u32)
        ensures
            r == self@.header.downsampling_y,
    {
        self.header.downsampling_y
    }

    /// Exposure time of this image in microseconds.
    pub fn exposure_time_us(&self) -> (r: u32)
        ensures
            r == self@.header.exposure_time_us,
    {
        self.header.exposure_time_us
    }

    /// Acquisition frame number; reset only on acquisition start.
    pub fn acq_nframe(&self) -> (r: u32)
        ensures
            r == self@.header.acq_nframe,
    {
        self.header.acq_nframe
    }

    /// The caller-chosen word stored in the frame header at capture time.
    pub fn image_user_data(&self) -> (r: u32)
        ensures
            r == self@.header.image_user_data,
    {
        self.header.image_user_data
    }

    /// Raw 64-bit timestamp of the frame, assembled from the two 32-bit
    /// driver fields: the seconds part in the upper half, the sub-second part
    /// in the lower half.
    pub fn timestamp_raw(&self) -> (r: u64)
        ensures
            r == self@.header.ts_sec as int * 0x1_0000_0000 + self@.header.ts_usec as int,
    {
        let high = self.header.ts_sec as u64;
        let low = self.header.ts_usec as u64;
        high * 0x1_0000_0000u64 + low
    }

    /// Channels per pixel of this frame's format.
    pub fn nb_channels(&self) -> (r: u32)
        ensures
            r == spec_channel_count(self@.header.format),
    {
        channel_count(self.header.format)
    }
}

/// The byte address of a pixel. For a frame with a buffer, element size `E`,
/// channel count `C`, width `W` and row padding `P` bytes, the element index
/// that `pixel(x, y)` reads corresponds to the byte offset
/// `y * (W * E * C + P) + x * E * C` from the start of the buffer.
pub proof fn lemma_pixel_byte_offset(header: FrameHeader, elem_size: u32, x: int, y: int)
    requires
        elem_size >= 1,
        header.padding_x as int % elem_size as int == 0,
    ensures
        elem_size * spec_pixel_index(header, elem_size, x, y) == y * (
        header.width * elem_size * spec_channel_count(header.format) + header.padding_x) + x * (
        elem_size * spec_channel_count(header.format)),
{
    let e = elem_size as int;
    let c = spec_channel_count(header.format) as int;
    let w = header.width as int;
    let p = header.padding_x as int;
    let pe = p / e;
    assert(e * pe == p) by {
        vstd::arithmetic::div_mod::lemma_fundamental_div_mod(p, e);
    }
    assert(e * (y * (w * c + pe) + x * c) == y * (w * e * c + e * pe) + x * (e * c))
        by (nonlinear_arith);
}

} // verus!
