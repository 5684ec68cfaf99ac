//! The data carrier of the pipeline: one frame's pixels as contiguous,
//! unpadded, row-major bytes.

use vstd::prelude::*;

verus! {

/// Pixel layout of an [`ImageBuffer`]. Both layouts use four bytes per
/// pixel.
#[derive(Clone, Copy, Debug, PartialEq, Eq, Structural)]
pub enum PixelFormat {
    /// Red, green, blue, alpha byte order.
    Rgba8,
    /// Blue, green, red, alpha byte order.
    Bgra8,
}

/// One captured frame: width, height, pixel format and contiguous unpadded
/// row-major bytes. Produced fresh each frame by the readback pipeline,
/// read-only while passed through an encoder set, discarded after delivery.
pub struct ImageBuffer {
    /// Width in pixels.
    pub width: u32,
    /// Height in pixels.
    pub height: u32,
    /// Byte order of each four-byte pixel.
    pub format: PixelFormat,
    /// `width * height * 4` bytes, rows contiguous, no padding.
    pub data: Vec<u8>,
}

/// The RGBA reordering of four-byte pixels: for BGRA input the first and
/// third byte of every pixel trade places, RGBA input is returned unchanged.
pub open spec fn spec_rgba_bytes(data: Seq<u8>, format: PixelFormat) -> Seq<u8> {
    match format {
        PixelFormat::Rgba8 => data,
        PixelFormat::Bgra8 => Seq::new(
            data.len(),
            |i: int|
                if i % 4 == 0 {
                    data[i + 2]
                } else if i % 4 == 2 {
                    data[i - 2]
                } else {
                    data[i]
                },
        ),
    }
}

impl ImageBuffer {
    /// A well-formed buffer holds exactly four bytes per pixel.
    pub open spec fn wf(&self) -> bool {
        self.data@.len() == self.width as int * self.height as int * 4
    }

    /// Builds a buffer from its parts.
    pub fn new(width: u32, height: u32, format: PixelFormat, data: Vec<u8>) -> (r: ImageBuffer)
        requires
            data@.len() == width as int * height as int * 4,
        ensures
            r.wf(),
            r.width == width,
            r.height == height,
            r.format == format,
            r.data@ == data@,
    {
        ImageBuffer { width, height, format, data }
    }

    /// The pixel bytes reordered to RGBA, as every encoder consumes them.
    pub fn to_rgba8(&self) -> (r: Vec<u8>)
        requires
            self.wf(),
        ensures
            r@ == spec_rgba_bytes(self.data@, self.format),
            r@.len() == self.data@.len(),
    {
        match self.format {
            PixelFormat::Rgba8 => self.data.clone(),
            PixelFormat::Bgra8 => {
                let mut out: Vec<u8> = Vec::new();
                let n = self.data.len();
                let mut i: usize = 0;
                while i < n
                    invariant
                        i <= n,
                        i % 4 == 0,
                        n == self.data@.len(),
                        self.format == PixelFormat::Bgra8,
                        n % 4 == 0,
                        out@.len() == i,
                        forall|k: int|
                            0 <= k < i ==> out@[k] == spec_rgba_bytes(self.data@, self.format)[k],
                    decreases n - i,
                {
                    out.push(self.data[i + 2]);
                    out.push(self.data[i + 1]);
                    out.push(self.data[i]);
                    out.push(self.data[i + 3]);
                    i = i + 4;
                }
                proof {
                    assert(out@ =~= spec_rgba_bytes(self.data@, self.format));
                }
                out
            },
        }
    }
}

} // verus!
