//! The image as the device hands it back: interleaved RGBA bytes, row by row
//! from the top left.
//!
//! The kernel shades in red only. It writes the escape-time colour to the red
//! channel, zero to green and blue, and full opacity to alpha. A buffer is
//! accepted as a frame only if it has the size of the image and keeps to that
//! layout, so every `Frame` can be handed to an encoder as it is.

use vstd::prelude::*;
use crate::dispatch::{
    image_bytes, lemma_padded_bounds, pixel_offset, plannable, Dispatch, DispatchView,
};
use crate::failure::Failure;

verus! {

/// Whether byte `b` may stand at offset `k` of a frame: green and blue are 0,
/// alpha is 255, red is free.
pub open spec fn channel_fixed(k: int, b: u8) -> bool {
    &&& k % 4 == 1 || k % 4 == 2 ==> b == 0
    &&& k % 4 == 3 ==> b == 255
}

/// Whether every pixel in `bytes` has green 0, blue 0 and alpha 255.
pub open spec fn red_only(bytes: Seq<u8>) -> bool {
    forall|k: int| 0 <= k < bytes.len() ==> channel_fixed(k, #[trigger] bytes[k])
}

/// Whether `bytes` is the image that a launch sized by `plan` computes: as
/// many bytes as the image has, and red only.
pub open spec fn is_frame_of(plan: DispatchView, bytes: Seq<u8>) -> bool {
    bytes.len() == plan.image_size && red_only(bytes)
}

/// A rendered image.
#[derive(Debug)]
pub struct Frame {
    width: u32,
    height: u32,
    bytes: Vec<u8>,
}

/// What a `Frame` stands for.
pub struct FrameView {
    pub width: int,
    pub height: int,
    pub bytes: Seq<u8>,
}

impl FrameView {
    /// The bytes are those of a `width` by `height` image in red.
    pub open spec fn wf(self) -> bool {
        &&& plannable(self.width, self.height)
        &&& self.bytes.len() == image_bytes(self.width, self.height)
        &&& red_only(self.bytes)
    }

    /// The red value of the pixel in row `row` and column `col`.
    pub open spec fn red(self, row: int, col: int) -> u8 {
        self.bytes[pixel_offset(self.width, row, col)]
    }
}

impl View for Frame {
    type V = FrameView;

    closed spec fn view(&self) -> FrameView {
        FrameView { width: self.width as int, height: self.height as int, bytes: self.bytes@ }
    }
}

/// Checks the fixed channels of `bytes`.
fn is_red_only(bytes: &Vec<u8>) -> (ok: bool)
    ensures
        ok == red_only(bytes@),
{
    let mut k: usize = 0;
    while k < bytes.len()
        invariant
            k <= bytes.len(),
            forall|m: int| 0 <= m < k ==> channel_fixed(m, #[trigger] bytes@[m]),
        decreases bytes.len() - k,
    {
        let b: u8 = bytes[k];
        let channel: usize = k % 4;
        if ((channel == 1 || channel == 2) && b != 0) || (channel == 3 && b != 255) {
            assert(!channel_fixed(k as int, bytes@[k as int]));
            return false;
        }
        k += 1;
    }
    true
}

impl Frame {
    #[verifier::type_invariant]
    spec fn inv(self) -> bool {
        self@.wf()
    }

    /// Takes the buffer that was read back after the launch that `plan`
    /// sized. The buffer is refused unless it has exactly the bytes of the
    /// image and only its red channel varies.
    pub fn from_device(plan: &Dispatch, bytes: Vec<u8>) -> (r: Result<Frame, Failure>)
        ensures
            r is Ok <==> is_frame_of(plan@, bytes@),
            r matches Ok(f) ==> f@.wf() && f@ == (FrameView {
                width: plan@.width,
                height: plan@.height,
                bytes: bytes@,
            }),
            r matches Err(e) ==> e == Failure::Readback,
    {
        if bytes.len() != plan.image_size() || !is_red_only(&bytes) {
            return Err(Failure::Readback);
        }
        Ok(Frame { width: plan.width(), height: plan.height(), bytes })
    }

    /// The width of the image in pixels.
    pub fn width(&self) -> (w: u32)
        ensures
            w == self@.width,
            self@.wf(),
    {
        proof {
            use_type_invariant(self);
        }
        self.width
    }

    /// The height of the image in pixels.
    pub fn height(&self) -> (h: u32)
        ensures
            h == self@.height,
            self@.wf(),
    {
        proof {
            use_type_invariant(self);
        }
        self.height
    }

    /// The bytes to encode: four for each pixel, `width * height` pixels.
    pub fn as_bytes(&self) -> (bytes: &Vec<u8>)
        ensures
            bytes@ == self@.bytes,
            bytes@.len() == 4 * self@.width * self@.height,
            red_only(bytes@),
            self@.wf(),
    {
        proof {
            use_type_invariant(self);
        }
        &self.bytes
    }

    /// The red, green, blue and alpha of the pixel in row `row` and column
    /// `col`, or `None` outside the image. Green and blue are 0 and alpha is
    /// 255 for every pixel.
    pub fn pixel(&self, row: u32, col: u32) -> (p: Option<(u8, u8, u8, u8)>)
        ensures
            self@.wf(),
            row < self@.height && col < self@.width ==> p == Some(
                (self@.red(row as int, col as int), 0u8, 0u8, 255u8),
            ),
            !(row < self@.height && col < self@.width) ==> p is None,
    {
        proof {
            use_type_invariant(self);
        }
        if row >= self.height || col >= self.width {
            return None;
        }
        proof {
            lemma_pixel_in_frame(
                self.width as int,
                self.height as int,
                row as int,
                col as int,
            );
            lemma_padded_bounds(image_bytes(self.width as int, self.height as int));
        }
        let index: u64 = row as u64 * self.width as u64 + col as u64;
        let at: usize = (index * 4) as usize;
        assert(at == pixel_offset(self.width as int, row as int, col as int)) by (nonlinear_arith)
            requires
                at == (row as int * self.width as int + col as int) * 4,
        ;
        let red: u8 = self.bytes[at];
        let green: u8 = self.bytes[at + 1];
        let blue: u8 = self.bytes[at + 2];
        let alpha: u8 = self.bytes[at + 3];
        assert(channel_fixed(at + 1, self.bytes@[at + 1]));
        assert(channel_fixed(at + 2, self.bytes@[at + 2]));
        assert(channel_fixed(at + 3, self.bytes@[at + 3]));
        Some((red, green, blue, alpha))
    }
}

/// The four bytes of a pixel of the image lie inside its buffer, at a
/// multiple of four.
pub proof fn lemma_pixel_in_frame(width: int, height: int, row: int, col: int)
    requires
        0 <= row < height,
        0 <= col < width,
    ensures
        0 <= row * width + col < width * height,
        pixel_offset(width, row, col) == 4 * (row * width + col),
        0 <= pixel_offset(width, row, col),
        pixel_offset(width, row, col) + 4 <= image_bytes(width, height),
        pixel_offset(width, row, col) % 4 == 0,
{
    assert(0 <= row * width && row * width + width <= height * width) by (nonlinear_arith)
        requires
            0 <= row < height,
            0 < width,
    ;
    assert(height * width == width * height) by (nonlinear_arith);
    assert(4 * row * width + 4 * col == 4 * (row * width + col)) by (nonlinear_arith);
    assert(4 * width * height == 4 * (width * height)) by (nonlinear_arith);
}

/// Two different pixels of a row-major image share no byte.
pub proof fn lemma_pixels_are_disjoint(width: int, r1: int, c1: int, r2: int, c2: int)
    requires
        0 <= r1,
        0 <= r2,
        0 <= c1 < width,
        0 <= c2 < width,
        r1 != r2 || c1 != c2,
    ensures
        pixel_offset(width, r1, c1) + 4 <= pixel_offset(width, r2, c2) || pixel_offset(
            width,
            r2,
            c2,
        ) + 4 <= pixel_offset(width, r1, c1),
{
    assert(4 * r1 * width + 4 * c1 == 4 * (r1 * width + c1)) by (nonlinear_arith);
    assert(4 * r2 * width + 4 * c2 == 4 * (r2 * width + c2)) by (nonlinear_arith);
    if r1 < r2 {
        assert(r1 * width + width <= r2 * width) by (nonlinear_arith)
            requires
                r1 < r2,
                0 < width,
        ;
    } else if r2 < r1 {
        assert(r2 * width + width <= r1 * width) by (nonlinear_arith)
            requires
                r2 < r1,
                0 < width,
        ;
    }
}

/// Work-item `id` of the kernel, which takes row `id / width` and column
/// `id % width`, writes the four bytes from `4 * id` on.
pub proof fn lemma_work_item_offset(width: int, id: int)
    requires
        0 < width,
        0 <= id,
    ensures
        0 <= id % width < width,
        0 <= id / width,
        pixel_offset(width, id / width, id % width) == 4 * id,
{
    assert(id == (id / width) * width + id % width && 0 <= id % width < width && 0 <= id / width)
        by (nonlinear_arith)
        requires
            0 < width,
            0 <= id,
    ;
    assert(4 * (id / width) * width + 4 * (id % width) == 4 * ((id / width) * width + id % width))
        by (nonlinear_arith);
}

/// A frame has four bytes for each pixel of its image, and in every pixel
/// green and blue are 0 and alpha is 255: only red varies.
pub proof fn lemma_frame_is_red_only(frame: FrameView, row: int, col: int)
    requires
        frame.wf(),
        0 <= row < frame.height,
        0 <= col < frame.width,
    ensures
        frame.bytes.len() == 4 * frame.width * frame.height,
        0 <= pixel_offset(frame.width, row, col),
        pixel_offset(frame.width, row, col) + 3 < frame.bytes.len(),
        frame.bytes[pixel_offset(frame.width, row, col) + 1] == 0,
        frame.bytes[pixel_offset(frame.width, row, col) + 2] == 0,
        frame.bytes[pixel_offset(frame.width, row, col) + 3] == 255,
{
    lemma_pixel_in_frame(frame.width, frame.height, row, col);
    let at = pixel_offset(frame.width, row, col);
    assert(channel_fixed(at + 1, frame.bytes[at + 1]));
    assert(channel_fixed(at + 2, frame.bytes[at + 2]));
    assert(channel_fixed(at + 3, frame.bytes[at + 3]));
}

} // verus!
