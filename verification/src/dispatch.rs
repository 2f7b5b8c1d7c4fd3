//! The size of the work grid for an image.
//!
//! The kernel runs once per work-item, and work-items are scheduled in groups
//! of `WORKGROUP_SIZE`. The grid is the byte count of the image rounded up to
//! a whole number of groups. Work-items past the last pixel do nothing.

use vstd::prelude::*;
use crate::failure::Failure;

verus! {

/// The number of work-items in one group.
pub const WORKGROUP_SIZE: u32 = 512;

/// The largest grid that the kernel can index: it numbers work-items and byte
/// offsets with signed 32-bit integers.
pub const MAX_WORK_ITEMS: u32 = 0x8000_0000;

/// The number of bytes of an RGBA image.
pub open spec fn image_bytes(width: int, height: int) -> int {
    4 * width * height
}

/// `n` rounded up to a whole number of work-groups.
pub open spec fn padded(n: int) -> int {
    ((n - 1) / 512 + 1) * 512
}

/// Whether the kernel can index the grid of an image of this size.
pub open spec fn fits(width: int, height: int) -> bool {
    padded(image_bytes(width, height)) <= 0x8000_0000
}

/// Whether a grid can be sized for an image of this width and height.
pub open spec fn plannable(width: int, height: int) -> bool {
    1 <= width && 1 <= height && fits(width, height)
}

/// The byte offset of the pixel in row `row` and column `col`.
pub open spec fn pixel_offset(width: int, row: int, col: int) -> int {
    4 * row * width + 4 * col
}

/// The sizes that one launch of the kernel needs.
#[derive(Debug)]
pub struct Dispatch {
    width: u32,
    height: u32,
    image_size: u32,
    global_work_size: u32,
}

/// What a `Dispatch` stands for.
pub struct DispatchView {
    pub width: int,
    pub height: int,
    pub image_size: int,
    pub global_work_size: int,
}

impl View for Dispatch {
    type V = DispatchView;

    closed spec fn view(&self) -> DispatchView {
        DispatchView {
            width: self.width as int,
            height: self.height as int,
            image_size: self.image_size as int,
            global_work_size: self.global_work_size as int,
        }
    }
}

impl DispatchView {
    /// The sizes belong to an image of at least one pixel that the kernel can
    /// index.
    pub open spec fn wf(self) -> bool {
        &&& plannable(self.width, self.height)
        &&& self.image_size == image_bytes(self.width, self.height)
        &&& self.global_work_size == padded(self.image_size)
    }
}

impl Dispatch {
    #[verifier::type_invariant]
    spec fn inv(self) -> bool {
        self@.wf()
    }

    /// Sizes the grid for a `width` by `height` image. An image without
    /// pixels is refused, and so is one whose grid the kernel cannot index.
    pub fn plan(width: u32, height: u32) -> (r: Result<Dispatch, Failure>)
        ensures
            r is Ok <==> plannable(width as int, height as int),
            r matches Ok(d) ==> d@.wf() && d@.width == width && d@.height == height,
            r matches Err(e) ==> e == (if width == 0 || height == 0 {
                Failure::EmptyImage
            } else {
                Failure::ImageTooLarge
            }),
    {
        if width == 0 || height == 0 {
            return Err(Failure::EmptyImage);
        }
        assert(1 <= width as int * height as int <= 0xffff_ffff * 0xffff_ffff) by (nonlinear_arith)
            requires
                1 <= width <= 0xffff_ffff,
                1 <= height <= 0xffff_ffff,
        ;
        let pixels: u64 = width as u64 * height as u64;
        proof {
            let bytes = image_bytes(width as int, height as int);
            assert(bytes == 4 * pixels) by (nonlinear_arith)
                requires
                    bytes == 4 * width as int * height as int,
                    pixels == width as int * height as int,
            ;
            lemma_padded_bounds(bytes);
            if pixels <= 0x2000_0000 {
                lemma_padded_monotonic(bytes, 0x8000_0000);
            }
        }
        if pixels > 0x2000_0000 {
            return Err(Failure::ImageTooLarge);
        }
        let image_size: u32 = (pixels * 4) as u32;
        let groups: u32 = (image_size - 1) / WORKGROUP_SIZE + 1;
        let global_work_size: u32 = groups * WORKGROUP_SIZE;
        Ok(Dispatch { width, height, image_size, global_work_size })
    }

    /// The width of the image in pixels.
    pub fn width(&self) -> (w: u32)
        ensures
            w == self@.width,
            self@.wf(),
    {
        proof {
            use_type_invariant(self);
        }
        self.width
    }

    /// The height of the image in pixels.
    pub fn height(&self) -> (h: u32)
        ensures
            h == self@.height,
            self@.wf(),
    {
        proof {
            use_type_invariant(self);
        }
        self.height
    }

    /// The number of bytes of the image.
    pub fn image_size(&self) -> (n: usize)
        ensures
            n == self@.image_size,
            self@.wf(),
    {
        proof {
            use_type_invariant(self);
        }
        self.image_size as usize
    }

    /// The number of work-items to launch.
    pub fn global_work_size(&self) -> (n: usize)
        ensures
            n == self@.global_work_size,
            self@.wf(),
    {
        proof {
            use_type_invariant(self);
        }
        self.global_work_size as usize
    }

    /// The host buffer that the device buffer starts from: one zero byte for
    /// each byte of the image.
    pub fn blank(&self) -> (buffer: Vec<u8>)
        ensures
            self@.wf(),
            buffer@.len() == self@.image_size,
            forall|k: int| 0 <= k < buffer@.len() ==> buffer@[k] == 0,
    {
        proof {
            use_type_invariant(self);
        }
        vec![0u8; self.image_size as usize]
    }
}

/// Rounding up gives the least whole number of work-groups that holds `n`.
pub proof fn lemma_padded_bounds(n: int)
    requires
        n >= 1,
    ensures
        padded(n) % 512 == 0,
        n <= padded(n) < n + 512,
{
    let q = (n - 1) / 512;
    assert(padded(n) == (q + 1) * 512);
    assert(((q + 1) * 512) % 512 == 0) by (nonlinear_arith);
    assert(q * 512 <= n - 1 < q * 512 + 512) by (nonlinear_arith)
        requires
            q == (n - 1) / 512,
    ;
    assert((q + 1) * 512 == q * 512 + 512) by (nonlinear_arith);
}

/// Rounding up never shrinks the order of two sizes.
pub proof fn lemma_padded_monotonic(m: int, n: int)
    requires
        m <= n,
    ensures
        padded(m) <= padded(n),
{
    assert((m - 1) / 512 <= (n - 1) / 512) by (nonlinear_arith)
        requires
            m <= n,
    ;
    assert(((m - 1) / 512 + 1) * 512 <= ((n - 1) / 512 + 1) * 512) by (nonlinear_arith)
        requires
            (m - 1) / 512 <= (n - 1) / 512,
    ;
}

/// The width and the height fix every size of a launch: two plans for the
/// same image are the same plan.
pub proof fn lemma_plan_is_determined(a: DispatchView, b: DispatchView)
    requires
        a.wf(),
        b.wf(),
        a.width == b.width,
        a.height == b.height,
    ensures
        a == b,
{
}

} // verus!
