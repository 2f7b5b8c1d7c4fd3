//! The escape-time kernel, as OpenCL C source that the device compiles.
//!
//! One work-item shades one pixel. For the pixel in row `i` and column `j`
//! it iterates `z = z * z + c` from `z = 0`, with
//! `c = (j / width * 3.5 - 2.5, i / height * 2.0 - 1.0)`, until `|z| > 2` or
//! 800 rounds have passed, and shades the pixel by the smoothed number
//! of rounds.
//!
//! Two cases are decided here. A work-item whose number is not that of a
//! pixel returns at once: the grid is padded, so there are such items. A
//! point that has not escaped after 800 rounds is black: the smoothing
//! takes the logarithm of a logarithm, which has no value there.

use vstd::prelude::*;

verus! {

/// The name of the kernel function in `SOURCE`.
pub const KERNEL_NAME: &'static str = "mandelbrot";

/// The kernel's source text.
pub const SOURCE: &'static str = r#"
        __kernel void mandelbrot(__global uchar *image,
                                    int width,
                                    int height)
        {
            const int id = get_global_id(0);
            if (id >= width * height)
            {
                return;
            }

            const int max_iter = 800,
                max_color = 255,
                i = id / width,
                j = id % width;
                
            float x0 = (float)j / width * 3.5f - 2.5f,
                y0 = (float)i / height * 2.0f - 1.0f,
                x = 0,
                y = 0;
                
            float tx;
            int iter = 0;
            while ((x * x + y * y <= 4) && (iter < max_iter))
            {
                tx = x * x - y * y + x0;
                y = 2 * x * y + y0;
                x = tx;
                iter++;
            }
            
            float color = 0.0f;
            if (iter < max_iter)
            {
                float smooth = 1.0f + iter - log(log(sqrt(x * x + y * y))) / log(2.0f);
                color = (8 * max_color * smooth) / max_iter;
                color = (color > max_color) ? max_color : color;
            }
            
            image[4 * i * width + 4 * j + 0] = (uchar)color;
            image[4 * i * width + 4 * j + 1] = 0;
            image[4 * i * width + 4 * j + 2] = 0;
            image[4 * i * width + 4 * j + 3] = 255;
        }
    "#;

/// The kernel's source text, to hand to the device's compiler.
pub fn source() -> (text: String)
    ensures
        text@ == SOURCE@,
{
    SOURCE.to_owned()
}

} // verus!
