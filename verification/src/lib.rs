//! Host-side logic of a Mandelbrot renderer that computes on an OpenCL device.
//!
//! The device work itself (finding a GPU, compiling and launching the kernel,
//! reading the buffer back) and the writing of the image file are done by the
//! program that uses this library. What is decided on the host lives here:
//! how the command line resolves to a width, a height and a path, how large
//! the work grid is, what a valid frame looks like, and how each fatal
//! condition is reported.

pub mod args;
pub mod device;
pub mod dispatch;
pub mod failure;
pub mod frame;
pub mod kernel;
pub mod text;

pub use args::{help, parse_args, Arg, Invocation, Parsed};
pub use device::Stage;
pub use dispatch::Dispatch;
pub use failure::Failure;
pub use frame::Frame;
pub use kernel::source;
