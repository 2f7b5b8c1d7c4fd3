//! The fatal conditions of a run. None of them is recovered from: the program
//! prints the message and ends with the exit code.

use vstd::prelude::*;

verus! {

/// Why a run ended without an image.
#[derive(Clone, Copy, Debug, PartialEq, Eq, Structural)]
pub enum Failure {
    /// The width argument is not a decimal number that fits in 32 bits.
    BadWidth,
    /// The height argument is not a decimal number that fits in 32 bits.
    BadHeight,
    /// The width or the height is zero.
    EmptyImage,
    /// The padded pixel buffer has more bytes than the kernel can index.
    ImageTooLarge,
    /// The machine offers no compute platform.
    NoPlatform,
    /// The platform offers no GPU device.
    NoDevice,
    /// The context, the command queue or the device buffer could not be made.
    Setup,
    /// The kernel did not compile.
    Build,
    /// The kernel could not be launched.
    Launch,
    /// The buffer could not be read back, or what came back is no frame.
    Readback,
    /// The image file could not be written.
    Encode,
}

impl Failure {
    /// The process exit status of each failure.
    pub open spec fn code(self) -> int {
        match self {
            Failure::BadWidth => 2,
            Failure::BadHeight => 3,
            Failure::EmptyImage => 4,
            Failure::ImageTooLarge => 5,
            Failure::NoPlatform => 10,
            Failure::NoDevice => 11,
            Failure::Setup => 12,
            Failure::Build => 13,
            Failure::Launch => 14,
            Failure::Readback => 15,
            Failure::Encode => 20,
        }
    }

    /// The line shown to the user for each failure.
    pub open spec fn text(self) -> Seq<char> {
        match self {
            Failure::BadWidth => "width is not an unsigned 32-bit decimal number"@,
            Failure::BadHeight => "height is not an unsigned 32-bit decimal number"@,
            Failure::EmptyImage => "width and height must be at least 1"@,
            Failure::ImageTooLarge => "image is too large for the kernel"@,
            Failure::NoPlatform => "No compute platform found"@,
            Failure::NoDevice => "No GPU device found"@,
            Failure::Setup => "device setup failed"@,
            Failure::Build => "kernel build failed"@,
            Failure::Launch => "kernel launch failed"@,
            Failure::Readback => "reading the image back failed"@,
            Failure::Encode => "writing the image failed"@,
        }
    }

    /// The exit status to end the process with.
    pub fn exit_code(&self) -> (c: u8)
        ensures
            c == self.code(),
            c != 0,
    {
        match self {
            Failure::BadWidth => 2,
            Failure::BadHeight => 3,
            Failure::EmptyImage => 4,
            Failure::ImageTooLarge => 5,
            Failure::NoPlatform => 10,
            Failure::NoDevice => 11,
            Failure::Setup => 12,
            Failure::Build => 13,
            Failure::Launch => 14,
            Failure::Readback => 15,
            Failure::Encode => 20,
        }
    }

    /// The diagnostic to print before the process ends.
    pub fn message(&self) -> (m: String)
        ensures
            m@ == self.text(),
    {
        match self {
            Failure::BadWidth => "width is not an unsigned 32-bit decimal number".to_owned(),
            Failure::BadHeight => "height is not an unsigned 32-bit decimal number".to_owned(),
            Failure::EmptyImage => "width and height must be at least 1".to_owned(),
            Failure::ImageTooLarge => "image is too large for the kernel".to_owned(),
            Failure::NoPlatform => "No compute platform found".to_owned(),
            Failure::NoDevice => "No GPU device found".to_owned(),
            Failure::Setup => "device setup failed".to_owned(),
            Failure::Build => "kernel build failed".to_owned(),
            Failure::Launch => "kernel launch failed".to_owned(),
            Failure::Readback => "reading the image back failed".to_owned(),
            Failure::Encode => "writing the image failed".to_owned(),
        }
    }
}

/// No failure ends the process with status 0, and two different failures end
/// it with different statuses.
pub proof fn exit_codes_are_distinct(a: Failure, b: Failure)
    ensures
        1 <= a.code() <= 255,
        a.code() == b.code() ==> a == b,
{
}

} // verus!
