//! The run on the device: which platform and which device it computes on,
//! and how a step that fails is reported.
//!
//! The run uses the first platform and the first GPU of that platform. A
//! machine without a platform, or a platform without a GPU, ends the run, and
//! so does any step that the device or the encoder refuses: nothing is tried
//! twice, and no other device is looked for.

use vstd::prelude::*;
use crate::failure::Failure;

verus! {

/// The index of the platform to use among the `found` that the machine
/// offers.
pub fn choose_platform(found: usize) -> (r: Result<usize, Failure>)
    ensures
        found == 0 ==> r == Err::<usize, Failure>(Failure::NoPlatform),
        found > 0 ==> r == Ok::<usize, Failure>(0usize),
{
    if found == 0 {
        Err(Failure::NoPlatform)
    } else {
        Ok(0)
    }
}

/// The index of the device to use among the `found` GPUs that the platform
/// offers.
pub fn choose_device(found: usize) -> (r: Result<usize, Failure>)
    ensures
        found == 0 ==> r == Err::<usize, Failure>(Failure::NoDevice),
        found > 0 ==> r == Ok::<usize, Failure>(0usize),
{
    if found == 0 {
        Err(Failure::NoDevice)
    } else {
        Ok(0)
    }
}

/// The steps of a run, in the order in which they are taken.
#[derive(Clone, Copy, Debug, PartialEq, Eq, Structural)]
pub enum Stage {
    /// The platforms are listed.
    FindPlatform,
    /// The GPUs of the platform are listed.
    FindDevice,
    /// A context is made for the device.
    CreateContext,
    /// A command queue is made in the context.
    CreateQueue,
    /// The device buffer for the image is allocated.
    CreateBuffer,
    /// The kernel's source is handed to the device.
    CreateProgram,
    /// The source is compiled.
    BuildProgram,
    /// The kernel is looked up in the compiled program.
    CreateKernel,
    /// The buffer, the width and the height are bound to the kernel.
    BindArguments,
    /// The grid is launched.
    Launch,
    /// The image is read back to the host.
    ReadBack,
    /// The image file is written.
    WriteImage,
}

impl Stage {
    /// The failure that an error in this step is reported as.
    pub open spec fn reported_as(self) -> Failure {
        match self {
            Stage::FindPlatform => Failure::NoPlatform,
            Stage::FindDevice => Failure::NoDevice,
            Stage::CreateContext | Stage::CreateQueue | Stage::CreateBuffer => Failure::Setup,
            Stage::CreateProgram | Stage::BuildProgram | Stage::CreateKernel => Failure::Build,
            Stage::BindArguments | Stage::Launch => Failure::Launch,
            Stage::ReadBack => Failure::Readback,
            Stage::WriteImage => Failure::Encode,
        }
    }

    /// The failure to end the run with when this step fails.
    pub fn failure(&self) -> (f: Failure)
        ensures
            f == self.reported_as(),
    {
        match self {
            Stage::FindPlatform => Failure::NoPlatform,
            Stage::FindDevice => Failure::NoDevice,
            Stage::CreateContext | Stage::CreateQueue | Stage::CreateBuffer => Failure::Setup,
            Stage::CreateProgram | Stage::BuildProgram | Stage::CreateKernel => Failure::Build,
            Stage::BindArguments | Stage::Launch => Failure::Launch,
            Stage::ReadBack => Failure::Readback,
            Stage::WriteImage => Failure::Encode,
        }
    }
}

} // verus!
