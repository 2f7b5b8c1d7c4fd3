use mdbrot::device::{choose_device, choose_platform};
use mdbrot::{Failure, Stage};

fn every_failure() -> Vec<Failure> {
    vec![
        Failure::BadWidth,
        Failure::BadHeight,
        Failure::EmptyImage,
        Failure::ImageTooLarge,
        Failure::NoPlatform,
        Failure::NoDevice,
        Failure::Setup,
        Failure::Build,
        Failure::Launch,
        Failure::Readback,
        Failure::Encode,
    ]
}

#[test]
fn no_failure_exits_with_zero() {
    for f in every_failure() {
        assert_ne!(f.exit_code(), 0, "{:?}", f);
    }
}

#[test]
fn failures_exit_with_different_codes() {
    let all = every_failure();
    for a in &all {
        for b in &all {
            assert_eq!(a == b, a.exit_code() == b.exit_code(), "{:?} {:?}", a, b);
        }
    }
}

#[test]
fn each_failure_has_its_code() {
    assert_eq!(Failure::BadWidth.exit_code(), 2);
    assert_eq!(Failure::BadHeight.exit_code(), 3);
    assert_eq!(Failure::EmptyImage.exit_code(), 4);
    assert_eq!(Failure::ImageTooLarge.exit_code(), 5);
    assert_eq!(Failure::NoPlatform.exit_code(), 10);
    assert_eq!(Failure::NoDevice.exit_code(), 11);
    assert_eq!(Failure::Setup.exit_code(), 12);
    assert_eq!(Failure::Build.exit_code(), 13);
    assert_eq!(Failure::Launch.exit_code(), 14);
    assert_eq!(Failure::Readback.exit_code(), 15);
    assert_eq!(Failure::Encode.exit_code(), 20);
}

#[test]
fn each_failure_has_its_message() {
    assert_eq!(Failure::NoPlatform.message(), "No compute platform found");
    assert_eq!(Failure::NoDevice.message(), "No GPU device found");
    assert_eq!(Failure::BadWidth.message(), "width is not an unsigned 32-bit decimal number");
    assert_eq!(Failure::BadHeight.message(), "height is not an unsigned 32-bit decimal number");
    assert_eq!(Failure::EmptyImage.message(), "width and height must be at least 1");
    assert_eq!(Failure::ImageTooLarge.message(), "image is too large for the kernel");
    assert_eq!(Failure::Setup.message(), "device setup failed");
    assert_eq!(Failure::Build.message(), "kernel build failed");
    assert_eq!(Failure::Launch.message(), "kernel launch failed");
    assert_eq!(Failure::Readback.message(), "reading the image back failed");
    assert_eq!(Failure::Encode.message(), "writing the image failed");
}

#[test]
fn messages_differ() {
    let all = every_failure();
    for a in &all {
        for b in &all {
            assert_eq!(a == b, a.message() == b.message());
        }
    }
}

#[test]
fn the_first_platform_is_chosen() {
    assert_eq!(choose_platform(1), Ok(0));
    assert_eq!(choose_platform(3), Ok(0));
    assert_eq!(choose_platform(usize::MAX), Ok(0));
    assert_eq!(choose_platform(0), Err(Failure::NoPlatform));
}

#[test]
fn the_first_device_is_chosen() {
    assert_eq!(choose_device(1), Ok(0));
    assert_eq!(choose_device(2), Ok(0));
    assert_eq!(choose_device(0), Err(Failure::NoDevice));
}

#[test]
fn each_step_is_reported_as_its_failure() {
    assert_eq!(Stage::FindPlatform.failure(), Failure::NoPlatform);
    assert_eq!(Stage::FindDevice.failure(), Failure::NoDevice);
    assert_eq!(Stage::CreateContext.failure(), Failure::Setup);
    assert_eq!(Stage::CreateQueue.failure(), Failure::Setup);
    assert_eq!(Stage::CreateBuffer.failure(), Failure::Setup);
    assert_eq!(Stage::CreateProgram.failure(), Failure::Build);
    assert_eq!(Stage::BuildProgram.failure(), Failure::Build);
    assert_eq!(Stage::CreateKernel.failure(), Failure::Build);
    assert_eq!(Stage::BindArguments.failure(), Failure::Launch);
    assert_eq!(Stage::Launch.failure(), Failure::Launch);
    assert_eq!(Stage::ReadBack.failure(), Failure::Readback);
    assert_eq!(Stage::WriteImage.failure(), Failure::Encode);
}
