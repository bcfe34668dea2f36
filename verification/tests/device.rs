use oidn::{Call, Device, Error};

#[test]
fn create_commits_the_device() {
    let (device, commit) = Device::create(0x1000);
    assert_eq!(device.raw(), 0x1000);
    assert_eq!(commit, Call::CommitDevice { device: 0x1000 });
}

#[test]
fn try_create_gives_nothing_for_the_null_handle() {
    assert!(Device::try_create(0).is_none());
}

#[test]
fn try_create_commits_a_device_that_is_there() {
    let (device, commit) = Device::try_create(0x2000).unwrap();
    assert_eq!(device.raw(), 0x2000);
    assert_eq!(commit, Call::CommitDevice { device: 0x2000 });
}

#[test]
fn from_raw_makes_no_call() {
    let device = Device::from_raw(0x3000);
    assert_eq!(device.raw(), 0x3000);
}

#[test]
fn poll_error_asks_this_device() {
    let device = Device::from_raw(0x3000);
    assert_eq!(device.poll_error(), Call::GetDeviceError { device: 0x3000 });
}

#[test]
fn get_error_is_ok_without_an_error() {
    let device = Device::from_raw(0x3000);
    assert_eq!(device.get_error(0, String::new()), Ok(()));
    assert_eq!(device.get_error(0, String::from("ignored")), Ok(()));
}

#[test]
fn get_error_gives_kind_and_message() {
    let device = Device::from_raw(0x3000);
    assert_eq!(
        device.get_error(4, String::from("out of memory")),
        Err((Error::OutOfMemory, String::from("out of memory")))
    );
    assert_eq!(
        device.get_error(1, String::from("?")),
        Err((Error::Unknown, String::from("?")))
    );
    assert_eq!(
        device.get_error(2, String::from("a")),
        Err((Error::InvalidArgument, String::from("a")))
    );
    assert_eq!(
        device.get_error(3, String::from("b")),
        Err((Error::InvalidOperation, String::from("b")))
    );
    assert_eq!(
        device.get_error(5, String::from("c")),
        Err((Error::UnsupportedFormat, String::from("c")))
    );
    assert_eq!(
        device.get_error(6, String::from("d")),
        Err((Error::Canceled, String::from("d")))
    );
    assert_eq!(
        device.get_error(7, String::from("e")),
        Err((Error::InvalidImageDimensions, String::from("e")))
    );
}

#[test]
fn release_lets_go_of_the_device() {
    let device = Device::from_raw(0x3000);
    assert_eq!(device.release(), Call::ReleaseDevice { device: 0x3000 });
}

#[test]
fn new_filter_asks_on_this_device() {
    let device = Device::from_raw(0x3000);
    assert_eq!(device.new_filter(), Call::NewFilter { device: 0x3000 });
}
