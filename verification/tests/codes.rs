use oidn::call::{Image, Parameter, FLOAT_BYTES, FORMAT_FLOAT3};
use oidn::device::{
    get_handle, DEVICE_TYPE_CPU, DEVICE_TYPE_CUDA, DEVICE_TYPE_DEFAULT, DEVICE_TYPE_HIP,
    DEVICE_TYPE_METAL, DEVICE_TYPE_SYCL,
};
use oidn::filter::INPUT_SCALE_AUTO;
use oidn::{Call, Device, Error, Quality, RayTracing};

#[test]
fn error_codes_are_read() {
    assert_eq!(Error::try_from_primitive(0), Some(Error::NoError));
    assert_eq!(Error::try_from_primitive(1), Some(Error::Unknown));
    assert_eq!(Error::try_from_primitive(2), Some(Error::InvalidArgument));
    assert_eq!(Error::try_from_primitive(3), Some(Error::InvalidOperation));
    assert_eq!(Error::try_from_primitive(4), Some(Error::OutOfMemory));
    assert_eq!(Error::try_from_primitive(5), Some(Error::UnsupportedFormat));
    assert_eq!(Error::try_from_primitive(6), Some(Error::Canceled));
    assert_eq!(Error::try_from_primitive(7), Some(Error::InvalidImageDimensions));
}

#[test]
fn unknown_error_codes_are_refused() {
    assert_eq!(Error::try_from_primitive(8), None);
    assert_eq!(Error::try_from_primitive(u32::MAX), None);
}

#[test]
fn every_error_has_one_code() {
    let mut seen = Vec::new();
    for number in 0..=255u32 {
        if let Some(error) = Error::try_from_primitive(number) {
            assert!(!seen.contains(&error));
            seen.push(error);
        }
    }
    assert_eq!(seen.len(), 8);
}

#[test]
fn quality_numbers() {
    assert_eq!(Quality::Default.as_raw_oidn_quality(), 0);
    assert_eq!(Quality::Balanced.as_raw_oidn_quality(), 5);
    assert_eq!(Quality::High.as_raw_oidn_quality(), 6);
}

#[test]
fn quality_numbers_are_read_back() {
    for quality in [Quality::Default, Quality::Balanced, Quality::High] {
        assert_eq!(Quality::try_from_primitive(quality.as_raw_oidn_quality()), Some(quality));
    }
    for number in [1u32, 2, 3, 4, 7, 100] {
        assert_eq!(Quality::try_from_primitive(number), None);
    }
}

#[test]
fn device_kinds_ask_for_their_type() {
    assert_eq!(Device::new(), Call::NewDevice { device_type: 0 });
    assert_eq!(Device::cpu(), Call::NewDevice { device_type: 1 });
    assert_eq!(Device::sycl(), Call::NewDevice { device_type: 2 });
    assert_eq!(Device::cuda(), Call::NewDevice { device_type: 3 });
    assert_eq!(Device::hip(), Call::NewDevice { device_type: 4 });
    assert_eq!(Device::metal(), Call::NewDevice { device_type: 5 });
    assert_eq!(get_handle(9), Call::NewDevice { device_type: 9 });
}

#[test]
fn device_type_constants() {
    assert_eq!(
        [
            DEVICE_TYPE_DEFAULT,
            DEVICE_TYPE_CPU,
            DEVICE_TYPE_SYCL,
            DEVICE_TYPE_CUDA,
            DEVICE_TYPE_HIP,
            DEVICE_TYPE_METAL
        ],
        [0, 1, 2, 3, 4, 5]
    );
}

#[test]
fn names_the_engine_knows() {
    assert_eq!(Image::Albedo.name(), "albedo");
    assert_eq!(Image::Normal.name(), "normal");
    assert_eq!(Image::Color.name(), "color");
    assert_eq!(Image::Output.name(), "output");
    assert_eq!(Parameter::Hdr.name(), "hdr");
    assert_eq!(Parameter::Srgb.name(), "srgb");
    assert_eq!(Parameter::CleanAux.name(), "clean_aux");
    assert_eq!(Parameter::InputScale.name(), "inputScale");
    assert_eq!(Parameter::Quality.name(), "quality");
    assert_eq!(RayTracing::kind_name(), "RT");
}

#[test]
fn format_and_float_size() {
    assert_eq!(FORMAT_FLOAT3, 3);
    assert_eq!(FLOAT_BYTES, std::mem::size_of::<f32>());
}

#[test]
fn automatic_input_scale_is_a_nan() {
    assert!(f32::from_bits(INPUT_SCALE_AUTO).is_nan());
    assert_eq!(INPUT_SCALE_AUTO, f32::NAN.to_bits());
}
