use iglo::rhi::vk::VkResult;
use iglo::rhi::{Error, IntoError, IntoResult};

#[test]
fn every_code_of_the_taxonomy_is_mapped() {
    assert_eq!(VkResult(-1).into_error(), Error::OutOfHostMemory);
    assert_eq!(VkResult(-2).into_error(), Error::OutOfDeviceMemory);
    assert_eq!(VkResult(-4).into_error(), Error::DeviceLost);
    assert_eq!(VkResult(-6).into_error(), Error::LayerNotPresent);
    assert_eq!(VkResult(-7).into_error(), Error::ExtensionNotPresent);
    assert_eq!(VkResult(-8).into_error(), Error::FeatureNotPresent);
    assert_eq!(VkResult(-9).into_error(), Error::NotSupported);
}

#[test]
fn the_mapping_agrees_with_the_binding() {
    let cases = [
        (ash::vk::Result::ERROR_OUT_OF_HOST_MEMORY, Error::OutOfHostMemory),
        (ash::vk::Result::ERROR_OUT_OF_DEVICE_MEMORY, Error::OutOfDeviceMemory),
        (ash::vk::Result::ERROR_INITIALIZATION_FAILED, Error::Unknown),
        (ash::vk::Result::ERROR_DEVICE_LOST, Error::DeviceLost),
        (ash::vk::Result::ERROR_LAYER_NOT_PRESENT, Error::LayerNotPresent),
        (ash::vk::Result::ERROR_EXTENSION_NOT_PRESENT, Error::ExtensionNotPresent),
        (ash::vk::Result::ERROR_FEATURE_NOT_PRESENT, Error::FeatureNotPresent),
        (ash::vk::Result::ERROR_INCOMPATIBLE_DRIVER, Error::NotSupported),
        (ash::vk::Result::ERROR_UNKNOWN, Error::Unknown),
    ];
    for (native, error) in cases {
        assert_eq!(VkResult(native.as_raw()).into_error(), error);
    }
}

#[test]
fn every_other_code_is_unknown() {
    for code in [0, 1, 5, -3, -5, -10, -11, -12, -13, -1000001000, i32::MIN, i32::MAX] {
        assert_eq!(VkResult(code).into_error(), Error::Unknown);
    }
}

#[test]
fn no_code_is_a_backend_mismatch() {
    for code in -64..64 {
        assert_ne!(VkResult(code).into_error(), Error::BackendMismatch);
    }
}

#[test]
fn an_outcome_keeps_its_value_and_maps_its_failure() {
    let fine: Result<u64, VkResult> = Ok(7);
    assert_eq!(fine.into_result(), Ok(7));
    let lost: Result<u64, VkResult> = Err(VkResult(-4));
    assert_eq!(lost.into_result(), Err(Error::DeviceLost));
    let odd: Result<(), VkResult> = Err(VkResult(5));
    assert_eq!(odd.into_result(), Err(Error::Unknown));
}
