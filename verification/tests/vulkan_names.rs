use iglo::rhi::creation::Event;
use iglo::rhi::vk::instance::{find, offer};
use iglo::rhi::vk::{name_of, names_of, request};
use iglo::rhi::Error;

#[test]
fn the_vulkan_backend_asks_for_the_surface_extensions() {
    let request = request();
    assert!(request.required_layers.is_empty());
    assert_eq!(
        request.required_extensions,
        vec![b"VK_KHR_surface".to_vec(), b"VK_KHR_win32_surface".to_vec()]
    );
    assert_eq!(request.validation_layer, b"VK_LAYER_KHRONOS_validation".to_vec());
    assert_eq!(request.debug_extension, b"VK_EXT_debug_utils".to_vec());
}

#[test]
fn the_names_are_those_of_the_binding() {
    let request = request();
    assert_eq!(request.required_extensions[0], ash::extensions::khr::Surface::name().to_bytes());
    assert_eq!(
        request.required_extensions[1],
        ash::extensions::khr::Win32Surface::name().to_bytes()
    );
    assert_eq!(request.debug_extension, ash::extensions::ext::DebugUtils::name().to_bytes());
}

#[test]
fn a_name_ends_at_the_first_zero() {
    assert_eq!(name_of(&b"VK_KHR_surface\0garbage\0".to_vec()), b"VK_KHR_surface".to_vec());
    assert_eq!(name_of(&b"ab\0\0\0".to_vec()), b"ab".to_vec());
    assert_eq!(name_of(&b"\0ab".to_vec()), Vec::<u8>::new());
}

#[test]
fn a_name_without_a_zero_is_the_whole_buffer() {
    assert_eq!(name_of(&b"abc".to_vec()), b"abc".to_vec());
    assert_eq!(name_of(&Vec::new()), Vec::<u8>::new());
    assert_eq!(name_of(&vec![255u8; 256]), vec![255u8; 256]);
}

#[test]
fn a_full_buffer_of_the_driver_is_read() {
    let mut buffer = vec![0u8; 256];
    buffer[..18].copy_from_slice(b"VK_EXT_debug_utils");
    assert_eq!(name_of(&buffer), b"VK_EXT_debug_utils".to_vec());
}

#[test]
fn names_are_read_in_the_order_of_their_buffers() {
    let buffers = vec![b"one\0".to_vec(), b"\0".to_vec(), b"two\0x".to_vec(), b"three".to_vec()];
    assert_eq!(
        names_of(&buffers),
        vec![b"one".to_vec(), Vec::new(), b"two".to_vec(), b"three".to_vec()]
    );
    assert!(names_of(&Vec::new()).is_empty());
}

fn buffer(text: &str) -> Vec<u8> {
    let mut bytes = vec![0u8; 256];
    bytes[..text.len()].copy_from_slice(text.as_bytes());
    bytes
}

#[test]
fn a_name_is_found_among_the_drivers_buffers() {
    let answer = || Ok(vec![buffer("VK_KHR_surface"), buffer("VK_EXT_debug_utils")]);
    assert_eq!(find(&b"VK_KHR_surface".to_vec(), answer()), Ok(true));
    assert_eq!(find(&b"VK_EXT_debug_utils".to_vec(), answer()), Ok(true));
    assert_eq!(find(&b"VK_KHR_win32_surface".to_vec(), answer()), Ok(false));
    assert_eq!(find(&b"VK_KHR_surf".to_vec(), answer()), Ok(false));
    assert_eq!(find(&b"VK_KHR_surface".to_vec(), Ok(Vec::new())), Ok(false));
}

#[test]
fn a_name_with_a_zero_byte_is_never_found() {
    let answer = || Ok(vec![buffer("ab"), buffer("")]);
    assert_eq!(find(&b"ab\0".to_vec(), answer()), Ok(false));
    assert_eq!(find(&b"\0".to_vec(), answer()), Ok(false));
    assert_eq!(find(&buffer("ab"), answer()), Ok(false));
    assert_eq!(find(&Vec::new(), answer()), Ok(true));
}

#[test]
fn a_failed_enumeration_is_reported_by_its_code() {
    let name = b"VK_KHR_surface".to_vec();
    assert_eq!(find(&name, Err(-1)), Err(Error::OutOfHostMemory));
    assert_eq!(find(&name, Err(-2)), Err(Error::OutOfDeviceMemory));
    assert_eq!(find(&name, Err(-6)), Err(Error::LayerNotPresent));
    assert_eq!(find(&name, Err(5)), Err(Error::Unknown));
}

#[test]
fn two_answers_make_the_offer() {
    let event = offer(
        Ok(vec![buffer("VK_LAYER_KHRONOS_validation")]),
        Ok(vec![buffer("VK_KHR_surface"), buffer("VK_KHR_win32_surface")]),
    );
    match event {
        Event::Offered(supported) => {
            assert_eq!(supported.layers, vec![b"VK_LAYER_KHRONOS_validation".to_vec()]);
            assert_eq!(
                supported.extensions,
                vec![b"VK_KHR_surface".to_vec(), b"VK_KHR_win32_surface".to_vec()]
            );
        }
        _ => panic!("the driver's names were not offered"),
    }
    assert!(matches!(
        offer(Ok(Vec::new()), Ok(Vec::new())),
        Event::Offered(supported) if supported.layers.is_empty() && supported.extensions.is_empty()
    ));
}

#[test]
fn the_first_failure_is_the_answer() {
    assert!(matches!(offer(Err(-1), Ok(Vec::new())), Event::QueryFailed(-1)));
    assert!(matches!(offer(Ok(Vec::new()), Err(-2)), Event::QueryFailed(-2)));
    assert!(matches!(offer(Err(-3), Err(-4)), Event::QueryFailed(-3)));
}
