use iglo::os::windows;
use iglo::os::Window;
use iglo::rhi::adapter::SupportQuery;
use iglo::rhi::capability::Capabilities;
use iglo::rhi::vk::{PhysicalDevice, Win32SurfaceRequest};
use iglo::rhi::{release_steps, Backend, Error, Instance, Release};

fn instance(handle: u64, devices: &[u64]) -> Instance {
    let devices = devices
        .iter()
        .map(|handle| PhysicalDevice { handle: *handle, name: format!("gpu{}", handle) })
        .collect();
    let active = Capabilities { validation: false, debug: false };
    Instance::of(Backend::Vulkan, active, handle, None, devices).unwrap()
}

fn window(hinstance: isize, hwnd: isize) -> Window {
    Window::new(windows::Window::new(hinstance, hwnd).unwrap())
}

#[test]
fn a_window_without_a_handle_is_none() {
    assert!(windows::Window::new(7, 0).is_err());
    assert!(windows::Window::new(0, 0).is_err());
}

#[test]
fn a_window_keeps_its_handles() {
    let window = window(0x400000, -3);
    assert_eq!(*window.platform_impl().hinstance(), 0x400000);
    assert_eq!(*window.platform_impl().hwnd(), -3);
    let bare = windows::Window::new(0, 1).unwrap();
    assert_eq!((*bare.hinstance(), *bare.hwnd()), (0, 1));
}

#[test]
fn a_surface_is_asked_for_with_the_handles_of_both() {
    let instance = instance(0xabc, &[1]);
    let window = window(5, 6);
    assert_eq!(
        instance.surface_request(&window),
        Win32SurfaceRequest { instance: 0xabc, hinstance: 5, hwnd: 6 }
    );
}

#[test]
fn a_surface_is_made_of_the_drivers_handle() {
    let instance = instance(0xabc, &[1]);
    let window = window(5, 6);
    let surface = instance.new_surface(&window, Ok(0x77)).ok().unwrap();
    assert_eq!(surface.backend(), Backend::Vulkan);
    assert_eq!(surface.release(), Release::Surface(0x77));
}

#[test]
fn a_failed_surface_is_reported_by_its_code() {
    let instance = instance(0xabc, &[1]);
    let window = window(5, 6);
    assert!(matches!(instance.new_surface(&window, Err(-1)), Err(Error::OutOfHostMemory)));
    assert!(matches!(instance.new_surface(&window, Err(-2)), Err(Error::OutOfDeviceMemory)));
    assert!(matches!(instance.new_surface(&window, Err(-1000000000)), Err(Error::Unknown)));
    assert!(matches!(instance.new_surface(&window, Err(-9)), Err(Error::NotSupported)));
}

#[test]
fn adapters_come_in_the_order_of_the_devices() {
    let instance = instance(1, &[30, 10, 20]);
    let window = window(5, 6);
    let surface = instance.new_surface(&window, Ok(0x77)).ok().unwrap();
    let adapters = instance.enumerate_adapters();
    assert_eq!(adapters.len(), 3);
    let asked: Vec<SupportQuery> = adapters
        .iter()
        .map(|adapter| adapter.surface_support_query(&surface).unwrap())
        .collect();
    assert_eq!(
        asked,
        vec![
            SupportQuery { physical_device: 30, queue_family_index: 0, surface: 0x77 },
            SupportQuery { physical_device: 10, queue_family_index: 0, surface: 0x77 },
            SupportQuery { physical_device: 20, queue_family_index: 0, surface: 0x77 },
        ]
    );
    for adapter in &adapters {
        assert_eq!(adapter.backend(), Backend::Vulkan);
    }
    assert_eq!(adapters[1].info().name(), "gpu10");
}

#[test]
fn the_drivers_answer_is_passed_on() {
    let instance = instance(1, &[30]);
    let window = window(5, 6);
    let surface = instance.new_surface(&window, Ok(0x77)).ok().unwrap();
    let adapters = instance.enumerate_adapters();
    assert_eq!(adapters[0].is_surface_supported(&surface, Ok(true)), Ok(true));
    assert_eq!(adapters[0].is_surface_supported(&surface, Ok(false)), Ok(false));
}

#[test]
fn a_failed_query_is_unknown() {
    let instance = instance(1, &[30]);
    let window = window(5, 6);
    let surface = instance.new_surface(&window, Ok(0x77)).ok().unwrap();
    let adapters = instance.enumerate_adapters();
    for code in [-1, -4, -13, 5] {
        assert_eq!(adapters[0].is_surface_supported(&surface, Err(code)), Err(Error::Unknown));
    }
}

#[test]
fn a_surface_of_another_instance_of_the_backend_is_no_mismatch() {
    let first = instance(1, &[30]);
    let second = instance(2, &[40]);
    let window = window(5, 6);
    let surface = second.new_surface(&window, Ok(0x77)).ok().unwrap();
    let adapters = first.enumerate_adapters();
    assert_eq!(adapters[0].backend(), surface.backend());
    assert!(adapters[0].surface_support_query(&surface).is_ok());
    assert_eq!(adapters[0].is_surface_supported(&surface, Ok(true)), Ok(true));
}

#[test]
fn the_instance_is_released_after_its_messenger() {
    assert_eq!(release_steps(None, 3), vec![Release::Instance(3)]);
    assert_eq!(release_steps(Some(4), 3), vec![Release::Messenger(4), Release::Instance(3)]);
    assert_eq!(release_steps(Some(0), 0), vec![Release::Messenger(0), Release::Instance(0)]);
}

#[test]
fn a_surface_is_given_up_before_its_instance() {
    let window = window(5, 6);
    let instance = instance(0xabc, &[1]);
    let surface = instance.new_surface(&window, Ok(0x77)).ok().unwrap();
    let mut order = vec![surface.release()];
    order.extend(instance.release());
    assert_eq!(order, vec![Release::Surface(0x77), Release::Instance(0xabc)]);
}
