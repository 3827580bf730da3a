//! The Vulkan binding: what this interface takes from the `ash` crate
//! without calling into the driver.

use vstd::prelude::*;
use vstd::slice::slice_to_vec;
use vstd::string::StringSliceAdditionalSpecFns;

use crate::rhi::capability::Request;
use crate::rhi::{Error, IntoError, IntoResult};
use crate::Version;

pub mod adapter;
pub mod instance;
pub mod surface;

pub use adapter::{VkAdapter, VkAdapterApi};
pub use instance::{PhysicalDevice, VkInstance, VkInstanceInner};
pub use surface::{VkSurface, Win32SurfaceRequest};

verus! {

/// `ash::vk::make_api_version` shifts the variant to bit 29, the major
/// number to bit 22 and the minor number to bit 12, and ors the patch
/// number in; bits shifted past bit 31 are lost.
pub assume_specification[ ash::vk::make_api_version ](
    variant: u32,
    major: u32,
    minor: u32,
    patch: u32,
) -> (word: u32)
    ensures
        word == (variant << 29) | (major << 22) | (minor << 12) | patch,
;

/// `ash::vk::api_version_variant` reads the three bits from bit 29 up.
pub assume_specification[ ash::vk::api_version_variant ](version: u32) -> (variant: u32)
    ensures
        variant == version >> 29,
;

/// `ash::vk::api_version_major` reads the seven bits from bit 22 up.
pub assume_specification[ ash::vk::api_version_major ](version: u32) -> (major: u32)
    ensures
        major == (version >> 22) & 0x7f,
;

/// `ash::vk::api_version_minor` reads the ten bits from bit 12 up.
pub assume_specification[ ash::vk::api_version_minor ](version: u32) -> (minor: u32)
    ensures
        minor == (version >> 12) & 0x3ff,
;

/// `ash::vk::api_version_patch` reads the twelve lowest bits.
pub assume_specification[ ash::vk::api_version_patch ](version: u32) -> (patch: u32)
    ensures
        patch == version & 0xfff,
;

/// The word that the driver reads a version from: variant 0, and the three
/// numbers at the places that Vulkan gives them.
pub open spec fn packed(version: Version) -> u32 {
    ((version.major as u32) << 22) | ((version.minor as u32) << 12) | (version.patch as u32)
}

/// The version that a word of the driver stands for, where it stands for
/// one: its variant is 0 and its minor number fits.
pub open spec fn unpacked(word: u32) -> Option<Version> {
    if word >> 29 == 0 && (word >> 12) & 0x3ff <= 255 {
        Some(
            Version {
                major: ((word >> 22) & 0x7f) as u8,
                minor: ((word >> 12) & 0x3ff) as u8,
                patch: (word & 0xfff) as u16,
            },
        )
    } else {
        None
    }
}

/// Packs a version as the driver reads it.
pub fn pack(version: Version) -> (word: u32)
    ensures
        word == packed(version),
{
    let major: u32 = version.major as u32;
    let minor: u32 = version.minor as u32;
    let patch: u32 = version.patch as u32;
    assert(((0u32 << 29) | (major << 22) | (minor << 12) | patch) == ((major << 22) | (minor << 12)
        | patch)) by (bit_vector);
    ash::vk::make_api_version(0, major, minor, patch)
}

/// Reads a version back from a word of the driver.
pub fn unpack(word: u32) -> (version: Option<Version>)
    ensures
        version == unpacked(word),
{
    let variant: u32 = ash::vk::api_version_variant(word);
    let major: u32 = ash::vk::api_version_major(word);
    let minor: u32 = ash::vk::api_version_minor(word);
    let patch: u32 = ash::vk::api_version_patch(word);
    assert((word >> 22) & 0x7f < 128) by (bit_vector);
    assert(word & 0xfff < 4096) by (bit_vector);
    if variant == 0 && minor <= 255 {
        Some(Version { major: major as u8, minor: minor as u8, patch: patch as u16 })
    } else {
        None
    }
}

/// A version comes back from its packed word exactly when its major number
/// is below 128 and its patch number below 4096: the driver's word has
/// seven bits for the one and twelve for the other.
pub proof fn pack_round_trip(version: Version)
    ensures
        unpacked(packed(version)) == Some(version) <==> version.major < 128 && version.patch
            < 4096,
{
    let major: u32 = version.major as u32;
    let minor: u32 = version.minor as u32;
    let patch: u32 = version.patch as u32;
    let word: u32 = (major << 22) | (minor << 12) | patch;
    assert(major < 256 && minor < 256 && patch < 65536 && word == ((major << 22) | (minor << 12)
        | patch) ==> ((word >> 29 == 0 && (word >> 12) & 0x3ff <= 255 && (word >> 22) & 0x7f
        == major && (word >> 12) & 0x3ff == minor && word & 0xfff == patch) <==> (major < 128
        && patch < 4096))) by (bit_vector);
    assert((word >> 22) & 0x7f < 128) by (bit_vector);
    assert(word & 0xfff < 4096) by (bit_vector);
    assert((word >> 12) & 0x3ff < 1024) by (bit_vector);
}

/// The code of `ash::vk::Result::ERROR_OUT_OF_HOST_MEMORY`, which `ash`
/// declares as -1.
#[verifier::external_body]
fn out_of_host_memory() -> (code: i32)
    ensures
        code == -1,
{
    ash::vk::Result::ERROR_OUT_OF_HOST_MEMORY.as_raw()
}

/// The code of `ash::vk::Result::ERROR_OUT_OF_DEVICE_MEMORY`, which `ash`
/// declares as -2.
#[verifier::external_body]
fn out_of_device_memory() -> (code: i32)
    ensures
        code == -2,
{
    ash::vk::Result::ERROR_OUT_OF_DEVICE_MEMORY.as_raw()
}

/// The code of `ash::vk::Result::ERROR_DEVICE_LOST`, which `ash` declares
/// as -4.
#[verifier::external_body]
fn device_lost() -> (code: i32)
    ensures
        code == -4,
{
    ash::vk::Result::ERROR_DEVICE_LOST.as_raw()
}

/// The code of `ash::vk::Result::ERROR_LAYER_NOT_PRESENT`, which `ash`
/// declares as -6.
#[verifier::external_body]
fn layer_not_present() -> (code: i32)
    ensures
        code == -6,
{
    ash::vk::Result::ERROR_LAYER_NOT_PRESENT.as_raw()
}

/// The code of `ash::vk::Result::ERROR_EXTENSION_NOT_PRESENT`, which `ash`
/// declares as -7.
#[verifier::external_body]
fn extension_not_present() -> (code: i32)
    ensures
        code == -7,
{
    ash::vk::Result::ERROR_EXTENSION_NOT_PRESENT.as_raw()
}

/// The code of `ash::vk::Result::ERROR_FEATURE_NOT_PRESENT`, which `ash`
/// declares as -8.
#[verifier::external_body]
fn feature_not_present() -> (code: i32)
    ensures
        code == -8,
{
    ash::vk::Result::ERROR_FEATURE_NOT_PRESENT.as_raw()
}

/// The code of `ash::vk::Result::ERROR_INCOMPATIBLE_DRIVER`, which `ash`
/// declares as -9.
#[verifier::external_body]
fn incompatible_driver() -> (code: i32)
    ensures
        code == -9,
{
    ash::vk::Result::ERROR_INCOMPATIBLE_DRIVER.as_raw()
}

/// The error that a result code of the driver stands for. A code without a
/// place of its own in the taxonomy is `Unknown`.
pub open spec fn error_of(code: i32) -> Error {
    if code == -1 {
        Error::OutOfHostMemory
    } else if code == -2 {
        Error::OutOfDeviceMemory
    } else if code == -4 {
        Error::DeviceLost
    } else if code == -6 {
        Error::LayerNotPresent
    } else if code == -7 {
        Error::ExtensionNotPresent
    } else if code == -8 {
        Error::FeatureNotPresent
    } else if code == -9 {
        Error::NotSupported
    } else {
        Error::Unknown
    }
}

/// No result code of the driver stands for a mismatch of backends: that
/// failure is this interface's own.
pub proof fn no_code_is_a_mismatch(code: i32)
    ensures
        error_of(code) != Error::BackendMismatch,
{
}

/// A result code as the driver returned it.
#[derive(Debug, Clone, Copy, PartialEq, Eq, Structural)]
pub struct VkResult(pub i32);

impl IntoError for VkResult {
    open spec fn error(self) -> Error {
        error_of(self.0)
    }

    fn into_error(self) -> (error: Error) {
        let code: i32 = self.0;
        if code == out_of_host_memory() {
            Error::OutOfHostMemory
        } else if code == out_of_device_memory() {
            Error::OutOfDeviceMemory
        } else if code == device_lost() {
            Error::DeviceLost
        } else if code == layer_not_present() {
            Error::LayerNotPresent
        } else if code == extension_not_present() {
            Error::ExtensionNotPresent
        } else if code == feature_not_present() {
            Error::FeatureNotPresent
        } else if code == incompatible_driver() {
            Error::NotSupported
        } else {
            Error::Unknown
        }
    }
}

impl<T> IntoResult<T> for core::result::Result<T, VkResult> {
    open spec fn result(self) -> crate::rhi::Result<T> {
        match self {
            Ok(value) => Ok(value),
            Err(code) => Err(error_of(code.0)),
        }
    }

    fn into_result(self) -> (result: crate::rhi::Result<T>) {
        match self {
            Ok(value) => Ok(value),
            Err(code) => Err(code.into_error()),
        }
    }
}

/// The bytes of a buffer that end at its first zero byte, or at its end
/// where it holds none.
pub open spec fn is_extent(buffer: Seq<u8>, extent: int) -> bool {
    &&& 0 <= extent <= buffer.len()
    &&& forall|i: int| 0 <= i < extent ==> buffer[i] != 0
    &&& extent < buffer.len() ==> buffer[extent] == 0
}

/// The name that a buffer of the driver holds: its bytes before the first
/// zero byte.
pub open spec fn terminated(buffer: Seq<u8>) -> Seq<u8> {
    buffer.take(choose|extent: int| is_extent(buffer, extent))
}

/// Two extents of one buffer are the same.
pub proof fn extent_is_unique(buffer: Seq<u8>, first: int, second: int)
    requires
        is_extent(buffer, first),
        is_extent(buffer, second),
    ensures
        first == second,
{
    if first < second {
        assert(buffer[first] == 0);
    } else if second < first {
        assert(buffer[second] == 0);
    }
}

/// Reads the name out of a buffer that the driver filled.
pub fn name_of(buffer: &Vec<u8>) -> (name: Vec<u8>)
    ensures
        name@ == terminated(buffer@),
        forall|j: int| 0 <= j < name.len() ==> name@[j] != 0,
{
    let mut name: Vec<u8> = Vec::new();
    let mut at: usize = 0;
    while at < buffer.len() && buffer[at] != 0
        invariant
            at <= buffer.len(),
            name@ == buffer@.take(at as int),
            forall|i: int| 0 <= i < at ==> buffer@[i] != 0,
        decreases buffer.len() - at,
    {
        name.push(buffer[at]);
        at += 1;
        assert(name@ =~= buffer@.take(at as int));
    }
    proof {
        assert(is_extent(buffer@, at as int));
        let chosen = choose|extent: int| is_extent(buffer@, extent);
        extent_is_unique(buffer@, at as int, chosen);
    }
    name
}

/// No name of the list holds a zero byte.
pub open spec fn free_of_zero(list: Seq<Seq<u8>>) -> bool {
    forall|i: int, j: int| 0 <= i < list.len() && 0 <= j < list[i].len() ==> list[i][j] != 0
}

/// The names of a list of buffers, in the list's order.
pub open spec fn all_terminated(buffers: Seq<Seq<u8>>) -> Seq<Seq<u8>> {
    Seq::new(buffers.len(), |i: int| terminated(buffers[i]))
}

/// Reads the names out of the buffers that the driver filled.
pub fn names_of(buffers: &Vec<Vec<u8>>) -> (list: Vec<Vec<u8>>)
    ensures
        crate::rhi::capability::names(list@) == all_terminated(
            crate::rhi::capability::names(buffers@),
        ),
        free_of_zero(crate::rhi::capability::names(list@)),
{
    let mut list: Vec<Vec<u8>> = Vec::new();
    let mut at: usize = 0;
    while at < buffers.len()
        invariant
            at <= buffers.len(),
            list.len() == at,
            forall|i: int| 0 <= i < at ==> list@[i]@ == terminated(buffers@[i]@),
            forall|i: int, j: int| 0 <= i < at && 0 <= j < list@[i].len() ==> list@[i]@[j] != 0,
        decreases buffers.len() - at,
    {
        list.push(name_of(&buffers[at]));
        at += 1;
    }
    assert(crate::rhi::capability::names(list@) =~= all_terminated(
        crate::rhi::capability::names(buffers@),
    ));
    list
}

/// `ash::extensions::khr::Surface::name`: the name of the extension that
/// presents to surfaces, `VK_KHR_surface`.
#[verifier::external_body]
fn surface_extension() -> (name: Vec<u8>)
    ensures
        name@ == "VK_KHR_surface".spec_bytes(),
{
    ash::extensions::khr::Surface::name().to_bytes().to_vec()
}

/// `ash::extensions::khr::Win32Surface::name`: the name of the extension
/// that makes surfaces of Win32 windows, `VK_KHR_win32_surface`.
#[verifier::external_body]
fn win32_surface_extension() -> (name: Vec<u8>)
    ensures
        name@ == "VK_KHR_win32_surface".spec_bytes(),
{
    ash::extensions::khr::Win32Surface::name().to_bytes().to_vec()
}

/// `ash::extensions::ext::DebugUtils::name`: the name of the extension
/// that carries the driver's diagnostics, `VK_EXT_debug_utils`.
#[verifier::external_body]
fn debug_utils_extension() -> (name: Vec<u8>)
    ensures
        name@ == "VK_EXT_debug_utils".spec_bytes(),
{
    ash::extensions::ext::DebugUtils::name().to_bytes().to_vec()
}

/// What the Vulkan backend asks of its driver: no layer and the two
/// surface extensions are required; Khronos' validation layer and the
/// debug utilities are optional.
pub open spec fn vulkan_request() -> crate::rhi::capability::RequestView {
    crate::rhi::capability::RequestView {
        required_layers: Seq::empty(),
        required_extensions: seq![
            "VK_KHR_surface".spec_bytes(),
            "VK_KHR_win32_surface".spec_bytes(),
        ],
        validation_layer: "VK_LAYER_KHRONOS_validation".spec_bytes(),
        debug_extension: "VK_EXT_debug_utils".spec_bytes(),
    }
}

/// What the Vulkan backend asks of its driver.
pub fn request() -> (request: Request)
    ensures
        request@ == vulkan_request(),
{
    let mut required_extensions: Vec<Vec<u8>> = Vec::new();
    required_extensions.push(surface_extension());
    required_extensions.push(win32_surface_extension());
    let request = Request {
        required_layers: Vec::new(),
        required_extensions,
        validation_layer: slice_to_vec("VK_LAYER_KHRONOS_validation".as_bytes()),
        debug_extension: debug_utils_extension(),
    };
    assert(request@.required_layers =~= vulkan_request().required_layers);
    assert(request@.required_extensions =~= vulkan_request().required_extensions);
    request
}

} // verus!
