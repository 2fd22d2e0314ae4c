//! The `wgpu` values that the renderer's decisions carry, and the few `wgpu`
//! functions that those decisions call.

use vstd::prelude::*;

verus! {

/// `wgpu::TextureFormat`, carried through without looking inside.
#[verifier::external_type_specification]
#[verifier::external_body]
pub struct ExTextureFormat(wgpu::TextureFormat);

/// `wgpu::PresentMode`, carried through without looking inside.
#[verifier::external_type_specification]
#[verifier::external_body]
pub struct ExPresentMode(wgpu::PresentMode);

/// `wgpu::CompositeAlphaMode`, carried through without looking inside.
#[verifier::external_type_specification]
#[verifier::external_body]
pub struct ExCompositeAlphaMode(wgpu::CompositeAlphaMode);

/// `wgpu::CreateSurfaceError`, the failure of binding a surface.
#[verifier::external_type_specification]
#[verifier::external_body]
pub struct ExCreateSurfaceError(wgpu::CreateSurfaceError);

/// `wgpu::RequestDeviceError`, the failure of a device request.
#[verifier::external_type_specification]
#[verifier::external_body]
pub struct ExRequestDeviceError(wgpu::RequestDeviceError);

/// Why the surface handed out no texture for the next frame: the variants
/// of `wgpu::SurfaceError`.
#[derive(Clone, Copy, Debug, PartialEq, Eq, Structural)]
pub enum SurfaceFailure {
    /// The wait for the next frame timed out.
    Timeout,
    /// The surface has changed under the swap chain.
    Outdated,
    /// The swap chain is lost.
    Lost,
    /// No memory is left for a new frame.
    OutOfMemory,
}

/// The sentence that `wgpu::SurfaceError` displays for each variant.
pub open spec fn surface_failure_text(failure: SurfaceFailure) -> Seq<char> {
    match failure {
        SurfaceFailure::Timeout =>
            "A timeout was encountered while trying to acquire the next frame"@,
        SurfaceFailure::Outdated =>
            "The underlying surface has changed, and therefore the swap chain must be updated"@,
        SurfaceFailure::Lost => "The swap chain has been lost and needs to be recreated"@,
        SurfaceFailure::OutOfMemory => "There is no more memory left to allocate a new frame"@,
    }
}

/// What `wgpu::TextureFormat::is_srgb` answers for a format.
pub uninterp spec fn format_is_srgb(format: wgpu::TextureFormat) -> bool;

/// Calls `wgpu::TextureFormat::is_srgb`, which compares the format with the
/// format stripped of its sRGB suffix; the answer depends on the format alone.
#[verifier::external_body]
pub(crate) fn is_srgb(format: &wgpu::TextureFormat) -> (srgb: bool)
    ensures
        srgb == format_is_srgb(*format),
{
    format.is_srgb()
}

/// Formats the `wgpu::SurfaceError` of the same variant through its
/// `Display` impl, which writes one fixed sentence per variant.
#[verifier::external_body]
pub(crate) fn describe_surface_failure(failure: SurfaceFailure) -> (text: String)
    ensures
        text@ == surface_failure_text(failure),
{
    let error = match failure {
        SurfaceFailure::Timeout => wgpu::SurfaceError::Timeout,
        SurfaceFailure::Outdated => wgpu::SurfaceError::Outdated,
        SurfaceFailure::Lost => wgpu::SurfaceError::Lost,
        SurfaceFailure::OutOfMemory => wgpu::SurfaceError::OutOfMemory,
    };
    error.to_string()
}

/// Formats a `wgpu::RequestDeviceError` through its `Display` impl, which
/// forwards to the error it wraps. In a WebGPU browser that is a script
/// value, whose printed form is fetched from the script host on every read,
/// so nothing is claimed of the text.
#[verifier::external_body]
pub(crate) fn describe_request_device_error(error: &wgpu::RequestDeviceError) -> (text: String)
{
    error.to_string()
}

/// Formats a `wgpu::CreateSurfaceError` through its `Display` impl. One of
/// the errors it wraps prints a hash map, in whatever order the map is
/// walked, so nothing is claimed of the text.
#[verifier::external_body]
pub(crate) fn describe_create_surface_error(error: &wgpu::CreateSurfaceError) -> (text: String)
{
    error.to_string()
}

} // verus!
