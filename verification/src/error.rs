//! The two failures the renderer reports. Each carries one message and
//! nothing else; neither is retried or changed after it is made.

use vstd::prelude::*;
use vstd::std_specs::convert::FromSpecImpl;
use crate::backend::{
    describe_create_surface_error, describe_request_device_error, describe_surface_failure,
    surface_failure_text, SurfaceFailure,
};

verus! {

/// The message of a surface binding that failed with `diagnostic`.
pub open spec fn surface_creation_message(diagnostic: Seq<char>) -> Seq<char> {
    "Failed to create surface: "@ + diagnostic
}

/// The message of a creation for which no adapter was to be had.
pub open spec fn no_adapter_message() -> Seq<char> {
    "No available adapter"@
}

/// The message of a device request that failed with `diagnostic`.
pub open spec fn device_request_message(diagnostic: Seq<char>) -> Seq<char> {
    "Failed to request device: "@ + diagnostic
}

/// The message of a frame acquisition that failed with `diagnostic`.
pub open spec fn surface_failure_message(diagnostic: Seq<char>) -> Seq<char> {
    "Surface error while rendering: "@ + diagnostic
}

/// `text` is what the backend displayed `error` as: a call of the `Display`
/// impl of `wgpu::CreateSurfaceError` on `error` gave it. Nothing is said of
/// what the text holds.
pub closed spec fn surface_refusal_displayed(
    error: wgpu::CreateSurfaceError,
    text: String,
) -> bool {
    call_ensures(describe_create_surface_error, (&error,), text)
}

/// `text` is what the backend displayed `error` as: a call of the `Display`
/// impl of `wgpu::RequestDeviceError` on `error` gave it. Nothing is said of
/// what the text holds.
pub closed spec fn device_refusal_displayed(
    error: wgpu::RequestDeviceError,
    text: String,
) -> bool {
    call_ensures(describe_request_device_error, (&error,), text)
}

/// Why no renderer was created. The attempt is over; the caller may start
/// another from scratch.
#[derive(Debug)]
pub struct RendererCreateError {
    message: String,
}

impl View for RendererCreateError {
    type V = Seq<char>;

    /// The message.
    closed spec fn view(&self) -> Seq<char> {
        self.message@
    }
}

impl RendererCreateError {
    /// The canvas could not be turned into a surface; `diagnostic` is what
    /// the backend said.
    pub fn surface_creation_failed(diagnostic: &str) -> (error: RendererCreateError)
        ensures
            error@ == surface_creation_message(diagnostic@),
    {
        let mut message = String::from_str("Failed to create surface: ");
        message.append(diagnostic);
        RendererCreateError { message }
    }

    /// The backend had no adapter for the surface.
    pub fn no_adapter() -> (error: RendererCreateError)
        ensures
            error@ == no_adapter_message(),
    {
        RendererCreateError { message: String::from_str("No available adapter") }
    }

    /// The adapter refused the device; `diagnostic` is what the backend said.
    pub fn device_request_failed(diagnostic: &str) -> (error: RendererCreateError)
        ensures
            error@ == device_request_message(diagnostic@),
    {
        let mut message = String::from_str("Failed to request device: ");
        message.append(diagnostic);
        RendererCreateError { message }
    }

    /// The message.
    pub fn message(&self) -> (text: &str)
        ensures
            text@ == self@,
    {
        self.message.as_str()
    }
}

impl From<wgpu::CreateSurfaceError> for RendererCreateError {
    /// Wraps the diagnostic that the backend displays the error as,
    /// whatever it holds.
    fn from(error: wgpu::CreateSurfaceError) -> (failure: RendererCreateError)
        ensures
            exists|text: String| #[trigger]
                surface_refusal_displayed(error, text) && failure@ == surface_creation_message(
                    text@,
                ),
    {
        let diagnostic = describe_create_surface_error(&error);
        assert(surface_refusal_displayed(error, diagnostic));
        RendererCreateError::surface_creation_failed(diagnostic.as_str())
    }
}

impl FromSpecImpl<wgpu::CreateSurfaceError> for RendererCreateError {
    /// The conversion is specified by the `ensures` of `from`, over the
    /// message, and not by a value that it would have to equal.
    open spec fn obeys_from_spec() -> bool {
        false
    }

    open spec fn from_spec(error: wgpu::CreateSurfaceError) -> RendererCreateError {
        arbitrary()
    }
}

impl From<wgpu::RequestDeviceError> for RendererCreateError {
    /// Wraps the diagnostic that the backend displays the error as,
    /// whatever it holds.
    fn from(error: wgpu::RequestDeviceError) -> (failure: RendererCreateError)
        ensures
            exists|text: String| #[trigger]
                device_refusal_displayed(error, text) && failure@ == device_request_message(
                    text@,
                ),
    {
        let diagnostic = describe_request_device_error(&error);
        assert(device_refusal_displayed(error, diagnostic));
        RendererCreateError::device_request_failed(diagnostic.as_str())
    }
}

impl FromSpecImpl<wgpu::RequestDeviceError> for RendererCreateError {
    /// The conversion is specified by the `ensures` of `from`, over the
    /// message, and not by a value that it would have to equal.
    open spec fn obeys_from_spec() -> bool {
        false
    }

    open spec fn from_spec(error: wgpu::RequestDeviceError) -> RendererCreateError {
        arbitrary()
    }
}

/// Why a frame was not rendered. The renderer that reports it stays usable:
/// the caller may resize and render again on the next tick.
#[derive(Debug)]
pub struct RenderError {
    message: String,
}

impl View for RenderError {
    type V = Seq<char>;

    /// The message.
    closed spec fn view(&self) -> Seq<char> {
        self.message@
    }
}

impl RenderError {
    /// No frame could be acquired from the surface; `diagnostic` is what the
    /// backend said.
    pub fn surface_failure(diagnostic: &str) -> (error: RenderError)
        ensures
            error@ == surface_failure_message(diagnostic@),
    {
        let mut message = String::from_str("Surface error while rendering: ");
        message.append(diagnostic);
        RenderError { message }
    }

    /// The message.
    pub fn message(&self) -> (text: &str)
        ensures
            text@ == self@,
    {
        self.message.as_str()
    }
}

impl From<SurfaceFailure> for RenderError {
    /// Wraps the sentence that the backend displays for the failure. Timeout,
    /// outdated surface, lost surface and exhausted memory all end here, as
    /// one kind of error.
    fn from(failure: SurfaceFailure) -> (error: RenderError)
        ensures
            error@ == surface_failure_message(surface_failure_text(failure)),
    {
        let diagnostic = describe_surface_failure(failure);
        RenderError::surface_failure(diagnostic.as_str())
    }
}

impl FromSpecImpl<SurfaceFailure> for RenderError {
    /// The conversion is specified by the `ensures` of `from`, over the
    /// message, and not by a value that it would have to equal.
    open spec fn obeys_from_spec() -> bool {
        false
    }

    open spec fn from_spec(failure: SurfaceFailure) -> RenderError {
        arbitrary()
    }
}

} // verus!
