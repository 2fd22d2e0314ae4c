//! The capability negotiator: what to ask of the backend, stage by stage,
//! and what surface configuration follows from its answers.
//!
//! Each stage names its request; the host makes it and hands back what came
//! of it, and gets the next stage or the error that ends the creation. A
//! stage can only be had from the stage before it, so the requests are made
//! in order: bind the surface, request an adapter, request a device. The
//! last stage turns the capabilities of the surface into the initial
//! configuration.

use vstd::prelude::*;
use crate::backend::{format_is_srgb, is_srgb};
use crate::config::{SurfaceConfig, SurfaceConfigView, TextureUsage, FRAME_LATENCY};
use crate::error::{
    device_refusal_displayed, device_request_message, no_adapter_message,
    surface_creation_message, surface_refusal_displayed, RendererCreateError,
};

verus! {

/// A family of rendering backends.
#[derive(Clone, Copy, Debug, PartialEq, Eq, Structural)]
pub enum Backend {
    Vulkan,
    Metal,
    Dx12,
    Gl,
    BrowserWebGpu,
}

/// Which adapter to favour where several are on offer.
#[derive(Clone, Copy, Debug, PartialEq, Eq, Structural)]
pub enum PowerPreference {
    /// Whatever the backend takes as its default.
    Default,
    LowPower,
    HighPerformance,
}

/// A profile of resource limits to require of a device.
#[derive(Clone, Copy, Debug, PartialEq, Eq, Structural)]
pub enum LimitsProfile {
    /// The limits of a desktop-class device.
    Default,
    /// Limits that older native hardware meets.
    Downlevel,
    /// The most conservative profile: limits that a WebGL2 host meets.
    DownlevelWebgl2,
}

/// What to ask for first: an instance of the backend.
#[derive(Clone, Copy, Debug, PartialEq, Eq, Structural)]
pub struct InstanceRequest {
    /// The one backend family that the instance is restricted to.
    pub backend: Backend,
}

/// What to ask of the instance: an adapter.
#[derive(Clone, Copy, Debug, PartialEq, Eq, Structural)]
pub struct AdapterRequest {
    /// Which adapter to favour.
    pub power_preference: PowerPreference,
    /// Whether the adapter has to be a fallback adapter.
    pub force_fallback_adapter: bool,
    /// Whether the adapter has to be compatible with the surface just bound.
    pub compatible_with_surface: bool,
}

/// What to ask of the adapter: a device and its queue.
#[derive(Clone, Copy, Debug, PartialEq, Eq, Structural)]
pub struct DeviceRequest {
    /// The features to require of the device, as a bit set.
    pub required_features: u64,
    /// The limits to require of the device.
    pub required_limits: LimitsProfile,
}

/// The instance of every creation: the GL family alone, chosen for reach
/// rather than speed.
pub open spec fn instance_request() -> InstanceRequest {
    InstanceRequest { backend: Backend::Gl }
}

/// The adapter of every creation: of the default power preference, fit for
/// the surface, and no fallback adapter.
pub open spec fn adapter_request() -> AdapterRequest {
    AdapterRequest {
        power_preference: PowerPreference::Default,
        force_fallback_adapter: false,
        compatible_with_surface: true,
    }
}

/// The device of every creation: no extra features, under the most
/// conservative limits, so that it is to be had on the widest range of hosts.
pub open spec fn device_request() -> DeviceRequest {
    DeviceRequest { required_features: 0, required_limits: LimitsProfile::DownlevelWebgl2 }
}

/// What a surface supports with an adapter, each list in the backend's order
/// of preference.
#[derive(Debug)]
pub struct SurfaceCapabilities {
    pub formats: Vec<wgpu::TextureFormat>,
    pub present_modes: Vec<wgpu::PresentMode>,
    pub alpha_modes: Vec<wgpu::CompositeAlphaMode>,
}

impl SurfaceCapabilities {
    /// Each list names at least one choice. A surface that is incompatible
    /// with its adapter reports empty lists; no configuration follows from
    /// those.
    pub open spec fn usable(&self) -> bool {
        &&& self.formats@.len() > 0
        &&& self.present_modes@.len() > 0
        &&& self.alpha_modes@.len() > 0
    }

    /// Whether each list names at least one choice.
    pub fn is_usable(&self) -> (usable: bool)
        ensures
            usable == self.usable(),
    {
        self.formats.len() > 0 && self.present_modes.len() > 0 && self.alpha_modes.len() > 0
    }
}

/// `position` holds the first `true` of `flags`.
pub open spec fn first_true_at(flags: Seq<bool>, position: int) -> bool {
    &&& 0 <= position < flags.len()
    &&& flags[position]
    &&& forall|earlier: int| 0 <= earlier < position ==> !#[trigger] flags[earlier]
}

/// The position of the first `true` of `flags`, and 0 where there is none.
pub open spec fn preferred_position(flags: Seq<bool>) -> int {
    if flags.contains(true) {
        choose|position: int| first_true_at(flags, position)
    } else {
        0
    }
}

/// Some format of the list is an sRGB format.
pub open spec fn has_srgb(formats: Seq<wgpu::TextureFormat>) -> bool {
    exists|i: int| 0 <= i < formats.len() && format_is_srgb(#[trigger] formats[i])
}

/// `position` holds the first sRGB format of the list.
pub open spec fn first_srgb_at(formats: Seq<wgpu::TextureFormat>, position: int) -> bool {
    &&& 0 <= position < formats.len()
    &&& format_is_srgb(formats[position])
    &&& forall|earlier: int|
        0 <= earlier < position ==> !format_is_srgb(#[trigger] formats[earlier])
}

/// The format to render in: the first sRGB format of the list, and the first
/// format of all where the list has no sRGB format.
pub open spec fn preferred_format(formats: Seq<wgpu::TextureFormat>) -> wgpu::TextureFormat {
    if has_srgb(formats) {
        formats[choose|position: int| first_srgb_at(formats, position)]
    } else {
        formats[0]
    }
}

/// The configuration that a renderer starts with: render-attachment use
/// alone, the preferred format, the size of the canvas, the backend's first
/// presentation mode and first alpha mode, no further view formats, and at
/// most two frames queued ahead of presentation.
pub open spec fn initial_configuration(
    formats: Seq<wgpu::TextureFormat>,
    present_modes: Seq<wgpu::PresentMode>,
    alpha_modes: Seq<wgpu::CompositeAlphaMode>,
    width: u32,
    height: u32,
) -> SurfaceConfigView {
    SurfaceConfigView {
        usage: TextureUsage::render_attachment_only(),
        format: preferred_format(formats),
        width,
        height,
        present_mode: present_modes[0],
        alpha_mode: alpha_modes[0],
        view_formats: Seq::empty(),
        desired_maximum_frame_latency: FRAME_LATENCY,
    }
}

/// Two positions that both hold the first `true` are one position.
pub proof fn lemma_first_true_unique(flags: Seq<bool>, a: int, b: int)
    requires
        first_true_at(flags, a),
        first_true_at(flags, b),
    ensures
        a == b,
{
    if a < b {
        assert(!flags[a]);
    } else if b < a {
        assert(!flags[b]);
    }
}

/// Below and at any `true` there is a first one.
proof fn lemma_first_true_exists(flags: Seq<bool>, at: int)
    requires
        0 <= at < flags.len(),
        flags[at],
    ensures
        exists|position: int| first_true_at(flags, position),
    decreases at,
{
    if exists|earlier: int| 0 <= earlier < at && flags[earlier] {
        let earlier = choose|earlier: int| 0 <= earlier < at && flags[earlier];
        lemma_first_true_exists(flags, earlier);
    } else {
        assert(first_true_at(flags, at));
    }
}

/// The preferred position holds the first `true` where there is one, and is
/// the front of the list where there is none.
pub proof fn lemma_preferred_position(flags: Seq<bool>)
    ensures
        0 <= preferred_position(flags),
        flags.len() > 0 ==> preferred_position(flags) < flags.len(),
        flags.contains(true) ==> first_true_at(flags, preferred_position(flags)),
        !flags.contains(true) ==> preferred_position(flags) == 0,
{
    if flags.contains(true) {
        let at = choose|i: int| 0 <= i < flags.len() && flags[i] == true;
        lemma_first_true_exists(flags, at);
    }
}

/// For each format, whether it is an sRGB format.
spec fn srgb_flags(formats: Seq<wgpu::TextureFormat>) -> Seq<bool> {
    Seq::new(formats.len(), |i: int| format_is_srgb(formats[i]))
}

/// The preferred format stands at the preferred position of the flags.
proof fn lemma_preferred_format_by_flags(formats: Seq<wgpu::TextureFormat>)
    requires
        formats.len() > 0,
    ensures
        preferred_format(formats) == formats[preferred_position(srgb_flags(formats))],
        has_srgb(formats) ==> first_srgb_at(formats, preferred_position(srgb_flags(formats))),
{
    let flags = srgb_flags(formats);
    let position = preferred_position(flags);
    lemma_preferred_position(flags);
    if has_srgb(formats) {
        let i = choose|i: int| 0 <= i < formats.len() && format_is_srgb(#[trigger] formats[i]);
        assert(flags[i]);
        assert(flags[position] == format_is_srgb(formats[position]));
        assert forall|earlier: int| 0 <= earlier < position implies !format_is_srgb(
            #[trigger] formats[earlier],
        ) by {
            assert(!flags[earlier]);
        }
        assert(first_srgb_at(formats, position));
        let chosen = choose|chosen: int| first_srgb_at(formats, chosen);
        if chosen < position {
            assert(!format_is_srgb(formats[chosen]));
        } else if position < chosen {
            assert(!format_is_srgb(formats[position]));
        }
    } else {
        if flags.contains(true) {
            let k = choose|k: int| 0 <= k < flags.len() && flags[k] == true;
            assert(format_is_srgb(formats[k]));
        }
    }
}

/// Format selection: the preferred format is a format of the list. Where the
/// list holds an sRGB format, it is one, and the first of them. Where the
/// list holds none, it is the first format of the list.
pub proof fn lemma_preferred_format(formats: Seq<wgpu::TextureFormat>)
    requires
        formats.len() > 0,
    ensures
        formats.contains(preferred_format(formats)),
        has_srgb(formats) ==> format_is_srgb(preferred_format(formats)),
        !has_srgb(formats) ==> preferred_format(formats) == formats[0],
        forall|i: int| #[trigger]
            first_srgb_at(formats, i) ==> preferred_format(formats) == formats[i],
{
    lemma_preferred_format_by_flags(formats);
    lemma_preferred_position(srgb_flags(formats));
    let position = preferred_position(srgb_flags(formats));
    assert(formats[position] == preferred_format(formats));
    assert forall|i: int| #[trigger] first_srgb_at(formats, i) implies preferred_format(formats)
        == formats[i] by {
        assert(has_srgb(formats));
        if i < position {
            assert(!format_is_srgb(formats[i]));
        } else if position < i {
            assert(!format_is_srgb(formats[position]));
        }
    }
}

/// The position of the first `true`, and 0 where there is none.
pub fn preferred_index(flags: &Vec<bool>) -> (index: usize)
    ensures
        index == preferred_position(flags@),
        flags@.len() > 0 ==> index < flags@.len(),
        flags@.contains(true) ==> first_true_at(flags@, index as int),
        !flags@.contains(true) ==> index == 0,
{
    let mut i: usize = 0;
    while i < flags.len()
        invariant
            i <= flags@.len(),
            forall|earlier: int| 0 <= earlier < i ==> !#[trigger] flags@[earlier],
        decreases flags@.len() - i,
    {
        if flags[i] {
            proof {
                assert(first_true_at(flags@, i as int));
                lemma_preferred_position(flags@);
                lemma_first_true_unique(flags@, i as int, preferred_position(flags@));
            }
            return i;
        }
        i += 1;
    }
    proof {
        if flags@.contains(true) {
            let k = choose|k: int| 0 <= k < flags@.len() && flags@[k] == true;
            assert(!flags@[k]);
        }
    }
    0
}

/// Asks the backend of each format whether it is an sRGB format.
fn classify_formats(formats: &Vec<wgpu::TextureFormat>) -> (flags: Vec<bool>)
    ensures
        flags@ == srgb_flags(formats@),
{
    let mut flags: Vec<bool> = Vec::new();
    let mut i: usize = 0;
    while i < formats.len()
        invariant
            i <= formats@.len(),
            flags@.len() == i,
            forall|k: int| 0 <= k < i ==> flags@[k] == format_is_srgb(#[trigger] formats@[k]),
        decreases formats@.len() - i,
    {
        let srgb = is_srgb(&formats[i]);
        flags.push(srgb);
        i += 1;
    }
    assert(flags@ =~= srgb_flags(formats@));
    flags
}

/// Selects the format to render in: the first sRGB format on offer, since
/// colours come out darker on any other; the backend's first format where it
/// offers no sRGB format.
pub fn select_format(formats: &Vec<wgpu::TextureFormat>) -> (format: wgpu::TextureFormat)
    requires
        formats@.len() > 0,
    ensures
        format == preferred_format(formats@),
        formats@.contains(format),
        has_srgb(formats@) ==> format_is_srgb(format),
        !has_srgb(formats@) ==> format == formats@[0],
        forall|i: int| #[trigger] first_srgb_at(formats@, i) ==> format == formats@[i],
{
    let flags = classify_formats(formats);
    let index = preferred_index(&flags);
    proof {
        lemma_preferred_format_by_flags(formats@);
        lemma_preferred_format(formats@);
    }
    formats[index]
}

/// The first stage: nothing is acquired yet, and the surface is to be bound
/// to the canvas.
#[derive(Debug)]
pub struct BindingSurface {}

/// The second stage: the surface is bound, and an adapter is to be found.
#[derive(Debug)]
pub struct RequestingAdapter {
    width: u32,
    height: u32,
}

/// The third stage: the adapter is found, and it is to grant a device.
#[derive(Debug)]
pub struct RequestingDevice {
    width: u32,
    height: u32,
}

/// The last stage: surface, adapter, device and queue are in the host's
/// hands, and the surface is to be configured.
#[derive(Debug)]
pub struct Acquired {
    width: u32,
    height: u32,
}

/// Begins the creation of a renderer.
pub fn begin() -> (stage: BindingSurface)
    ensures
        stage == (BindingSurface {  }),
{
    BindingSurface {  }
}

impl BindingSurface {
    /// The request to make at this stage.
    pub fn request(&self) -> (request: InstanceRequest)
        ensures
            request == instance_request(),
    {
        InstanceRequest { backend: Backend::Gl }
    }

    /// Takes the pixel size of the canvas, read before the surface was
    /// bound, and what came of binding it. Goes on, and hands the surface
    /// back, exactly where the surface was bound; a failure ends the
    /// creation with an error that wraps the diagnostic that the backend
    /// displays the failure as.
    pub fn bound<S>(
        self,
        width: u32,
        height: u32,
        outcome: Result<S, wgpu::CreateSurfaceError>,
    ) -> (next: Result<(RequestingAdapter, S), RendererCreateError>)
        ensures
            match outcome {
                Ok(surface) => {
                    &&& next matches Ok((stage, bound))
                    &&& stage.size() == (width, height)
                    &&& bound == surface
                },
                Err(refusal) => {
                    &&& next matches Err(error)
                    &&& exists|text: String| #[trigger]
                        surface_refusal_displayed(refusal, text) && error@
                            == surface_creation_message(text@)
                },
            },
    {
        match outcome {
            Ok(surface) => Ok((RequestingAdapter { width, height }, surface)),
            Err(refusal) => Err(RendererCreateError::from(refusal)),
        }
    }
}

impl RequestingAdapter {
    /// The pixel size of the canvas.
    pub closed spec fn size(&self) -> (u32, u32) {
        (self.width, self.height)
    }

    /// The request to make at this stage.
    pub fn request(&self) -> (request: AdapterRequest)
        ensures
            request == adapter_request(),
    {
        AdapterRequest {
            power_preference: PowerPreference::Default,
            force_fallback_adapter: false,
            compatible_with_surface: true,
        }
    }

    /// Takes what came of the request. Goes on, and hands the adapter back,
    /// exactly where there is one; that there is none is a plain answer of
    /// the backend, and ends the creation.
    pub fn resolved<A>(self, adapter: Option<A>) -> (next: Result<
        (RequestingDevice, A),
        RendererCreateError,
    >)
        ensures
            match adapter {
                Some(found) => {
                    &&& next matches Ok((stage, resolved))
                    &&& stage.size() == self.size()
                    &&& resolved == found
                },
                None => {
                    &&& next matches Err(error)
                    &&& error@ == no_adapter_message()
                },
            },
    {
        match adapter {
            Some(found) => Ok((RequestingDevice { width: self.width, height: self.height }, found)),
            None => Err(RendererCreateError::no_adapter()),
        }
    }
}

impl RequestingDevice {
    /// The pixel size of the canvas.
    pub closed spec fn size(&self) -> (u32, u32) {
        (self.width, self.height)
    }

    /// The request to make at this stage.
    pub fn request(&self) -> (request: DeviceRequest)
        ensures
            request == device_request(),
    {
        DeviceRequest { required_features: 0, required_limits: LimitsProfile::DownlevelWebgl2 }
    }

    /// Takes what came of the request. Goes on, and hands device and queue
    /// back, exactly where they were granted; a refusal ends the creation
    /// with an error that wraps the diagnostic that the backend displays the
    /// refusal as.
    pub fn granted<D>(self, outcome: Result<D, wgpu::RequestDeviceError>) -> (next: Result<
        (Acquired, D),
        RendererCreateError,
    >)
        ensures
            match outcome {
                Ok(device) => {
                    &&& next matches Ok((stage, granted))
                    &&& stage.size() == self.size()
                    &&& granted == device
                },
                Err(refusal) => {
                    &&& next matches Err(error)
                    &&& exists|text: String| #[trigger]
                        device_refusal_displayed(refusal, text) && error@
                            == device_request_message(text@)
                },
            },
    {
        match outcome {
            Ok(device) => Ok((Acquired { width: self.width, height: self.height }, device)),
            Err(refusal) => Err(RendererCreateError::from(refusal)),
        }
    }
}

impl Acquired {
    /// The pixel size of the canvas.
    pub closed spec fn size(&self) -> (u32, u32) {
        (self.width, self.height)
    }

    /// Builds the initial configuration from what the surface supports with
    /// the adapter. The lists have to name a choice each: no configuration
    /// follows from a surface that is incompatible with its adapter.
    pub fn configure(self, capabilities: &SurfaceCapabilities) -> (config: SurfaceConfig)
        requires
            capabilities.usable(),
        ensures
            config@ == initial_configuration(
                capabilities.formats@,
                capabilities.present_modes@,
                capabilities.alpha_modes@,
                self.size().0,
                self.size().1,
            ),
    {
        SurfaceConfig {
            usage: TextureUsage::attachment(),
            format: select_format(&capabilities.formats),
            width: self.width,
            height: self.height,
            present_mode: capabilities.present_modes[0],
            alpha_mode: capabilities.alpha_modes[0],
            view_formats: Vec::new(),
            desired_maximum_frame_latency: FRAME_LATENCY,
        }
    }
}

} // verus!
