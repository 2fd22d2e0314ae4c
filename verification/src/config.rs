//! The surface configuration: the parameters that the surface and the frames
//! submitted to it have to agree on.

use vstd::prelude::*;

verus! {

/// What the textures of a surface may be used for.
#[derive(Clone, Copy, Debug, PartialEq, Eq, Structural)]
pub struct TextureUsage {
    pub copy_src: bool,
    pub copy_dst: bool,
    pub texture_binding: bool,
    pub storage_binding: bool,
    pub render_attachment: bool,
}

impl TextureUsage {
    /// Use as the target of a render pass, and nothing else.
    pub open spec fn render_attachment_only() -> TextureUsage {
        TextureUsage {
            copy_src: false,
            copy_dst: false,
            texture_binding: false,
            storage_binding: false,
            render_attachment: true,
        }
    }

    /// Use as the target of a render pass, and nothing else.
    pub fn attachment() -> (usage: TextureUsage)
        ensures
            usage == TextureUsage::render_attachment_only(),
    {
        TextureUsage {
            copy_src: false,
            copy_dst: false,
            texture_binding: false,
            storage_binding: false,
            render_attachment: true,
        }
    }
}

/// The number of frames that may be queued ahead of presentation.
pub const FRAME_LATENCY: u32 = 2;

/// How a surface is configured.
#[derive(Debug)]
pub struct SurfaceConfig {
    pub usage: TextureUsage,
    pub format: wgpu::TextureFormat,
    pub width: u32,
    pub height: u32,
    pub present_mode: wgpu::PresentMode,
    pub alpha_mode: wgpu::CompositeAlphaMode,
    pub view_formats: Vec<wgpu::TextureFormat>,
    pub desired_maximum_frame_latency: u32,
}

/// A `SurfaceConfig` as a mathematical value.
pub struct SurfaceConfigView {
    pub usage: TextureUsage,
    pub format: wgpu::TextureFormat,
    pub width: u32,
    pub height: u32,
    pub present_mode: wgpu::PresentMode,
    pub alpha_mode: wgpu::CompositeAlphaMode,
    pub view_formats: Seq<wgpu::TextureFormat>,
    pub desired_maximum_frame_latency: u32,
}

impl View for SurfaceConfig {
    type V = SurfaceConfigView;

    open spec fn view(&self) -> SurfaceConfigView {
        SurfaceConfigView {
            usage: self.usage,
            format: self.format,
            width: self.width,
            height: self.height,
            present_mode: self.present_mode,
            alpha_mode: self.alpha_mode,
            view_formats: self.view_formats@,
            desired_maximum_frame_latency: self.desired_maximum_frame_latency,
        }
    }
}

impl SurfaceConfigView {
    /// The same configuration for another size.
    pub open spec fn resized(self, width: u32, height: u32) -> SurfaceConfigView {
        SurfaceConfigView { width, height, ..self }
    }

    /// Whether the configuration can be applied to a surface: neither
    /// dimension is zero.
    pub open spec fn applicable(self) -> bool {
        self.width > 0 && self.height > 0
    }
}

} // verus!
