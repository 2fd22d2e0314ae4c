//! The entry points that a host binds to: create a renderer, render a frame,
//! make a world.

use vstd::prelude::*;
use crate::backend::SurfaceFailure;
use crate::error::RenderError;
use crate::frame::{frame_outcome, FrameStep};
use crate::negotiate::{initial_configuration, Acquired, SurfaceCapabilities};
use crate::renderer::Renderer;
use crate::world::World;

verus! {

/// Creates the renderer of a canvas once everything is acquired for it; see
/// `Renderer::new`. A canvas is bound to one renderer only.
pub fn create_renderer(acquired: Acquired, capabilities: &SurfaceCapabilities) -> (renderer:
    Renderer)
    requires
        capabilities.usable(),
    ensures
        renderer@.size == acquired.size(),
        renderer@.config == initial_configuration(
            capabilities.formats@,
            capabilities.present_modes@,
            capabilities.alpha_modes@,
            acquired.size().0,
            acquired.size().1,
        ),
        renderer.wf(),
{
    Renderer::new(acquired, capabilities)
}

/// Decides one frame of `renderer`; see `Renderer::render`.
pub fn render<T>(
    renderer: &Renderer,
    world: &World,
    acquired: Result<T, SurfaceFailure>,
) -> (outcome: Result<(T, Vec<FrameStep>), RenderError>)
    ensures
        frame_outcome(acquired, outcome),
{
    renderer.render(world, acquired)
}

/// Makes a new, empty world.
pub fn create_world() -> (world: World)
    ensures
        world == (World {  }),
{
    World::new()
}

} // verus!
