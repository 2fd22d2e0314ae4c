//! The renderer: the surface configuration and the size it was last given,
//! kept in step with the canvas, and the decision of each frame.
//!
//! Surface, device and queue stay with the host, which applies what the
//! renderer decides: it configures the surface anew when `resize` says so and
//! performs the steps that `render` returns.

use vstd::prelude::*;
use crate::backend::SurfaceFailure;
use crate::config::{SurfaceConfig, SurfaceConfigView};
use crate::error::RenderError;
use crate::frame::{frame_outcome, plan_frame, FrameStep};
use crate::negotiate::{initial_configuration, Acquired, SurfaceCapabilities};
use crate::world::World;

verus! {

/// The state of a ready renderer. There is no other state: a renderer exists
/// from its creation on and is ready until it is dropped.
#[derive(Debug)]
pub struct Renderer {
    config: SurfaceConfig,
    size: (u32, u32),
}

/// A `Renderer` as a mathematical value.
pub struct RendererView {
    /// The configuration in effect.
    pub config: SurfaceConfigView,
    /// The recorded size: width, then height.
    pub size: (u32, u32),
}

/// A size that a surface can take: neither dimension is zero.
pub open spec fn applies(width: u32, height: u32) -> bool {
    width > 0 && height > 0
}

impl RendererView {
    /// The recorded size is the size of the configuration.
    pub open spec fn wf(self) -> bool {
        self.size == (self.config.width, self.config.height)
    }

    /// The renderer after a request for a new size: unchanged where the size
    /// does not apply; else with that size recorded and written into the
    /// configuration, which keeps the rest.
    pub open spec fn resized(self, width: u32, height: u32) -> RendererView {
        if applies(width, height) {
            RendererView { config: self.config.resized(width, height), size: (width, height) }
        } else {
            self
        }
    }

    /// The renderer after a run of requests, each a width and a height.
    pub open spec fn resized_all(self, requests: Seq<(u32, u32)>) -> RendererView
        decreases requests.len(),
    {
        if requests.len() == 0 {
            self
        } else {
            self.resized_all(requests.drop_last()).resized(requests.last().0, requests.last().1)
        }
    }
}

impl View for Renderer {
    type V = RendererView;

    closed spec fn view(&self) -> RendererView {
        RendererView { config: self.config@, size: self.size }
    }
}

impl Renderer {
    /// The recorded size is the size of the configuration.
    pub open spec fn wf(&self) -> bool {
        self@.wf()
    }

    /// Creates the renderer once everything is acquired: has the initial
    /// configuration negotiated from what the surface supports with the
    /// adapter, and records the size of the canvas.
    pub fn new(acquired: Acquired, capabilities: &SurfaceCapabilities) -> (renderer: Renderer)
        requires
            capabilities.usable(),
        ensures
            renderer@.size == acquired.size(),
            renderer@.config == initial_configuration(
                capabilities.formats@,
                capabilities.present_modes@,
                capabilities.alpha_modes@,
                acquired.size().0,
                acquired.size().1,
            ),
            renderer.wf(),
    {
        let config = acquired.configure(capabilities);
        let size = (config.width, config.height);
        Renderer { config, size }
    }

    /// Takes a new size of the canvas. A size with a zero in it is ignored.
    /// Any other is recorded and written into the configuration, and the
    /// answer is `true`: the host has to configure the surface anew, with
    /// `configuration()`, before the next frame.
    pub fn resize(&mut self, width: u32, height: u32) -> (reconfigure: bool)
        ensures
            reconfigure == applies(width, height),
            final(self)@ == old(self)@.resized(width, height),
            reconfigure ==> final(self)@.size == (width, height),
            reconfigure ==> final(self)@.config.width == width,
            reconfigure ==> final(self)@.config.height == height,
            reconfigure ==> final(self)@.config == old(self)@.config.resized(width, height),
            reconfigure ==> final(self)@.config.applicable(),
            !reconfigure ==> final(self)@ == old(self)@,
            reconfigure || old(self).wf() ==> final(self).wf(),
    {
        if width > 0 && height > 0 {
            self.size = (width, height);
            self.config.width = width;
            self.config.height = height;
            true
        } else {
            false
        }
    }

    /// Decides one frame. `acquired` is what came of acquiring the next
    /// texture of the surface. On success the answer is the texture again
    /// and the steps for the host to perform on it. On a failure of any kind
    /// it is the error: there is no retry, the caller decides whether to try
    /// the frame again, and the renderer is as usable as before. The world
    /// is not consulted yet.
    pub fn render<T>(&self, _world: &World, acquired: Result<T, SurfaceFailure>) -> (outcome:
        Result<(T, Vec<FrameStep>), RenderError>)
        ensures
            frame_outcome(acquired, outcome),
    {
        match acquired {
            Ok(texture) => Ok((texture, plan_frame())),
            Err(failure) => Err(RenderError::from(failure)),
        }
    }

    /// The recorded size: width, then height.
    pub fn size(&self) -> (size: (u32, u32))
        ensures
            size == self@.size,
    {
        self.size
    }

    /// The configuration in effect.
    pub fn configuration(&self) -> (config: &SurfaceConfig)
        ensures
            config@ == self@.config,
    {
        &self.config
    }
}

/// A request for a size with a zero in it changes nothing, however often it
/// is made.
pub proof fn lemma_ignored_resize_is_idempotent(renderer: RendererView, width: u32, height: u32)
    requires
        !applies(width, height),
    ensures
        renderer.resized(width, height) == renderer,
        renderer.resized(width, height).resized(width, height) == renderer,
{
}

/// A request changes the size and nothing else, and leaves the renderer well
/// formed.
pub proof fn lemma_resize_keeps_the_rest(renderer: RendererView, width: u32, height: u32)
    requires
        renderer.wf(),
    ensures
        renderer.resized(width, height).wf(),
        renderer.resized(width, height).config == renderer.config.resized(
            renderer.resized(width, height).size.0,
            renderer.resized(width, height).size.1,
        ),
{
}

/// At every moment the configuration has the size of the last request that
/// applied, and the size of the canvas at creation where none has applied
/// yet; the rest of the configuration is as at creation.
pub proof fn lemma_size_follows_last_applied_resize(
    renderer: RendererView,
    requests: Seq<(u32, u32)>,
)
    requires
        renderer.wf(),
    ensures
        renderer.resized_all(requests).wf(),
        renderer.resized_all(requests).config == renderer.config.resized(
            renderer.resized_all(requests).size.0,
            renderer.resized_all(requests).size.1,
        ),
        (forall|i: int| 0 <= i < requests.len() ==> !applies(requests[i].0, requests[i].1))
            ==> renderer.resized_all(requests) == renderer,
        forall|i: int|
            0 <= i < requests.len() && applies(requests[i].0, requests[i].1) && (forall|j: int|
                i < j < requests.len() ==> !applies(requests[j].0, requests[j].1))
                ==> renderer.resized_all(requests).size == #[trigger] requests[i],
    decreases requests.len(),
{
    if requests.len() > 0 {
        let earlier = requests.drop_last();
        let last = requests.last();
        lemma_size_follows_last_applied_resize(renderer, earlier);
        let before = renderer.resized_all(earlier);
        assert(renderer.resized_all(requests) == before.resized(last.0, last.1));
        if forall|i: int| 0 <= i < requests.len() ==> !applies(requests[i].0, requests[i].1) {
            assert(!applies(last.0, last.1));
            assert forall|i: int| 0 <= i < earlier.len() implies !applies(
                earlier[i].0,
                earlier[i].1,
            ) by {
                assert(earlier[i] == requests[i]);
            }
        }
        assert forall|i: int|
            0 <= i < requests.len() && applies(requests[i].0, requests[i].1) && (forall|j: int|
                i < j < requests.len() ==> !applies(requests[j].0, requests[j].1))
                implies renderer.resized_all(requests).size == #[trigger] requests[i] by {
            if i < requests.len() - 1 {
                assert(!applies(last.0, last.1));
                assert(earlier[i] == requests[i]);
                assert forall|j: int| i < j < earlier.len() implies !applies(
                    earlier[j].0,
                    earlier[j].1,
                ) by {
                    assert(earlier[j] == requests[j]);
                }
            }
        }
    }
}

} // verus!
