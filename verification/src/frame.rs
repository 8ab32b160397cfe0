//! The decisions of the frame loop.
//!
//! The loop itself belongs to whoever owns the window and the device. It
//! hands every event to `FrameLoop::on_event` and does what the step that
//! comes back says; when it could not acquire an image it asks
//! `FrameLoop::acquire_failed` what to do next.

use vstd::prelude::*;
use crate::error::RenderError;
use crate::gpu::RenderPass;
use crate::scene::Scene;
use crate::surface::{SurfaceConfig, SurfacePresenter};

verus! {

/// What the window reports.
#[derive(Clone, Copy, Debug, PartialEq, Eq, Structural)]
pub enum Event {
    /// The surface now has this size.
    Resized { width: u32, height: u32 },
    /// The window is to be closed.
    CloseRequested,
    /// All events of this round were handed in.
    EventsCleared,
    /// A frame is wanted.
    RedrawRequested,
    /// Anything else.
    Other,
}

/// One frame, in the order in which it is to be carried out.
#[derive(Clone, Copy, Debug, PartialEq, Eq)]
pub struct FramePlan {
    /// Where some: before anything else, create the presentable chain, the
    /// depth buffer and the auxiliary target anew for this configuration.
    pub reconfigure: Option<SurfaceConfig>,
    /// Where some: then compute the transform for a surface of this width
    /// and height and write it to the uniform buffer.
    pub transform: Option<(u32, u32)>,
    /// Then acquire the next image, record this pass on it and submit.
    pub pass: RenderPass,
}

/// What the loop is to do next.
#[derive(Clone, Copy, Debug, PartialEq, Eq)]
pub enum Step {
    /// Nothing.
    Wait,
    /// Ask the window for a redraw.
    RequestRedraw,
    /// Leave the loop.
    Exit,
    /// Render a frame.
    Frame(FramePlan),
    /// Leave the loop and report the error.
    Fail(RenderError),
}

/// The state of the frame loop.
#[derive(Clone, Copy, Debug, PartialEq, Eq)]
pub struct FrameLoop {
    /// The surface.
    pub presenter: SurfacePresenter,
    /// The resources.
    pub scene: Scene,
    /// The size that the window reported last, until a frame has taken it up.
    pub pending: Option<(u32, u32)>,
    /// How often in a row the presentable chain is created anew after a
    /// failed acquisition before the loop gives up.
    pub max_retries: u32,
    /// How often in a row acquisition has failed.
    pub attempts: u32,
    /// The loop has ended.
    pub halted: bool,
}

impl FrameLoop {
    /// The textures of the scene have the size of the surface, which has a
    /// width and a height, and no more retries were made than allowed.
    pub open spec fn wf(self) -> bool {
        &&& self.presenter.config.wf()
        &&& self.scene.fits(self.presenter.config)
        &&& self.attempts <= self.max_retries
    }

    /// The loop for a surface and the scene built for it, with nothing
    /// pending. With `max_retries` 0 a failed acquisition ends the loop at
    /// once. A surface without width or height is refused, and so is a
    /// scene that was not made for the surface.
    pub fn new(presenter: SurfacePresenter, scene: Scene, max_retries: u32) -> (r: Result<
        FrameLoop,
        RenderError,
    >)
        ensures
            presenter.config.wf() && scene.fits(presenter.config) <==> r is Ok,
            r is Ok ==> r->Ok_0 == (FrameLoop {
                presenter,
                scene,
                pending: None,
                max_retries,
                attempts: 0,
                halted: false,
            }) && r->Ok_0.wf(),
            !presenter.config.wf() ==> r is Err && r->Err_0 == RenderError::EmptySurface,
            presenter.config.wf() && !scene.fits(presenter.config) ==> r is Err && r->Err_0
                == RenderError::TargetMismatch,
    {
        let config = presenter.config;
        let fits = scene.depth_texture.width == config.width && scene.depth_texture.height
            == config.height && scene.normals_fbo.width == config.width
            && scene.normals_fbo.height == config.height
            && scene.icosphere.render_pipeline.color_format == config.pixel_format;
        if config.width == 0 || config.height == 0 {
            return Err(RenderError::EmptySurface);
        }
        if !fits {
            return Err(RenderError::TargetMismatch);
        }
        Ok(FrameLoop { presenter, scene, pending: None, max_retries, attempts: 0, halted: false })
    }

    /// Tells whether the state is in order.
    pub fn valid(&self) -> (ok: bool)
        ensures
            ok == self.wf(),
    {
        let config = self.presenter.config;
        config.width > 0 && config.height > 0 && self.scene.depth_texture.width == config.width
            && self.scene.depth_texture.height == config.height && self.scene.normals_fbo.width
            == config.width && self.scene.normals_fbo.height == config.height
            && self.scene.icosphere.render_pipeline.color_format == config.pixel_format
            && self.attempts <= self.max_retries
    }

    /// The state after a redraw was asked for, and the step to take.
    pub open spec fn redraw(self) -> (FrameLoop, Step) {
        match self.pending {
            Some((width, height)) => {
                if width == 0 || height == 0 {
                    (
                        FrameLoop { pending: None, halted: true, ..self },
                        Step::Fail(RenderError::EmptySurface),
                    )
                } else {
                    let presenter = self.presenter.resized(width, height);
                    let scene = self.scene.resized(width, height);
                    let changed = width != self.presenter.config.width || height
                        != self.presenter.config.height;
                    (
                        FrameLoop { presenter, scene, pending: None, ..self },
                        Step::Frame(
                            FramePlan {
                                reconfigure: if changed {
                                    Some(presenter.config)
                                } else {
                                    None
                                },
                                transform: if self.presenter.config.same_aspect(width, height) {
                                    None
                                } else {
                                    Some((width, height))
                                },
                                pass: scene.pass(),
                            },
                        ),
                    )
                }
            },
            None => (
                self,
                Step::Frame(
                    FramePlan { reconfigure: None, transform: None, pass: self.scene.pass() },
                ),
            ),
        }
    }

    /// The state after `event`, and the step to take.
    pub open spec fn next(self, event: Event) -> (FrameLoop, Step) {
        if self.halted {
            (self, Step::Exit)
        } else {
            match event {
                Event::Resized { width, height } => (
                    FrameLoop { pending: Some((width, height)), ..self },
                    Step::Wait,
                ),
                Event::CloseRequested => (FrameLoop { halted: true, ..self }, Step::Exit),
                Event::EventsCleared => (self, Step::RequestRedraw),
                Event::RedrawRequested => self.redraw(),
                Event::Other => (self, Step::Wait),
            }
        }
    }

    /// Takes an event of the window and says what to do. A new size is
    /// kept until the next frame, which starts by taking the surface and
    /// the textures to it, and asks for a new transform where the aspect
    /// ratio is another; a frame without a new size only draws. A size
    /// without width or height ends the loop with an error before
    /// anything reaches the device, and so does nothing reach it once the
    /// loop has ended.
    pub fn on_event(&mut self, event: Event) -> (step: Step)
        requires
            old(self).wf(),
        ensures
            final(self).wf(),
            (*final(self), step) == old(self).next(event),
    {
        if self.halted {
            return Step::Exit;
        }
        match event {
            Event::Resized { width, height } => {
                self.pending = Some((width, height));
                Step::Wait
            },
            Event::CloseRequested => {
                self.halted = true;
                Step::Exit
            },
            Event::EventsCleared => Step::RequestRedraw,
            Event::RedrawRequested => {
                match self.pending {
                    Some((width, height)) => {
                        self.pending = None;
                        let same = self.presenter.config.has_aspect(width, height);
                        match self.presenter.resize(&mut self.scene, width, height) {
                            Ok(changed) => {
                                let reconfigure = if changed {
                                    Some(self.presenter.config)
                                } else {
                                    None
                                };
                                let transform = if same {
                                    None
                                } else {
                                    Some((width, height))
                                };
                                Step::Frame(
                                    FramePlan { reconfigure, transform, pass: self.scene.draw() },
                                )
                            },
                            Err(e) => {
                                self.halted = true;
                                Step::Fail(e)
                            },
                        }
                    },
                    None => Step::Frame(
                        FramePlan { reconfigure: None, transform: None, pass: self.scene.draw() },
                    ),
                }
            },
            Event::Other => Step::Wait,
        }
    }

    /// The state after an image could not be acquired, and the step to take.
    pub open spec fn after_timeout(self) -> (FrameLoop, Step) {
        if self.halted {
            (self, Step::Exit)
        } else if self.attempts < self.max_retries {
            (
                FrameLoop { attempts: (self.attempts + 1) as u32, ..self },
                Step::Frame(
                    FramePlan {
                        reconfigure: Some(self.presenter.config),
                        transform: None,
                        pass: self.scene.pass(),
                    },
                ),
            )
        } else {
            (FrameLoop { halted: true, ..self }, Step::Fail(RenderError::AcquireTimeout))
        }
    }

    /// Says what to do when no image could be acquired: while retries are
    /// left, create the presentable chain anew and try the frame again;
    /// after that, end the loop with an error.
    pub fn acquire_failed(&mut self) -> (step: Step)
        requires
            old(self).wf(),
        ensures
            final(self).wf(),
            (*final(self), step) == old(self).after_timeout(),
    {
        if self.halted {
            Step::Exit
        } else if self.attempts < self.max_retries {
            self.attempts = self.attempts + 1;
            Step::Frame(
                FramePlan {
                    reconfigure: Some(self.presenter.config),
                    transform: None,
                    pass: self.scene.draw(),
                },
            )
        } else {
            self.halted = true;
            Step::Fail(RenderError::AcquireTimeout)
        }
    }

    /// Takes note that a frame was submitted: the next failure is the
    /// first of a new row.
    pub fn presented(&mut self)
        requires
            old(self).wf(),
        ensures
            final(self).wf(),
            *final(self) == (FrameLoop { attempts: 0, ..*old(self) }),
    {
        self.attempts = 0;
    }
}

/// A frame that follows a resize to a size with width and height draws
/// into a depth buffer of exactly that size, the auxiliary target has
/// that size too, where the size is new the presentable chain is created
/// anew before the image of the frame is acquired, and where the aspect
/// ratio is new the transform is written for it.
pub proof fn lemma_resize_then_render(state: FrameLoop, width: u32, height: u32)
    requires
        state.wf(),
        !state.halted,
        width > 0,
        height > 0,
    ensures
        ({
            let resized = state.next(Event::Resized { width, height }).0;
            let (after, step) = resized.next(Event::RedrawRequested);
            &&& after.wf()
            &&& after.presenter.config.width == width
            &&& after.presenter.config.height == height
            &&& after.scene.depth_texture.width == width
            &&& after.scene.depth_texture.height == height
            &&& after.scene.normals_fbo.width == width
            &&& after.scene.normals_fbo.height == height
            &&& after.pending is None
            &&& step is Frame
            &&& step->Frame_0.pass.depth == after.scene.depth_texture
            &&& (width != state.presenter.config.width || height != state.presenter.config.height)
                ==> step->Frame_0.reconfigure == Some(after.presenter.config)
            &&& state.presenter.config.width * height != width * state.presenter.config.height
                ==> step->Frame_0.transform == Some((width, height))
        }),
{
}

/// A resize changes nothing but the size: the buffers, the pipeline, the
/// pixel format and the present mode stay what they are.
pub proof fn lemma_resize_keeps_rest(presenter: SurfacePresenter, scene: Scene, width: u32, height: u32)
    ensures
        scene.resized(width, height).icosphere == scene.icosphere,
        scene.resized(width, height).uniform_buffer == scene.uniform_buffer,
        scene.resized(width, height).global_binding == scene.global_binding,
        scene.resized(width, height).instances == scene.instances,
        scene.resized(width, height).depth_texture.format == scene.depth_texture.format,
        scene.resized(width, height).normals_fbo.format == scene.normals_fbo.format,
        presenter.resized(width, height).config.pixel_format == presenter.config.pixel_format,
        presenter.resized(width, height).config.present_mode == presenter.config.present_mode,
        scene.fits(presenter.config) ==> scene.resized(width, height).fits(
            presenter.resized(width, height).config,
        ),
{
}

/// Resizing twice to the same size leaves what resizing once leaves, and
/// the second time nothing is created anew.
pub proof fn lemma_resize_idempotent(presenter: SurfacePresenter, scene: Scene, width: u32, height: u32)
    ensures
        presenter.resized(width, height).resized(width, height) == presenter.resized(width, height),
        scene.resized(width, height).resized(width, height) == scene.resized(width, height),
        presenter.config.wf() ==> presenter.resized(presenter.config.width, presenter.config.height)
            == presenter,
        scene.fits(presenter.config) && presenter.config.wf() ==> scene.resized(
            presenter.config.width,
            presenter.config.height,
        ) == scene,
{
}

/// Two frames after one resize: only the first creates anything anew.
pub proof fn lemma_second_frame_quiet(state: FrameLoop, width: u32, height: u32)
    requires
        state.wf(),
        !state.halted,
        width > 0,
        height > 0,
    ensures
        ({
            let first = state.next(Event::Resized { width, height }).0.next(Event::RedrawRequested).0;
            let again = first.next(Event::Resized { width, height }).0;
            let (second, step) = again.next(Event::RedrawRequested);
            &&& second == first
            &&& step == Step::Frame(
                FramePlan { reconfigure: None, transform: None, pass: first.scene.pass() },
            )
        }),
{
}

/// Once the loop has ended, no event and no failure draws a frame or
/// changes the state.
pub proof fn lemma_halted_stays(state: FrameLoop, event: Event)
    requires
        state.halted,
    ensures
        state.next(event) == (state, Step::Exit),
        state.after_timeout() == (state, Step::Exit),
{
}

/// Failed acquisitions in a row end the loop after `max_retries` retries:
/// the state counts them, and the one after the last ends it.
pub proof fn lemma_retries_bounded(state: FrameLoop)
    requires
        state.wf(),
        !state.halted,
    ensures
        state.attempts < state.max_retries ==> state.after_timeout().1 is Frame
            && state.after_timeout().0.attempts == state.attempts + 1
            && !state.after_timeout().0.halted,
        state.attempts == state.max_retries ==> state.after_timeout().1 == Step::Fail(
            RenderError::AcquireTimeout,
        ) && state.after_timeout().0.halted,
{
}

} // verus!
