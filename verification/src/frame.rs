//! The frame loop: an event-driven state machine over the surface
//! configuration, the frame clock and the frame resources. For each
//! window event it decides the full effect — reconfigure, record a
//! frame, or close — and for a redraw it plans the exact per-frame
//! command sequence: uniform write, image acquisition, the optional
//! dissolve compute pass with its copy back into the multisample
//! target, the multisampled triangle pass that preserves existing
//! contents and resolves into the resolve texture, the copy to the
//! presentable image, submission, presentation, and the request for
//! the next redraw.

use vstd::prelude::*;
use crate::config::SurfaceConfig;
use crate::config::clamp_dim_spec;
use crate::pipeline::PipelineSet;
use crate::resources::FrameResources;
use crate::timing::FrameClock;
use crate::timing::FrameTiming;

verus! {

/// The number of 8-wide workgroup columns (or rows) needed to cover one
/// dimension: the quotient of the dimension by eight, rounded up.
pub open spec fn workgroups_spec(d: u32) -> u32 {
    ((d + 7) / 8) as u32
}

/// Rounds a dimension up to whole 8-texel workgroups.
///
/// The returned count covers the dimension with no spare whole group.
pub fn workgroups_for(d: u32) -> (n: u32)
    ensures
        n == workgroups_spec(d),
        8 * (n as int) >= d,
        d > 0 ==> 8 * (n as int) < d + 8,
        d > 0 ==> n >= 1,
{
    d / 8 + (if d % 8 == 0 {
        0
    } else {
        1
    })
}

/// The window events the loop reacts to; everything else is `Other`.
#[derive(Clone, Copy, PartialEq, Eq, Structural, Debug)]
pub enum LoopEvent {
    Resized { width: u32, height: u32 },
    RedrawRequested,
    CloseRequested,
    Other,
}

/// The loop's states. `Resizing` and `Rendering` are transient: the
/// loop passes through them inside one event and is back in `Idle`
/// when the event returns. `Closing` is terminal.
#[derive(Clone, Copy, PartialEq, Eq, Structural, Debug)]
pub enum LoopState {
    Idle,
    Resizing,
    Rendering,
    Closing,
}

/// One step of the per-frame command sequence, in recording order.
#[derive(Clone, Copy, PartialEq, Eq, Structural, Debug)]
pub enum RenderStep {
    /// Overwrite the persistent uniform buffer with this frame's timing.
    WriteUniformBuffer { timing: FrameTiming },
    /// Acquire the next presentable image from the surface.
    AcquireImage,
    /// Dispatch the dissolve compute pass over the resolve texture
    /// through the storage binding set, one workgroup per 8×8 tile.
    DissolvePass { groups_x: u32, groups_y: u32, storage_binding_set: u64 },
    /// Copy the resolve texture's full extent into the multisample
    /// texture, so the render pass observes the compute pass's writes.
    CopyResolveToMultisample { src_texture: u64, dst_texture: u64, width: u32, height: u32 },
    /// The render pass: draw into the multisample view, preserving its
    /// contents, resolving into the resolve view.
    TrianglePass {
        target_view: u64,
        resolve_view: u64,
        preserve_contents: bool,
        vertices: u32,
        instances: u32,
    },
    /// Copy the resolve texture's full extent into the acquired
    /// presentable image.
    CopyResolveToPresentable { src_texture: u64, width: u32, height: u32 },
    /// Submit the recorded commands to the device queue.
    Submit,
    /// Present the acquired image.
    Present,
    /// Ask for the next redraw; the loop is unbounded.
    RequestRedraw,
}

/// The exact command sequence of one frame over the given resources:
/// the dissolve pass and its copy-back appear exactly in the dissolve
/// variant, between the acquisition and the render pass; the render
/// pass loads (never clears) the multisample target and resolves into
/// the resolve texture; the presentable copy, submit, present and the
/// next redraw request close the frame.
pub open spec fn frame_plan_spec(r: FrameResources, timing: FrameTiming) -> Seq<RenderStep> {
    let head = seq![
        RenderStep::WriteUniformBuffer { timing },
        RenderStep::AcquireImage,
    ];
    let dissolve = if r.has_dissolve {
        seq![
            RenderStep::DissolvePass {
                groups_x: workgroups_spec(r.targets.width()),
                groups_y: workgroups_spec(r.targets.height()),
                storage_binding_set: r.targets.storage_binding_set->Some_0,
            },
            RenderStep::CopyResolveToMultisample {
                src_texture: r.targets.resolve.id,
                dst_texture: r.targets.multisample.id,
                width: r.targets.width(),
                height: r.targets.height(),
            },
        ]
    } else {
        Seq::<RenderStep>::empty()
    };
    let tail = seq![
        RenderStep::TrianglePass {
            target_view: r.targets.multisample_view,
            resolve_view: r.targets.resolve_view,
            preserve_contents: true,
            vertices: 3,
            instances: 1,
        },
        RenderStep::CopyResolveToPresentable {
            src_texture: r.targets.resolve.id,
            width: r.targets.width(),
            height: r.targets.height(),
        },
        RenderStep::Submit,
        RenderStep::Present,
        RenderStep::RequestRedraw,
    ];
    head + dissolve + tail
}

/// What the caller must do after one event: reconfigure the surface to
/// the clamped size and rebuild the size-dependent resources, perform a
/// planned frame, leave the event loop, or nothing.
pub enum LoopOutput {
    Reconfigure { width: u32, height: u32 },
    Frame { plan: Vec<RenderStep> },
    Exit,
    Ignored,
}

/// The whole per-window state the loop owns: its state, the clock, the
/// stored surface configuration, the size-dependent resources, and the
/// size-independent pipeline state.
pub struct FrameLoop {
    pub state: LoopState,
    pub clock: FrameClock,
    pub config: SurfaceConfig,
    pub resources: FrameResources,
    pub pipelines: PipelineSet,
}

impl FrameLoop {
    /// The loop rests in `Idle` until it is `Closing`; the clock is
    /// ordered; the configuration is clamped; the resources are well
    /// formed and sized exactly to the stored configuration.
    pub open spec fn wf(self) -> bool {
        &&& self.state is Idle || self.state is Closing
        &&& self.clock.wf()
        &&& self.config.valid()
        &&& self.resources.wf()
        &&& self.resources.targets.width() == self.config.width
        &&& self.resources.targets.height() == self.config.height
        &&& self.pipelines.wf(self.resources.has_dissolve)
    }

    /// Startup: clamp the window's initial size, store it, build the
    /// first target set and the one pipeline set, and start the clock
    /// at `start_nanos`.
    pub fn new(has_dissolve: bool, width: u32, height: u32, start_nanos: u64) -> (l: Self)
        ensures
            l.wf(),
            l.state is Idle,
            l.resources.has_dissolve == has_dissolve,
            l.resources.next_id <= 5,
            l.config.width == clamp_dim_spec(width),
            l.config.height == clamp_dim_spec(height),
            l.clock == (FrameClock { start: start_nanos, last: start_nanos }),
            l.clock.elapsed() == 0,
    {
        FrameLoop {
            state: LoopState::Idle,
            clock: FrameClock::new(start_nanos),
            config: SurfaceConfig::new(width, height),
            resources: FrameResources::new(has_dissolve, width, height),
            pipelines: PipelineSet::build(has_dissolve),
        }
    }

    /// Records one frame at clock reading `now`: advances the clock and
    /// plans the frame's exact command sequence over the current
    /// resources.
    fn record_frame(&mut self, now: u64) -> (plan: Vec<RenderStep>)
        requires
            old(self).wf(),
            now >= old(self).clock.last,
        ensures
            final(self).wf(),
            final(self).state == old(self).state,
            final(self).config == old(self).config,
            final(self).resources == old(self).resources,
            final(self).pipelines == old(self).pipelines,
            final(self).clock == old(self).clock.advance_spec(now).0,
            plan@ == frame_plan_spec(old(self).resources, old(self).clock.advance_spec(now).1),
    {
        let timing = self.clock.advance(now);
        let mut plan: Vec<RenderStep> = Vec::new();
        plan.push(RenderStep::WriteUniformBuffer { timing });
        plan.push(RenderStep::AcquireImage);
        if self.resources.has_dissolve {
            let groups_x = workgroups_for(self.resources.targets.multisample.width);
            let groups_y = workgroups_for(self.resources.targets.multisample.height);
            let storage_binding_set = match self.resources.targets.storage_binding_set {
                Some(b) => b,
                None => 0,  // unreachable: the dissolve variant always holds a binding set
            };
            plan.push(RenderStep::DissolvePass { groups_x, groups_y, storage_binding_set });
            plan.push(
                RenderStep::CopyResolveToMultisample {
                    src_texture: self.resources.targets.resolve.id,
                    dst_texture: self.resources.targets.multisample.id,
                    width: self.resources.targets.multisample.width,
                    height: self.resources.targets.multisample.height,
                },
            );
        }
        plan.push(
            RenderStep::TrianglePass {
                target_view: self.resources.targets.multisample_view,
                resolve_view: self.resources.targets.resolve_view,
                preserve_contents: true,
                vertices: 3,
                instances: 1,
            },
        );
        plan.push(
            RenderStep::CopyResolveToPresentable {
                src_texture: self.resources.targets.resolve.id,
                width: self.resources.targets.multisample.width,
                height: self.resources.targets.multisample.height,
            },
        );
        plan.push(RenderStep::Submit);
        plan.push(RenderStep::Present);
        plan.push(RenderStep::RequestRedraw);
        proof {
            assert(plan@ =~= frame_plan_spec(old(self).resources, timing));
        }
        plan
    }

    /// Handles one window event.
    ///
    /// After a close event the loop is `Closing` and stays so: every
    /// later event leaves the state untouched and records nothing — in
    /// particular, no frame. A resize clamps and stores the new size,
    /// rebuilds the resources (every new handle differs from every
    /// superseded one), and asks for a reconfiguration and redraw. A
    /// redraw request advances the clock and hands back the frame's
    /// exact command plan. Any other event is ignored.
    pub fn handle_event(&mut self, event: LoopEvent, now: u64) -> (out: LoopOutput)
        requires
            old(self).wf(),
            event is RedrawRequested ==> now >= old(self).clock.last,
            event is Resized ==> old(self).resources.next_id <= u64::MAX - 5,
        ensures
            final(self).wf(),
            final(self).pipelines == old(self).pipelines,
            old(self).state is Closing ==> *final(self) == *old(self) && out is Ignored,
            !(old(self).state is Closing) && event is CloseRequested ==> {
                &&& final(self).state is Closing
                &&& out is Exit
                &&& final(self).clock == old(self).clock
                &&& final(self).config == old(self).config
                &&& final(self).resources == old(self).resources
            },
            !(old(self).state is Closing) ==> (event matches LoopEvent::Resized { width, height }
                ==> {
                &&& final(self).state is Idle
                &&& final(self).config.width == clamp_dim_spec(width)
                &&& final(self).config.height == clamp_dim_spec(height)
                &&& final(self).resources.targets.multisample.width == clamp_dim_spec(width)
                &&& final(self).resources.targets.multisample.height == clamp_dim_spec(height)
                &&& final(self).resources.targets.resolve.width == clamp_dim_spec(width)
                &&& final(self).resources.targets.resolve.height == clamp_dim_spec(height)
                &&& final(self).resources.targets.disjoint_from(old(self).resources.targets)
                &&& final(self).resources.has_dissolve == old(self).resources.has_dissolve
                &&& final(self).resources.next_id <= old(self).resources.next_id + 5
                &&& final(self).clock == old(self).clock
                &&& out matches LoopOutput::Reconfigure { width: w, height: h } && w
                    == clamp_dim_spec(width) && h == clamp_dim_spec(height)
            }),
            !(old(self).state is Closing) && event is RedrawRequested ==> {
                &&& final(self).state is Idle
                &&& final(self).config == old(self).config
                &&& final(self).resources == old(self).resources
                &&& final(self).clock == old(self).clock.advance_spec(now).0
                &&& out matches LoopOutput::Frame { plan } && plan@ == frame_plan_spec(
                    old(self).resources,
                    old(self).clock.advance_spec(now).1,
                )
            },
            !(old(self).state is Closing) && event is Other ==> *final(self) == *old(self)
                && out is Ignored,
    {
        match self.state {
            LoopState::Closing => LoopOutput::Ignored,
            _ => match event {
                LoopEvent::CloseRequested => {
                    self.state = LoopState::Closing;
                    LoopOutput::Exit
                },
                LoopEvent::Resized { width, height } => {
                    self.config.resize(width, height);
                    self.resources.configure(width, height);
                    LoopOutput::Reconfigure { width: self.config.width, height: self.config.height }
                },
                LoopEvent::RedrawRequested => {
                    let plan = self.record_frame(now);
                    LoopOutput::Frame { plan }
                },
                LoopEvent::Other => LoopOutput::Ignored,
            },
        }
    }
}

} // verus!
