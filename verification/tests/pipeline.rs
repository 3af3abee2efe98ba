use dissolve::config::SurfaceConfig;
use dissolve::config::clamp_dim;
use dissolve::frame::FrameLoop;
use dissolve::frame::LoopEvent;
use dissolve::frame::LoopOutput;
use dissolve::frame::LoopState;
use dissolve::frame::RenderStep;
use dissolve::frame::workgroups_for;
use dissolve::resources::FrameResources;
use dissolve::timing::FrameClock;

fn set_ids(r: &FrameResources) -> Vec<u64> {
    let mut ids = vec![
        r.targets.multisample.id,
        r.targets.multisample_view,
        r.targets.resolve.id,
        r.targets.resolve_view,
    ];
    if let Some(b) = r.targets.storage_binding_set {
        ids.push(b);
    }
    ids
}

#[test]
fn clamp_keeps_positive_dims() {
    assert_eq!(clamp_dim(0), 1);
    assert_eq!(clamp_dim(1), 1);
    assert_eq!(clamp_dim(640), 640);
    assert_eq!(clamp_dim(u32::MAX), u32::MAX);
}

#[test]
fn surface_config_clamps_zero_components() {
    let c = SurfaceConfig::new(0, 480);
    assert_eq!((c.width, c.height), (1, 480));
    let mut c = SurfaceConfig::new(640, 0);
    assert_eq!((c.width, c.height), (640, 1));
    c.resize(0, 0);
    assert_eq!((c.width, c.height), (1, 1));
}

#[test]
fn configure_reports_exact_requested_dims() {
    let mut r = FrameResources::new(true, 640, 640);
    assert_eq!(r.targets.multisample.width, 640);
    assert_eq!(r.targets.multisample.height, 640);
    assert_eq!(r.targets.resolve.width, 640);
    assert_eq!(r.targets.resolve.height, 640);
    r.configure(1280, 720);
    assert_eq!(r.targets.multisample.width, 1280);
    assert_eq!(r.targets.multisample.height, 720);
    assert_eq!(r.targets.resolve.width, 1280);
    assert_eq!(r.targets.resolve.height, 720);
}

#[test]
fn configure_clamps_zero_dims_to_one() {
    let mut r = FrameResources::new(true, 640, 640);
    r.configure(0, 0);
    assert_eq!(r.targets.multisample.width, 1);
    assert_eq!(r.targets.multisample.height, 1);
    assert_eq!(r.targets.resolve.width, 1);
    assert_eq!(r.targets.resolve.height, 1);
}

#[test]
fn configure_shape_of_targets() {
    let r = FrameResources::new(true, 64, 64);
    assert_eq!(r.targets.multisample.sample_count, 4);
    assert_eq!(r.targets.resolve.sample_count, 1);
    assert!(r.targets.multisample.render_attachment && r.targets.multisample.copy_dst);
    assert!(r.targets.resolve.render_attachment && r.targets.resolve.copy_src);
    assert!(r.targets.resolve.storage_binding);
    assert!(r.targets.storage_binding_set.is_some());
    let plain = FrameResources::new(false, 64, 64);
    assert!(!plain.targets.resolve.storage_binding);
    assert!(plain.targets.storage_binding_set.is_none());
}

#[test]
fn resize_never_reuses_handles() {
    let mut r = FrameResources::new(true, 640, 640);
    let before = set_ids(&r);
    r.configure(640, 640);
    let after = set_ids(&r);
    for a in &after {
        assert!(!before.contains(a));
    }
    for w in after.windows(2) {
        assert_ne!(w[0], w[1]);
    }
    let twice = set_ids(&r);
    r.configure(17, 23);
    let thrice = set_ids(&r);
    for a in &thrice {
        assert!(!twice.contains(a));
        assert!(!before.contains(a));
    }
}

#[test]
fn clock_reports_monotonic_time_and_exact_delta() {
    let mut c = FrameClock::new(100);
    let t0 = c.advance(100);
    assert_eq!((t0.time_nanos, t0.delta_nanos), (0, 0));
    let t1 = c.advance(150);
    assert_eq!((t1.time_nanos, t1.delta_nanos), (50, 50));
    let t2 = c.advance(150);
    assert_eq!((t2.time_nanos, t2.delta_nanos), (50, 0));
    let t3 = c.advance(1000);
    assert_eq!(t3.time_nanos, 900);
    assert_eq!(t3.delta_nanos, t3.time_nanos - t2.time_nanos);
    assert!(t3.time_nanos >= t2.time_nanos);
}

#[test]
fn workgroups_cover_surface_in_8_by_8_tiles() {
    assert_eq!(workgroups_for(1), 1);
    assert_eq!(workgroups_for(8), 1);
    assert_eq!(workgroups_for(9), 2);
    assert_eq!(workgroups_for(640), 80);
    assert_eq!(workgroups_for(641), 81);
    assert_eq!(workgroups_for(1280), 160);
    assert_eq!(workgroups_for(720), 90);
    assert_eq!(workgroups_for(u32::MAX), 536_870_912);
}

#[test]
fn configure_takes_the_largest_size() {
    let mut r = FrameResources::new(true, 640, 640);
    r.configure(u32::MAX, u32::MAX);
    assert_eq!(r.targets.multisample.width, u32::MAX);
    assert_eq!(r.targets.resolve.height, u32::MAX);
}

#[test]
fn redraw_plans_full_dissolve_sequence() {
    let mut fl = FrameLoop::new(true, 640, 640, 0);
    let out = fl.handle_event(LoopEvent::RedrawRequested, 0);
    let plan = match out {
        LoopOutput::Frame { plan } => plan,
        _ => panic!("a redraw from the idle state must plan a frame"),
    };
    assert_eq!(plan.len(), 9);
    match plan[0] {
        RenderStep::WriteUniformBuffer { timing } => {
            assert_eq!((timing.time_nanos, timing.delta_nanos), (0, 0));
        },
        _ => panic!("the frame must start by writing the uniform buffer"),
    }
    assert!(matches!(plan[1], RenderStep::AcquireImage));
    match plan[2] {
        RenderStep::DissolvePass { groups_x, groups_y, storage_binding_set } => {
            assert_eq!((groups_x, groups_y), (80, 80));
            assert_eq!(Some(storage_binding_set), fl.resources.targets.storage_binding_set);
        },
        _ => panic!("the dissolve variant must dispatch the compute pass"),
    }
    match plan[3] {
        RenderStep::CopyResolveToMultisample { src_texture, dst_texture, width, height } => {
            assert_eq!(src_texture, fl.resources.targets.resolve.id);
            assert_eq!(dst_texture, fl.resources.targets.multisample.id);
            assert_eq!((width, height), (640, 640));
        },
        _ => panic!("the compute pass's writes must be copied back before rendering"),
    }
    match plan[4] {
        RenderStep::TrianglePass { target_view, resolve_view, preserve_contents, vertices, instances } => {
            assert_eq!(target_view, fl.resources.targets.multisample_view);
            assert_eq!(resolve_view, fl.resources.targets.resolve_view);
            assert!(preserve_contents);
            assert_eq!((vertices, instances), (3, 1));
        },
        _ => panic!("the render pass must follow the copy"),
    }
    match plan[5] {
        RenderStep::CopyResolveToPresentable { src_texture, width, height } => {
            assert_eq!(src_texture, fl.resources.targets.resolve.id);
            assert_eq!((width, height), (640, 640));
        },
        _ => panic!("the resolved image must be copied to the presentable image"),
    }
    assert!(matches!(plan[6], RenderStep::Submit));
    assert!(matches!(plan[7], RenderStep::Present));
    assert!(matches!(plan[8], RenderStep::RequestRedraw));
}

#[test]
fn plain_variant_skips_dissolve_steps() {
    let mut fl = FrameLoop::new(false, 320, 200, 0);
    let out = fl.handle_event(LoopEvent::RedrawRequested, 7);
    let plan = match out {
        LoopOutput::Frame { plan } => plan,
        _ => panic!("a redraw from the idle state must plan a frame"),
    };
    assert_eq!(plan.len(), 7);
    for step in &plan {
        assert!(!matches!(step, RenderStep::DissolvePass { .. }));
        assert!(!matches!(step, RenderStep::CopyResolveToMultisample { .. }));
    }
    assert!(matches!(plan[2], RenderStep::TrianglePass { .. }));
}

#[test]
fn one_closing_transition_and_no_frame_after_it() {
    let mut fl = FrameLoop::new(true, 640, 640, 0);
    let out = fl.handle_event(LoopEvent::CloseRequested, 0);
    assert!(matches!(out, LoopOutput::Exit));
    assert!(matches!(fl.state, LoopState::Closing));
    let again = fl.handle_event(LoopEvent::CloseRequested, 1);
    assert!(matches!(again, LoopOutput::Ignored));
    let redraw = fl.handle_event(LoopEvent::RedrawRequested, 2);
    assert!(matches!(redraw, LoopOutput::Ignored));
    let resize = fl.handle_event(LoopEvent::Resized { width: 10, height: 10 }, 3);
    assert!(matches!(resize, LoopOutput::Ignored));
    assert!(matches!(fl.state, LoopState::Closing));
}

#[test]
fn other_events_are_ignored() {
    let mut fl = FrameLoop::new(true, 640, 640, 0);
    let out = fl.handle_event(LoopEvent::Other, 0);
    assert!(matches!(out, LoopOutput::Ignored));
    assert!(matches!(fl.state, LoopState::Idle));
    assert_eq!(fl.config.width, 640);
}

#[test]
fn resize_before_first_redraw_takes_effect() {
    let mut fl = FrameLoop::new(true, 640, 640, 0);
    let out = fl.handle_event(LoopEvent::Resized { width: 1280, height: 720 }, 0);
    match out {
        LoopOutput::Reconfigure { width, height } => {
            assert_eq!((width, height), (1280, 720));
        },
        _ => panic!("a resize must reconfigure the surface"),
    }
    assert_eq!((fl.config.width, fl.config.height), (1280, 720));
    let out = fl.handle_event(LoopEvent::RedrawRequested, 5);
    let plan = match out {
        LoopOutput::Frame { plan } => plan,
        _ => panic!("a redraw from the idle state must plan a frame"),
    };
    match plan[3] {
        RenderStep::CopyResolveToMultisample { width, height, .. } => {
            assert_eq!((width, height), (1280, 720));
        },
        _ => panic!("the copy must use the resized extent"),
    }
    match plan[2] {
        RenderStep::DissolvePass { groups_x, groups_y, .. } => {
            assert_eq!((groups_x, groups_y), (160, 90));
        },
        _ => panic!("the dissolve pass must cover the resized extent"),
    }
}

#[test]
fn resize_to_zero_clamps_and_still_builds_resources() {
    let mut fl = FrameLoop::new(true, 640, 640, 0);
    let before = set_ids(&fl.resources);
    let out = fl.handle_event(LoopEvent::Resized { width: 0, height: 0 }, 0);
    match out {
        LoopOutput::Reconfigure { width, height } => {
            assert_eq!((width, height), (1, 1));
        },
        _ => panic!("a resize must reconfigure the surface"),
    }
    assert_eq!((fl.config.width, fl.config.height), (1, 1));
    assert_eq!(fl.resources.targets.multisample.width, 1);
    assert_eq!(fl.resources.targets.resolve.height, 1);
    let after = set_ids(&fl.resources);
    for a in &after {
        assert!(!before.contains(a));
    }
}

#[test]
fn first_frame_reports_zero_time_and_delta() {
    let mut fl = FrameLoop::new(true, 640, 640, 42);
    let out = fl.handle_event(LoopEvent::RedrawRequested, 42);
    match out {
        LoopOutput::Frame { plan } => match plan[0] {
            RenderStep::WriteUniformBuffer { timing } => {
                assert_eq!((timing.time_nanos, timing.delta_nanos), (0, 0));
            },
            _ => panic!("the frame must start by writing the uniform buffer"),
        },
        _ => panic!("a redraw from the idle state must plan a frame"),
    }
}
