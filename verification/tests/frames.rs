use surface_renderer::frame::{
    plan_frame, ClearColor, FrameStep, LoadOp, RenderPass, StoreOp, FULL_INTENSITY,
};

fn clear_pass() -> RenderPass {
    RenderPass {
        load: LoadOp::Clear(ClearColor { red: 9, green: 2, blue: 3, alpha: 10 }),
        store: StoreOp::Store,
        depth_stencil: false,
        occlusion_queries: false,
        timestamp_writes: false,
    }
}

#[test]
fn frame_is_view_pass_submit_present() {
    assert_eq!(
        plan_frame(),
        vec![
            FrameStep::CreateView,
            FrameStep::Encode(clear_pass()),
            FrameStep::Submit,
            FrameStep::Present,
        ]
    );
}

#[test]
fn frame_submits_once_and_presents_once() {
    let steps = plan_frame();
    assert_eq!(steps.iter().filter(|step| **step == FrameStep::Submit).count(), 1);
    assert_eq!(steps.iter().filter(|step| **step == FrameStep::Present).count(), 1);
    assert_eq!(steps.iter().filter(|step| matches!(step, FrameStep::Encode(_))).count(), 1);
    let submit = steps.iter().position(|step| *step == FrameStep::Submit).unwrap();
    let present = steps.iter().position(|step| *step == FrameStep::Present).unwrap();
    let encode = steps.iter().position(|step| matches!(step, FrameStep::Encode(_))).unwrap();
    let view = steps.iter().position(|step| *step == FrameStep::CreateView).unwrap();
    assert!(view < encode && encode < submit && submit < present);
}

#[test]
fn frame_clears_to_the_fixed_colour() {
    let steps = plan_frame();
    let pass = match steps[1] {
        FrameStep::Encode(pass) => pass,
        _ => panic!("the second step records the pass"),
    };
    let color = match pass.load {
        LoadOp::Clear(color) => color,
        LoadOp::Load => panic!("the pass clears its attachment"),
    };
    let full = f64::from(FULL_INTENSITY);
    assert_eq!(f64::from(color.red) / full, 0.9);
    assert_eq!(f64::from(color.green) / full, 0.2);
    assert_eq!(f64::from(color.blue) / full, 0.3);
    assert_eq!(f64::from(color.alpha) / full, 1.0);
}

#[test]
fn frame_pass_stores_and_has_no_extras() {
    let pass = clear_pass();
    assert_eq!(plan_frame()[1], FrameStep::Encode(pass));
    assert_eq!(pass.store, StoreOp::Store);
    assert!(!pass.depth_stencil);
    assert!(!pass.occlusion_queries);
    assert!(!pass.timestamp_writes);
}
