//! Orchestration tests: the pass plan, the surface policy, resize
//! behavior, the binding and vertex layouts, and the input snapshot.

use render_core::input::{
    process_post_frame_inputs, process_pre_frame_inputs, window_center, EngineInput, MouseButton,
    KEY_CONTROL_LEFT, KEY_ESCAPE, KEY_W,
};
use render_core::layouts::{
    basic_vertex_layout, color_correction_bind_layout, cube_texture_bind_layout,
    extended_vertex_layout, format_size, generic_texture_bind_layout, instance_vertex_layout,
    models_bind_0_layout, models_bind_1_layout, number_bindings, shadow_caster_bind_layout,
    skybox_bind_layout, BindingKind, StageSet, VertexFormat, VertexStep,
};
use render_core::passes::{
    aspect_ratio_fx, build_frame_plan, frame_buffer_updates, handle_surface_acquire,
    select_srgb_format_index, BufferKind, ColorTarget, DepthTarget, LoadPolicy, PassKind,
    SurfaceAction, SurfaceEvent, SurfaceState,
};

#[test]
fn zero_area_surface_renders_nothing() {
    assert!(build_frame_plan(0, 720).is_empty());
    assert!(build_frame_plan(1280, 0).is_empty());
    assert!(build_frame_plan(0, 0).is_empty());
}

#[test]
fn frame_plan_orders_the_four_passes() {
    let plan = build_frame_plan(1280, 720);
    assert_eq!(plan.len(), 4);
    assert_eq!(plan[0].kind, PassKind::ShadowDepth);
    assert_eq!(plan[1].kind, PassKind::Geometry);
    assert_eq!(plan[2].kind, PassKind::Sky);
    assert_eq!(plan[3].kind, PassKind::ColorCorrection);
    // The shadow pass writes no color and clears its own depth texture.
    assert!(plan[0].color.is_none());
    assert_eq!(plan[0].depth, Some((DepthTarget::ShadowMap, LoadPolicy::Clear)));
    assert_eq!(plan[0].depth_bias, 2);
    assert!(!plan[0].draws_culled_subset);
    // Geometry clears both targets and draws the culled subset.
    assert_eq!(plan[1].color, Some((ColorTarget::MainTexture, LoadPolicy::Clear)));
    assert_eq!(plan[1].depth, Some((DepthTarget::MainDepth, LoadPolicy::Clear)));
    assert!(plan[1].draws_culled_subset);
    // Sky keeps both targets and draws with the reversed winding.
    assert_eq!(plan[2].color, Some((ColorTarget::MainTexture, LoadPolicy::Keep)));
    assert_eq!(plan[2].depth, Some((DepthTarget::MainDepth, LoadPolicy::Keep)));
    // Color correction has no depth and writes the surface.
    assert_eq!(plan[3].color, Some((ColorTarget::SurfaceOutput, LoadPolicy::Keep)));
    assert!(plan[3].depth.is_none());
}

#[test]
fn buffer_updates_precede_in_order() {
    let updates = frame_buffer_updates();
    assert_eq!(
        updates,
        vec![
            BufferKind::CulledInstances,
            BufferKind::CameraUniform,
            BufferKind::ShadowCasterUniform,
        ]
    );
}

#[test]
fn surface_policy_retries_once() {
    assert_eq!(handle_surface_acquire(SurfaceEvent::Acquired, false), SurfaceAction::Render);
    assert_eq!(
        handle_surface_acquire(SurfaceEvent::Lost, false),
        SurfaceAction::ReconfigureAndRetry
    );
    assert_eq!(
        handle_surface_acquire(SurfaceEvent::Outdated, false),
        SurfaceAction::ReconfigureAndRetry
    );
    assert_eq!(handle_surface_acquire(SurfaceEvent::Lost, true), SurfaceAction::Abort);
    assert_eq!(handle_surface_acquire(SurfaceEvent::OutOfMemory, false), SurfaceAction::Exit);
    assert_eq!(handle_surface_acquire(SurfaceEvent::OtherError, false), SurfaceAction::Abort);
}

#[test]
fn resize_tracks_dimensions() {
    let mut surface = SurfaceState { width: 1280, height: 720 };
    assert!(surface.should_render());
    assert!(!surface.apply_resize(0, 720));
    assert!(!surface.should_render());
    assert_eq!((surface.width, surface.height), (0, 720));
    assert!(surface.apply_resize(800, 600));
    assert!(surface.should_render());
}

#[test]
fn aspect_ratio_on_the_fixed_point_grid() {
    assert_eq!(aspect_ratio_fx(1280, 720), 1280 * 65536 / 720);
    assert_eq!(aspect_ratio_fx(1, 1), 65536);
    assert_eq!(aspect_ratio_fx(0, 720), 0);
}

#[test]
fn srgb_format_selection() {
    assert_eq!(select_srgb_format_index(&vec![false, true, true]), 1);
    assert_eq!(select_srgb_format_index(&vec![true, false]), 0);
    assert_eq!(select_srgb_format_index(&vec![false, false]), 0);
}

#[test]
fn binding_layouts_have_the_declared_shapes() {
    let shadow = shadow_caster_bind_layout();
    assert_eq!(shadow.len(), 1);
    assert_eq!(shadow[0].kind, BindingKind::UniformBuffer);
    assert!(shadow[0].stages.vertex && shadow[0].stages.fragment);

    let models0 = models_bind_0_layout();
    assert_eq!(models0.len(), 5);
    let kinds: Vec<BindingKind> = models0.iter().map(|s| s.kind).collect();
    assert_eq!(
        kinds,
        vec![
            BindingKind::UniformBuffer,
            BindingKind::UniformBuffer,
            BindingKind::FilteringSampler,
            BindingKind::DepthTexture,
            BindingKind::ComparisonSampler,
        ]
    );
    assert!(models0[0].stages.vertex && !models0[0].stages.fragment);
    for (i, slot) in models0.iter().enumerate() {
        assert_eq!(slot.binding, i as u32);
    }

    let models1 = models_bind_1_layout();
    assert_eq!(models1.len(), 1);
    assert_eq!(models1[0].kind, BindingKind::Texture2d);

    let sky = skybox_bind_layout();
    assert_eq!(sky.len(), 3);
    assert_eq!(sky[1].kind, BindingKind::TextureCube);

    let cc = color_correction_bind_layout();
    assert_eq!(cc.len(), 3);
    assert_eq!(cc[0].kind, BindingKind::Texture2d);
    assert_eq!(cc[2].kind, BindingKind::UniformBuffer);

    let generic = generic_texture_bind_layout();
    assert_eq!(generic.len(), 2);
    assert_eq!(generic[0].kind, BindingKind::Texture2d);
    assert_eq!(generic[1].kind, BindingKind::FilteringSampler);

    let cube = cube_texture_bind_layout();
    assert_eq!(cube.len(), 2);
    assert_eq!(cube[0].kind, BindingKind::TextureCube);
}

#[test]
fn bindings_are_numbered_in_order() {
    let numbered = number_bindings(vec![
        (StageSet { vertex: true, fragment: false }, BindingKind::UniformBuffer),
        (StageSet { vertex: false, fragment: true }, BindingKind::Texture2d),
        (StageSet { vertex: false, fragment: true }, BindingKind::FilteringSampler),
    ]);
    assert_eq!(numbered.len(), 3);
    for (i, slot) in numbered.iter().enumerate() {
        assert_eq!(slot.binding, i as u32);
    }
    assert_eq!(numbered[1].kind, BindingKind::Texture2d);
}

#[test]
fn vertex_layouts_are_packed() {
    let basic = basic_vertex_layout();
    assert_eq!(basic.stride, 12);
    assert_eq!(basic.step, VertexStep::PerVertex);
    assert_eq!(basic.attributes.len(), 1);
    assert_eq!(basic.attributes[0].location, 0);

    let extended = extended_vertex_layout();
    assert_eq!(extended.stride, 20);
    assert_eq!(extended.attributes[1].offset, 8);
    assert_eq!(extended.attributes[1].format, VertexFormat::F32x3);

    let inst = instance_vertex_layout();
    assert_eq!(inst.stride, 64);
    assert_eq!(inst.step, VertexStep::PerInstance);
    let offsets: Vec<u32> = inst.attributes.iter().map(|a| a.offset).collect();
    assert_eq!(offsets, vec![0, 16, 32, 48]);
    let locations: Vec<u32> = inst.attributes.iter().map(|a| a.location).collect();
    assert_eq!(locations, vec![3, 4, 5, 6]);

    assert_eq!(format_size(VertexFormat::F32x2), 8);
    assert_eq!(format_size(VertexFormat::F32x3), 12);
    assert_eq!(format_size(VertexFormat::F32x4), 16);
}

#[test]
fn key_tracking_answers_edge_queries() {
    let mut input = EngineInput::new();
    input.apply_key_event(KEY_W, true);
    assert!(input.key_is_down(KEY_W));
    assert!(input.key_just_pressed(KEY_W));
    assert!(!input.key_is_down(KEY_ESCAPE));
    input.apply_key_event(KEY_W, false);
    assert!(!input.key_is_down(KEY_W));
}

#[test]
fn mouse_buttons_track_including_extra_buttons() {
    let mut input = EngineInput::new();
    input.apply_mouse_button_event(MouseButton::Left, true);
    assert!(input.button_just_pressed(MouseButton::Left));
    assert!(!input.button_just_pressed(MouseButton::Right));
    input.apply_mouse_button_event(MouseButton::Other(7), true);
    assert!(input.button_just_pressed(MouseButton::Other(7)));
    assert!(!input.button_just_pressed(MouseButton::Other(8)));
    input.apply_mouse_button_event(MouseButton::Other(7), false);
    assert!(!input.button_just_pressed(MouseButton::Other(7)));
}

#[test]
fn control_w_exits_and_escape_releases() {
    let mut input = EngineInput::new();
    input.apply_key_event(KEY_CONTROL_LEFT, true);
    input.apply_key_event(KEY_W, true);
    let decision = process_pre_frame_inputs(&input);
    assert!(decision.should_exit);
    assert!(!decision.release_cursor);

    let mut input2 = EngineInput::new();
    input2.apply_key_event(KEY_ESCAPE, true);
    let decision2 = process_pre_frame_inputs(&input2);
    assert!(!decision2.should_exit);
    assert!(decision2.release_cursor);

    let input3 = EngineInput::new();
    let decision3 = process_pre_frame_inputs(&input3);
    assert!(!decision3.should_exit);
    assert!(!decision3.release_cursor);
}

#[test]
fn left_click_grabs_the_cursor() {
    let mut input = EngineInput::new();
    assert!(!process_post_frame_inputs(&input));
    input.apply_mouse_button_event(MouseButton::Left, true);
    assert!(process_post_frame_inputs(&input));
    assert_eq!(window_center(1280, 720), (640, 360));
}

#[test]
fn mouse_velocity_is_the_frame_delta() {
    let mut input = EngineInput::new();
    input.apply_mouse_move(100, 250);
    let (vx, vy) = input.mouse_velocity();
    assert_eq!((vx, vy), (100, 250));
}
