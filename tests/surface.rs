use voxel_scene::{
    compute_bindings, recovery_for, render_bindings, BindingKind, FrameRecovery, SceneResource,
    SurfaceFault, Viewport, FULL_SCREEN_VERTICES, WORKGROUP_SIZE,
};

#[test]
fn viewport_needs_positive_sides() {
    assert_eq!(Viewport::new(0, 600), None);
    assert_eq!(Viewport::new(800, 0), None);
    assert_eq!(Viewport::new(800, 600), Some(Viewport { width: 800, height: 600 }));
}

#[test]
fn resize_to_zero_does_not_reconfigure() {
    let mut v = Viewport::new(800, 600).unwrap();
    assert!(!v.resize(0, 600));
    assert!(!v.resize(1024, 0));
    assert!(!v.resize(0, 0));
    assert_eq!(v, Viewport { width: 800, height: 600 });
    assert!(v.resize(1024, 768));
    assert_eq!(v, Viewport { width: 1024, height: 768 });
}

#[test]
fn workgroups_cover_every_pixel() {
    assert_eq!(WORKGROUP_SIZE, 64);
    assert_eq!(Viewport::new(800, 600).unwrap().workgroup_count(), 7500);
    assert_eq!(Viewport::new(1, 1).unwrap().workgroup_count(), 1);
    assert_eq!(Viewport::new(64, 1).unwrap().workgroup_count(), 1);
    assert_eq!(Viewport::new(65, 1).unwrap().workgroup_count(), 2);
    assert_eq!(Viewport::new(1920, 1080).unwrap().workgroup_count(), 32400);
    assert_eq!(Viewport::new(u32::MAX, 64).unwrap().workgroup_count(), u32::MAX);
}

#[test]
fn surface_faults_map_to_recoveries() {
    assert_eq!(recovery_for(SurfaceFault::Lost), FrameRecovery::Reconfigure);
    assert_eq!(recovery_for(SurfaceFault::Outdated), FrameRecovery::Reconfigure);
    assert_eq!(recovery_for(SurfaceFault::OutOfMemory), FrameRecovery::Stop);
    assert_eq!(recovery_for(SurfaceFault::Timeout), FrameRecovery::Skip);
}

#[test]
fn compute_layout_matches_shader_order() {
    let slots = compute_bindings();
    let resources: Vec<SceneResource> = slots.iter().map(|s| s.resource).collect();
    assert_eq!(
        resources,
        vec![
            SceneResource::OutputImage,
            SceneResource::Resolution,
            SceneResource::RayOrigin,
            SceneResource::Camera,
            SceneResource::SceneProperties,
            SceneResource::RandomSeed,
            SceneResource::Voxels,
        ]
    );
    for (i, s) in slots.iter().enumerate() {
        assert_eq!(s.binding as usize, i);
        assert!(s.stages.compute && !s.stages.vertex && !s.stages.fragment);
    }
    assert_eq!(slots[0].kind, BindingKind::WriteOnlyImage);
    assert!(slots[1..6].iter().all(|s| s.kind == BindingKind::Uniform));
    assert_eq!(slots[6].kind, BindingKind::ReadOnlyStorage);
}

#[test]
fn render_layout_matches_shader_order() {
    let slots = render_bindings();
    assert_eq!(slots.len(), 2);
    assert_eq!(slots[0].binding, 0);
    assert_eq!(slots[0].kind, BindingKind::SampledImage);
    assert_eq!(slots[0].resource, SceneResource::OutputImage);
    assert!(slots[0].stages.fragment && !slots[0].stages.vertex);
    assert_eq!(slots[1].binding, 1);
    assert_eq!(slots[1].kind, BindingKind::Uniform);
    assert_eq!(slots[1].resource, SceneResource::Resolution);
    assert!(slots[1].stages.fragment && slots[1].stages.vertex);
    assert_eq!(FULL_SCREEN_VERTICES, 6);
}
