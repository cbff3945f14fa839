use raybaby::cli::SceneFormat;
use raybaby::gui::{CameraPane, EnvironmentPane, InfoPane, Window};
use raybaby::loader::group_triangles;
use raybaby::math::{F32, Mat4, UVec3, Vec3, Vec4};
use raybaby::records::{Camera, Globals};
use raybaby::scene;
use raybaby::state::{
    CameraBasis, Flow, InputEvent, KeyState, Lighting, Parameters, RenderOutcome, Size, State,
    WindowSignal,
};

fn f(x: f32) -> F32 {
    F32::from_bits(x.to_bits())
}

fn v(x: f32, y: f32, z: f32) -> Vec3 {
    Vec3::new(f(x), f(y), f(z))
}

fn identity_matrix() -> Mat4 {
    Mat4::from_cols(
        Vec4::new(f(1.0), f(0.0), f(0.0), f(0.0)),
        Vec4::new(f(0.0), f(1.0), f(0.0), f(0.0)),
        Vec4::new(f(0.0), f(0.0), f(1.0), f(0.0)),
        Vec4::new(f(0.0), f(0.0), f(0.0), f(1.0)),
    )
}

fn lighting() -> Lighting {
    Lighting {
        skybox_color: v(0.0, 0.0, 0.0),
        ambient_lighting_color: v(1.0, 1.0, 1.0),
        ambient_lighting_strength: f(0.1),
        focal_blur_strength: f(200.0),
    }
}

fn scene_camera() -> scene::Camera {
    scene::Camera {
        transform: scene::Transform {
            position: v(1.0, 2.0, 3.0),
            rotation: v(0.0, 90.0, 0.0),
            scale: v(1.0, 1.0, 1.0),
        },
        lens: scene::Lens::Perspective { fov: f(90.0), focal_distance: f(10.0) },
        clipping: scene::Clipping { near: f(0.1), far: f(2000.0) },
    }
}

/// The extent of the focal plane, in real arithmetic.
fn basis(camera: &scene::Camera, aspect_ratio: f32) -> CameraBasis {
    let scene::Lens::Perspective { fov, focal_distance } = camera.lens;
    let fov = f32::from_bits(fov.to_bits()).to_radians();
    let focal_distance = f32::from_bits(focal_distance.to_bits());
    let plane_height = 2.0 * (fov / 2.0).tan() * focal_distance;
    let plane_width = plane_height * aspect_ratio;
    CameraBasis {
        plane_width: f(plane_width),
        plane_height: f(plane_height),
        local_to_world: identity_matrix(),
    }
}

fn start() -> State {
    let camera = Camera::from_scene(&scene_camera(), &basis(&scene_camera(), 16.0 / 9.0));
    State::new(
        Size { width: 960, height: 540 },
        camera,
        &Parameters::with_seed(7, 30, 4, lighting()),
    )
}

#[test]
fn bit_patterns_go_in_and_out() {
    assert_eq!(F32::from_bits(0x3f80_0000).to_bits(), 0x3f80_0000);
    assert_eq!(f(1.0).bits, 0x3f80_0000);
    assert_eq!(f32::from_bits(f(-2.5).to_bits()), -2.5);
}

#[test]
fn parameters_start_at_frame_zero() {
    let p = Parameters::with_seed(42, 30, 4, lighting());
    assert_eq!(
        p,
        Parameters {
            frame: 0,
            random_seed: 42,
            max_ray_bounces: 30,
            max_samples_per_pixel: 4,
            skybox_color: v(0.0, 0.0, 0.0),
            ambient_lighting_color: v(1.0, 1.0, 1.0),
            ambient_lighting_strength: f(0.1),
            focal_blur_strength: f(200.0),
        }
    );
    let q = Parameters::new(30, 4, lighting());
    assert_eq!(q, Parameters { random_seed: q.random_seed, ..p });
}

#[test]
fn seeds_are_drawn_anew() {
    let seeds: Vec<u32> = (0..8).map(|_| Parameters::new(1, 1, lighting()).random_seed).collect();
    assert!(seeds.iter().any(|s| *s != seeds[0]));
}

#[test]
fn the_camera_keeps_its_position_beside_the_matrix() {
    let scene_camera = scene_camera();
    let basis = basis(&scene_camera, 16.0 / 9.0);
    let camera = Camera::from_scene(&scene_camera, &basis);
    assert_eq!(
        camera,
        Camera {
            focal_plane: Vec3::new(basis.plane_width, basis.plane_height, f(10.0)),
            world_space_position: v(1.0, 2.0, 3.0),
            local_to_world_matrix: identity_matrix(),
            near_clip: f(0.1),
            far_clip: f(2000.0),
        }
    );
}

#[test]
fn the_focal_plane_of_a_right_angle_lens() {
    let basis = basis(&scene_camera(), 16.0 / 9.0);
    let height = f32::from_bits(basis.plane_height.to_bits());
    let width = f32::from_bits(basis.plane_width.to_bits());
    assert!((height - 20.0).abs() < 1e-4);
    assert!((width - 20.0 * 16.0 / 9.0).abs() < 1e-3);
    assert_eq!(width, height * (16.0 / 9.0));
}

#[test]
fn globals_copy_camera_and_parameters() {
    let camera = Camera::from_scene(&scene_camera(), &basis(&scene_camera(), 1.0));
    let mut parameters = Parameters::with_seed(9, 12, 3, lighting());
    parameters.frame = 5;
    let globals = Globals::new(camera, &parameters);
    assert_eq!(
        globals,
        Globals {
            camera,
            frame: 5,
            random_seed: 9,
            max_ray_bounces: 12,
            max_samples_per_pixel: 3,
            skybox_color: v(0.0, 0.0, 0.0),
            ambient_lighting_color: v(1.0, 1.0, 1.0),
            ambient_lighting_strength: f(0.1),
            focal_blur_strength: f(200.0),
        }
    );
}

#[test]
fn the_state_starts_with_the_panels_shown() {
    let state = start();
    assert!(state.gui_enabled);
    assert_eq!(state.size(), Size { width: 960, height: 540 });
    assert_eq!(state.globals.frame, 0);
    assert_eq!(state.globals.random_seed, 7);
}

#[test]
fn frames_are_counted_one_by_one() {
    let mut state = start();
    let before = state;
    state.update();
    state.update();
    state.update();
    assert_eq!(state.globals.frame, 3);
    assert_eq!(state.globals, Globals { frame: 3, ..before.globals });
    assert_eq!(state.size, before.size);
    assert_eq!(state.gui_enabled, before.gui_enabled);
}

#[test]
fn an_event_that_the_panels_took_restarts_the_count() {
    let mut state = start();
    state.update();
    state.update();
    let before = state;
    assert!(state.input(&InputEvent { consumed: true, space: None }));
    assert_eq!(state.globals, Globals { frame: 0, ..before.globals });
    assert_eq!(state.gui_enabled, before.gui_enabled);
    assert_eq!(state.size, before.size);
}

#[test]
fn an_event_that_nobody_took_changes_nothing() {
    let mut state = start();
    state.update();
    let before = state;
    assert!(!state.input(&InputEvent { consumed: false, space: None }));
    assert_eq!(state, before);
    assert!(!state.input(&InputEvent { consumed: false, space: Some(KeyState::Pressed) }));
    assert_eq!(state, before);
}

#[test]
fn the_space_bar_shows_and_hides_the_panels() {
    let mut state = start();
    state.update();
    assert!(state.input(&InputEvent { consumed: false, space: Some(KeyState::Released) }));
    assert!(!state.gui_enabled);
    assert_eq!(state.globals.frame, 1);
    assert!(state.input(&InputEvent { consumed: false, space: Some(KeyState::Released) }));
    assert!(state.gui_enabled);
    assert!(state.input(&InputEvent { consumed: true, space: Some(KeyState::Released) }));
    assert!(!state.gui_enabled);
    assert_eq!(state.globals.frame, 0);
}

#[test]
fn only_usable_sizes_are_taken() {
    let mut state = start();
    assert!(state.resize(Size { width: 1, height: 1 }));
    assert_eq!(state.size(), Size { width: 1, height: 1 });
    assert!(state.resize(Size { width: u32::MAX - 1, height: 600 }));
    assert_eq!(state.size(), Size { width: u32::MAX - 1, height: 600 });
    for refused in [
        Size { width: 0, height: 600 },
        Size { width: 800, height: 0 },
        Size { width: u32::MAX, height: 600 },
        Size { width: 800, height: u32::MAX },
        Size { width: 0, height: 0 },
    ] {
        let before = state;
        assert!(!state.resize(refused));
        assert_eq!(state, before);
    }
}

#[test]
fn edits_restart_the_count() {
    let mut state = start();
    state.update();
    state.update();
    let before = state.globals;
    state.globals.set_camera(v(9.0, 8.0, 7.0), identity_matrix());
    assert_eq!(
        state.globals,
        Globals {
            camera: Camera {
                world_space_position: v(9.0, 8.0, 7.0),
                local_to_world_matrix: identity_matrix(),
                ..before.camera
            },
            frame: 0,
            ..before
        }
    );
    state.update();
    let before = state.globals;
    let dusk = Lighting {
        skybox_color: v(0.1, 0.1, 0.3),
        ambient_lighting_color: v(1.0, 0.5, 0.5),
        ambient_lighting_strength: f(0.4),
        focal_blur_strength: f(50.0),
    };
    state.globals.set_lighting(dusk);
    assert_eq!(
        state.globals,
        Globals {
            skybox_color: v(0.1, 0.1, 0.3),
            ambient_lighting_color: v(1.0, 0.5, 0.5),
            ambient_lighting_strength: f(0.4),
            focal_blur_strength: f(50.0),
            frame: 0,
            ..before
        }
    );
}

#[test]
fn indices_are_grouped_in_threes() {
    assert_eq!(
        group_triangles(&vec![0, 1, 2, 2, 3, 0]),
        vec![UVec3::new(0, 1, 2), UVec3::new(2, 3, 0)]
    );
    assert_eq!(group_triangles(&vec![5, 6, 7, 8]), vec![UVec3::new(5, 6, 7)]);
    assert_eq!(group_triangles(&vec![5, 6, 7, 8, 9]), vec![UVec3::new(5, 6, 7)]);
    assert_eq!(group_triangles(&vec![1, 2]), Vec::<UVec3>::new());
    assert_eq!(group_triangles(&Vec::new()), Vec::<UVec3>::new());
}

#[test]
fn the_window_has_its_three_panels() {
    assert_eq!(
        Window::new(),
        Window { info: InfoPane, camera: CameraPane, environment: EnvironmentPane }
    );
}

#[test]
fn scene_formats_are_told_apart() {
    assert_ne!(SceneFormat::Ron, SceneFormat::Gltf);
    assert!(SceneFormat::Ron < SceneFormat::Gltf);
}

#[test]
fn a_window_event_that_input_deals_with_goes_no_further() {
    let mut state = start();
    state.update();
    let mut expected = state;
    assert!(expected.input(&InputEvent { consumed: true, space: None }));
    let flow = state.window_event(
        &InputEvent { consumed: true, space: None },
        WindowSignal::CloseRequested,
    );
    assert_eq!(flow, Flow::Continue);
    assert_eq!(state, expected);

    let before = state;
    let flow = state.window_event(
        &InputEvent { consumed: false, space: Some(KeyState::Released) },
        WindowSignal::Resized(Size { width: 10, height: 10 }),
    );
    assert_eq!(flow, Flow::Continue);
    assert_eq!(state.size, before.size);
    assert_eq!(state.gui_enabled, !before.gui_enabled);
}

#[test]
fn closing_and_escape_stop_the_loop() {
    let quiet = InputEvent { consumed: false, space: None };
    let mut state = start();
    let before = state;
    assert_eq!(state.window_event(&quiet, WindowSignal::CloseRequested), Flow::Exit);
    assert_eq!(state.window_event(&quiet, WindowSignal::EscapePressed), Flow::Exit);
    assert_eq!(state.window_event(&quiet, WindowSignal::Other), Flow::Continue);
    assert_eq!(
        state.window_event(
            &InputEvent { consumed: false, space: Some(KeyState::Pressed) },
            WindowSignal::Other
        ),
        Flow::Continue
    );
    assert_eq!(state, before);
}

#[test]
fn a_new_size_sets_the_surface_up_anew() {
    let quiet = InputEvent { consumed: false, space: None };
    let mut state = start();
    let before = state;
    assert_eq!(
        state.window_event(&quiet, WindowSignal::Resized(Size { width: 800, height: 600 })),
        Flow::Reconfigure
    );
    assert_eq!(state, State { size: Size { width: 800, height: 600 }, ..before });
    assert_eq!(
        state.window_event(&quiet, WindowSignal::Resized(Size { width: 0, height: 600 })),
        Flow::Continue
    );
    assert_eq!(state.size(), Size { width: 800, height: 600 });
}

#[test]
fn what_follows_a_frame() {
    let mut state = start();
    assert_eq!(state.after_render(RenderOutcome::Presented), Flow::Continue);
    assert_eq!(state.after_render(RenderOutcome::Skipped), Flow::Continue);
    assert_eq!(state.after_render(RenderOutcome::OutOfMemory), Flow::Exit);
    assert_eq!(state.after_render(RenderOutcome::SurfaceLost), Flow::Reconfigure);
    state.size = Size { width: 0, height: 540 };
    assert_eq!(state.after_render(RenderOutcome::SurfaceLost), Flow::Continue);
    state.size = Size { width: 960, height: u32::MAX };
    assert_eq!(state.after_render(RenderOutcome::SurfaceLost), Flow::Continue);
}
