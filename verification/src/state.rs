//! What the frame loop keeps between frames, and the rules by which it
//! changes: the record of globals with its frame counter, the size of the
//! picture and whether the panels are shown.

use vstd::prelude::*;
use crate::math::{F32, Mat4, Vec3};
use crate::records::{Camera, Globals};

verus! {

/// What the caller chooses for a rendering.
#[derive(Clone, Copy, Debug, PartialEq, Eq, Structural)]
pub struct Parameters {
    pub frame: u32,
    pub random_seed: u32,
    pub max_ray_bounces: u32,
    pub max_samples_per_pixel: u32,
    pub skybox_color: Vec3,
    pub ambient_lighting_color: Vec3,
    pub ambient_lighting_strength: F32,
    pub focal_blur_strength: F32,
}

/// The colours and strengths of a rendering's light.
#[derive(Clone, Copy, Debug, PartialEq, Eq, Structural)]
pub struct Lighting {
    pub skybox_color: Vec3,
    pub ambient_lighting_color: Vec3,
    pub ambient_lighting_strength: F32,
    pub focal_blur_strength: F32,
}

/// What the lens of a camera comes to for a picture of some shape: the
/// extent of the focal plane and the rotation of the camera as a matrix.
/// It takes trigonometry to compute and is handed in.
#[derive(Clone, Copy, Debug, PartialEq, Eq, Structural)]
pub struct CameraBasis {
    pub plane_width: F32,
    pub plane_height: F32,
    pub local_to_world: Mat4,
}

/// The size of the picture, in pixels.
#[derive(Clone, Copy, Debug, PartialEq, Eq, Structural)]
pub struct Size {
    pub width: u32,
    pub height: u32,
}

/// Whether a key went down or up.
#[derive(Clone, Copy, Debug, PartialEq, Eq, Structural)]
pub enum KeyState {
    Pressed,
    Released,
}

/// What the frame loop has to know of a window event.
#[derive(Clone, Copy, Debug, PartialEq, Eq, Structural)]
pub struct InputEvent {
    /// Whether the panels took the event for themselves.
    pub consumed: bool,
    /// What the space bar did, if the event is about it.
    pub space: Option<KeyState>,
}

/// What a window event asks for, besides what [`InputEvent`] says of it.
#[derive(Clone, Copy, Debug, PartialEq, Eq, Structural)]
pub enum WindowSignal {
    /// The window is to be closed.
    CloseRequested,
    /// The escape key went down.
    EscapePressed,
    /// The window has a new size.
    Resized(Size),
    /// Anything else.
    Other,
}

/// What became of drawing a frame.
#[derive(Clone, Copy, Debug, PartialEq, Eq, Structural)]
pub enum RenderOutcome {
    /// The frame is on the screen.
    Presented,
    /// The surface to draw on was lost.
    SurfaceLost,
    /// There is no memory left to draw with.
    OutOfMemory,
    /// The frame was not drawn, and the next one may be.
    Skipped,
}

/// What the frame loop does next.
#[derive(Clone, Copy, Debug, PartialEq, Eq, Structural)]
pub enum Flow {
    /// Go on.
    Continue,
    /// Set the surface up for the size of the picture, then go on.
    Reconfigure,
    /// Stop.
    Exit,
}

/// What the frame loop keeps between frames.
#[derive(Clone, Copy, Debug, PartialEq, Eq, Structural)]
pub struct State {
    pub size: Size,
    pub globals: Globals,
    /// Whether the panels are shown.
    pub gui_enabled: bool,
}

/// A word that nobody can foretell.
///
/// Calls `rand::random`, which draws from the thread's generator and gives
/// up only where the system has no randomness to seed it with. Nothing is
/// claimed of the word.
#[verifier::external_body]
fn random_word() -> (word: u32) {
    rand::random()
}

/// The globals that show `camera` under `parameters`.
pub open spec fn assembled(camera: Camera, parameters: Parameters) -> Globals {
    Globals {
        camera,
        frame: parameters.frame,
        random_seed: parameters.random_seed,
        max_ray_bounces: parameters.max_ray_bounces,
        max_samples_per_pixel: parameters.max_samples_per_pixel,
        skybox_color: parameters.skybox_color,
        ambient_lighting_color: parameters.ambient_lighting_color,
        ambient_lighting_strength: parameters.ambient_lighting_strength,
        focal_blur_strength: parameters.focal_blur_strength,
    }
}

impl Parameters {
    /// The parameters of a rendering that starts at frame 0 with the seed
    /// `random_seed`.
    pub fn with_seed(
        random_seed: u32,
        max_ray_bounces: u32,
        max_samples_per_pixel: u32,
        lighting: Lighting,
    ) -> (parameters: Parameters)
        ensures
            parameters == (Parameters {
                frame: 0,
                random_seed,
                max_ray_bounces,
                max_samples_per_pixel,
                skybox_color: lighting.skybox_color,
                ambient_lighting_color: lighting.ambient_lighting_color,
                ambient_lighting_strength: lighting.ambient_lighting_strength,
                focal_blur_strength: lighting.focal_blur_strength,
            }),
    {
        Parameters {
            frame: 0,
            random_seed,
            max_ray_bounces,
            max_samples_per_pixel,
            skybox_color: lighting.skybox_color,
            ambient_lighting_color: lighting.ambient_lighting_color,
            ambient_lighting_strength: lighting.ambient_lighting_strength,
            focal_blur_strength: lighting.focal_blur_strength,
        }
    }

    /// The parameters of a rendering that starts at frame 0 with a seed
    /// drawn at random.
    pub fn new(max_ray_bounces: u32, max_samples_per_pixel: u32, lighting: Lighting) -> (parameters:
        Parameters)
        ensures
            parameters == (Parameters {
                frame: 0,
                random_seed: parameters.random_seed,
                max_ray_bounces,
                max_samples_per_pixel,
                skybox_color: lighting.skybox_color,
                ambient_lighting_color: lighting.ambient_lighting_color,
                ambient_lighting_strength: lighting.ambient_lighting_strength,
                focal_blur_strength: lighting.focal_blur_strength,
            }),
    {
        Parameters::with_seed(random_word(), max_ray_bounces, max_samples_per_pixel, lighting)
    }
}

impl Camera {
    /// The camera of a scene as the ray tracer sees it.
    ///
    /// The focal plane is as wide and as high as `basis` says and as far
    /// away as the lens says. The position is that of the camera's
    /// transform: it is kept beside the matrix, not folded into it.
    pub fn from_scene(camera: &crate::scene::Camera, basis: &CameraBasis) -> (seen: Camera)
        ensures
            seen == (Camera {
                focal_plane: Vec3 {
                    x: basis.plane_width,
                    y: basis.plane_height,
                    z: camera.lens->focal_distance,
                },
                world_space_position: camera.transform.position,
                local_to_world_matrix: basis.local_to_world,
                near_clip: camera.clipping.near,
                far_clip: camera.clipping.far,
            }),
    {
        match camera.lens {
            crate::scene::Lens::Perspective { fov: _, focal_distance } => Camera {
                focal_plane: Vec3 { x: basis.plane_width, y: basis.plane_height, z: focal_distance },
                world_space_position: camera.transform.position,
                local_to_world_matrix: basis.local_to_world,
                near_clip: camera.clipping.near,
                far_clip: camera.clipping.far,
            },
        }
    }
}

impl Globals {
    /// The globals that show `camera` under `parameters`.
    pub fn new(camera: Camera, parameters: &Parameters) -> (globals: Globals)
        ensures
            globals == assembled(camera, *parameters),
    {
        Globals {
            camera,
            frame: parameters.frame,
            random_seed: parameters.random_seed,
            max_ray_bounces: parameters.max_ray_bounces,
            max_samples_per_pixel: parameters.max_samples_per_pixel,
            skybox_color: parameters.skybox_color,
            ambient_lighting_color: parameters.ambient_lighting_color,
            ambient_lighting_strength: parameters.ambient_lighting_strength,
            focal_blur_strength: parameters.focal_blur_strength,
        }
    }

    /// Puts the camera where the panel says, and starts adding frames up
    /// anew.
    pub fn set_camera(&mut self, world_space_position: Vec3, local_to_world_matrix: Mat4)
        ensures
            *final(self) == (Globals {
                camera: Camera {
                    world_space_position,
                    local_to_world_matrix,
                    ..old(self).camera
                },
                frame: 0,
                ..*old(self)
            }),
    {
        self.camera.world_space_position = world_space_position;
        self.camera.local_to_world_matrix = local_to_world_matrix;
        self.frame = 0;
    }

    /// Lights the scene as the panel says, and starts adding frames up anew.
    pub fn set_lighting(&mut self, lighting: Lighting)
        ensures
            *final(self) == (Globals {
                skybox_color: lighting.skybox_color,
                ambient_lighting_color: lighting.ambient_lighting_color,
                ambient_lighting_strength: lighting.ambient_lighting_strength,
                focal_blur_strength: lighting.focal_blur_strength,
                frame: 0,
                ..*old(self)
            }),
    {
        self.skybox_color = lighting.skybox_color;
        self.ambient_lighting_color = lighting.ambient_lighting_color;
        self.ambient_lighting_strength = lighting.ambient_lighting_strength;
        self.focal_blur_strength = lighting.focal_blur_strength;
        self.frame = 0;
    }
}

impl Size {
    /// Whether a picture can have this size: neither side is zero or the
    /// largest word.
    pub open spec fn usable(self) -> bool {
        0 < self.width < u32::MAX && 0 < self.height < u32::MAX
    }
}

impl State {
    /// The state before the first frame: the panels are shown.
    pub fn new(size: Size, camera: Camera, parameters: &Parameters) -> (state: State)
        ensures
            state == (State {
                size,
                globals: assembled(camera, *parameters),
                gui_enabled: true,
            }),
    {
        State { size, globals: Globals::new(camera, parameters), gui_enabled: true }
    }

    /// The size of the picture.
    pub fn size(&self) -> (size: Size)
        ensures
            size == self.size,
    {
        self.size
    }

    /// Takes a new size for the picture if a picture can have it, and says
    /// whether it did.
    pub fn resize(&mut self, new_size: Size) -> (resized: bool)
        ensures
            resized == new_size.usable(),
            *final(self) == old(self).after_resize(new_size),
    {
        if new_size.width > 0 && new_size.height > 0 && new_size.width < u32::MAX
            && new_size.height < u32::MAX {
            self.size = new_size;
            true
        } else {
            false
        }
    }

    /// Whether `input` deals with the event: the panels took it, or the
    /// space bar went up.
    pub open spec fn deals_with(event: InputEvent) -> bool {
        event.consumed || event.space == Some(KeyState::Released)
    }

    /// The state after `input` has taken the event.
    pub open spec fn after_input(self, event: InputEvent) -> State {
        State {
            globals: Globals {
                frame: if event.consumed {
                    0
                } else {
                    self.globals.frame
                },
                ..self.globals
            },
            gui_enabled: self.gui_enabled != (event.space == Some(KeyState::Released)),
            ..self
        }
    }

    /// The state after `resize` was asked for the size.
    pub open spec fn after_resize(self, new_size: Size) -> State {
        State {
            size: if new_size.usable() {
                new_size
            } else {
                self.size
            },
            ..self
        }
    }

    /// Takes a window event and says whether it was dealt with.
    ///
    /// An event that the panels took for themselves may have changed what
    /// is shown: frames are added up anew. The space bar, when it goes up,
    /// shows or hides the panels.
    pub fn input(&mut self, event: &InputEvent) -> (handled: bool)
        ensures
            handled == Self::deals_with(*event),
            *final(self) == old(self).after_input(*event),
    {
        let mut handled = event.consumed;
        if handled {
            self.globals.frame = 0;
        }
        match event.space {
            Some(KeyState::Released) => {
                self.gui_enabled = !self.gui_enabled;
                handled = true;
            },
            _ => {},
        }
        handled
    }

    /// Takes a window event as a whole and says what the frame loop does
    /// next.
    ///
    /// The event goes to `input` first. If `input` does not deal with it,
    /// the loop stops when the window is to be closed or the escape key
    /// went down, and a new size is taken as `resize` takes it.
    pub fn window_event(&mut self, event: &InputEvent, signal: WindowSignal) -> (flow: Flow)
        ensures
            *final(self) == if Self::deals_with(*event) {
                old(self).after_input(*event)
            } else {
                match signal {
                    WindowSignal::Resized(new_size) => old(self).after_input(*event).after_resize(
                        new_size,
                    ),
                    _ => old(self).after_input(*event),
                }
            },
            flow == if Self::deals_with(*event) {
                Flow::Continue
            } else {
                match signal {
                    WindowSignal::CloseRequested => Flow::Exit,
                    WindowSignal::EscapePressed => Flow::Exit,
                    WindowSignal::Resized(new_size) => if new_size.usable() {
                        Flow::Reconfigure
                    } else {
                        Flow::Continue
                    },
                    WindowSignal::Other => Flow::Continue,
                }
            },
    {
        if self.input(event) {
            return Flow::Continue;
        }
        match signal {
            WindowSignal::CloseRequested => Flow::Exit,
            WindowSignal::EscapePressed => Flow::Exit,
            WindowSignal::Resized(new_size) => {
                if self.resize(new_size) {
                    Flow::Reconfigure
                } else {
                    Flow::Continue
                }
            },
            WindowSignal::Other => Flow::Continue,
        }
    }

    /// Says what the frame loop does after a frame: it sets a lost surface
    /// up anew if a picture can have the present size, it stops when
    /// memory has run out, and else it goes on.
    pub fn after_render(&self, outcome: RenderOutcome) -> (flow: Flow)
        ensures
            flow == match outcome {
                RenderOutcome::Presented => Flow::Continue,
                RenderOutcome::SurfaceLost => if self.size.usable() {
                    Flow::Reconfigure
                } else {
                    Flow::Continue
                },
                RenderOutcome::OutOfMemory => Flow::Exit,
                RenderOutcome::Skipped => Flow::Continue,
            },
    {
        match outcome {
            RenderOutcome::Presented => Flow::Continue,
            RenderOutcome::SurfaceLost => {
                let size = self.size;
                if size.width > 0 && size.height > 0 && size.width < u32::MAX && size.height
                    < u32::MAX {
                    Flow::Reconfigure
                } else {
                    Flow::Continue
                }
            },
            RenderOutcome::OutOfMemory => Flow::Exit,
            RenderOutcome::Skipped => Flow::Continue,
        }
    }

    /// Counts one more frame.
    pub fn update(&mut self)
        requires
            old(self).globals.frame < u32::MAX,
        ensures
            *final(self) == (State {
                globals: Globals { frame: (old(self).globals.frame + 1) as u32, ..old(self).globals },
                ..*old(self)
            }),
    {
        self.globals.frame += 1;
    }
}

} // verus!
