//! The panels that are drawn over the picture.

use vstd::prelude::*;

verus! {

/// The panel that shows the frame rate and the frame count.
#[derive(Clone, Copy, Debug, PartialEq, Eq, Structural)]
pub struct InfoPane;

/// The panel that moves the camera.
#[derive(Clone, Copy, Debug, PartialEq, Eq, Structural)]
pub struct CameraPane;

/// The panel that sets the lighting.
#[derive(Clone, Copy, Debug, PartialEq, Eq, Structural)]
pub struct EnvironmentPane;

/// The three panels.
#[derive(Clone, Copy, Debug, PartialEq, Eq, Structural)]
pub struct Window {
    pub info: InfoPane,
    pub camera: CameraPane,
    pub environment: EnvironmentPane,
}

impl Window {
    pub fn new() -> (window: Self)
        ensures
            window == (Window { info: InfoPane, camera: CameraPane, environment: EnvironmentPane }),
    {
        Self { info: InfoPane, camera: CameraPane, environment: EnvironmentPane }
    }
}

} // verus!
