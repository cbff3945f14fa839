//! What the command line can ask for.

use vstd::prelude::*;

verus! {

/// The formats in which a scene can be given.
#[derive(Copy, Clone, Debug, PartialEq, Eq, PartialOrd, Ord)]
pub enum SceneFormat {
    Ron,
    Gltf,
}

} // verus!
