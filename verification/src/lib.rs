//! Scene buffers for a compute ray tracer.
//!
//! A scene is a list of objects, each a sphere or a triangle mesh with a
//! transform and a material. The ray tracer reads flat arrays instead:
//! vertices, triangle corner indices, mesh and sphere descriptors and
//! materials, each encoded into bytes under a host-shareable memory layout.
//!
//! - [`layout`] and [`encode`] define that layout: alignment and padding,
//!   the encodable types, and how an aggregate is composed of its members.
//! - [`records`] holds the records that are encoded, [`storage`] the two
//!   kinds of buffers: uniform blocks and storage arrays.
//! - [`builder`] flattens the objects of a [`scene`] into the five arrays,
//!   and [`guarantees`] states what holds of every flattened scene.
//! - [`state`] assembles the record of globals and keeps it from frame to
//!   frame.
//! - [`quad`], [`loader`], [`gui`], [`cli`] and [`text`] hold what the
//!   program around the library shares with it.
//!
//! Real numbers are carried as IEEE-754 bit patterns ([`math::F32`]): the
//! library moves and encodes them and never computes with them. What takes
//! arithmetic on real numbers is computed by the caller and handed in.

pub mod builder;
pub mod cli;
pub mod encode;
pub mod guarantees;
pub mod gui;
pub mod layout;
pub mod loader;
pub mod math;
pub mod quad;
pub mod records;
pub mod scene;
pub mod state;
pub mod storage;
pub mod text;
