//! A verified interactive 3D scene: procedural terrain under a sky with an
//! orbiting sun, a spinning triangle and imported teapots, driven by a fly
//! camera.
//!
//! The library holds everything the scene decides: the terrain height
//! formula, the camera's movement and look state machine, the transform
//! bundle and uniform plumbing, the render-pass protocol every entity
//! follows, and the per-frame orchestration. It issues no GPU call and
//! touches no file or float: world-space numbers are fixed-point
//! micro-units, and every GPU call is recorded as a command for the
//! embedding to execute — so the whole of the scene's logic verifies,
//! down to the exact command sequence of a frame.

use vstd::prelude::*;

pub mod camera;
pub mod entities;
pub mod fixed;
pub mod gl;
pub mod helpers;
pub mod hello_triangle;
pub mod mat4;
pub mod renderer;
pub mod scene;
pub mod shader;
pub mod sun;
pub mod terrain_builder;
pub mod tex_cube;
pub mod tex_square;
pub mod trig;
pub mod uniform;
pub mod utah_teapot;

verus! {

} // verus!
