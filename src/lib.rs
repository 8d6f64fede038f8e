//! Scene driving and procedural mesh generation for a fixed-function OpenGL demo.
//!
//! The library holds everything that decides: camera and pause state, the dispatch of
//! window events, and the topology of the procedural meshes (which corners make up each
//! quad or triangle, and at which angle step or wave phase each corner sits). Turning
//! those corners into floating-point positions and issuing the draw calls is left to
//! the caller.
pub mod axis;
pub mod cone;
pub mod demo;
pub mod light;
pub mod material;
pub mod mesh;
pub mod ocean;
pub mod propeller;
pub mod scene;
pub mod ship;
pub mod torus;

pub use light::id_to_enum;
pub use axis::Axis;
pub use cone::Cone;
pub use demo::{Demo, SceneItem};
pub use material::ActiveFace;
pub use ocean::Ocean;
pub use propeller::Propeller;
pub use scene::SceneObject;
pub use ship::Ship;
pub use torus::Torus;
