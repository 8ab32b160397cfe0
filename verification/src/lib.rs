//! A renderer core for a procedurally generated unit sphere.
//!
//! The crate holds everything about the renderer that is a matter of discrete
//! logic: the topology of the subdivided icosahedron, the expansion of its
//! faces into a triangle strip, the byte layout of vertices, the description
//! of every device resource, and the decisions of the frame loop. Floating
//! point geometry and the graphics device itself live with the caller, which
//! hands bit patterns in and carries plans out.

pub mod pod;
pub mod topology;
pub mod subdivision;
pub mod sphere;
pub mod icosphere;
pub mod strip;
pub mod vertex;
pub mod transform;
pub mod error;
pub mod gpu;
pub mod scene;
pub mod surface;
pub mod frame;
