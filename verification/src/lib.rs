//! A software 3D rendering pipeline: meshes of triangles are transformed
//! through model/view/projection/viewport matrices, rasterized into a
//! color+depth buffer, and shaded per pixel by swappable shader stages.
//!
//! All coordinates and colors are fixed-point numbers (see [`fx`]) so that
//! every stage of the pipeline carries an exact arithmetic contract.

pub mod fragment;
pub mod framebuffer;
pub mod fx;
pub mod light;
pub mod matrix;
pub mod render;
pub mod shaders;
pub mod triangle;
pub mod trig;
pub mod uniforms;
pub mod vectors;
pub mod vertex;
