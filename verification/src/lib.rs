//! Core logic of a per-frame 3D rendering engine: frustum culling, shadow
//! projection, material deduplication, render-pass orchestration, frame
//! pacing, input bookkeeping and configuration defaulting.
//!
//! All geometry is carried in signed fixed-point coordinates (see [`fixed`]),
//! so every decision the renderer makes per frame is ordinary integer
//! arithmetic with a proved contract. Trigonometry, GPU resource handling and
//! file decoding live outside this crate and communicate with it through
//! plain integer values.

pub mod camera;
pub mod config;
pub mod fixed;
pub mod frustum;
pub mod input;
pub mod instance;
pub mod layouts;
pub mod materials;
pub mod passes;
pub mod shadow;
pub mod timing;
pub mod vec3;
