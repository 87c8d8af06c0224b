//! Core of a live-reloadable 2D sprite runtime: input edge detection, texture
//! atlas tiling, shader variant bookkeeping and the reload hand-shake, stated
//! over plain values and proved against their contracts.

pub mod assets;
pub mod controls;
pub mod entity;
pub mod frames;
pub mod game;
pub mod glsl;
pub mod gpu;
pub mod host;
pub mod image;
pub mod platform;
pub mod program;
pub mod render;
pub mod shader;
pub mod sprite;
pub mod texture;
pub mod vecmath;
