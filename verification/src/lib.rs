//! Software glyph rasterizer: vector outlines flattened to line segments,
//! grouped into winding-tagged closed outlines, and filled scanline by
//! scanline into an in-memory 2D pixel buffer.

pub mod vector2;
pub mod vector3;
pub mod vector4;
pub mod rect;
pub mod buffer2d;
pub mod line;
pub mod rasterizate;
pub mod glyph_render;
pub mod matrix3x3;
pub mod matrix4x4;
pub mod curve;
pub mod idvector;
pub mod mesh;
pub mod font;
pub mod window;
