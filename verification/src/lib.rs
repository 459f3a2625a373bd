//! Render-state core of a small 2D pixel renderer.
//!
//! The crate tracks the state a GPU-backed renderer caches on the host side:
//! which shader program is active, which uniform values are synchronized with
//! the GPU, which framebuffer is bound and what is attached to it.  Every
//! operation updates that state and appends the GPU calls it decided on to a
//! queue of [`command::Command`] values; a thin unverified shell executes the
//! queue against the real graphics API.

pub mod accept;
pub mod color;
pub mod command;
pub mod debug;
pub mod draw;
pub mod font;
pub mod font_render;
pub mod framebuffers;
pub mod glyphs;
pub mod laws;
pub mod pages;
pub mod pos;
pub mod position;
pub mod rect;
pub mod render;
pub mod renderbuffer;
pub mod shader_data;
pub mod shaders;
pub mod size;
pub mod texture;
pub mod ui;
pub mod uniform;
pub mod vec2d;
pub mod viewport;

pub use color::Color;
pub use pos::Pos;
pub use position::Position;
pub use rect::Rect;
pub use size::Size;
pub use vec2d::Vec2D;
