//! A renderer for `iced_native` on top of `quicksilver`, with a vector
//! canvas whose bookkeeping is verified.
//!
//! The heart of the crate is [`Frame`]: a drawing surface that turns path
//! fills and strokes into one triangle mesh, queues text, keeps a stack of
//! transforms and finally becomes a tree of [`Primitive`]s. Around it stand
//! the [`Renderer`], which lists what a tree of primitives paints, the
//! places of the fonts of the text pipeline, and the conversions between
//! the cursors and buttons of the two libraries.
//!
//! Verified code never computes with single-precision numbers. A number
//! that the crate only carries is held as its IEEE-754 bit pattern in a
//! `u32`; a number that the geometry kernel has to compute with stays
//! inside the kernel's own types (`lyon::math::Transform`,
//! `iced_native::Point` and the like), which are opaque here. What the
//! kernel can make of them is a relation in [`native`], and the contracts
//! say in which of these relations a frame stands to what it was.

pub mod algorithm;
pub mod canvas;
pub mod conversion;
pub mod native;
pub mod primitive;
pub mod renderer;
pub mod text;
pub mod triangle;

pub use algorithm::Status;
pub use canvas::Frame;
pub use primitive::Primitive;
pub use renderer::Renderer;
pub use triangle::{Mesh2D, Vertex2D};
