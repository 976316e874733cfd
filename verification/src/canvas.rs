//! Draw 2D graphics on a frame.
//!
//! A [`Frame`] takes paths to fill and to stroke, text to lay over them and
//! changes of its coordinate system, and becomes a [`Primitive`] at the end.
//!
//! [`Primitive`]: crate::Primitive

pub mod frame;
pub mod style;
pub mod text;
pub mod transform;

pub use frame::{Frame, FrameView, Size};
pub use style::{CapStyle, Fill, JoinStyle, Stroke, TessellationFailure};
pub use text::Text;
pub use transform::{Transform, Transforms, TransformsView};
