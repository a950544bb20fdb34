//! A small 2D drawing abstraction: a client queues drawing commands and
//! replays them, one frame at a time, onto a rendering surface.

pub mod color;
pub mod command;
pub mod context;
pub mod error;
pub mod marshal;
pub mod surface;

pub use color::{argb, color_to_argb, color_to_rgb, Color};
pub use command::{AlignMode, Command, CommandView, LayoutMode};
pub use context::{Acure, AcureBuilder, AcureView, Operation};
pub use error::{AcureError, AeResult, Backend};
pub use surface::{Surface, SurfaceCall, Traced};
