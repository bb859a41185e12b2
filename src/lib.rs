pub mod api;
pub mod error;
pub mod frame;
pub mod input;
pub mod laws;
pub mod path;
pub mod session;

pub use api::{ActionInputTrait, HapticTrait, Instance, InstanceTrait};
pub use error::XrError;
pub use frame::{FrameCycle, FrameState};
pub use input::{Action, ActionKind, Binding, InputSession};
pub use path::{Path, PathRegistry};
pub use session::{FrameData, PixelFormat, RenderSession, Resolution, SessionCreateInfo};
