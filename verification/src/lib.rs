//! A renderer that draws one triangle, written as a state machine over graphics commands.
//!
//! The library decides which commands go to the graphics driver and in what order, and
//! what follows from each answer. It performs none of them: the program around it hands
//! every command to the driver and brings the driver's reply back.

pub mod backend;
pub mod command;
pub mod event;
pub mod lifecycle;
pub mod renderer;
pub mod shader;

pub use backend::Backend;
pub use command::{Command, Reply};
pub use event::Event;
pub use lifecycle::{Phase, SetupError};
pub use renderer::OpenGLRenderer;
pub use shader::{shader_source, ShaderStage};
