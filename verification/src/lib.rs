//! A status-line generator: providers are polled once per tick and their
//! blocks are framed as an endless JSON stream for a status-bar host.

pub mod bar;
pub mod error;
pub mod json;
pub mod message;
pub mod module;
pub mod modules;
pub mod text;

pub use bar::Bar;
pub use error::{BarError, ErrorKind};
pub use message::{ModuleOutput, Version};
pub use module::Module;
