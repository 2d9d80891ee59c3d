//! Host information detection: probes, their tri-state outcomes, the
//! system-access seam they read through, and the runner that keeps results
//! in request order.

pub mod application;
pub mod config;
pub mod context;
pub mod decimal;
pub mod error;
pub mod laws;
pub mod logo;
pub mod modules;
pub mod output;
pub mod platform;
pub mod text;
pub mod tokens;

pub use application::Application;
pub use config::{Config, ConfigBuilder, LogoConfig};
pub use context::{MockSystemContext, SystemContext};
pub use error::{DetectionResult, Error};
pub use modules::{Module, ModuleInfo, ModuleKind};
pub use output::{OutputFormatter, RenderedModule};
pub use platform::{BuildTarget, Platform};
