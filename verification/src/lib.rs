//! Core of a small command-line application framework.
//!
//! A raw input line is classified into typed tokens, the requested command is
//! resolved against an ordered registry of command descriptors, and a help
//! listing is rendered from the application configuration whenever no enabled
//! command matches.

pub mod app;
pub mod color;
pub mod command;
pub mod config;
pub mod context;
pub mod help;
pub mod parser;

pub use app::App;
pub use app::RunOutcome;
pub use command::CommandEntry;
pub use config::AppConfig;
pub use help::DefaultHelpStructure;
pub use help::HelpText;
pub use config::CargoConfig;
pub use config::CargoConfigPackage;
pub use context::Context;
pub use context::Environment;
pub use parser::Input;
pub use parser::InputPart;
pub use parser::TokenizeError;
