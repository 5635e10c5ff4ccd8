use vstd::prelude::*;

pub mod config;
pub mod laws;
pub mod pier_error;
pub mod script;
pub mod source;
pub mod subcommand;

pub use config::{Config, ConfigView};
pub use pier_error::{InnerPierError, PierError};
pub use script::{Script, ScriptView};
pub use source::{config_candidates, resolve_config_source, ConfigSource};
pub use subcommand::{handle_subcommands, Action, Subcommand};

verus! {

} // verus!
