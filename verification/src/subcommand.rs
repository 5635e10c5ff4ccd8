use vstd::prelude::*;

use crate::config::{is_listing, Config};
use crate::pier_error::PierError;
use crate::script::Script;

verus! {

/// A request from the command line.
#[derive(Debug, Clone, PartialEq, Eq)]
pub enum Subcommand {
    /// Store `command` under `alias`.
    Add { alias: String, command: String },
    /// Drop the script stored under `alias`.
    Remove { alias: String },
    /// Run the script stored under `alias`.
    Run { alias: String },
    /// Show every stored script.
    List,
}

/// What remains to be done outside the library once a request is decided.
#[derive(Debug, Clone, PartialEq, Eq)]
pub enum Action {
    /// Write the changed configuration back to its file.
    Write,
    /// Run `script` with `arg` appended to its command.
    Run { script: Script, arg: String },
    /// Show these rows: each key with its script's command.
    List { rows: Vec<(String, String)> },
}

/// Decides a request against the configuration: adding or removing a script
/// changes it and asks for it to be written back; running a script hands out
/// a copy of it, with no extra argument; listing hands out the rows to show.
pub fn handle_subcommands(config: &mut Config, cmd: Subcommand) -> (res: Result<Action, PierError>)
    requires
        old(config).inv(),
    ensures
        final(config).inv(),
        match cmd {
            Subcommand::Add { alias, command } => {
                &&& final(config)@ == old(config)@.add_script(Script::spec_new(alias@, command@))
                &&& res matches Ok(Action::Write)
            },
            Subcommand::Remove { alias } => match old(config)@.remove_script(alias@) {
                Some(c) => final(config)@ == c && res matches Ok(Action::Write),
                None => {
                    &&& final(config)@ == old(config)@
                    &&& res matches Err(e) && e.is_alias_not_found(alias@)
                },
            },
            Subcommand::Run { alias } => {
                &&& final(config)@ == old(config)@
                &&& match old(config)@.fetch_script(alias@) {
                    Some(s) => res matches Ok(Action::Run { script, arg }) && script@ == s
                        && arg@.len() == 0,
                    None => res matches Err(e) && e.is_alias_not_found(alias@),
                }
            },
            Subcommand::List => {
                &&& final(config)@ == old(config)@
                &&& res matches Ok(Action::List { rows }) && is_listing(rows@, old(config)@)
            },
        },
{
    match cmd {
        Subcommand::Add { alias, command } => {
            let script = Script::new(alias, command);
            let _ = config.add_script(script);
            Ok(Action::Write)
        },
        Subcommand::Remove { alias } => {
            match config.remove_script(alias.as_str()) {
                Ok(()) => Ok(Action::Write),
                Err(e) => Err(e),
            }
        },
        Subcommand::Run { alias } => {
            match config.fetch_script(alias.as_str()) {
                Ok(script) => Ok(Action::Run { script: script.duplicate(), arg: String::new() }),
                Err(e) => Err(e),
            }
        },
        Subcommand::List => Ok(Action::List { rows: config.list_scripts() }),
    }
}

} // verus!
