use vstd::prelude::*;

verus! {

/// What went wrong, with the details each kind of failure carries.
///
/// Failures that come from the file system, the TOML codec, the shell or
/// the environment carry the outside error's own message as text.
#[derive(Debug, Clone, PartialEq, Eq)]
pub enum InnerPierError {
    AliasNotFound { alias: String },
    NoConfigFile,
    TomlSerialize { source: String },
    TomlParse { source: String, path: String },
    ConfigRead { source: String, path: String },
    ConfigWrite { source: String, path: String },
    NoScriptsFound,
    CommandFailed { why: String },
    NoDefaultShell { source: String },
    CliValueNotFound { name: String },
}

/// The error type of every fallible operation of the library.
#[derive(Debug, Clone, PartialEq, Eq)]
pub struct PierError(pub InnerPierError);

/// The text shown for an error, as the command line tool prints it.
pub open spec fn spec_message(e: InnerPierError) -> Seq<char> {
    match e {
        InnerPierError::AliasNotFound { alias } => "error: No script found by alias "@ + alias@,
        InnerPierError::NoConfigFile => "error: No default config file found. See help for more info."@,
        InnerPierError::TomlSerialize { source } =>
            "error: Unable to serialize config: "@ + source@ + ". Probably a bug in the code."@,
        InnerPierError::TomlParse { source, path } =>
            "error: Unable to parse toml config from file "@ + path@ + ": "@ + source@,
        InnerPierError::ConfigRead { source, path } =>
            "error: Unable to read config from file "@ + path@ + ": "@ + source@ + " "@,
        InnerPierError::ConfigWrite { source, path } =>
            "error: Write error from "@ + path@ + ": "@ + source@,
        InnerPierError::NoScriptsFound => "error: No scripts found."@,
        InnerPierError::CommandFailed { why } => "error: Command failed: \n"@ + why@,
        InnerPierError::NoDefaultShell { source } => "error: No default $SHELL: \n"@,
        InnerPierError::CliValueNotFound { name } => "error: Expected value for "@ + name@ + " \n"@,
    }
}

impl PierError {
    /// The error that a lookup of `alias` gives when no script is stored under it.
    pub open spec fn is_alias_not_found(&self, alias: Seq<char>) -> bool {
        &&& self.0 matches InnerPierError::AliasNotFound { alias: a }
        &&& a@ == alias
    }

    /// Builds the error for a missing alias.
    pub fn alias_not_found(alias: &str) -> (res: PierError)
        ensures
            res.is_alias_not_found(alias@),
    {
        PierError(InnerPierError::AliasNotFound { alias: alias.to_owned() })
    }

    /// The kind of failure and its details.
    pub fn inner(&self) -> (res: &InnerPierError)
        ensures
            *res == self.0,
    {
        &self.0
    }

    /// The text shown for this error.
    pub fn message(&self) -> (res: String)
        ensures
            res@ == spec_message(self.0),
    {
        match &self.0 {
            InnerPierError::AliasNotFound { alias } => {
                let mut s = String::from_str("error: No script found by alias ");
                s.append(alias.as_str());
                s
            },
            InnerPierError::NoConfigFile => {
                String::from_str("error: No default config file found. See help for more info.")
            },
            InnerPierError::TomlSerialize { source } => {
                let mut s = String::from_str("error: Unable to serialize config: ");
                s.append(source.as_str());
                s.append(". Probably a bug in the code.");
                s
            },
            InnerPierError::TomlParse { source, path } => {
                let mut s = String::from_str("error: Unable to parse toml config from file ");
                s.append(path.as_str());
                s.append(": ");
                s.append(source.as_str());
                s
            },
            InnerPierError::ConfigRead { source, path } => {
                let mut s = String::from_str("error: Unable to read config from file ");
                s.append(path.as_str());
                s.append(": ");
                s.append(source.as_str());
                s.append(" ");
                s
            },
            InnerPierError::ConfigWrite { source, path } => {
                let mut s = String::from_str("error: Write error from ");
                s.append(path.as_str());
                s.append(": ");
                s.append(source.as_str());
                s
            },
            InnerPierError::NoScriptsFound => { String::from_str("error: No scripts found.") },
            InnerPierError::CommandFailed { why } => {
                let mut s = String::from_str("error: Command failed: \n");
                s.append(why.as_str());
                s
            },
            InnerPierError::NoDefaultShell { source } => {
                String::from_str("error: No default $SHELL: \n")
            },
            InnerPierError::CliValueNotFound { name } => {
                let mut s = String::from_str("error: Expected value for ");
                s.append(name.as_str());
                s.append(" \n");
                s
            },
        }
    }
}

} // verus!
