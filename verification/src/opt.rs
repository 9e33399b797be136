//! The command line: global options and the `sec` and `par` subcommands.

use vstd::prelude::*;
use std::path::PathBuf;

verus! {

/// `std::path::PathBuf`, the path of a spec file.
#[verifier::external_type_specification]
#[verifier::external_body]
pub struct ExPathBuf(PathBuf);

/// The parsed command line.
#[derive(Debug)]
pub struct Cli {
    pub global: GlobalOpts,
    pub command: Command,
}

/// Options shared by every command.
#[derive(Debug)]
pub struct GlobalOpts {
    /// AWS region (`--region`, `AWS_REGION`, `us-east-1` by default)
    pub region: String,
    /// AWS profile name (`--profile`, `AWS_PROFILE`)
    pub profile: Option<String>,
}

/// Top level commands.
#[derive(Debug)]
pub enum Command {
    /// Secrets Manager command (`sec`)
    Secret { command: SecCommand },
    /// Parameter Store command (`par`)
    Parameter { command: ParCommand },
    /// Shows the active AWS environment (`env`)
    Env,
}

/// Subcommands of `sec`.
#[derive(Debug)]
pub enum SecCommand {
    /// list existing secrets
    List {},
    /// get a secret by name (no name: select interactively)
    Get { name: Option<String> },
    /// describe a secret by name (no name: select interactively)
    Describe { name: Option<String> },
    /// create a secret
    Create { name: String, secret: String },
    /// delete a secret by name (no name: select interactively); `force`
    /// skips the recovery window and the confirmation
    Delete { name: Option<String>, force: bool },
}

/// Subcommands of `par`.
#[derive(Debug)]
pub enum ParCommand {
    /// list existing parameters
    List {},
    /// get a parameter by name (no name: select interactively)
    Get { name: Option<String> },
    /// create a parameter
    Create { name: String, value: String },
    /// delete a parameter by name (no name: select interactively)
    Delete { name: Option<String> },
    /// apply all the parameters of a spec file
    Apply { path: PathBuf },
}

} // verus!
