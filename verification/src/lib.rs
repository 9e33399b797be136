//! secpar: the decision core of a command-line client for AWS Secrets Manager
//! and Parameter Store.

/// errors reported by the commands
pub mod errors;
/// text building blocks: decimal numbers, joins, the colon split
pub mod text;
/// the Parameter Store spec file and the plan it asks for
pub mod specs;
/// notices, prompts, selection and tables
pub mod ui;
/// command line options
pub mod opt;
/// the `sec` and `par` commands
pub mod cli;
