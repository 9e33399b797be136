/// Secrets Manager replies
pub mod sec;
/// Parameter Store replies
pub mod par;
/// the course of a command, step by step
pub mod flow;
/// what holds of every course of a command
pub mod laws;
