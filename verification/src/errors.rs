use vstd::prelude::*;
use crate::text::{join2, join3, owned};

verus! {

/// `std::io::Error`, carried as the source of a spec file that could not be opened.
#[verifier::external_type_specification]
#[verifier::external_body]
pub struct ExIoError(std::io::Error);

/// `serde_norway::Error`, carried as the source of a spec file that could not be parsed.
#[verifier::external_type_specification]
#[verifier::external_body]
pub struct ExYamlError(serde_norway::Error);

/// Errors that can occur while reading and parsing a YAML spec file.
#[derive(Debug)]
pub enum ParseFileError {
    /// The file at the given path could not be opened.
    NoSuchFile(String, std::io::Error),
    /// The file was opened but its contents could not be deserialized.
    DeserializeError(String, serde_norway::Error),
}

/// All errors produced by the `sec` and `par` subcommands.
#[derive(Debug)]
pub enum SecParError {
    /// A secret or parameter was not found.
    NotFound(String),
    /// A create/put operation failed.
    CreateFail(String),
    /// The AWS SDK reported an error; the text is the SDK's message.
    AwsSdk(String),
    /// A response lacked a required field.
    MissingValue(String),
    /// A YAML spec file could not be opened or deserialized.
    InvalidSpec(ParseFileError),
    /// A terminal prompt failed or had nothing to offer.
    Interactive(String),
}

impl ParseFileError {
    /// The path of the spec file that failed.
    pub open spec fn path_text(&self) -> Seq<char> {
        match self {
            ParseFileError::NoSuchFile(p, _) => p@,
            ParseFileError::DeserializeError(p, _) => p@,
        }
    }

    /// The error's message, as its `Display` shows it.
    pub fn message(&self) -> (r: String)
        ensures
            r@ == "Path: `"@ + self.path_text() + "`"@,
    {
        match self {
            ParseFileError::NoSuchFile(p, _) => join3("Path: `", p.as_str(), "`"),
            ParseFileError::DeserializeError(p, _) => join3("Path: `", p.as_str(), "`"),
        }
    }
}

/// The message that `Display` shows for each error.
pub open spec fn error_text(e: &SecParError) -> Seq<char> {
    match e {
        SecParError::NotFound(s) => "Secret/Parameter Not Found: "@ + s@,
        SecParError::CreateFail(s) => "Failed to create secret/parameter: "@ + s@,
        SecParError::AwsSdk(s) => "AWS SDK error: "@ + s@,
        SecParError::MissingValue(s) => "Missing value: "@ + s@,
        SecParError::InvalidSpec(_) => "Failed to parse spec file"@,
        SecParError::Interactive(s) => "Interactive prompt error: "@ + s@,
    }
}

impl SecParError {
    /// The error's message, as its `Display` shows it.
    pub fn message(&self) -> (r: String)
        ensures
            r@ == error_text(self),
    {
        match self {
            SecParError::NotFound(s) => join2("Secret/Parameter Not Found: ", s.as_str()),
            SecParError::CreateFail(s) => join2("Failed to create secret/parameter: ", s.as_str()),
            SecParError::AwsSdk(s) => join2("AWS SDK error: ", s.as_str()),
            SecParError::MissingValue(s) => join2("Missing value: ", s.as_str()),
            SecParError::InvalidSpec(_) => owned("Failed to parse spec file"),
            SecParError::Interactive(s) => join2("Interactive prompt error: ", s.as_str()),
        }
    }
}

/// An error, its messages as text.
pub enum ErrorView {
    NotFound(Seq<char>),
    CreateFail(Seq<char>),
    AwsSdk(Seq<char>),
    MissingValue(Seq<char>),
    InvalidSpec(ParseFileError),
    Interactive(Seq<char>),
}

impl View for SecParError {
    type V = ErrorView;

    open spec fn view(&self) -> ErrorView {
        match self {
            SecParError::NotFound(s) => ErrorView::NotFound(s@),
            SecParError::CreateFail(s) => ErrorView::CreateFail(s@),
            SecParError::AwsSdk(s) => ErrorView::AwsSdk(s@),
            SecParError::MissingValue(s) => ErrorView::MissingValue(s@),
            SecParError::InvalidSpec(e) => ErrorView::InvalidSpec(*e),
            SecParError::Interactive(s) => ErrorView::Interactive(s@),
        }
    }
}

/// How a call to the service failed, as read from the SDK's error: the
/// service found no such secret or parameter, or another failure; each with
/// the SDK's message.
#[derive(Debug)]
pub enum ServiceError {
    NotFound(String),
    Other(String),
}

impl ServiceError {
    /// The SDK's message.
    pub open spec fn message(self) -> Seq<char> {
        match self {
            ServiceError::NotFound(m) => m@,
            ServiceError::Other(m) => m@,
        }
    }
}

/// The error that a failed lookup or delete gives: [`SecParError::NotFound`]
/// when the service found no such secret or parameter, else
/// [`SecParError::AwsSdk`]; each with the SDK's message.
pub open spec fn failure_view(e: ServiceError) -> ErrorView {
    match e {
        ServiceError::NotFound(m) => ErrorView::NotFound(m@),
        ServiceError::Other(m) => ErrorView::AwsSdk(m@),
    }
}

/// The error that a failed create or put gives: [`SecParError::CreateFail`]
/// with the SDK's message.
pub open spec fn create_failure_view(e: ServiceError) -> ErrorView {
    ErrorView::CreateFail(e.message())
}

/// The error for a failed lookup, delete or listing.
pub fn service_failure(e: ServiceError) -> (r: SecParError)
    ensures
        r@ == failure_view(e),
{
    match e {
        ServiceError::NotFound(m) => SecParError::NotFound(m),
        ServiceError::Other(m) => SecParError::AwsSdk(m),
    }
}

/// The error for a failed create or put.
pub fn create_failure(e: ServiceError) -> (r: SecParError)
    ensures
        r@ == create_failure_view(e),
{
    match e {
        ServiceError::NotFound(m) => SecParError::CreateFail(m),
        ServiceError::Other(m) => SecParError::CreateFail(m),
    }
}

} // verus!
