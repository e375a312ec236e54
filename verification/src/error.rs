//! Closed error taxonomy of the client.
//!
//! Every operation of the library reports failures through [`AssCliError`],
//! a single tagged-variant type. No outside error type leaks to callers:
//! the edges of the program map transport, filesystem and argument errors
//! into one of these kinds before they reach the core.

use vstd::prelude::*;
use vstd::string::*;

verus! {

/// The kind of a client error, one variant per failure class.
#[derive(Debug)]
pub enum AssCliErrorKind {
    /// An unrecognized or missing subcommand.
    CommandError,
    /// Command-line arguments could not be parsed.
    ArgumentParseError(String),
    /// The account file did not deserialize into the expected shape.
    InvalidAccountFile(String),
    /// A local file could not be opened.
    NotFound(String),
    /// A local file could be opened but not read.
    PermissionDenied(String),
    /// A local path was unusable (no filename, no config directory).
    PathError,
    /// The remote call failed: transport error or non-success status.
    RequestError(String),
    /// A response body (or a required field of it) was not usable JSON.
    JsonError,
    /// A URL could not be parsed or reconstructed.
    UrlParseError,
    /// A header value contained characters that headers cannot carry.
    InvalidHeaderValue,
}

/// An error of the client: a kind, carrying enough context for display.
#[derive(Debug)]
pub struct AssCliError {
    pub kind: AssCliErrorKind,
}

impl AssCliError {
    /// Error for arguments that could not be parsed.
    pub fn argument_parse_error(msg: String) -> (r: Self)
        ensures
            r.kind == AssCliErrorKind::ArgumentParseError(msg),
    {
        AssCliError { kind: AssCliErrorKind::ArgumentParseError(msg) }
    }

    /// Error for an account file of the wrong shape.
    pub fn invalid_account_file(msg: String) -> (r: Self)
        ensures
            r.kind == AssCliErrorKind::InvalidAccountFile(msg),
    {
        AssCliError { kind: AssCliErrorKind::InvalidAccountFile(msg) }
    }

    /// Error for an unrecognized subcommand.
    pub fn command_error() -> (r: Self)
        ensures
            r.kind == AssCliErrorKind::CommandError,
    {
        AssCliError { kind: AssCliErrorKind::CommandError }
    }

    /// Error for a response body that is not usable JSON.
    pub fn json_error() -> (r: Self)
        ensures
            r.kind == AssCliErrorKind::JsonError,
    {
        AssCliError { kind: AssCliErrorKind::JsonError }
    }

    /// Error for an unusable local path.
    pub fn path_error() -> (r: Self)
        ensures
            r.kind == AssCliErrorKind::PathError,
    {
        AssCliError { kind: AssCliErrorKind::PathError }
    }

    /// Error for a local file that could not be opened.
    pub fn not_found(msg: String) -> (r: Self)
        ensures
            r.kind == AssCliErrorKind::NotFound(msg),
    {
        AssCliError { kind: AssCliErrorKind::NotFound(msg) }
    }

    /// Error for a local file that could not be read.
    pub fn permission_denied(msg: String) -> (r: Self)
        ensures
            r.kind == AssCliErrorKind::PermissionDenied(msg),
    {
        AssCliError { kind: AssCliErrorKind::PermissionDenied(msg) }
    }

    /// Error for a failed remote call.
    pub fn request_error(msg: String) -> (r: Self)
        ensures
            r.kind == AssCliErrorKind::RequestError(msg),
    {
        AssCliError { kind: AssCliErrorKind::RequestError(msg) }
    }

    /// Error for a URL that could not be parsed.
    pub fn url_parse_error() -> (r: Self)
        ensures
            r.kind == AssCliErrorKind::UrlParseError,
    {
        AssCliError { kind: AssCliErrorKind::UrlParseError }
    }

    /// Error for a header value with characters headers cannot carry.
    pub fn invalid_header_value() -> (r: Self)
        ensures
            r.kind == AssCliErrorKind::InvalidHeaderValue,
    {
        AssCliError { kind: AssCliErrorKind::InvalidHeaderValue }
    }

    /// The human-readable rendering of this error, one line per kind.
    pub fn display_string(&self) -> (r: String)
        ensures
            r@ == spec_display_of(self.kind),
    {
        match &self.kind {
            AssCliErrorKind::CommandError => String::from_str(
                "Invalid arguments, use --help for more information",
            ),
            AssCliErrorKind::ArgumentParseError(m) => {
                let mut s = String::from_str("Error parsing arguments: ");
                s.append(m.as_str());
                s
            },
            AssCliErrorKind::InvalidAccountFile(m) => {
                let mut s = String::from_str("Invalid account file: ");
                s.append(m.as_str());
                s
            },
            AssCliErrorKind::NotFound(m) => {
                let mut s = String::from_str("File not found: ");
                s.append(m.as_str());
                s
            },
            AssCliErrorKind::PermissionDenied(m) => {
                let mut s = String::from_str("Permission denied: ");
                s.append(m.as_str());
                s
            },
            AssCliErrorKind::PathError => String::from_str("Error accessing path"),
            AssCliErrorKind::RequestError(m) => {
                let mut s = String::from_str("Error accessing ASS: ");
                s.append(m.as_str());
                s
            },
            AssCliErrorKind::JsonError => String::from_str("Error parsing json"),
            AssCliErrorKind::UrlParseError => String::from_str("Error parsing url"),
            AssCliErrorKind::InvalidHeaderValue => String::from_str("Invalid header value"),
        }
    }
}

/// The display text of each error kind.
pub open spec fn spec_display_of(kind: AssCliErrorKind) -> Seq<char> {
    match kind {
        AssCliErrorKind::CommandError => "Invalid arguments, use --help for more information"@,
        AssCliErrorKind::ArgumentParseError(m) => "Error parsing arguments: "@ + m@,
        AssCliErrorKind::InvalidAccountFile(m) => "Invalid account file: "@ + m@,
        AssCliErrorKind::NotFound(m) => "File not found: "@ + m@,
        AssCliErrorKind::PermissionDenied(m) => "Permission denied: "@ + m@,
        AssCliErrorKind::PathError => "Error accessing path"@,
        AssCliErrorKind::RequestError(m) => "Error accessing ASS: "@ + m@,
        AssCliErrorKind::JsonError => "Error parsing json"@,
        AssCliErrorKind::UrlParseError => "Error parsing url"@,
        AssCliErrorKind::InvalidHeaderValue => "Invalid header value"@,
    }
}

} // verus!
