//! The error taxonomy: configuration errors, color-generation errors,
//! per-module errors, filesystem errors, and a catch-all, each carrying a
//! human-readable message.

use vstd::prelude::*;

verus! {

/// A typed failure reason.
#[derive(Debug, Clone)]
pub enum Error {
    /// A filesystem operation failed.
    Io(String),
    /// Bad or missing settings, or an unreadable path.
    Config(String),
    /// The color source failed.
    Matugen(String),
    /// An individual module's apply or injection failed.
    Module(String),
    /// JSON encoding or decoding failed.
    Serde(String),
    /// The configuration file could not be decoded.
    Toml(String),
    /// An external call outlived its bound.
    Timeout(String),
    /// Anything else.
    Other(String),
}

/// The message prefix for each error kind.
pub open spec fn spec_error_prefix(e: Error) -> Seq<char> {
    match e {
        Error::Io(_) => "IO error: "@,
        Error::Config(_) => "Config error: "@,
        Error::Matugen(_) => "Matugen error: "@,
        Error::Module(_) => "Module error: "@,
        Error::Serde(_) => "Serialization error: "@,
        Error::Toml(_) => "TOML error: "@,
        Error::Timeout(_) => "Timeout: "@,
        Error::Other(_) => ""@,
    }
}

/// The message carried by an error.
pub open spec fn spec_error_detail(e: Error) -> Seq<char> {
    match e {
        Error::Io(m) => m@,
        Error::Config(m) => m@,
        Error::Matugen(m) => m@,
        Error::Module(m) => m@,
        Error::Serde(m) => m@,
        Error::Toml(m) => m@,
        Error::Timeout(m) => m@,
        Error::Other(m) => m@,
    }
}

impl Error {
    /// The full human-readable message: kind prefix, then detail.
    pub fn message(&self) -> (r: String)
        ensures
            r@ == spec_error_prefix(*self) + spec_error_detail(*self),
    {
        let (prefix, detail): (&str, &String) = match self {
            Error::Io(m) => ("IO error: ", m),
            Error::Config(m) => ("Config error: ", m),
            Error::Matugen(m) => ("Matugen error: ", m),
            Error::Module(m) => ("Module error: ", m),
            Error::Serde(m) => ("Serialization error: ", m),
            Error::Toml(m) => ("TOML error: ", m),
            Error::Timeout(m) => ("Timeout: ", m),
            Error::Other(m) => ("", m),
        };
        let mut out = String::from_str(prefix);
        out.append(detail.as_str());
        out
    }

    /// Whether this is a configuration error.
    pub fn is_config(&self) -> (r: bool)
        ensures
            r == (self is Config),
    {
        match self {
            Error::Config(_) => true,
            _ => false,
        }
    }
}

/// A message of the shape `before + detail`, built by concatenation.
pub fn msg_with(before: &str, detail: &str) -> (r: String)
    ensures
        r@ == before@ + detail@,
{
    let mut out = String::from_str(before);
    out.append(detail);
    out
}

/// A message of the shape `before + detail + after`.
pub fn msg_around(before: &str, detail: &str, after: &str) -> (r: String)
    ensures
        r@ == before@ + detail@ + after@,
{
    let mut out = String::from_str(before);
    out.append(detail);
    out.append(after);
    out
}

} // verus!
