//! Errors of collection, analysis and output.
use vstd::prelude::*;

use crate::text::{concat, owned};

verus! {

/// What can go wrong. Errors that come from outside the library (I/O,
/// serialization, platform calls) are carried as their messages.
#[derive(Debug)]
pub enum HuginnError {
    Io(String),
    Serialization(String),
    Platform { source: String, context: String },
    Collector { name: String, reason: String },
    InsufficientPrivileges(String),
    Output(String),
    Template(String),
}

impl HuginnError {
    /// A failed platform call, with the failure's message and where it happened.
    pub fn platform(source: &str, context: &str) -> (e: Self)
        ensures
            e matches HuginnError::Platform { source: s, context: c } && s@ == source@ && c@
                == context@,
    {
        HuginnError::Platform { source: owned(source), context: owned(context) }
    }

    /// A collector that failed, and why.
    pub fn collector(name: &str, reason: &str) -> (e: Self)
        ensures
            e matches HuginnError::Collector { name: n, reason: r } && n@ == name@ && r@
                == reason@,
    {
        HuginnError::Collector { name: owned(name), reason: owned(reason) }
    }

    /// A failure to write output.
    pub fn output(msg: &str) -> (e: Self)
        ensures
            e matches HuginnError::Output(m) && m@ == msg@,
    {
        HuginnError::Output(owned(msg))
    }

    /// A failure to render a template.
    pub fn template(msg: &str) -> (e: Self)
        ensures
            e matches HuginnError::Template(m) && m@ == msg@,
    {
        HuginnError::Template(owned(msg))
    }

    pub open spec fn spec_message(&self) -> Seq<char> {
        match self {
            HuginnError::Io(m) => "IO error: "@ + m@,
            HuginnError::Serialization(m) => "Serialization error: "@ + m@,
            HuginnError::Platform { source, context } => "Platform error in "@ + context@ + ": "@
                + source@,
            HuginnError::Collector { name, reason } => "Collector '"@ + name@ + "' failed: "@
                + reason@,
            HuginnError::InsufficientPrivileges(m) => "Insufficient privileges: "@ + m@,
            HuginnError::Output(m) => "Output error: "@ + m@,
            HuginnError::Template(m) => "Template error: "@ + m@,
        }
    }

    /// The message that describes the error.
    pub fn message(&self) -> (r: String)
        ensures
            r@ == self.spec_message(),
    {
        match self {
            HuginnError::Io(m) => concat("IO error: ", m.as_str()),
            HuginnError::Serialization(m) => concat("Serialization error: ", m.as_str()),
            HuginnError::Platform { source, context } => {
                let mut r = concat("Platform error in ", context.as_str());
                r.append(": ");
                r.append(source.as_str());
                r
            },
            HuginnError::Collector { name, reason } => {
                let mut r = concat("Collector '", name.as_str());
                r.append("' failed: ");
                r.append(reason.as_str());
                r
            },
            HuginnError::InsufficientPrivileges(m) => concat(
                "Insufficient privileges: ",
                m.as_str(),
            ),
            HuginnError::Output(m) => concat("Output error: ", m.as_str()),
            HuginnError::Template(m) => concat("Template error: ", m.as_str()),
        }
    }
}

} // verus!
