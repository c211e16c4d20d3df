//! The command line: its commands and options, as values.
use vstd::prelude::*;

verus! {

/// Which reports a run writes.
#[derive(Debug, Clone, Copy, PartialEq, Eq, Structural)]
pub enum OutputFormat {
    Json,
    Html,
    Bloodhound,
    All,
}

impl OutputFormat {
    /// Whether the JSON report is written.
    pub fn wants_json(&self) -> (r: bool)
        ensures
            r == (*self == OutputFormat::Json || *self == OutputFormat::All),
    {
        match self {
            OutputFormat::Json | OutputFormat::All => true,
            _ => false,
        }
    }

    /// Whether the BloodHound file is written.
    pub fn wants_bloodhound(&self) -> (r: bool)
        ensures
            r == (*self == OutputFormat::Bloodhound || *self == OutputFormat::All),
    {
        match self {
            OutputFormat::Bloodhound | OutputFormat::All => true,
            _ => false,
        }
    }

    /// Whether the HTML report is written.
    pub fn wants_html(&self) -> (r: bool)
        ensures
            r == (*self == OutputFormat::Html || *self == OutputFormat::All),
    {
        match self {
            OutputFormat::Html | OutputFormat::All => true,
            _ => false,
        }
    }
}

/// What a run does.
#[derive(Debug)]
pub enum Command {
    /// Collect, analyze and report (the default).
    Run,
    /// Collect the host's data only.
    Collect,
    /// Analyze a collection file.
    Analyze { input: String },
    /// Write the reports of a report file.
    Report { input: String },
}

/// The parsed command line.
#[derive(Debug)]
pub struct Cli {
    pub command: Option<Command>,
    pub output: OutputFormat,
    pub dir: String,
    pub quiet: bool,
    pub collectors: Option<Vec<String>>,
    pub include_passed: bool,
}

impl Cli {
    /// The command to run: the one given, else a full run.
    pub fn command_or_default(self) -> (r: Command)
        ensures
            match self.command {
                Some(c) => r == c,
                None => r == Command::Run,
            },
    {
        match self.command {
            Some(c) => c,
            None => Command::Run,
        }
    }
}

} // verus!
