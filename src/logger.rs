//! Settings of the log sink.

use vstd::prelude::*;

verus! {

/// Where log lines go and how much is logged.
#[derive(Debug)]
pub struct LoggerConfig {
    pub level: LogLevel,
    pub writer: LogWriter,
    /// Directory of the log files, for the file writer.
    pub directory: String,
    /// Name prefix of the daily log files, for the file writer.
    pub file_name_prefix: String,
}

/// The most verbose level that is written.
#[derive(Debug, Clone, Copy, PartialEq, Eq, Structural)]
pub enum LogLevel {
    Trace,
    Debug,
    Info,
    Warn,
    Error,
}

/// The sink of log lines.
#[derive(Debug, Clone, Copy, PartialEq, Eq, Structural)]
pub enum LogWriter {
    /// Daily rolling files.
    File,
    /// Standard output.
    Stdout,
}

impl LogWriter {
    /// Whether lines carry terminal colour codes: only on standard output.
    pub fn ansi(&self) -> (r: bool)
        ensures
            r == (*self == LogWriter::Stdout),
    {
        match self {
            LogWriter::File => false,
            LogWriter::Stdout => true,
        }
    }
}

} // verus!
