//! The error surface of the library: every failure a request can end in,
//! each rendered as one descriptive string for the caller.

use vstd::prelude::*;
use vstd::string::StringExecFns;

verus! {

/// Every way a cleaning request can fail. All variants are terminal for the
/// current request and none aborts the process.
#[derive(Debug)]
pub enum CleanError {
    /// No Maya Python interpreter was found at any candidate location.
    ExecutableNotFound,
    /// The scene file handed to a single-file request does not exist.
    FileNotFound { path: String },
    /// The directory handed to a directory request does not exist or is not
    /// a directory.
    DirectoryNotFound { path: String },
    /// The scene file exists but does not carry a recognized scene
    /// extension.
    WrongFileType { path: String },
    /// The companion script is missing from both known locations.
    ScriptNotFound { first: String, second: String },
    /// The subprocess exited non-zero; the detail is the log file's
    /// contents when one was written, else the raw standard-error text.
    ScriptExecution { detail: String },
    /// The subprocess exited zero but wrote no results file.
    ResultsMissing,
    /// The results file exists but is not a well-formed cleaning report.
    ResultsParse,
}

/// The mathematical shadow of a [`CleanError`].
pub ghost enum CleanErrorV {
    ExecutableNotFound,
    FileNotFound { path: Seq<char> },
    DirectoryNotFound { path: Seq<char> },
    WrongFileType { path: Seq<char> },
    ScriptNotFound { first: Seq<char>, second: Seq<char> },
    ScriptExecution { detail: Seq<char> },
    ResultsMissing,
    ResultsParse,
}

impl View for CleanError {
    type V = CleanErrorV;

    open spec fn view(&self) -> CleanErrorV {
        match self {
            CleanError::ExecutableNotFound => CleanErrorV::ExecutableNotFound,
            CleanError::FileNotFound { path } => CleanErrorV::FileNotFound { path: path@ },
            CleanError::DirectoryNotFound { path } => CleanErrorV::DirectoryNotFound {
                path: path@,
            },
            CleanError::WrongFileType { path } => CleanErrorV::WrongFileType { path: path@ },
            CleanError::ScriptNotFound { first, second } => CleanErrorV::ScriptNotFound {
                first: first@,
                second: second@,
            },
            CleanError::ScriptExecution { detail } => CleanErrorV::ScriptExecution {
                detail: detail@,
            },
            CleanError::ResultsMissing => CleanErrorV::ResultsMissing,
            CleanError::ResultsParse => CleanErrorV::ResultsParse,
        }
    }
}

/// The descriptive string each error is surfaced as.
pub open spec fn message_text(e: CleanErrorV) -> Seq<char> {
    match e {
        CleanErrorV::ExecutableNotFound => "Maya Python executable (mayapy.exe) not found. Please install Maya or specify the path manually."@,
        CleanErrorV::FileNotFound { path } => "File not found: "@ + path
            + ". Please check if the file exists and you have permission to access it."@,
        CleanErrorV::DirectoryNotFound { path } => "Directory not found: "@ + path,
        CleanErrorV::WrongFileType { path } => "File is not a Maya file (.ma or .mb): "@ + path,
        CleanErrorV::ScriptNotFound { first, second } => "Cleaner script not found. Checked locations: "@
            + first + ", "@ + second,
        CleanErrorV::ScriptExecution { detail } => "Maya cleaner script failed: "@ + detail,
        CleanErrorV::ResultsMissing => "Results file not created"@,
        CleanErrorV::ResultsParse => "Failed to parse results: the results file is not a well-formed cleaning report"@,
    }
}

impl CleanError {
    /// Renders the error as the one descriptive string the caller sees.
    pub fn message(&self) -> (r: String)
        ensures
            r@ == message_text(self@),
    {
        match self {
            CleanError::ExecutableNotFound => {
                "Maya Python executable (mayapy.exe) not found. Please install Maya or specify the path manually.".to_owned()
            },
            CleanError::FileNotFound { path } => {
                let mut out = "File not found: ".to_owned();
                out.append(path.as_str());
                out.append(
                    ". Please check if the file exists and you have permission to access it.",
                );
                out
            },
            CleanError::DirectoryNotFound { path } => {
                let mut out = "Directory not found: ".to_owned();
                out.append(path.as_str());
                out
            },
            CleanError::WrongFileType { path } => {
                let mut out = "File is not a Maya file (.ma or .mb): ".to_owned();
                out.append(path.as_str());
                out
            },
            CleanError::ScriptNotFound { first, second } => {
                let mut out = "Cleaner script not found. Checked locations: ".to_owned();
                out.append(first.as_str());
                out.append(", ");
                out.append(second.as_str());
                out
            },
            CleanError::ScriptExecution { detail } => {
                let mut out = "Maya cleaner script failed: ".to_owned();
                out.append(detail.as_str());
                out
            },
            CleanError::ResultsMissing => "Results file not created".to_owned(),
            CleanError::ResultsParse => {
                "Failed to parse results: the results file is not a well-formed cleaning report".to_owned()
            },
        }
    }
}

} // verus!
