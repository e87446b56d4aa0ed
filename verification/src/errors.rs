//! The library's error taxonomy.
//!
//! Every engine reports failures through [`BcmrError`].  Errors coming from
//! outside (filesystem, regex compilation, task joins) are carried as their
//! message text; the embedding program converts at the boundary.

use vstd::prelude::*;

verus! {

use vstd::string::StringExecFns;

/// An operation failure, with the data needed to render its message.
#[derive(Debug, Clone, PartialEq, Eq)]
pub enum BcmrError {
    /// An underlying filesystem error, by its message.
    Io(String),
    /// A configuration loading error, by its message.
    Config(String),
    /// A directory walk failure, by its message.
    WalkDir(String),
    /// An exclude pattern that did not compile, by the library's message.
    Regex(String),
    /// A background task join failure, by its message.
    Join(String),
    /// A path prefix that could not be stripped, by its message.
    StripPrefix(String),
    /// A reflink that was forced and failed, with detail.
    Reflink(String),
    /// A collision at the given destination path without force or resume.
    TargetExists(String),
    /// A source path that does not exist.
    SourceNotFound(String),
    /// Misuse of flags or an invalid mode string.
    InvalidInput(String),
    /// A post-copy hash mismatch at the given destination path.
    VerificationError(String),
    /// The user interrupted a confirmation.
    Cancelled,
}

/// The message text of an error, as a character sequence.
pub open spec fn error_message_spec(e: BcmrError) -> Seq<char> {
    match e {
        BcmrError::Io(m) => "IO error: "@ + m@,
        BcmrError::Config(m) => "Configuration error: "@ + m@,
        BcmrError::WalkDir(m) => "WalkDir error: "@ + m@,
        BcmrError::Regex(m) => "Regex error: "@ + m@,
        BcmrError::Join(m) => "Task join error: "@ + m@,
        BcmrError::StripPrefix(m) => "Path strip prefix error: "@ + m@,
        BcmrError::Reflink(m) => "Reflink failed: "@ + m@,
        BcmrError::TargetExists(p) => "Destination '"@ + p@
            + "' already exists. Use -f to force overwrite."@,
        BcmrError::SourceNotFound(p) => "Source '"@ + p@ + "' not found"@,
        BcmrError::InvalidInput(m) => "Invalid input: "@ + m@,
        BcmrError::VerificationError(p) => "Verification failed for '"@ + p@ + "'"@,
        BcmrError::Cancelled => "Operation cancelled"@,
    }
}

impl BcmrError {
    /// The single error line printed for this failure.
    pub fn message(&self) -> (r: String)
        ensures
            r@ == error_message_spec(*self),
    {
        match self {
            BcmrError::Io(m) => {
                let mut s = "IO error: ".to_owned();
                s.append(m.as_str());
                s
            }
            BcmrError::Config(m) => {
                let mut s = "Configuration error: ".to_owned();
                s.append(m.as_str());
                s
            }
            BcmrError::WalkDir(m) => {
                let mut s = "WalkDir error: ".to_owned();
                s.append(m.as_str());
                s
            }
            BcmrError::Regex(m) => {
                let mut s = "Regex error: ".to_owned();
                s.append(m.as_str());
                s
            }
            BcmrError::Join(m) => {
                let mut s = "Task join error: ".to_owned();
                s.append(m.as_str());
                s
            }
            BcmrError::StripPrefix(m) => {
                let mut s = "Path strip prefix error: ".to_owned();
                s.append(m.as_str());
                s
            }
            BcmrError::Reflink(m) => {
                let mut s = "Reflink failed: ".to_owned();
                s.append(m.as_str());
                s
            }
            BcmrError::TargetExists(p) => {
                let mut s = "Destination '".to_owned();
                s.append(p.as_str());
                s.append("' already exists. Use -f to force overwrite.");
                s
            }
            BcmrError::SourceNotFound(p) => {
                let mut s = "Source '".to_owned();
                s.append(p.as_str());
                s.append("' not found");
                s
            }
            BcmrError::InvalidInput(m) => {
                let mut s = "Invalid input: ".to_owned();
                s.append(m.as_str());
                s
            }
            BcmrError::VerificationError(p) => {
                let mut s = "Verification failed for '".to_owned();
                s.append(p.as_str());
                s.append("'");
                s
            }
            BcmrError::Cancelled => "Operation cancelled".to_owned(),
        }
    }
}

} // verus!
