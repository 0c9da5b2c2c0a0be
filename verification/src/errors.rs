//! The error taxonomy of the capture pipeline. Every failure aborts the whole
//! request and is collapsed to a single descriptive message at the caller
//! boundary.
use vstd::prelude::*;
use vstd::string::StringExecFns;

verus! {

/// Why a capture request failed. Degenerate zero-area crops are not errors.
#[derive(Clone, PartialEq, Eq, Debug)]
pub enum CaptureError {
    /// No capturable display was enumerated.
    NoDisplaysFound,
    /// The OS or compositor denied or errored the capture.
    CaptureFailed(String),
    /// The captured buffer size is inconsistent with its reported dimensions.
    MalformedFrame,
    /// The destination directory could not be created or accessed.
    DirectoryUnavailable(String),
    /// Encoding or writing the image failed.
    EncodeFailed(String),
}

impl CaptureError {
    /// The descriptive message shown at the caller boundary.
    pub open spec fn message_chars(self) -> Seq<char> {
        match self {
            CaptureError::NoDisplaysFound => "No screens found"@,
            CaptureError::CaptureFailed(m) => "Failed to capture screen: "@ + m@,
            CaptureError::MalformedFrame => "Failed to create image from buffer"@,
            CaptureError::DirectoryUnavailable(m) => "Failed to create screenshots directory: "@
                + m@,
            CaptureError::EncodeFailed(m) => "Failed to save screenshot: "@ + m@,
        }
    }

    /// Renders the error as the human-readable string handed across the
    /// caller boundary.
    pub fn message(&self) -> (r: String)
        ensures
            r@ == self.message_chars(),
    {
        match self {
            CaptureError::NoDisplaysFound => "No screens found".to_owned(),
            CaptureError::CaptureFailed(m) => {
                let mut s = "Failed to capture screen: ".to_owned();
                s.append(m.as_str());
                s
            },
            CaptureError::MalformedFrame => "Failed to create image from buffer".to_owned(),
            CaptureError::DirectoryUnavailable(m) => {
                let mut s = "Failed to create screenshots directory: ".to_owned();
                s.append(m.as_str());
                s
            },
            CaptureError::EncodeFailed(m) => {
                let mut s = "Failed to save screenshot: ".to_owned();
                s.append(m.as_str());
                s
            },
        }
    }
}

} // verus!
