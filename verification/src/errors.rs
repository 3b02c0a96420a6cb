//! The error taxonomy of the library.  Capture-session failures and
//! API-call failures are kept apart: the former are returned synchronously
//! by the session state machine, the latter describe what went wrong around
//! one outbound request.

use vstd::prelude::*;
use crate::strutil::{dec_u32, dec_spec};

verus! {

/// Failures of the audio capture session.
#[derive(Clone, Copy, Debug, PartialEq, Eq, Structural)]
pub enum CaptureError {
    /// `start` was called while a session was already active.
    AlreadyRecording,
    /// `stop` was called with no active session.
    NotRecording,
    /// No input device could be selected.
    NoDeviceAvailable,
    /// The selected device does not deliver 32-bit float samples.
    UnsupportedSampleFormat,
}

impl CaptureError {
    /// A human-readable description of the failure.
    pub fn message(&self) -> (r: String)
        ensures
            r@ == self.message_spec(),
    {
        match self {
            CaptureError::AlreadyRecording => "Already recording".to_owned(),
            CaptureError::NotRecording => "No active recording session".to_owned(),
            CaptureError::NoDeviceAvailable => "No audio device available".to_owned(),
            CaptureError::UnsupportedSampleFormat => "Unsupported sample format".to_owned(),
        }
    }

    pub open spec fn message_spec(&self) -> Seq<char> {
        match self {
            CaptureError::AlreadyRecording => "Already recording"@,
            CaptureError::NotRecording => "No active recording session"@,
            CaptureError::NoDeviceAvailable => "No audio device available"@,
            CaptureError::UnsupportedSampleFormat => "Unsupported sample format"@,
        }
    }
}

/// Failures of a call to the remote API.
#[derive(Debug)]
pub enum ApiError {
    /// The sentinel placeholder credential was supplied and no credential is
    /// configured in the environment.
    CredentialMissing,
    /// The request never completed: a network-level failure, described by
    /// the transport's own message.
    TransportError(String),
    /// The endpoint answered with a non-success status; carries the status
    /// code and the response body.
    UpstreamError { status: u16, body: String },
    /// The response arrived but did not have the expected shape.
    DecodeError(String),
}

impl ApiError {
    /// A human-readable description of the failure.
    pub fn message(&self) -> (r: String)
        ensures
            r@ == self.message_spec(),
    {
        match self {
            ApiError::CredentialMissing => {
                "OPENAI_API_KEY environment variable not found".to_owned()
            },
            ApiError::TransportError(m) => {
                let mut s = "Request failed: ".to_owned();
                s.append(m.as_str());
                s
            },
            ApiError::UpstreamError { status, body } => {
                let mut s = "API error ".to_owned();
                let code = dec_u32(*status as u32);
                s.append(code.as_str());
                s.append(": ");
                s.append(body.as_str());
                s
            },
            ApiError::DecodeError(m) => {
                let mut s = "Failed to decode response: ".to_owned();
                s.append(m.as_str());
                s
            },
        }
    }

    pub open spec fn message_spec(&self) -> Seq<char> {
        match self {
            ApiError::CredentialMissing => "OPENAI_API_KEY environment variable not found"@,
            ApiError::TransportError(m) => "Request failed: "@ + m@,
            ApiError::UpstreamError { status, body } => "API error "@ + dec_spec(*status as int)
                + ": "@ + body@,
            ApiError::DecodeError(m) => "Failed to decode response: "@ + m@,
        }
    }
}

} // verus!
