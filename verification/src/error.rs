//! What can stop the endpoint before it serves.

use vstd::prelude::*;

verus! {

/// A failure during startup. Each one is fatal to the server: it cannot
/// serve, and the embedding application decides whether to go on without
/// streaming.
#[derive(Clone, Copy, Debug, PartialEq, Eq, Structural)]
pub enum StartupError {
    /// No self-signed certificate and key could be produced.
    CertGenerationFailed,
    /// The TLS stack refused the certificate or the key.
    TlsConfigFailed,
    /// The listening socket could not be bound.
    BindFailed,
}

impl StartupError {
    /// The text reported for this failure.
    pub open spec fn spec_message(self) -> Seq<char> {
        match self {
            StartupError::CertGenerationFailed => "Failed to generate cert"@,
            StartupError::TlsConfigFailed => "Failed to config rustls"@,
            StartupError::BindFailed => "Failed to bind the listener"@,
        }
    }

    /// The text reported for this failure.
    pub fn message(&self) -> (text: &'static str)
        ensures
            text@ == self.spec_message(),
    {
        match self {
            StartupError::CertGenerationFailed => "Failed to generate cert",
            StartupError::TlsConfigFailed => "Failed to config rustls",
            StartupError::BindFailed => "Failed to bind the listener",
        }
    }
}

} // verus!
