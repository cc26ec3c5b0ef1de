//! Error taxonomy of the toolkit.
//!
//! Parameter and decode errors are returned to the caller with a
//! human-readable message; resource and timing errors are fatal to the window
//! that raised them, because silently degrading timing precision would break
//! the toolkit's core promise of trustworthy onset timestamps.

use vstd::prelude::*;

verus! {

/// An error raised by the presentation core.
#[derive(Debug, Clone, PartialEq, Eq)]
pub enum PsydkError {
    /// An invalid combination of arguments (for example both `repeat_frames`
    /// and `repeat_time` set, or a non-integer frame count in pedantic mode).
    /// The frame is not presented and no GPU work is performed.
    ParameterError(String),
    /// Adapter/device/surface creation failure or a texture/LUT dimension
    /// mismatch. Fatal to the window.
    ResourceError(String),
    /// An I/O failure reported while loading a resource or writing a record.
    IOError(String),
    /// An image or font could not be decoded.
    DecodeError(String),
    /// A platform present-completion wait exceeded its bound. Fatal to the
    /// window's presentation loop.
    TimingError(String),
    /// A monitor query could not be answered (for example no reported
    /// refresh rate). Non-fatal; the caller decides the fallback.
    MonitorError(String),
}

impl PsydkError {
    /// The human-readable message carried by this error.
    pub fn message(&self) -> (msg: &String)
        ensures
            msg == self.spec_message(),
    {
        match self {
            PsydkError::ParameterError(m) => m,
            PsydkError::ResourceError(m) => m,
            PsydkError::IOError(m) => m,
            PsydkError::DecodeError(m) => m,
            PsydkError::TimingError(m) => m,
            PsydkError::MonitorError(m) => m,
        }
    }

    /// The message of an error, independent of its variant.
    pub open spec fn spec_message(&self) -> String {
        match self {
            PsydkError::ParameterError(m) => *m,
            PsydkError::ResourceError(m) => *m,
            PsydkError::IOError(m) => *m,
            PsydkError::DecodeError(m) => *m,
            PsydkError::TimingError(m) => *m,
            PsydkError::MonitorError(m) => *m,
        }
    }

    /// True for the variants that the caller may recover from: parameter,
    /// decode, I/O and monitor errors. Resource and timing errors are fatal
    /// to the window that raised them.
    pub open spec fn spec_recoverable(&self) -> bool {
        match self {
            PsydkError::ParameterError(_) => true,
            PsydkError::ResourceError(_) => false,
            PsydkError::IOError(_) => true,
            PsydkError::DecodeError(_) => true,
            PsydkError::TimingError(_) => false,
            PsydkError::MonitorError(_) => true,
        }
    }

    /// Whether the caller may recover from this error.
    pub fn recoverable(&self) -> (r: bool)
        ensures
            r == self.spec_recoverable(),
    {
        match self {
            PsydkError::ParameterError(_) => true,
            PsydkError::ResourceError(_) => false,
            PsydkError::IOError(_) => true,
            PsydkError::DecodeError(_) => true,
            PsydkError::TimingError(_) => false,
            PsydkError::MonitorError(_) => true,
        }
    }
}

/// Result alias used throughout the toolkit.
pub type PsydkResult<T> = Result<T, PsydkError>;

} // verus!
