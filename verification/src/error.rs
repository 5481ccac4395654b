use vstd::prelude::*;

verus! {

/// The error taxonomy for engine lifecycle management and conversion jobs.
///
/// Every failure the library reports is one of these variants; the
/// contracts of the lifecycle functions say exactly which variant comes
/// back on which input.
#[derive(Debug)]
pub enum Error {
    /// A failure unrelated to the engine itself (for example writing
    /// output to a sink), carried as a message.
    IoError(String),
    /// The engine may be initialized at most once per process; this is
    /// returned by every initialization attempt after the first.
    IllegalInit,
    /// The engine has not been initialized yet, or has already been
    /// permanently torn down.
    NotInitialized,
    /// The engine is busy with another job; a new job cannot start
    /// until the current one is fully released.
    Blocked,
    /// An operation ran on a different thread than the one that
    /// initialized the engine: `ThreadMismatch(expected, actual)`.
    ThreadMismatch(usize, usize),
    /// A setting name or value contains an embedded null character and
    /// cannot cross into the native engine: `EncodingFailure(name, value)`.
    EncodingFailure(String, String),
    /// The native engine reported that the conversion failed; the
    /// message joins every error the job accumulated, in firing order.
    ConversionFailed(String),
    /// The native engine rejected a global setting:
    /// `GlobalSettingFailure(name, value)`.
    GlobalSettingFailure(String, String),
    /// The native engine rejected an object setting:
    /// `ObjectSettingFailure(name, value)`.
    ObjectSettingFailure(String, String),
}

} // verus!
