//! Offline keystore support library.
//!
//! The library manages the lifecycle of a hardware-backed wrap key used to
//! back up key material held in an HSM: a validated key-specification model,
//! an M-of-N threshold-sharing codec for the wrap key, and the ceremony state
//! machines (initialize, restore, key export) that an unverified driver runs
//! against the real device.

use vstd::prelude::*;

pub mod codec;
pub mod config;
pub mod ceremony;
pub mod hsm;
pub mod json;

verus! {

/// Classified errors reported by the ceremonies.
#[derive(Clone, Copy, Debug, PartialEq, Eq, Structural)]
pub enum HsmError {
    /// A domain value could not be represented on the device.
    BadDomain,
    /// A label was too long for the device's label encoding.
    BadLabel,
    /// Self-signed certificate generation failed.
    SelfCertGenFail,
    /// The device reported an unsupported version.
    Version,
    /// A ceremony was asked for with a threshold below one or above the
    /// share count, or an empty wrap key.
    BadThreshold,
    /// A device operation failed; the ceremony stops where it stood.
    DeviceFailed,
    /// A wrap key with the ceremony's identifier is already resident.
    WrapKeyExists,
    /// The output directory already holds an artifact under this label.
    ArtifactExists,
    /// A share entry was empty or all whitespace.
    EmptyShare,
    /// The entered shares do not reconstruct a wrap key.
    RecoveryFailed,
    /// The scheme could not split the wrap key into shares.
    SplitFailed,
    /// A generated key stays resident in the device but its export or the
    /// write of its artifact failed; the operator must resolve it by hand.
    UnexportedKey,
    /// The driver handed the ceremony an event that does not answer the
    /// awaited step.
    Protocol,
}

/// The text each classified error reads as.
pub open spec fn message_text(e: HsmError) -> Seq<char> {
    match e {
        HsmError::BadDomain => "failed conversion from HSM domain"@,
        HsmError::BadLabel => "failed conversion from HSM label"@,
        HsmError::SelfCertGenFail => "failed to create self signed cert for key"@,
        HsmError::Version => "unsupported HSM version"@,
        HsmError::BadThreshold => "threshold must be between one and the share count"@,
        HsmError::DeviceFailed => "device operation failed"@,
        HsmError::WrapKeyExists => "a wrap key with this id is already resident"@,
        HsmError::ArtifactExists => "an artifact with this label already exists"@,
        HsmError::EmptyShare => "share entries must not be empty or blank"@,
        HsmError::RecoveryFailed => "the entered shares do not reconstruct a wrap key"@,
        HsmError::SplitFailed => "failed to split the wrap key into shares"@,
        HsmError::UnexportedKey => "generated key is resident but not exported"@,
        HsmError::Protocol => "event does not answer the awaited ceremony step"@,
    }
}

impl HsmError {
    /// The human-readable cause this error reads as: exactly the text
    /// [`message_text`] fixes for each variant.
    pub fn message(&self) -> (r: &'static str)
        ensures
            r@ == message_text(*self),
    {
        match self {
            HsmError::BadDomain => "failed conversion from HSM domain",
            HsmError::BadLabel => "failed conversion from HSM label",
            HsmError::SelfCertGenFail => "failed to create self signed cert for key",
            HsmError::Version => "unsupported HSM version",
            HsmError::BadThreshold => "threshold must be between one and the share count",
            HsmError::DeviceFailed => "device operation failed",
            HsmError::WrapKeyExists => "a wrap key with this id is already resident",
            HsmError::ArtifactExists => "an artifact with this label already exists",
            HsmError::EmptyShare => "share entries must not be empty or blank",
            HsmError::RecoveryFailed => "the entered shares do not reconstruct a wrap key",
            HsmError::SplitFailed => "failed to split the wrap key into shares",
            HsmError::UnexportedKey => "generated key is resident but not exported",
            HsmError::Protocol => "event does not answer the awaited ceremony step",
        }
    }
}

} // verus!
