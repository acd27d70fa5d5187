use vstd::prelude::*;

verus! {

/// Raised when an operation that needs an ILUMA-class device is attempted on
/// another model.
#[derive(Debug, Clone, Copy, PartialEq, Eq, Structural)]
pub struct NotIlumaError;

impl NotIlumaError {
    /// The user-facing description of this error.
    pub fn message(&self) -> (r: String)
        ensures
            r@ == "This device is not an IQOS ILUMA model"@,
    {
        "This device is not an IQOS ILUMA model".to_owned()
    }
}

/// The protocol engine's error taxonomy. Transport failures of the BLE stack
/// are surfaced by the unverified transport layer and never constructed here.
#[derive(Debug)]
pub enum IQOSError {
    /// The device is not an ILUMA-class model.
    NotIluma(NotIlumaError),
    /// A malformed or unexpected response, or invalid user-supplied settings.
    ConfigurationError(String),
    /// A failure while configuring the auto-start feature.
    AutoStartError(String),
    /// A failure at the adapter level.
    AdapterError(String),
    /// The operation is not supported on this device's capability tier.
    IncompatibleModelError,
}

impl IQOSError {
    /// True exactly when this is a configuration error carrying `msg`.
    pub open spec fn is_configuration_error(&self, msg: Seq<char>) -> bool {
        match self {
            IQOSError::ConfigurationError(m) => m@ == msg,
            _ => false,
        }
    }
}

} // verus!
