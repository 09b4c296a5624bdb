//! Errors of engine platform start-up.

use vstd::prelude::*;
use vstd::string::StringExecFns;

verus! {

/// Why the engine platform could not start.
#[derive(Debug)]
pub enum PlatformError {
    /// The platform was started before.
    AlreadyInitialized,
    /// The platform could not be created.
    PlatformCreation(String),
    /// The engine could not be initialized.
    V8Init(String),
}

/// The message of each error.
pub open spec fn platform_message(e: PlatformError) -> Seq<char> {
    match e {
        PlatformError::AlreadyInitialized => "V8 platform already initialized"@,
        PlatformError::PlatformCreation(s) => "Failed to create V8 platform: "@ + s@,
        PlatformError::V8Init(s) => "Failed to initialize V8: "@ + s@,
    }
}

impl PlatformError {
    /// The error's message.
    pub fn message(&self) -> (r: String)
        ensures
            r@ == platform_message(*self),
    {
        match self {
            PlatformError::AlreadyInitialized => String::from_str("V8 platform already initialized"),
            PlatformError::PlatformCreation(s) => {
                let mut m = String::from_str("Failed to create V8 platform: ");
                m.append(s.as_str());
                m
            },
            PlatformError::V8Init(s) => {
                let mut m = String::from_str("Failed to initialize V8: ");
                m.append(s.as_str());
                m
            },
        }
    }
}

} // verus!
