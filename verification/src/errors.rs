//! Error types of the login flows and the error classes that events report.
use vstd::prelude::*;

verus! {

/// The error class that an event reports to its callback.
#[derive(Debug, Clone, Copy, PartialEq, Eq, Structural)]
pub enum LoreError {
    Connection,
    SlowDown,
    Oversized,
    NotFound,
    Internal,
}

/// Why a login with a given token failed.
#[derive(Debug, Clone)]
pub enum LoginError {
    Disconnected,
    SlowDown,
    NotAuthorized,
    NotAuthenticated,
    Maintenance,
    NotFound,
    NoRemote,
    NotSupported,
    Oversized,
    TokenNotFound,
    Internal(String),
}

impl LoginError {
    /// The error class reported for this error: four kinds have a class of their own, every other
    /// one is internal.
    pub open spec fn class(&self) -> LoreError {
        match self {
            LoginError::Disconnected => LoreError::Connection,
            LoginError::SlowDown => LoreError::SlowDown,
            LoginError::Oversized => LoreError::Oversized,
            LoginError::NotFound => LoreError::NotFound,
            _ => LoreError::Internal,
        }
    }

    /// Translates the error to the class that events report.
    pub fn translated(&self) -> (res: LoreError)
        ensures
            res == self.class(),
    {
        match self {
            LoginError::Disconnected => LoreError::Connection,
            LoginError::SlowDown => LoreError::SlowDown,
            LoginError::Oversized => LoreError::Oversized,
            LoginError::NotFound => LoreError::NotFound,
            _ => LoreError::Internal,
        }
    }

    /// An internal error with the given message.
    pub fn internal(message: &str) -> (res: Self)
        ensures
            res.is_internal(message@),
    {
        LoginError::Internal(message.to_owned())
    }

    /// This is an internal error with exactly this message.
    pub open spec fn is_internal(&self, message: Seq<char>) -> bool {
        self matches LoginError::Internal(text) && text@ == message
    }
}

/// Why an interactive login failed.
#[derive(Debug, Clone)]
pub enum InteractiveLoginError {
    Disconnected,
    SlowDown,
    NotAuthorized,
    NotAuthenticated,
    Maintenance,
    NotFound,
    NoRemote,
    NotSupported,
    Oversized,
    TokenNotFound,
    Internal(String),
}

impl InteractiveLoginError {
    /// The error class reported for this error: four kinds have a class of their own, every other
    /// one is internal.
    pub open spec fn class(&self) -> LoreError {
        match self {
            InteractiveLoginError::Disconnected => LoreError::Connection,
            InteractiveLoginError::SlowDown => LoreError::SlowDown,
            InteractiveLoginError::Oversized => LoreError::Oversized,
            InteractiveLoginError::NotFound => LoreError::NotFound,
            _ => LoreError::Internal,
        }
    }

    /// Translates the error to the class that events report.
    pub fn translated(&self) -> (res: LoreError)
        ensures
            res == self.class(),
    {
        match self {
            InteractiveLoginError::Disconnected => LoreError::Connection,
            InteractiveLoginError::SlowDown => LoreError::SlowDown,
            InteractiveLoginError::Oversized => LoreError::Oversized,
            InteractiveLoginError::NotFound => LoreError::NotFound,
            _ => LoreError::Internal,
        }
    }

    /// An internal error with the given message.
    pub fn internal(message: &str) -> (res: Self)
        ensures
            res.is_internal(message@),
    {
        InteractiveLoginError::Internal(message.to_owned())
    }

    /// This is an internal error with exactly this message.
    pub open spec fn is_internal(&self, message: Seq<char>) -> bool {
        self matches InteractiveLoginError::Internal(text) && text@ == message
    }
}

/// Why an operation on the token store failed.
#[derive(Debug, Clone)]
pub enum AuthStoreError {
    TokenNotFound,
    Internal(String),
}

impl AuthStoreError {
    /// Translates the error to the class that events report: always an internal one.
    pub fn translated(&self) -> (res: LoreError)
        ensures
            res == LoreError::Internal,
    {
        LoreError::Internal
    }

    /// An internal error with the given message.
    pub fn internal(message: &str) -> (res: Self)
        ensures
            res.is_internal(message@),
    {
        AuthStoreError::Internal(message.to_owned())
    }

    /// This is an internal error with exactly this message.
    pub open spec fn is_internal(&self, message: Seq<char>) -> bool {
        self matches AuthStoreError::Internal(text) && text@ == message
    }
}

} // verus!
