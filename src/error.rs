//! Failure kinds of ingestion and dispatch, with their messages and the
//! status code each one is recorded under.
use vstd::prelude::*;

verus! {

/// A failure while persisting or dispatching a request. Errors raised by the
/// store, the chain node or the key and hex parsers carry their message.
#[derive(Clone, Debug)]
pub enum AppError {
    SQLError(String),
    PoolError(String),
    FromHexError(String),
    FromHexError2(String),
    WalletError(String),
    ProviderError(String),
    RequestError(String),
    PrivateKeyError,
    KeyError(String),
}

impl AppError {
    /// The human-readable message recorded as `fail_reason`.
    pub open spec fn spec_message(&self) -> Seq<char> {
        match self {
            AppError::SQLError(m) => m@,
            AppError::PoolError(m) => m@,
            AppError::FromHexError(m) => m@,
            AppError::FromHexError2(m) => m@,
            AppError::WalletError(m) => m@,
            AppError::ProviderError(m) => m@,
            AppError::RequestError(m) => m@,
            AppError::PrivateKeyError => "incorrect private key"@,
            AppError::KeyError(k) => "can't get key "@ + k@ + " from item"@,
        }
    }

    /// Store and chain-provider failures are recorded as 400, all others as 500.
    pub open spec fn spec_status_code(&self) -> i32 {
        match self {
            AppError::SQLError(_) | AppError::ProviderError(_) => 400,
            _ => 500,
        }
    }

    pub fn message(&self) -> (r: String)
        ensures
            r@ == self.spec_message(),
    {
        match self {
            AppError::SQLError(m) => m.clone(),
            AppError::PoolError(m) => m.clone(),
            AppError::FromHexError(m) => m.clone(),
            AppError::FromHexError2(m) => m.clone(),
            AppError::WalletError(m) => m.clone(),
            AppError::ProviderError(m) => m.clone(),
            AppError::RequestError(m) => m.clone(),
            AppError::PrivateKeyError => String::from_str("incorrect private key"),
            AppError::KeyError(k) => String::from_str("can't get key ").concat(k.as_str()).concat(
                " from item",
            ),
        }
    }

    pub fn status_code(&self) -> (r: i32)
        ensures
            r == self.spec_status_code(),
    {
        match self {
            AppError::SQLError(_) | AppError::ProviderError(_) => 400,
            _ => 500,
        }
    }
}

} // verus!
