//! The ways in which the indexer's operations fail.

use vstd::prelude::*;
use crate::text::labelled;
use vstd::string::StringExecFns;

verus! {

/// Why a payload did not decode.
#[derive(Clone, Copy, Debug, PartialEq, Eq, Structural)]
pub enum DecodeError {
    /// No schema is registered for the program, or the schema defines no
    /// account type of the name asked for.
    NotFound,
    /// The payload ends before the value does.
    Truncated,
    /// The schema holds a type tag for which there is no decoding rule.
    UnsupportedType,
    /// A length prefix announces more than the payload still holds.
    MalformedLength,
}

impl DecodeError {
    /// The text that describes the failure.
    pub open spec fn text(self) -> Seq<char> {
        match self {
            DecodeError::NotFound => "schema or account type not found"@,
            DecodeError::Truncated => "payload is truncated"@,
            DecodeError::UnsupportedType => "unsupported field type"@,
            DecodeError::MalformedLength => "malformed length prefix"@,
        }
    }

    /// A description of the failure.
    pub fn to_string(&self) -> (r: String)
        ensures
            r@ == self.text(),
    {
        match self {
            DecodeError::NotFound => String::from_str("schema or account type not found"),
            DecodeError::Truncated => String::from_str("payload is truncated"),
            DecodeError::UnsupportedType => String::from_str("unsupported field type"),
            DecodeError::MalformedLength => String::from_str("malformed length prefix"),
        }
    }
}

/// A failure of the schema registry or of the decoder.
#[derive(Clone, Debug, PartialEq, Eq)]
pub enum AnchorError {
    /// A schema document was not accepted.
    IdlParseError(String),
    /// An account payload did not decode.
    AccountDataParseError(String),
}

impl AnchorError {
    /// The text of the error: what kind it is, then its detail.
    pub open spec fn text(self) -> Seq<char> {
        match self {
            AnchorError::IdlParseError(m) => "IDL parsing error: "@ + m@,
            AnchorError::AccountDataParseError(m) => "Account data parsing error: "@ + m@,
        }
    }

    /// The error as text.
    pub fn to_string(&self) -> (r: String)
        ensures
            r@ == self.text(),
    {
        match self {
            AnchorError::IdlParseError(m) => labelled("IDL parsing error: ", m.as_str()),
            AnchorError::AccountDataParseError(m) => labelled(
                "Account data parsing error: ",
                m.as_str(),
            ),
        }
    }

    /// The error that reports a payload's decoding failure.
    pub fn from_decode_error(e: DecodeError) -> (r: AnchorError)
        ensures
            r matches AnchorError::AccountDataParseError(m) && m@ == e.text(),
    {
        AnchorError::AccountDataParseError(e.to_string())
    }
}

/// A failure of the indexer.
#[derive(Clone, Debug, PartialEq, Eq)]
pub enum IndexerError {
    /// A storage call failed.
    StorageError(String),
    /// A provider's start or subscription failed.
    RpcError(String),
    /// A schema was not accepted.
    AnchorError(String),
    /// A setting is missing or wrong.
    ConfigError(String),
}

impl IndexerError {
    /// The text of the error: what kind it is, then its detail.
    pub open spec fn text(self) -> Seq<char> {
        match self {
            IndexerError::StorageError(m) => "Storage error: "@ + m@,
            IndexerError::RpcError(m) => "RPC error: "@ + m@,
            IndexerError::AnchorError(m) => "Anchor error: "@ + m@,
            IndexerError::ConfigError(m) => "Configuration error: "@ + m@,
        }
    }

    /// The error as text.
    pub fn to_string(&self) -> (r: String)
        ensures
            r@ == self.text(),
    {
        match self {
            IndexerError::StorageError(m) => labelled("Storage error: ", m.as_str()),
            IndexerError::RpcError(m) => labelled("RPC error: ", m.as_str()),
            IndexerError::AnchorError(m) => labelled("Anchor error: ", m.as_str()),
            IndexerError::ConfigError(m) => labelled("Configuration error: ", m.as_str()),
        }
    }

    /// The indexer's error for a failure of the schema registry: it carries
    /// that failure's whole text.
    pub fn from_anchor_error(e: &AnchorError) -> (r: IndexerError)
        ensures
            r matches IndexerError::AnchorError(m) && m@ == e.text(),
    {
        IndexerError::AnchorError(e.to_string())
    }
}

/// A failure on the providers' side.
#[derive(Clone, Debug, PartialEq, Eq)]
pub enum IngestionError {
    /// A provider could not be registered or started.
    ProviderError(String),
    /// A subscription was refused.
    SubscriptionError(String),
    /// A plugin module did not load.
    PluginLoadError(String),
}

impl IngestionError {
    /// The text of the error: what kind it is, then its detail.
    pub open spec fn text(self) -> Seq<char> {
        match self {
            IngestionError::ProviderError(m) => "Provider error: "@ + m@,
            IngestionError::SubscriptionError(m) => "Subscription error: "@ + m@,
            IngestionError::PluginLoadError(m) => "Plugin load error: "@ + m@,
        }
    }

    /// The error as text.
    pub fn to_string(&self) -> (r: String)
        ensures
            r@ == self.text(),
    {
        match self {
            IngestionError::ProviderError(m) => labelled("Provider error: ", m.as_str()),
            IngestionError::SubscriptionError(m) => labelled("Subscription error: ", m.as_str()),
            IngestionError::PluginLoadError(m) => labelled("Plugin load error: ", m.as_str()),
        }
    }
}

} // verus!
