//! The failures an operation can end in.

use crate::text::{decimal, decimal_text};
use vstd::prelude::*;
use vstd::string::*;

verus! {

/// A required configuration value.
#[derive(Clone, Copy, Debug, PartialEq, Eq, Structural)]
pub enum Setting {
    AccountName,
    AccountKey,
    ContainerName,
    BlobName,
}

impl Setting {
    /// The name of the setting in messages.
    pub open spec fn label(self) -> Seq<char> {
        match self {
            Setting::AccountName => "account name"@,
            Setting::AccountKey => "account key"@,
            Setting::ContainerName => "container name"@,
            Setting::BlobName => "blob name"@,
        }
    }

    /// The name of the setting in messages.
    pub fn as_str(self) -> (r: &'static str)
        ensures
            r@ == self.label(),
    {
        match self {
            Setting::AccountName => "account name",
            Setting::AccountKey => "account key",
            Setting::ContainerName => "container name",
            Setting::BlobName => "blob name",
        }
    }
}

/// Why an operation failed. Every failure is final: nothing is retried.
#[derive(Clone, Debug, PartialEq, Eq)]
pub enum Failure {
    /// A required identity or target value is absent.
    ConfigurationMissing(Setting),
    /// The account key is not valid base64.
    KeyDecodeError,
    /// The HMAC primitive rejected the decoded key.
    SigningError,
    /// The payload is unreadable, or empty where emptiness is disallowed.
    PayloadReadError,
    /// The network or TLS layer failed.
    TransportError,
    /// The service answered with a status outside 200..=299. The body is
    /// kept as it was received.
    RemoteRejection { status: u16, body: Vec<u8> },
    /// The listing is not well-formed XML.
    ResponseParseError,
}

impl Failure {
    /// The failure in words. A rejection names its status; its body is left
    /// to the caller to show.
    pub open spec fn description(self) -> Seq<char> {
        match self {
            Failure::ConfigurationMissing(setting) => "missing configuration: "@ + setting.label(),
            Failure::KeyDecodeError => "the account key is not valid base64"@,
            Failure::SigningError => "the account key cannot be used for signing"@,
            Failure::PayloadReadError => "the payload is unreadable or empty"@,
            Failure::TransportError => "the request could not be sent"@,
            Failure::RemoteRejection { status, .. } => "the service answered with status "@
                + decimal(status as nat),
            Failure::ResponseParseError => "the listing is not well-formed XML"@,
        }
    }

    /// Writes the failure in words.
    pub fn describe(&self) -> (r: String)
        ensures
            r@ == self.description(),
    {
        match self {
            Failure::ConfigurationMissing(setting) => {
                let mut text = String::from_str("missing configuration: ");
                text.append(setting.as_str());
                text
            },
            Failure::KeyDecodeError => String::from_str("the account key is not valid base64"),
            Failure::SigningError => String::from_str("the account key cannot be used for signing"),
            Failure::PayloadReadError => String::from_str("the payload is unreadable or empty"),
            Failure::TransportError => String::from_str("the request could not be sent"),
            Failure::RemoteRejection { status, .. } => {
                let mut text = String::from_str("the service answered with status ");
                text.append(decimal_text(*status as u64).as_str());
                text
            },
            Failure::ResponseParseError => String::from_str("the listing is not well-formed XML"),
        }
    }
}

} // verus!
