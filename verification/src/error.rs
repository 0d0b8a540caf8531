//! What can go wrong, and what each failure means for the caller.

use crate::version::{decimal_digits, push_decimal, MINIMUM_BRIDGE_VERSION};
use vstd::prelude::*;
use vstd::string::*;

verus! {

/// A fault in the client's configuration, found before anything is sent.
#[derive(Clone, Copy, Debug, PartialEq, Eq, Structural)]
pub enum ConfigurationError {
    /// No bridge URL was configured.
    MissingUrl,
    /// The bridge URL, joined with an endpoint, is not an absolute URL.
    InvalidUrl,
    /// The trust material is absent although a CA path was configured, or it
    /// is not a PEM-encoded certificate.
    InvalidCertificate,
    /// Pairing is needed and no application name was configured.
    MissingAppName,
}

/// The failures of the client.
#[derive(Clone, Debug, PartialEq, Eq)]
pub enum BridgeError {
    /// The configuration cannot be used.
    Configuration(ConfigurationError),
    /// The bridge reported a firmware version that is not a number.
    InvalidVersionFormat,
    /// The bridge's firmware is older than [`MINIMUM_BRIDGE_VERSION`].
    UnsupportedBridgeVersion,
    /// The bridge refused to pair, most often because its link button was not
    /// pressed; holds the bridge's description.
    PairingRejected(String),
    /// A resource call was made on a handle that is not ready.
    NotRegistered,
    /// The bridge answered without error and without the resource asked for.
    NotFound,
    /// The bridge reported an error in its reply; holds its description.
    ServerError(String),
    /// The exchange with the bridge failed; holds the transport's account.
    TransportError(String),
    /// A reply came that the bootstrap was not waiting for, or that lacks what
    /// the protocol promises.
    UnexpectedReply,
}

/// The mathematical form of a [`BridgeError`].
pub enum BridgeErrorView {
    Configuration(ConfigurationError),
    InvalidVersionFormat,
    UnsupportedBridgeVersion,
    PairingRejected(Seq<char>),
    NotRegistered,
    NotFound,
    ServerError(Seq<char>),
    TransportError(Seq<char>),
    UnexpectedReply,
}

impl View for BridgeError {
    type V = BridgeErrorView;

    open spec fn view(&self) -> BridgeErrorView {
        match self {
            BridgeError::Configuration(c) => BridgeErrorView::Configuration(*c),
            BridgeError::InvalidVersionFormat => BridgeErrorView::InvalidVersionFormat,
            BridgeError::UnsupportedBridgeVersion => BridgeErrorView::UnsupportedBridgeVersion,
            BridgeError::PairingRejected(d) => BridgeErrorView::PairingRejected(d@),
            BridgeError::NotRegistered => BridgeErrorView::NotRegistered,
            BridgeError::NotFound => BridgeErrorView::NotFound,
            BridgeError::ServerError(d) => BridgeErrorView::ServerError(d@),
            BridgeError::TransportError(d) => BridgeErrorView::TransportError(d@),
            BridgeError::UnexpectedReply => BridgeErrorView::UnexpectedReply,
        }
    }
}

impl DeepView for BridgeError {
    type V = BridgeErrorView;

    open spec fn deep_view(&self) -> BridgeErrorView {
        self@
    }
}

/// The mathematical form of a call's result: the form of what it returned, or
/// the form of the error.
pub open spec fn outcome<T: DeepView>(r: Result<T, BridgeError>) -> Result<T::V, BridgeErrorView> {
    match r {
        Ok(value) => Ok(value.deep_view()),
        Err(error) => Err(error@),
    }
}

impl BridgeErrorView {
    /// Whether no retry can help: the configuration, the bridge's firmware or
    /// the calling program has to change first.
    pub open spec fn is_fatal(self) -> bool {
        self is Configuration || self is InvalidVersionFormat || self is UnsupportedBridgeVersion
            || self is NotRegistered
    }

    /// The text that reports the error to a person.
    pub open spec fn message(self) -> Seq<char> {
        match self {
            BridgeErrorView::Configuration(ConfigurationError::MissingUrl) => "no bridge URL configured"@,
            BridgeErrorView::Configuration(ConfigurationError::InvalidUrl) => "invalid bridge URL"@,
            BridgeErrorView::Configuration(ConfigurationError::InvalidCertificate) => "invalid CA certificate"@,
            BridgeErrorView::Configuration(ConfigurationError::MissingAppName) => "no application name configured"@,
            BridgeErrorView::InvalidVersionFormat => "Hue Bridge SW Version is not a number"@,
            BridgeErrorView::UnsupportedBridgeVersion => "Hue Bridge SW Version smaller than: "@
                + decimal_digits(MINIMUM_BRIDGE_VERSION as nat),
            BridgeErrorView::PairingRejected(description) => description,
            BridgeErrorView::NotRegistered => "application is not registered with the bridge"@,
            BridgeErrorView::NotFound => "resource not found"@,
            BridgeErrorView::ServerError(description) => description,
            BridgeErrorView::TransportError(description) => description,
            BridgeErrorView::UnexpectedReply => "unexpected reply from the bridge"@,
        }
    }
}

impl BridgeError {
    /// Whether no retry can help.
    pub fn is_fatal(&self) -> (fatal: bool)
        ensures
            fatal == self@.is_fatal(),
    {
        match self {
            BridgeError::Configuration(_) => true,
            BridgeError::InvalidVersionFormat => true,
            BridgeError::UnsupportedBridgeVersion => true,
            BridgeError::NotRegistered => true,
            _ => false,
        }
    }

    /// The text that reports the error to a person. For an error that the
    /// bridge or the transport described, it is that description.
    pub fn message(&self) -> (text: String)
        ensures
            text@ == self@.message(),
    {
        match self {
            BridgeError::Configuration(ConfigurationError::MissingUrl) => String::from_str(
                "no bridge URL configured",
            ),
            BridgeError::Configuration(ConfigurationError::InvalidUrl) => String::from_str(
                "invalid bridge URL",
            ),
            BridgeError::Configuration(ConfigurationError::InvalidCertificate) => String::from_str(
                "invalid CA certificate",
            ),
            BridgeError::Configuration(ConfigurationError::MissingAppName) => String::from_str(
                "no application name configured",
            ),
            BridgeError::InvalidVersionFormat => String::from_str(
                "Hue Bridge SW Version is not a number",
            ),
            BridgeError::UnsupportedBridgeVersion => {
                let mut text = String::from_str("Hue Bridge SW Version smaller than: ");
                push_decimal(&mut text, MINIMUM_BRIDGE_VERSION);
                text
            },
            BridgeError::PairingRejected(description) => description.clone(),
            BridgeError::NotRegistered => String::from_str(
                "application is not registered with the bridge",
            ),
            BridgeError::NotFound => String::from_str("resource not found"),
            BridgeError::ServerError(description) => description.clone(),
            BridgeError::TransportError(description) => description.clone(),
            BridgeError::UnexpectedReply => String::from_str("unexpected reply from the bridge"),
        }
    }
}

} // verus!
