use hue_bridge::error::ConfigurationError;
use hue_bridge::BridgeError;

#[test]
fn unsupported_version_message_names_the_minimum() {
    assert_eq!(
        BridgeError::UnsupportedBridgeVersion.message(),
        "Hue Bridge SW Version smaller than: 1948086000"
    );
}

#[test]
fn described_errors_report_their_description() {
    assert_eq!(
        BridgeError::PairingRejected("link button not pressed".to_string()).message(),
        "link button not pressed"
    );
    assert_eq!(BridgeError::ServerError("x".to_string()).message(), "x");
    assert_eq!(
        BridgeError::TransportError("connection refused".to_string()).message(),
        "connection refused"
    );
}

#[test]
fn every_error_has_its_message() {
    assert_eq!(
        BridgeError::Configuration(ConfigurationError::MissingUrl).message(),
        "no bridge URL configured"
    );
    assert_eq!(
        BridgeError::Configuration(ConfigurationError::InvalidUrl).message(),
        "invalid bridge URL"
    );
    assert_eq!(
        BridgeError::Configuration(ConfigurationError::InvalidCertificate).message(),
        "invalid CA certificate"
    );
    assert_eq!(
        BridgeError::Configuration(ConfigurationError::MissingAppName).message(),
        "no application name configured"
    );
    assert_eq!(
        BridgeError::InvalidVersionFormat.message(),
        "Hue Bridge SW Version is not a number"
    );
    assert_eq!(
        BridgeError::NotRegistered.message(),
        "application is not registered with the bridge"
    );
    assert_eq!(BridgeError::NotFound.message(), "resource not found");
    assert_eq!(BridgeError::UnexpectedReply.message(), "unexpected reply from the bridge");
}

#[test]
fn fatal_errors_are_those_no_retry_can_mend() {
    assert!(BridgeError::Configuration(ConfigurationError::InvalidUrl).is_fatal());
    assert!(BridgeError::Configuration(ConfigurationError::InvalidCertificate).is_fatal());
    assert!(BridgeError::InvalidVersionFormat.is_fatal());
    assert!(BridgeError::UnsupportedBridgeVersion.is_fatal());
    assert!(BridgeError::NotRegistered.is_fatal());
    assert!(!BridgeError::PairingRejected("link button not pressed".to_string()).is_fatal());
    assert!(!BridgeError::NotFound.is_fatal());
    assert!(!BridgeError::ServerError("x".to_string()).is_fatal());
    assert!(!BridgeError::TransportError("timeout".to_string()).is_fatal());
    assert!(!BridgeError::UnexpectedReply.is_fatal());
}
