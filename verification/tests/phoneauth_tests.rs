use cosmic_connect_plugins::phoneauth::{
    AuthCapabilities, AuthRequest, AuthResponse, AuthType, BiometricType, PACKET_TYPE_AUTH_CANCEL,
    PACKET_TYPE_AUTH_CAPABILITIES, PACKET_TYPE_AUTH_REQUEST, PACKET_TYPE_AUTH_RESPONSE,
};

#[test]
fn test_biometric_type_description() {
    assert_eq!(BiometricType::Fingerprint.description(), "Fingerprint");
    assert_eq!(BiometricType::Face.description(), "Face recognition");
    assert_eq!(BiometricType::Pin.description(), "PIN code");
    assert_eq!(BiometricType::NoCheck.description(), "None");
}

#[test]
fn test_biometric_type_is_biometric() {
    assert!(BiometricType::Fingerprint.is_biometric());
    assert!(BiometricType::Face.is_biometric());
    assert!(!BiometricType::Pin.is_biometric());
    assert!(!BiometricType::NoCheck.is_biometric());
}

#[test]
fn test_auth_capabilities_new() {
    let capabilities = AuthCapabilities::new(
        vec![BiometricType::Fingerprint, BiometricType::Face],
        "test_public_key",
        60000,
        false,
    );

    assert_eq!(capabilities.biometrics.len(), 2);
    assert_eq!(capabilities.public_key, "test_public_key");
    assert_eq!(capabilities.max_timeout_ms, 60000);
    assert!(!capabilities.device_locked);
}

#[test]
fn test_auth_capabilities_supports_biometric() {
    let with_bio = AuthCapabilities::new(vec![BiometricType::Fingerprint, BiometricType::Face], "key", 30000, false);
    assert!(with_bio.supports_biometric());

    let pin_only = AuthCapabilities::new(vec![BiometricType::Pin], "key", 30000, false);
    assert!(!pin_only.supports_biometric());

    let none = AuthCapabilities::new(vec![BiometricType::NoCheck], "key", 30000, false);
    assert!(!none.supports_biometric());

    let empty = AuthCapabilities::new(vec![], "key", 30000, false);
    assert!(!empty.supports_biometric());
}

#[test]
fn test_auth_capabilities_has_biometric() {
    let capabilities = AuthCapabilities::new(vec![BiometricType::Fingerprint, BiometricType::Pin], "key", 30000, false);

    assert!(capabilities.has_biometric(BiometricType::Fingerprint));
    assert!(capabilities.has_biometric(BiometricType::Pin));
    assert!(!capabilities.has_biometric(BiometricType::Face));
    assert!(!capabilities.has_biometric(BiometricType::NoCheck));
}

#[test]
fn test_auth_capabilities_is_available() {
    let available = AuthCapabilities::new(vec![BiometricType::Fingerprint], "key", 30000, false);
    assert!(available.is_available());

    let locked = AuthCapabilities::new(vec![BiometricType::Fingerprint], "key", 30000, true);
    assert!(!locked.is_available());

    let no_bio = AuthCapabilities::new(vec![BiometricType::Pin], "key", 30000, false);
    assert!(!no_bio.is_available());

    let locked_no_bio = AuthCapabilities::new(vec![BiometricType::NoCheck], "key", 30000, true);
    assert!(!locked_no_bio.is_available());
}

#[test]
fn test_auth_capabilities_empty_biometrics() {
    let capabilities = AuthCapabilities::new(vec![], "key", 30000, false);

    assert!(!capabilities.supports_biometric());
    assert!(!capabilities.is_available());
    assert!(!capabilities.has_biometric(BiometricType::Fingerprint));
}

#[test]
fn test_packet_type_constants() {
    assert_eq!(PACKET_TYPE_AUTH_REQUEST, "cconnect.auth.request");
    assert_eq!(PACKET_TYPE_AUTH_RESPONSE, "cconnect.auth.response");
    assert_eq!(PACKET_TYPE_AUTH_CANCEL, "cconnect.auth.cancel");
    assert_eq!(PACKET_TYPE_AUTH_CAPABILITIES, "cconnect.auth.capabilities");
}

#[test]
fn test_auth_type_description() {
    assert_eq!(AuthType::Unlock.description(), "Desktop unlock");
    assert_eq!(AuthType::Sudo.description(), "Administrator command");
    assert_eq!(AuthType::Polkit.description(), "System authorization");
}

#[test]
fn test_auth_request_new() {
    let request = AuthRequest::new(
        "550e8400-e29b-41d4-a716-446655440000",
        "alice",
        AuthType::Unlock,
        "base64_challenge",
        "base64_nonce",
        1706745600,
        "cosmic-desktop-abc123",
        "Unlock COSMIC Desktop",
    );

    assert_eq!(request.request_id, "550e8400-e29b-41d4-a716-446655440000");
    assert_eq!(request.username, "alice");
    assert_eq!(request.auth_type, AuthType::Unlock);
    assert_eq!(request.challenge, "base64_challenge");
    assert_eq!(request.nonce, "base64_nonce");
    assert_eq!(request.timestamp, 1706745600);
    assert_eq!(request.desktop_id, "cosmic-desktop-abc123");
    assert_eq!(request.prompt, "Unlock COSMIC Desktop");
}

#[test]
fn test_auth_response_approved() {
    let response = AuthResponse::approved("request-123", "nonce-456", "signature-789", BiometricType::Fingerprint, "phone-001");

    assert_eq!(response.request_id, "request-123");
    assert_eq!(response.nonce, "nonce-456");
    assert!(response.approved);
    assert_eq!(response.signature, Some("signature-789".to_string()));
    assert_eq!(response.biometric_type, BiometricType::Fingerprint);
    assert_eq!(response.phone_id, "phone-001");
    assert!(response.error.is_none());
}

#[test]
fn test_auth_response_denied() {
    let response = AuthResponse::denied("request-456", "nonce-789", "User cancelled");

    assert_eq!(response.request_id, "request-456");
    assert_eq!(response.nonce, "nonce-789");
    assert!(!response.approved);
    assert!(response.signature.is_none());
    assert_eq!(response.biometric_type, BiometricType::NoCheck);
    assert_eq!(response.error, Some("User cancelled".to_string()));
}

#[test]
fn test_auth_response_with_phone_id() {
    let response = AuthResponse::denied("req", "nonce", "error").with_phone_id("phone-002");

    assert_eq!(response.phone_id, "phone-002");
}

#[test]
fn auth_response_with_phone_id_keeps_the_rest() {
    let response = AuthResponse::approved("r", "n", "s", BiometricType::Face, "old").with_phone_id("new");
    assert_eq!(response.phone_id, "new");
    assert_eq!(response.request_id, "r");
    assert!(response.approved);
    assert_eq!(response.signature, Some("s".to_string()));
    assert_eq!(response.biometric_type, BiometricType::Face);
}
