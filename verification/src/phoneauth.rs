//! Phone-based authentication: the desktop asks the phone to approve an
//! unlock, sudo or polkit request with a biometric check.
use crate::text::owned;
use vstd::prelude::*;

verus! {

/// Packet type of an authentication request.
pub const PACKET_TYPE_AUTH_REQUEST: &'static str = "cconnect.auth.request";

/// Packet type of an authentication response.
pub const PACKET_TYPE_AUTH_RESPONSE: &'static str = "cconnect.auth.response";

/// Packet type of an authentication cancellation.
pub const PACKET_TYPE_AUTH_CANCEL: &'static str = "cconnect.auth.cancel";

/// Packet type of a capabilities announcement.
pub const PACKET_TYPE_AUTH_CAPABILITIES: &'static str = "cconnect.auth.capabilities";

/// Kind of check the phone performs.
#[derive(Debug, Clone, Copy, PartialEq, Eq, Structural)]
pub enum BiometricType {
    /// Fingerprint.
    Fingerprint,
    /// Face recognition.
    Face,
    /// PIN code.
    Pin,
    /// No check.
    NoCheck,
}

/// Whether a check is biometric (fingerprint or face).
pub open spec fn is_biometric_kind(b: BiometricType) -> bool {
    b == BiometricType::Fingerprint || b == BiometricType::Face
}

impl BiometricType {
    /// Human-readable description.
    pub fn description(&self) -> (r: &'static str)
        ensures
            r@ == (match *self {
                BiometricType::Fingerprint => "Fingerprint"@,
                BiometricType::Face => "Face recognition"@,
                BiometricType::Pin => "PIN code"@,
                BiometricType::NoCheck => "None"@,
            }),
    {
        match self {
            BiometricType::Fingerprint => "Fingerprint",
            BiometricType::Face => "Face recognition",
            BiometricType::Pin => "PIN code",
            BiometricType::NoCheck => "None",
        }
    }

    /// Whether this is a biometric check (fingerprint or face).
    pub fn is_biometric(&self) -> (r: bool)
        ensures
            r == is_biometric_kind(*self),
    {
        match self {
            BiometricType::Fingerprint | BiometricType::Face => true,
            _ => false,
        }
    }
}

/// What the phone can do, as it announces it.
#[derive(Debug)]
pub struct AuthCapabilities {
    /// Available checks.
    pub biometrics: Vec<BiometricType>,
    /// The phone's public key.
    pub public_key: String,
    /// Longest wait for a response, in milliseconds.
    pub max_timeout_ms: u64,
    /// Whether the phone is locked.
    pub device_locked: bool,
}

impl AuthCapabilities {
    /// Capabilities with the given fields.
    pub fn new(biometrics: Vec<BiometricType>, public_key: &str, max_timeout_ms: u64, device_locked: bool) -> (r: Self)
        ensures
            r.biometrics@ == biometrics@,
            r.public_key@ == public_key@,
            r.max_timeout_ms == max_timeout_ms,
            r.device_locked == device_locked,
    {
        Self { biometrics, public_key: owned(public_key), max_timeout_ms, device_locked }
    }

    /// Whether some available check is biometric.
    pub fn supports_biometric(&self) -> (r: bool)
        ensures
            r == exists|i: int| 0 <= i < self.biometrics@.len() && is_biometric_kind(#[trigger] self.biometrics@[i]),
    {
        let mut i: usize = 0;
        while i < self.biometrics.len()
            invariant
                i <= self.biometrics@.len(),
                forall|j: int| 0 <= j < i ==> !is_biometric_kind(#[trigger] self.biometrics@[j]),
            decreases self.biometrics@.len() - i,
        {
            if self.biometrics[i].is_biometric() {
                return true;
            }
            i = i + 1;
        }
        false
    }

    /// Whether the given check is available.
    pub fn has_biometric(&self, biometric_type: BiometricType) -> (r: bool)
        ensures
            r == self.biometrics@.contains(biometric_type),
    {
        let mut i: usize = 0;
        while i < self.biometrics.len()
            invariant
                i <= self.biometrics@.len(),
                forall|j: int| 0 <= j < i ==> self.biometrics@[j] != biometric_type,
            decreases self.biometrics@.len() - i,
        {
            if self.biometrics[i] == biometric_type {
                assert(self.biometrics@[i as int] == biometric_type);
                return true;
            }
            i = i + 1;
        }
        false
    }

    /// Whether authentication can proceed: the phone is unlocked and offers
    /// a biometric check.
    pub fn is_available(&self) -> (r: bool)
        ensures
            r == (!self.device_locked
                && exists|i: int| 0 <= i < self.biometrics@.len() && is_biometric_kind(#[trigger] self.biometrics@[i])),
    {
        !self.device_locked && self.supports_biometric()
    }
}

/// Kind of request the desktop makes.
#[derive(Debug, Clone, Copy, PartialEq, Eq, Structural)]
pub enum AuthType {
    /// Desktop unlock.
    Unlock,
    /// Administrator command.
    Sudo,
    /// System authorization.
    Polkit,
}

impl AuthType {
    /// Human-readable description.
    pub fn description(&self) -> (r: &'static str)
        ensures
            r@ == (match *self {
                AuthType::Unlock => "Desktop unlock"@,
                AuthType::Sudo => "Administrator command"@,
                AuthType::Polkit => "System authorization"@,
            }),
    {
        match self {
            AuthType::Unlock => "Desktop unlock",
            AuthType::Sudo => "Administrator command",
            AuthType::Polkit => "System authorization",
        }
    }
}

/// Authentication request sent from the desktop to the phone.
#[derive(Debug)]
pub struct AuthRequest {
    /// Request identifier (UUID).
    pub request_id: String,
    /// User to authenticate.
    pub username: String,
    /// Kind of request.
    pub auth_type: AuthType,
    /// Challenge to sign (base64).
    pub challenge: String,
    /// Nonce against replay (base64).
    pub nonce: String,
    /// UNIX timestamp of the request.
    pub timestamp: u64,
    /// Desktop identifier.
    pub desktop_id: String,
    /// Prompt shown on the phone.
    pub prompt: String,
}

impl AuthRequest {
    /// A request with the given fields.
    pub fn new(
        request_id: &str,
        username: &str,
        auth_type: AuthType,
        challenge: &str,
        nonce: &str,
        timestamp: u64,
        desktop_id: &str,
        prompt: &str,
    ) -> (r: Self)
        ensures
            r.request_id@ == request_id@,
            r.username@ == username@,
            r.auth_type == auth_type,
            r.challenge@ == challenge@,
            r.nonce@ == nonce@,
            r.timestamp == timestamp,
            r.desktop_id@ == desktop_id@,
            r.prompt@ == prompt@,
    {
        Self {
            request_id: owned(request_id),
            username: owned(username),
            auth_type,
            challenge: owned(challenge),
            nonce: owned(nonce),
            timestamp,
            desktop_id: owned(desktop_id),
            prompt: owned(prompt),
        }
    }
}

/// Authentication response sent from the phone to the desktop.
#[derive(Debug)]
pub struct AuthResponse {
    /// Identifier of the request answered.
    pub request_id: String,
    /// Nonce of the request answered.
    pub nonce: String,
    /// Whether the request was approved.
    pub approved: bool,
    /// Signature of the challenge, when approved.
    pub signature: Option<String>,
    /// Check that was used.
    pub biometric_type: BiometricType,
    /// Phone identifier.
    pub phone_id: String,
    /// Reason, when denied.
    pub error: Option<String>,
}

impl AuthResponse {
    /// An approval carrying the signature.
    pub fn approved(request_id: &str, nonce: &str, signature: &str, biometric_type: BiometricType, phone_id: &str) -> (r: Self)
        ensures
            r.request_id@ == request_id@,
            r.nonce@ == nonce@,
            r.approved,
            r.signature matches Some(s) && s@ == signature@,
            r.biometric_type == biometric_type,
            r.phone_id@ == phone_id@,
            r.error is None,
    {
        Self {
            request_id: owned(request_id),
            nonce: owned(nonce),
            approved: true,
            signature: Some(owned(signature)),
            biometric_type,
            phone_id: owned(phone_id),
            error: None,
        }
    }

    /// A denial carrying the reason; no check, no signature, and an empty
    /// phone identifier (set by the sender).
    pub fn denied(request_id: &str, nonce: &str, error: &str) -> (r: Self)
        ensures
            r.request_id@ == request_id@,
            r.nonce@ == nonce@,
            !r.approved,
            r.signature is None,
            r.biometric_type == BiometricType::NoCheck,
            r.phone_id@ == Seq::<char>::empty(),
            r.error matches Some(e) && e@ == error@,
    {
        Self {
            request_id: owned(request_id),
            nonce: owned(nonce),
            approved: false,
            signature: None,
            biometric_type: BiometricType::NoCheck,
            phone_id: String::new(),
            error: Some(owned(error)),
        }
    }

    /// The same response with the phone identifier set.
    pub fn with_phone_id(self, phone_id: &str) -> (r: Self)
        ensures
            r.phone_id@ == phone_id@,
            r.request_id == self.request_id,
            r.nonce == self.nonce,
            r.approved == self.approved,
            r.signature == self.signature,
            r.biometric_type == self.biometric_type,
            r.error == self.error,
    {
        let mut s = self;
        s.phone_id = owned(phone_id);
        s
    }
}

} // verus!
