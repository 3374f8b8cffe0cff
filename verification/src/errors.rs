//! The error taxonomy of the registration and push protocol.
use vstd::prelude::*;

verus! {

/// Every failure the registration workflow or the push client can report.
///
/// `Unreachable` carries the connection-level diagnostic, and
/// `RegistrationRejected` the server's reason; `PushFailed` keeps the
/// HTTP status and response body of an unclassified push failure.
#[derive(Debug)]
pub enum HaError {
    ConfigIncomplete,
    Unreachable(String),
    IntegrationNotInstalled,
    Unauthorized,
    RegistrationRejected(String),
    MalformedResponse,
    NotRegistered,
    WebhookExpired,
    IntegrationRemoved,
    PushFailed(u16, String),
    NetworkTimeout,
}

impl PartialEq for HaError {
    fn eq(&self, other: &HaError) -> (r: bool) {
        match (self, other) {
            (HaError::ConfigIncomplete, HaError::ConfigIncomplete) => true,
            (HaError::Unreachable(a), HaError::Unreachable(b)) => crate::strutil::str_eq(
                a.as_str(),
                b.as_str(),
            ),
            (HaError::IntegrationNotInstalled, HaError::IntegrationNotInstalled) => true,
            (HaError::Unauthorized, HaError::Unauthorized) => true,
            (HaError::RegistrationRejected(a), HaError::RegistrationRejected(b)) => {
                crate::strutil::str_eq(a.as_str(), b.as_str())
            },
            (HaError::MalformedResponse, HaError::MalformedResponse) => true,
            (HaError::NotRegistered, HaError::NotRegistered) => true,
            (HaError::WebhookExpired, HaError::WebhookExpired) => true,
            (HaError::IntegrationRemoved, HaError::IntegrationRemoved) => true,
            (HaError::PushFailed(s1, b1), HaError::PushFailed(s2, b2)) => {
                *s1 == *s2 && crate::strutil::str_eq(b1.as_str(), b2.as_str())
            },
            (HaError::NetworkTimeout, HaError::NetworkTimeout) => true,
            _ => false,
        }
    }
}

impl vstd::std_specs::cmp::PartialEqSpecImpl for HaError {
    open spec fn obeys_eq_spec() -> bool {
        true
    }

    open spec fn eq_spec(&self, other: &HaError) -> bool {
        match (self, other) {
            (HaError::ConfigIncomplete, HaError::ConfigIncomplete) => true,
            (HaError::Unreachable(a), HaError::Unreachable(b)) => a@ == b@,
            (HaError::IntegrationNotInstalled, HaError::IntegrationNotInstalled) => true,
            (HaError::Unauthorized, HaError::Unauthorized) => true,
            (HaError::RegistrationRejected(a), HaError::RegistrationRejected(b)) => a@ == b@,
            (HaError::MalformedResponse, HaError::MalformedResponse) => true,
            (HaError::NotRegistered, HaError::NotRegistered) => true,
            (HaError::WebhookExpired, HaError::WebhookExpired) => true,
            (HaError::IntegrationRemoved, HaError::IntegrationRemoved) => true,
            (HaError::PushFailed(s1, b1), HaError::PushFailed(s2, b2)) => s1 == s2 && b1@ == b2@,
            (HaError::NetworkTimeout, HaError::NetworkTimeout) => true,
            _ => false,
        }
    }
}

/// The human-readable, diagnosis-oriented text for each error.
pub open spec fn spec_message(e: HaError) -> Seq<char> {
    match e {
        HaError::ConfigIncomplete => "Server URL or access token is not configured"@,
        HaError::Unreachable(m) => "Cannot reach the hub's companion API. "@ + m@,
        HaError::IntegrationNotInstalled => "404: companion integration not loaded or URL not reachable"@,
        HaError::Unauthorized => "401 Unauthorized: invalid or expired access token"@,
        HaError::RegistrationRejected(m) => "Registration rejected: "@ + m@,
        HaError::MalformedResponse => "Registration response was malformed or missing the webhook id"@,
        HaError::NotRegistered => "No webhook id configured"@,
        HaError::WebhookExpired => "410 Gone - webhook expired"@,
        HaError::IntegrationRemoved => "404: webhook not found; re-register the device"@,
        HaError::PushFailed(status, m) => "Push failed ("@ + crate::numfmt::spec_u64_str(
            status as int,
        ) + "): "@ + m@,
        HaError::NetworkTimeout => "Network timeout"@,
    }
}

impl HaError {
    /// Renders the error for display to the user.
    pub fn message(&self) -> (r: String)
        ensures
            r@ == spec_message(*self),
    {
        match self {
            HaError::ConfigIncomplete => String::from_str(
                "Server URL or access token is not configured",
            ),
            HaError::Unreachable(m) => {
                let mut r = String::from_str("Cannot reach the hub's companion API. ");
                r.append(m.as_str());
                r
            },
            HaError::IntegrationNotInstalled => String::from_str(
                "404: companion integration not loaded or URL not reachable",
            ),
            HaError::Unauthorized => String::from_str(
                "401 Unauthorized: invalid or expired access token",
            ),
            HaError::RegistrationRejected(m) => {
                let mut r = String::from_str("Registration rejected: ");
                r.append(m.as_str());
                r
            },
            HaError::MalformedResponse => String::from_str(
                "Registration response was malformed or missing the webhook id",
            ),
            HaError::NotRegistered => String::from_str("No webhook id configured"),
            HaError::WebhookExpired => String::from_str("410 Gone - webhook expired"),
            HaError::IntegrationRemoved => String::from_str(
                "404: webhook not found; re-register the device",
            ),
            HaError::PushFailed(status, m) => {
                let mut r = String::from_str("Push failed (");
                let digits = crate::numfmt::u64_to_string(*status as u64);
                r.append(digits.as_str());
                r.append("): ");
                r.append(m.as_str());
                proof {
                    assert(r@ =~= spec_message(*self));
                }
                r
            },
            HaError::NetworkTimeout => String::from_str("Network timeout"),
        }
    }
}

} // verus!
