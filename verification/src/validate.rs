//! Validation of the credential and network steps.
//!
//! Each screen validates its own raw input and hands the flow
//! controller either a fully valid option set or a human-readable
//! error; the controller itself never validates fields.  The two
//! screens whose rules live in this crate are the password step and
//! the network step.

use vstd::prelude::*;

use crate::config::{NetworkOptions, PasswordOptions};

verus! {

/// Whether a character sequence has the shape of a plausible mail
/// address, as decided by the fixed pattern handed to the regex engine
/// below.  The engine's verdict depends on the characters alone.
pub uninterp spec fn email_shape(s: Seq<char>) -> bool;

/// Relies on `regex::Regex::new` and `regex::Regex::is_match`: compiles
/// the fixed, valid address pattern (`new` fails only on invalid
/// patterns or oversized ones) and reports whether the candidate
/// matches it; the verdict is a function of the candidate alone.
#[verifier::external_body]
fn email_matches(s: &str) -> (r: bool)
    ensures
        r == email_shape(s@),
{
    let pattern = regex::Regex::new(
        r"^[\w\+\-\~]+(\.[\w\+\-\~]+)*@[a-zA-Z0-9\-]+(\.[a-zA-Z0-9\-]+)*$",
    );
    match pattern {
        Ok(re) => re.is_match(s),
        Err(_) => false,
    }
}

/// `s` ends in the suffix `x`.
pub open spec fn seq_ends_with(s: Seq<char>, x: Seq<char>) -> bool {
    s.len() >= x.len() && s.subrange(s.len() - x.len(), s.len() as int) == x
}

/// Character-wise suffix test.
pub fn str_ends_with(s: &str, x: &str) -> (r: bool)
    ensures
        r == seq_ends_with(s@, x@),
{
    let n = s.unicode_len();
    let m = x.unicode_len();
    if n < m {
        return false;
    }
    let tail = s.substring_char(n - m, n);
    crate::msg::str_eq(tail, x)
}

/// A validated credential set: a password of at least five characters,
/// confirmed identically, and an address that is neither the
/// placeholder nor malformed.
pub open spec fn valid_password(p: PasswordOptions) -> bool {
    &&& p.root_password@.len() >= 5
    &&& p.email@ != "mail@example.invalid"@
    &&& email_shape(p.email@)
}

/// A validated network identity: gateway and name server are of the
/// same address family as the host address, and the host name does not
/// end in the reserved suffix.
pub open spec fn valid_network(n: NetworkOptions) -> bool {
    &&& n.gateway.ipv4 == n.address.addr.ipv4
    &&& n.dns_server.ipv4 == n.address.addr.ipv4
    &&& !seq_ends_with(n.fqdn@, ".invalid"@)
}

/// Why the password step rejected its input.
#[derive(Debug, Clone, Copy, PartialEq, Eq, Structural)]
pub enum PasswordError {
    /// Fewer than five characters.
    TooShort,
    /// The confirmation differs from the password.
    Mismatch,
    /// The address is the placeholder of the unconfigured state.
    PlaceholderEmail,
    /// The address does not match the accepted shape.
    MalformedEmail,
}

impl PasswordError {
    /// The human-readable validation error shown in place.
    pub fn message(&self) -> (r: String)
        ensures
            r@ == match self {
                PasswordError::TooShort => "password too short, must be at least 5 characters long"@,
                PasswordError::Mismatch => "passwords do not match"@,
                PasswordError::PlaceholderEmail => "invalid email address"@,
                PasswordError::MalformedEmail => "Email does not look like a valid address (user@domain.tld)"@,
            },
    {
        match self {
            PasswordError::TooShort => "password too short, must be at least 5 characters long".to_owned(),
            PasswordError::Mismatch => "passwords do not match".to_owned(),
            PasswordError::PlaceholderEmail => "invalid email address".to_owned(),
            PasswordError::MalformedEmail => "Email does not look like a valid address (user@domain.tld)".to_owned(),
        }
    }
}

/// Validates the password step's raw input: the password, its
/// confirmation and the administrator address.  Exactly the inputs that
/// pass all four checks — in this order: length, confirmation,
/// placeholder, shape — yield a validated option set.
pub fn validate_password_options(root_password: &str, confirm_password: &str, email: &str) -> (r:
    Result<PasswordOptions, PasswordError>)
    ensures
        match r {
            Ok(p) => {
                &&& p.root_password@ == root_password@
                &&& p.email@ == email@
                &&& root_password@ == confirm_password@
                &&& valid_password(p)
            },
            Err(e) => match e {
                PasswordError::TooShort => root_password@.len() < 5,
                PasswordError::Mismatch => root_password@.len() >= 5 && root_password@
                    != confirm_password@,
                PasswordError::PlaceholderEmail => root_password@.len() >= 5 && root_password@
                    == confirm_password@ && email@ == "mail@example.invalid"@,
                PasswordError::MalformedEmail => root_password@.len() >= 5 && root_password@
                    == confirm_password@ && email@ != "mail@example.invalid"@ && !email_shape(
                    email@,
                ),
            },
        },
{
    if root_password.unicode_len() < 5 {
        Err(PasswordError::TooShort)
    } else if !crate::msg::str_eq(root_password, confirm_password) {
        Err(PasswordError::Mismatch)
    } else if crate::msg::str_eq(email, "mail@example.invalid") {
        Err(PasswordError::PlaceholderEmail)
    } else if !email_matches(email) {
        Err(PasswordError::MalformedEmail)
    } else {
        Ok(PasswordOptions { root_password: root_password.to_owned(), email: email.to_owned() })
    }
}

/// Why the network step rejected its input.
#[derive(Debug, Clone, Copy, PartialEq, Eq, Structural)]
pub enum NetworkError {
    /// The gateway's address family differs from the host address's.
    GatewayFamilyMismatch,
    /// The name server's address family differs from the host address's.
    DnsFamilyMismatch,
    /// The host name ends in the reserved suffix.
    InvalidHostname,
}

impl NetworkError {
    /// The human-readable validation error shown in place.
    pub fn message(&self) -> (r: String)
        ensures
            r@ == match self {
                NetworkError::GatewayFamilyMismatch => "host and gateway IP address version must not differ"@,
                NetworkError::DnsFamilyMismatch => "host and DNS IP address version must not differ"@,
                NetworkError::InvalidHostname => "hostname does not look valid"@,
            },
    {
        match self {
            NetworkError::GatewayFamilyMismatch => "host and gateway IP address version must not differ".to_owned(),
            NetworkError::DnsFamilyMismatch => "host and DNS IP address version must not differ".to_owned(),
            NetworkError::InvalidHostname => "hostname does not look valid".to_owned(),
        }
    }
}

/// Validates the network step's input once the field-level layer has
/// parsed the addresses.  Exactly the inputs whose gateway and name
/// server share the host's address family and whose host name does not
/// end in `.invalid` yield a validated option set; the checks run in
/// that order.
pub fn validate_network_options(candidate: NetworkOptions) -> (r: Result<
    NetworkOptions,
    NetworkError,
>)
    ensures
        match r {
            Ok(n) => n == candidate && valid_network(n),
            Err(e) => match e {
                NetworkError::GatewayFamilyMismatch => candidate.gateway.ipv4
                    != candidate.address.addr.ipv4,
                NetworkError::DnsFamilyMismatch => candidate.gateway.ipv4
                    == candidate.address.addr.ipv4 && candidate.dns_server.ipv4
                    != candidate.address.addr.ipv4,
                NetworkError::InvalidHostname => candidate.gateway.ipv4
                    == candidate.address.addr.ipv4 && candidate.dns_server.ipv4
                    == candidate.address.addr.ipv4 && seq_ends_with(
                    candidate.fqdn@,
                    ".invalid"@,
                ),
            },
        },
{
    if candidate.address.addr.ipv4 != candidate.gateway.ipv4 {
        Err(NetworkError::GatewayFamilyMismatch)
    } else if candidate.address.addr.ipv4 != candidate.dns_server.ipv4 {
        Err(NetworkError::DnsFamilyMismatch)
    } else if str_ends_with(candidate.fqdn.as_str(), ".invalid") {
        Err(NetworkError::InvalidHostname)
    } else {
        Ok(candidate)
    }
}

} // verus!
