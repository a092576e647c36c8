use vstd::prelude::*;

use crate::models::CredentialType;
use vstd::string::StringExecFns;

verus! {

/// The tag that distinguishes each credential kind inside a backend key.
pub open spec fn tag_of(t: CredentialType) -> Seq<char> {
    match t {
        CredentialType::Password => "password"@,
        CredentialType::Token => "token"@,
        CredentialType::CertificateKey => "certificate-key"@,
    }
}

fn type_tag(t: CredentialType) -> (r: &'static str)
    ensures
        r@ == tag_of(t),
{
    match t {
        CredentialType::Password => "password",
        CredentialType::Token => "token",
        CredentialType::CertificateKey => "certificate-key",
    }
}

/// The user part of a backend key: the username joined with the credential
/// kind's tag.
pub open spec fn user_key_of(username: Seq<char>, t: CredentialType) -> Seq<char> {
    username + "/"@ + tag_of(t)
}

/// The full key of a credential identity: the service namespace joined with
/// the user part.
pub open spec fn identity_of(service: Seq<char>, username: Seq<char>, t: CredentialType) -> Seq<
    char,
> {
    service + "/"@ + user_key_of(username, t)
}

/// Build the user part of the backend key for `(username, t)`.
pub fn build_user_key(username: &str, t: CredentialType) -> (r: String)
    ensures
        r@ == user_key_of(username@, t),
{
    let mut s = String::from_str(username);
    s.append("/");
    s.append(type_tag(t));
    s
}

/// Build the full identity key for `(service, username, t)`.
pub fn build_identity_key(service: &str, username: &str, t: CredentialType) -> (r: String)
    ensures
        r@ == identity_of(service@, username@, t),
{
    let mut s = String::from_str(service);
    s.append("/");
    let user = build_user_key(username, t);
    s.append(user.as_str());
    s
}

} // verus!
