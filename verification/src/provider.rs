//! Identity-provider selectors and their canonical identifier strings.

use vstd::prelude::*;

verus! {

/// The identity providers a caller may select for single sign-on.
#[derive(Clone, Copy, Debug, PartialEq, Eq, Structural)]
pub enum OauthProvider {
    Github,
    Google,
    Gitlab,
    Facebook,
    Apple,
}

/// The canonical identity-provider identifier sent to the homeserver.
pub open spec fn idp_id_spec(p: OauthProvider) -> Seq<char> {
    match p {
        OauthProvider::Github => "oidc-github"@,
        OauthProvider::Google => "oidc-google"@,
        OauthProvider::Gitlab => "oidc-gitlab"@,
        OauthProvider::Facebook => "oidc-facebook"@,
        OauthProvider::Apple => "oidc-apple"@,
    }
}

impl OauthProvider {
    /// The provider's canonical identifier string.
    pub fn idp_id(&self) -> (r: String)
        ensures
            r@ == idp_id_spec(*self),
    {
        match self {
            OauthProvider::Github => "oidc-github".to_owned(),
            OauthProvider::Google => "oidc-google".to_owned(),
            OauthProvider::Gitlab => "oidc-gitlab".to_owned(),
            OauthProvider::Facebook => "oidc-facebook".to_owned(),
            OauthProvider::Apple => "oidc-apple".to_owned(),
        }
    }
}

} // verus!
