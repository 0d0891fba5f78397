use matrix_client::compose::{callback_url, compose_redirect_url, sso_redirect_params, substitute_redirect};
use matrix_client::provider::OauthProvider;

#[test]
fn callback_url_renders_port_in_decimal() {
    assert_eq!(callback_url(8080), "http://localhost:8080");
    assert_eq!(callback_url(0), "http://localhost:0");
    assert_eq!(callback_url(7), "http://localhost:7");
    assert_eq!(callback_url(65535), "http://localhost:65535");
}

#[test]
fn placeholder_is_substituted_with_callback() {
    let out = compose_redirect_url("https://idp.example/auth?next=REDIRECT", 1234);
    assert_eq!(out, "https://idp.example/auth?next=http://localhost:1234");
}

#[test]
fn every_placeholder_occurrence_is_substituted() {
    let out = substitute_redirect("REDIRECT and REDIRECT", "x");
    assert_eq!(out, "x and x");
}

#[test]
fn template_without_placeholder_is_unchanged() {
    let out = substitute_redirect("https://idp.example/auth?next=nothing", "x");
    assert_eq!(out, "https://idp.example/auth?next=nothing");
}

#[test]
fn github_sso_parameters() {
    let (redirect, idp) = sso_redirect_params(&OauthProvider::Github, 4321);
    assert_eq!(redirect, "http://localhost:4321");
    assert_eq!(idp, "oidc-github");
}

#[test]
fn each_provider_has_its_canonical_idp_id() {
    assert_eq!(OauthProvider::Github.idp_id(), "oidc-github");
    assert_eq!(OauthProvider::Google.idp_id(), "oidc-google");
    assert_eq!(OauthProvider::Gitlab.idp_id(), "oidc-gitlab");
    assert_eq!(OauthProvider::Facebook.idp_id(), "oidc-facebook");
    assert_eq!(OauthProvider::Apple.idp_id(), "oidc-apple");
}
