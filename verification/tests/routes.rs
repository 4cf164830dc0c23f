use m_rs_lib::routes::asset::{asset_for, Asset};
use m_rs_lib::routes::creator::{creator_page_limit, parse_u32};
use m_rs_lib::routes::post::{failure_message, post_id_from_slug};
use m_rs_lib::routes::user::{user_redirect, UserRedirect};

#[test]
fn slug_ids() {
    assert_eq!(post_id_from_slug("my-title-0123456789ab"), Some("0123456789ab".to_string()));
    assert_eq!(post_id_from_slug("ABCDEF012345"), Some("ABCDEF012345".to_string()));
    assert_eq!(post_id_from_slug("x-0123456789abc"), Some("123456789abc".to_string()));
    assert_eq!(post_id_from_slug("my-title-0123456789ag"), None);
    assert_eq!(post_id_from_slug("short"), None);
    assert_eq!(post_id_from_slug("0123456789ab-"), None);
}

#[test]
fn failure_body() {
    assert_eq!(failure_message("boom"), "Something went wrong: boom");
}

#[test]
fn redirects() {
    assert_eq!(user_redirect(Some("ann")), UserRedirect::To("/user/ann/posts".to_string()));
    assert_eq!(user_redirect(None), UserRedirect::MissingUsername);
}

#[test]
fn assets() {
    assert_eq!(asset_for("main.css"), Some(Asset::MainCss));
    assert_eq!(asset_for("main.js"), None);
    assert_eq!(asset_for(""), None);
}

#[test]
fn u32_parsing_matches_std() {
    for s in ["", "+", "-", "0", "+7", "-7", "42", "4294967295", "4294967296", "99999999999", "1a", " 1", "007"] {
        assert_eq!(parse_u32(s), s.parse::<u32>().ok(), "{}", s);
    }
}

#[test]
fn page_limits() {
    assert_eq!(creator_page_limit(None), 25);
    assert_eq!(creator_page_limit(Some("10")), 10);
    assert_eq!(creator_page_limit(Some("ten")), 25);
}
