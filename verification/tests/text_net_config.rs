//! Session titles from a first message, the network error texts and their
//! classification, the status check, and the configuration defaults.

use mewcode_client::config::{ClientConfig, DEFAULT_API_URL, DEFAULT_LOG, DEFAULT_THEME};
use mewcode_client::net::{create_error_from_net, ensure_success, CreateError, NetError};
use mewcode_client::runtime::update::session::derive_title;

#[test]
fn derived_title_collapses_whitespace_and_keeps_the_first_line() {
    assert_eq!(derive_title("  fix   the\tbuild \nand more"), "fix the build");
    assert_eq!(derive_title(""), "");
    assert_eq!(derive_title("\n\nlater"), "");
}

#[test]
fn derived_title_is_cut_at_sixty_characters() {
    let long = "word ".repeat(20);
    let t = derive_title(&long);
    assert!(t.chars().count() <= 60);
    assert!(!t.ends_with(' '));
    assert_eq!(t, "word word word word word word word word word word word word");
    let exact = "x".repeat(60);
    assert_eq!(derive_title(&exact), exact);
}

#[test]
fn success_is_any_2xx_status() {
    assert!(ensure_success(200));
    assert!(ensure_success(204));
    assert!(ensure_success(299));
    assert!(!ensure_success(199));
    assert!(!ensure_success(300));
    assert!(!ensure_success(500));
}

#[test]
fn only_a_400_is_the_empty_title_refusal() {
    let e = create_error_from_net(NetError::Status(400, "400 Bad Request".into()));
    assert_eq!(e, CreateError::EmptyTitle("server returned status 400 Bad Request".into()));
    let e = create_error_from_net(NetError::Status(422, "422 Unprocessable Entity".into()));
    assert_eq!(e, CreateError::Other("server returned status 422 Unprocessable Entity".into()));
    let e = create_error_from_net(NetError::Transport("connection refused".into()));
    assert_eq!(e, CreateError::Other("transport error: connection refused".into()));
    assert_eq!(e.message(), "transport error: connection refused");
}

#[test]
fn net_errors_describe_themselves() {
    assert_eq!(NetError::Decode("eof".into()).describe(), "decode error: eof");
    assert_eq!(NetError::Stream("reset".into()).describe(), "stream error: reset");
}

#[test]
fn configuration_falls_back_to_its_defaults() {
    let c = ClientConfig::with_defaults(None, None, None, None);
    assert_eq!(c.api_url, DEFAULT_API_URL);
    assert_eq!(c.api_url, "http://127.0.0.1:3737");
    assert_eq!(c.theme, DEFAULT_THEME);
    assert_eq!(c.log, DEFAULT_LOG);
    let c = ClientConfig::with_defaults(Some("http://x".into()), Some("glm-4.6".into()), None, Some("debug".into()));
    assert_eq!(c.api_url, "http://x");
    assert_eq!(c.default_model.as_deref(), Some("glm-4.6"));
    assert_eq!(c.log, "debug");
}
