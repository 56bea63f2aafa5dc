use openrouter_client::client::{NoAuth, OpenRouterClient, Ready};
use openrouter_client::error::Error;

fn no_auth(base: &str) -> OpenRouterClient<NoAuth> {
    OpenRouterClient::new().with_base_url(base).ok().unwrap()
}

fn ready(base: &str, key: &str) -> OpenRouterClient<Ready> {
    no_auth(base).with_api_key(key).ok().unwrap()
}

fn header(client_headers: &reqwest::header::HeaderMap, name: &str) -> Option<String> {
    client_headers.get(name).map(|v| v.to_str().unwrap().to_string())
}

#[test]
fn new_client_has_the_default_settings() {
    let client = OpenRouterClient::new();
    assert_eq!(client.config.api_key, None);
    assert_eq!(client.config.base_url, "https://openrouter.ai/api/v1/");
    assert_eq!(client.config.http_referer, None);
    assert_eq!(client.config.site_title, None);
    assert_eq!(client.config.timeout_ms, 30_000);
    assert!(client.http_client.is_none());
}

#[test]
fn base_url_ending_in_a_separator_is_kept() {
    let client = no_auth("https://example.com/api/v1/");
    assert_eq!(client.config.base_url, "https://example.com/api/v1/");
    assert!(client.http_client.is_none());
    assert_eq!(client.config.api_key, None);
    assert_eq!(client.config.timeout_ms, 30_000);
}

#[test]
fn base_url_is_kept_as_the_parser_writes_it() {
    let client = no_auth("HTTP://EXAMPLE.com");
    assert_eq!(client.config.base_url, "http://example.com/");
}

#[test]
fn parsed_base_url_is_taken_as_given() {
    let client = OpenRouterClient::new()
        .with_parsed_base_url(Ok("https://a.example/".to_string()))
        .ok()
        .unwrap();
    assert_eq!(client.config.base_url, "https://a.example/");
    let refused = OpenRouterClient::new().with_parsed_base_url(Err("empty host".to_string()));
    match refused {
        Err(Error::ApiError { code, message }) => {
            assert_eq!(code, 400);
            assert_eq!(message, "Invalid base URL: empty host");
        }
        _ => panic!("a refused address must give an API error"),
    }
}

#[test]
fn malformed_base_url_is_refused_with_code_400() {
    match OpenRouterClient::new().with_base_url("not a url") {
        Err(Error::ApiError { code, message }) => {
            assert_eq!(code, 400);
            assert_eq!(message, "Invalid base URL: relative URL without a base");
        }
        _ => panic!("a malformed address must give an API error"),
    }
    match OpenRouterClient::new().with_base_url("http://") {
        Err(Error::ApiError { code, message }) => {
            assert_eq!(code, 400);
            assert_eq!(message, "Invalid base URL: empty host");
        }
        _ => panic!("an address without a host must give an API error"),
    }
}

#[test]
fn setters_change_one_setting_each() {
    let client = no_auth("https://example.com/")
        .with_timeout(1_500)
        .with_http_referer("https://me.example")
        .with_site_title("My Site");
    assert_eq!(client.config.timeout_ms, 1_500);
    assert_eq!(client.config.http_referer.as_deref(), Some("https://me.example"));
    assert_eq!(client.config.site_title.as_deref(), Some("My Site"));
    assert_eq!(client.config.base_url, "https://example.com/");
    assert_eq!(client.config.api_key, None);
    assert!(client.http_client.is_none());
}

#[test]
fn api_key_makes_the_client_ready() {
    let client = ready("https://example.com/", "sk-123");
    assert_eq!(client.config.api_key.as_deref(), Some("sk-123"));
    assert_eq!(client.config.base_url, "https://example.com/");
    assert!(client.http_client.is_some());
}

#[test]
fn headers_carry_the_bearer_key() {
    let client = ready("https://example.com/", "sk-123");
    let headers = client.config.build_headers().ok().unwrap();
    assert_eq!(header(&headers, "authorization").as_deref(), Some("Bearer sk-123"));
    assert_eq!(header(&headers, "content-type").as_deref(), Some("application/json"));
    assert_eq!(header(&headers, "referer"), None);
    assert_eq!(header(&headers, "x-title"), None);
    assert_eq!(headers.len(), 2);
}

#[test]
fn headers_without_a_key_have_no_authorization() {
    let client = no_auth("https://example.com/");
    let headers = client.config.build_headers().ok().unwrap();
    assert!(!headers.contains_key("authorization"));
    assert_eq!(header(&headers, "content-type").as_deref(), Some("application/json"));
    assert_eq!(headers.len(), 1);
}

#[test]
fn referer_and_title_are_sent_in_either_order() {
    let first = no_auth("https://example.com/")
        .with_http_referer("https://me.example")
        .with_site_title("My Site")
        .with_api_key("k")
        .ok()
        .unwrap();
    let second = no_auth("https://example.com/")
        .with_site_title("My Site")
        .with_http_referer("https://me.example")
        .with_api_key("k")
        .ok()
        .unwrap();
    for client in [first, second] {
        let headers = client.config.build_headers().ok().unwrap();
        assert_eq!(header(&headers, "Referer").as_deref(), Some("https://me.example"));
        assert_eq!(header(&headers, "X-Title").as_deref(), Some("My Site"));
        assert_eq!(header(&headers, "authorization").as_deref(), Some("Bearer k"));
        assert_eq!(headers.len(), 4);
    }
}

#[test]
fn header_value_may_hold_a_tab_and_letters_beyond_ascii() {
    let client = no_auth("https://example.com/").with_site_title("caf\u{e9}\tbar");
    let headers = client.config.build_headers().ok().unwrap();
    assert_eq!(headers.get("x-title").unwrap().as_bytes(), "caf\u{e9}\tbar".as_bytes());
}

#[test]
fn invalid_header_values_are_refused() {
    let referer = no_auth("https://example.com/").with_http_referer("bad\nvalue");
    match referer.config.build_headers() {
        Err(Error::ApiError { code, message }) => {
            assert_eq!(code, 400);
            assert_eq!(message, "Invalid Referer header");
        }
        _ => panic!("a line break is no header text"),
    }
    let title = no_auth("https://example.com/").with_site_title("bad\u{7f}");
    match title.config.build_headers() {
        Err(Error::ApiError { code, message }) => {
            assert_eq!(code, 400);
            assert_eq!(message, "Invalid X-Title header");
        }
        _ => panic!("the delete character is no header text"),
    }
    let both = no_auth("https://example.com/").with_site_title("bad\u{0}").with_http_referer("\r");
    match both.config.build_headers() {
        Err(Error::ApiError { code, message }) => {
            assert_eq!(code, 400);
            assert_eq!(message, "Invalid Referer header");
        }
        _ => panic!("the referer is judged before the title"),
    }
}

#[test]
fn invalid_api_key_is_refused_and_gives_no_client() {
    match no_auth("https://example.com/").with_api_key("line\nbreak") {
        Err(Error::ApiError { code, message }) => {
            assert_eq!(code, 400);
            assert_eq!(message, "Invalid API key header");
        }
        _ => panic!("a key with a line break must be refused"),
    }
}

#[test]
fn ready_with_reports_a_transport_failure() {
    match no_auth("https://example.com/").ready_with(Err("no TLS backend".to_string())) {
        Err(Error::TransportError(message)) => assert_eq!(message, "no TLS backend"),
        _ => panic!("a failed build must give a transport error"),
    }
    let client = no_auth("https://example.com/")
        .with_timeout(10)
        .ready_with(Ok(reqwest::Client::new()))
        .ok()
        .unwrap();
    assert!(client.http_client.is_some());
    assert_eq!(client.config.timeout_ms, 10);
}

#[test]
fn chat_hands_out_the_settings() {
    let client = ready("https://example.com/", "sk-123");
    let api = client.chat();
    assert_eq!(api.config.api_key.as_deref(), Some("sk-123"));
    assert_eq!(api.config.base_url, "https://example.com/");
    assert_eq!(api.config.timeout_ms, 30_000);
}

#[test]
fn duplicate_copies_every_setting() {
    let client = no_auth("https://example.com/").with_http_referer("r").with_site_title("t");
    let copy = client.config.duplicate();
    assert_eq!(copy.api_key, None);
    assert_eq!(copy.base_url, "https://example.com/");
    assert_eq!(copy.http_referer.as_deref(), Some("r"));
    assert_eq!(copy.site_title.as_deref(), Some("t"));
    assert_eq!(copy.timeout_ms, 30_000);
}

#[test]
fn error_message_is_the_text_it_carries() {
    let api = Error::ApiError { code: 404, message: "missing".to_string() };
    assert_eq!(api.message(), "missing");
    assert_eq!(Error::SchemaValidationError("shape".to_string()).message(), "shape");
    assert_eq!(Error::TransportError("down".to_string()).message(), "down");
}

#[test]
fn headers_hold_one_value_for_each_setting() {
    let bare = OpenRouterClient::new().config.build_headers().ok().unwrap();
    assert_eq!(bare.len(), 1);
    assert_eq!(bare.keys_len(), 1);
    let keyed = ready("https://example.com/", "abc").config.build_headers().ok().unwrap();
    assert_eq!(keyed.len(), 2);
    assert_eq!(header(&keyed, "authorization").as_deref(), Some("Bearer abc"));
    assert_eq!(keyed.get_all("authorization").iter().count(), 1);
    assert_eq!(keyed.get_all("content-type").iter().count(), 1);
    let described = no_auth("https://example.com/")
        .with_http_referer("https://example.com")
        .with_site_title("My App")
        .config
        .build_headers()
        .ok()
        .unwrap();
    assert_eq!(described.len(), 3);
    assert_eq!(described.keys_len(), 3);
    assert_eq!(header(&described, "referer").as_deref(), Some("https://example.com"));
    assert_eq!(header(&described, "x-title").as_deref(), Some("My App"));
    assert_eq!(described.get_all("referer").iter().count(), 1);
    assert_eq!(described.get_all("x-title").iter().count(), 1);
    assert!(!described.contains_key("authorization"));
}
