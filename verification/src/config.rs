use vstd::prelude::*;
use vstd::string::StringExecFns;
use reqwest::header::HeaderMap;
use crate::error::{Error, ErrorView};
use crate::headers::{
    empty_fields, field_value, header_count, header_fields, insert_field, is_field_text,
    no_fields,
};

verus! {

/// The settings of a client.
#[derive(Debug, Clone)]
pub struct ClientConfig {
    /// The secret that authenticates the caller, once it is given.
    pub api_key: Option<String>,
    /// The address that request paths are joined to, as the text of a parsed address.
    pub base_url: String,
    /// The value of the `Referer` header, if one is sent.
    pub http_referer: Option<String>,
    /// The value of the `X-Title` header, if one is sent.
    pub site_title: Option<String>,
    /// How long a request may take, in milliseconds.
    pub timeout_ms: u64,
}

/// The mathematical value of a [`ClientConfig`].
pub struct ClientConfigView {
    pub api_key: Option<Seq<char>>,
    pub base_url: Seq<char>,
    pub http_referer: Option<Seq<char>>,
    pub site_title: Option<Seq<char>>,
    pub timeout_ms: u64,
}

/// The view of a text that may be missing.
pub open spec fn text_of(text: Option<String>) -> Option<Seq<char>> {
    match text {
        Some(t) => Some(t@),
        None => None,
    }
}

impl View for ClientConfig {
    type V = ClientConfigView;

    open spec fn view(&self) -> ClientConfigView {
        ClientConfigView {
            api_key: text_of(self.api_key),
            base_url: self.base_url@,
            http_referer: text_of(self.http_referer),
            site_title: text_of(self.site_title),
            timeout_ms: self.timeout_ms,
        }
    }
}

/// The value of the authorization header for a key: the word `Bearer`, a space, the key.
pub open spec fn bearer(key: Seq<char>) -> Seq<char> {
    "Bearer "@ + key
}

/// Which header the settings cannot give, if any: the first, in the order key, referer,
/// title, whose text is not valid as a header value.
pub open spec fn rejected_header(config: ClientConfigView) -> Option<Seq<char>> {
    if config.api_key is Some && !is_field_text(bearer(config.api_key->Some_0)) {
        Some("Invalid API key header"@)
    } else if config.http_referer is Some && !is_field_text(config.http_referer->Some_0) {
        Some("Invalid Referer header"@)
    } else if config.site_title is Some && !is_field_text(config.site_title->Some_0) {
        Some("Invalid X-Title header"@)
    } else {
        None
    }
}

/// The headers that the settings give: the authorization where a key is set, the content
/// type always, the referer and the title where they are set.
pub open spec fn headers_of(config: ClientConfigView) -> Map<Seq<char>, Seq<char>> {
    let with_key = match config.api_key {
        Some(key) => no_fields().insert("authorization"@, bearer(key)),
        None => no_fields(),
    };
    let with_type = with_key.insert("content-type"@, "application/json"@);
    let with_referer = match config.http_referer {
        Some(referer) => with_type.insert("referer"@, referer),
        None => with_type,
    };
    match config.site_title {
        Some(title) => with_referer.insert("x-title"@, title),
        None => with_referer,
    }
}

/// How many headers the settings give: the content type, and one more for each of key,
/// referer and title that is set.
pub open spec fn header_total(config: ClientConfigView) -> nat {
    1 + (if config.api_key is Some { 1nat } else { 0nat })
        + (if config.http_referer is Some { 1nat } else { 0nat })
        + (if config.site_title is Some { 1nat } else { 0nat })
}

/// The error for a setting that was refused: code 400 with the given message.
fn rejected(message: &str) -> (e: Error)
    ensures
        e@ == (ErrorView::ApiError { code: 400, message: message@ }),
{
    Error::ApiError { code: 400, message: String::from_str(message) }
}

impl ClientConfig {
    /// Builds the headers that every request carries, one value under each name, or says
    /// which setting is no valid header value.
    pub fn build_headers(&self) -> (r: Result<HeaderMap, Error>)
        ensures
            match r {
                Ok(headers) => {
                    &&& rejected_header(self@) is None
                    &&& header_fields(headers) == headers_of(self@)
                    &&& header_count(headers) == header_total(self@)
                },
                Err(e) => rejected_header(self@) is Some && e@ == (ErrorView::ApiError {
                    code: 400,
                    message: rejected_header(self@)->Some_0,
                }),
            },
    {
        proof {
            reveal_strlit("authorization");
            reveal_strlit("content-type");
            reveal_strlit("referer");
            reveal_strlit("x-title");
            reveal_strlit("application/json");
            assert("authorization"@.len() == 13);
            assert("content-type"@.len() == 12);
            assert("referer"@.len() == 7);
            assert("x-title"@.len() == 7);
            assert("referer"@[0] == 'r');
            assert("x-title"@[0] == 'x');
        }
        let mut headers = empty_fields();
        if let Some(key) = &self.api_key {
            let text = String::from_str("Bearer ").concat(key.as_str());
            match field_value(text.as_str()) {
                Some(value) => insert_field(&mut headers, "authorization", value),
                None => {
                    return Err(rejected("Invalid API key header"));
                },
            }
        }
        insert_field(&mut headers, "content-type", field_value("application/json").unwrap());
        if let Some(referer) = &self.http_referer {
            match field_value(referer.as_str()) {
                Some(value) => insert_field(&mut headers, "referer", value),
                None => {
                    return Err(rejected("Invalid Referer header"));
                },
            }
        }
        if let Some(title) = &self.site_title {
            match field_value(title.as_str()) {
                Some(value) => insert_field(&mut headers, "x-title", value),
                None => {
                    return Err(rejected("Invalid X-Title header"));
                },
            }
        }
        Ok(headers)
    }
}

} // verus!
