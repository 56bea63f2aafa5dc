use vstd::prelude::*;
use vstd::string::StringExecFns;
use std::marker::PhantomData;
use crate::address::{outcome_text, parse_url, url_parse};
use crate::config::{rejected_header, ClientConfig, ClientConfigView};
use crate::error::{Error, ErrorView};
use crate::transport::{build_transport, share_transport};
use crate::types::{Message, RequestBuilder};

verus! {

/// The stage of a client that has only been created.
pub struct Unconfigured;

/// The stage of a client whose base address is set and whose key is not.
pub struct NoAuth;

/// The stage of a client that can send requests.
pub struct Ready;

/// A client of the chat-completion service, in the stage that `State` names.
pub struct OpenRouterClient<State = Unconfigured> {
    pub config: ClientConfig,
    pub http_client: Option<reqwest::Client>,
    pub _state: PhantomData<State>,
}

/// What an endpoint of the service works with: a handle on the client's transport and a
/// copy of its settings.
pub struct ChatApi {
    pub client: reqwest::Client,
    pub config: ClientConfig,
}

/// The settings of a new client: the service's own address, a timeout of thirty
/// seconds, and nothing else.
pub open spec fn default_config() -> ClientConfigView {
    ClientConfigView {
        api_key: None,
        base_url: "https://openrouter.ai/api/v1/"@,
        http_referer: None,
        site_title: None,
        timeout_ms: 30_000,
    }
}

/// The message for a base address that the parser refused for the given reason.
pub open spec fn invalid_base_message(reason: Seq<char>) -> Seq<char> {
    "Invalid base URL: "@ + reason
}

/// A copy of a text that may be missing.
fn copy_text(text: &Option<String>) -> (copy: Option<String>)
    ensures
        copy == *text,
{
    match text {
        Some(t) => Some(t.clone()),
        None => None,
    }
}

impl ClientConfig {
    /// A copy of the settings.
    pub fn duplicate(&self) -> (copy: ClientConfig)
        ensures
            copy == *self,
    {
        ClientConfig {
            api_key: copy_text(&self.api_key),
            base_url: self.base_url.clone(),
            http_referer: copy_text(&self.http_referer),
            site_title: copy_text(&self.site_title),
            timeout_ms: self.timeout_ms,
        }
    }
}

impl OpenRouterClient<Unconfigured> {
    /// A client in its first stage, with the default settings and no transport handle.
    pub fn new() -> (client: Self)
        ensures
            client.config@ == default_config(),
            client.http_client is None,
    {
        OpenRouterClient {
            config: ClientConfig {
                api_key: None,
                base_url: String::from_str("https://openrouter.ai/api/v1/"),
                http_referer: None,
                site_title: None,
                timeout_ms: 30_000,
            },
            http_client: None,
            _state: PhantomData,
        }
    }

    /// Sets the base address and moves to the stage without a key. The text must parse
    /// as an absolute address; the address kept is the parsed one, written out. A text
    /// that does not parse is refused with code 400 and the parser's reason.
    pub fn with_base_url(self, base_url: &str) -> (r: Result<OpenRouterClient<NoAuth>, Error>)
        ensures
            match url_parse(base_url@) {
                Ok(address) => r matches Ok(client) && client.http_client is None
                    && client.config@ == (ClientConfigView { base_url: address, ..self.config@ }),
                Err(reason) => r matches Err(e) && e@ == (ErrorView::ApiError {
                    code: 400,
                    message: invalid_base_message(reason),
                }),
            },
    {
        let parsed = parse_url(base_url);
        self.with_parsed_base_url(parsed)
    }

    /// The transition of [`Self::with_base_url`], given what the parser made of the
    /// text.
    pub fn with_parsed_base_url(self, parsed: Result<String, String>) -> (r: Result<
        OpenRouterClient<NoAuth>,
        Error,
    >)
        ensures
            match outcome_text(parsed) {
                Ok(address) => r matches Ok(client) && client.http_client is None
                    && client.config@ == (ClientConfigView { base_url: address, ..self.config@ }),
                Err(reason) => r matches Err(e) && e@ == (ErrorView::ApiError {
                    code: 400,
                    message: invalid_base_message(reason),
                }),
            },
    {
        match parsed {
            Ok(address) => {
                let mut client = self;
                client.config.base_url = address;
                Ok(client.transition_to_no_auth())
            },
            Err(reason) => {
                let message = String::from_str("Invalid base URL: ").concat(reason.as_str());
                Err(Error::ApiError { code: 400, message })
            },
        }
    }

    fn transition_to_no_auth(self) -> (client: OpenRouterClient<NoAuth>)
        ensures
            client.config == self.config,
            client.http_client is None,
    {
        OpenRouterClient { config: self.config, http_client: None, _state: PhantomData }
    }
}

impl OpenRouterClient<NoAuth> {
    /// Stores the key and moves to the usable stage, building the transport handle with
    /// the timeout and the headers of the settings. Settings that give no valid header
    /// are refused with code 400; a transport layer that cannot start is reported as a
    /// transport error.
    pub fn with_api_key(self, api_key: &str) -> (r: Result<OpenRouterClient<Ready>, Error>)
        ensures
            match r {
                Ok(client) => {
                    &&& client.wf()
                    &&& client.config@ == with_key(self.config@, api_key@)
                    &&& rejected_header(client.config@) is None
                },
                Err(e) => match rejected_header(with_key(self.config@, api_key@)) {
                    Some(message) => e@ == (ErrorView::ApiError { code: 400, message }),
                    None => e@ is TransportError,
                },
            },
    {
        let mut client = self;
        client.config.api_key = Some(String::from_str(api_key));
        client.transition_to_ready()
    }

    /// Sets the time a request may take, in milliseconds.
    pub fn with_timeout(self, timeout_ms: u64) -> (client: Self)
        ensures
            client.config@ == (ClientConfigView { timeout_ms, ..self.config@ }),
            client.http_client == self.http_client,
    {
        let mut client = self;
        client.config.timeout_ms = timeout_ms;
        client
    }

    /// Sets the value of the `Referer` header.
    pub fn with_http_referer(self, referer: &str) -> (client: Self)
        ensures
            client.config@ == with_referer(self.config@, referer@),
            client.http_client == self.http_client,
    {
        let mut client = self;
        client.config.http_referer = Some(String::from_str(referer));
        client
    }

    /// Sets the value of the `X-Title` header.
    pub fn with_site_title(self, title: &str) -> (client: Self)
        ensures
            client.config@ == with_title(self.config@, title@),
            client.http_client == self.http_client,
    {
        let mut client = self;
        client.config.site_title = Some(String::from_str(title));
        client
    }

    fn transition_to_ready(self) -> (r: Result<OpenRouterClient<Ready>, Error>)
        ensures
            match r {
                Ok(client) => {
                    &&& client.wf()
                    &&& client.config == self.config
                    &&& rejected_header(self.config@) is None
                },
                Err(e) => match rejected_header(self.config@) {
                    Some(message) => e@ == (ErrorView::ApiError { code: 400, message }),
                    None => e@ is TransportError,
                },
            },
    {
        match self.config.build_headers() {
            Ok(headers) => {
                let built = build_transport(self.config.timeout_ms, headers);
                self.ready_with(built)
            },
            Err(e) => Err(e),
        }
    }

    /// The last step to the usable stage, given what building the transport handle
    /// gave: the client with that handle, or a transport error with the given message.
    pub fn ready_with(self, built: Result<reqwest::Client, String>) -> (r: Result<
        OpenRouterClient<Ready>,
        Error,
    >)
        ensures
            match built {
                Ok(transport) => r matches Ok(client) && client.config == self.config
                    && client.http_client == Some(transport),
                Err(message) => r matches Err(e) && e@ == ErrorView::TransportError(message@),
            },
    {
        match built {
            Ok(transport) => Ok(
                OpenRouterClient {
                    config: self.config,
                    http_client: Some(transport),
                    _state: PhantomData,
                },
            ),
            Err(message) => Err(Error::TransportError(message)),
        }
    }
}

/// The settings with the key set.
pub open spec fn with_key(config: ClientConfigView, key: Seq<char>) -> ClientConfigView {
    ClientConfigView { api_key: Some(key), ..config }
}

/// The settings with the referer set.
pub open spec fn with_referer(config: ClientConfigView, referer: Seq<char>) -> ClientConfigView {
    ClientConfigView { http_referer: Some(referer), ..config }
}

/// The settings with the site title set.
pub open spec fn with_title(config: ClientConfigView, title: Seq<char>) -> ClientConfigView {
    ClientConfigView { site_title: Some(title), ..config }
}

impl OpenRouterClient<Ready> {
    /// A usable client holds its transport handle.
    pub open spec fn wf(&self) -> bool {
        self.http_client is Some
    }

    /// What the chat endpoint works with: a handle on this client's transport and a copy
    /// of its settings.
    pub fn chat(&self) -> (api: ChatApi)
        requires
            self.wf(),
        ensures
            api.config == self.config,
    {
        ChatApi {
            client: share_transport(self.http_client.as_ref().unwrap()),
            config: self.config.duplicate(),
        }
    }

    /// The start of a completion request: the default model, the given messages, and no
    /// further parameters.
    pub fn completion_request(&self, messages: Vec<Message>) -> (builder: RequestBuilder)
        ensures
            builder.model@ == "openai/gpt-4"@,
            builder.messages == messages,
            builder.extra_params@.len() == 0,
    {
        RequestBuilder {
            model: String::from_str("openai/gpt-4"),
            messages,
            extra_params: Vec::new(),
        }
    }
}

} // verus!
