use vstd::prelude::*;
use vstd::string::{StrSliceExecFns, StringExecFns};
use reqwest::header::HeaderMap;
use crate::address::{join_url, outcome_text, url_join};
use crate::client::{OpenRouterClient, Ready};
use crate::config::{header_total, headers_of, rejected_header, ClientConfigView};
use crate::error::{Error, ErrorView};
use crate::headers::{header_count, header_fields};
use crate::types::{
    all_function, choice_kinds, invalid_kind_message, is_first_violation, tool_calls_valid,
    ChatCompletionRequest, ChatCompletionResponse,
};

verus! {

/// What the caller's side of a chat completion reports to the client.
pub enum ChatEvent {
    /// A completion of this request is asked for.
    Start(ChatCompletionRequest),
    /// The transport layer could not carry the request out; its message.
    TransportFailed(String),
    /// The service answered with this status and body.
    Reply { status: u16, body: String },
    /// The body of the reply was decoded to this.
    Decoded(ChatCompletionResponse),
    /// The body of the reply could not be decoded, for the given reason.
    Undecodable { status: u16, body: String, reason: String },
}

/// What the client decides on an event.
pub enum ChatStep {
    /// Post this request to this address with these headers, and report the reply.
    Send { url: String, headers: HeaderMap, request: ChatCompletionRequest },
    /// Decode this body, and report what came of it.
    Decode { status: u16, body: String },
    /// The completion, validated.
    Done(ChatCompletionResponse),
    /// The call has failed.
    Failed(Error),
}

/// A status that stands for success: 200 to 299.
pub open spec fn is_success_status(status: u16) -> bool {
    200 <= status < 300
}

/// The message for a path that could not be joined to the base address.
pub open spec fn join_error_message(reason: Seq<char>) -> Seq<char> {
    "URL join error: "@ + reason
}

/// A text that ends in the path separator, as a base address must for a path to be
/// joined to it.
pub open spec fn ends_in_separator(text: Seq<char>) -> bool {
    text.len() > 0 && text.last() == '/'
}

/// The address of the endpoint for a base address, given what joining the endpoint's
/// path to the base gives; or the message that says why there is none: the base does not
/// end in the separator, or the join failed.
pub open spec fn endpoint_address(base: Seq<char>, joined: Result<Seq<char>, Seq<char>>) -> Result<
    Seq<char>,
    Seq<char>,
> {
    if !ends_in_separator(base) {
        Err(join_error_message("base URL does not end in '/'"@))
    } else {
        match joined {
            Ok(address) => Ok(address),
            Err(reason) => Err(join_error_message(reason)),
        }
    }
}

/// What is owed for the address of the endpoint: the address, or code 400 with the
/// message.
pub open spec fn address_matches(owed: Result<Seq<char>, Seq<char>>, r: Result<String, Error>) -> bool {
    match owed {
        Ok(address) => r matches Ok(url) && url@ == address,
        Err(message) => r matches Err(e) && e@ == (ErrorView::ApiError { code: 400, message }),
    }
}

/// The message for a body that could not be decoded.
pub open spec fn decode_error_message(reason: Seq<char>, body: Seq<char>) -> Seq<char> {
    "Failed to decode JSON: "@ + reason + ". Body was: "@ + body
}

/// The error that a reply stands for before it is decoded, if any: its status with its
/// body where the status is no success, its status with a fixed message where the body
/// is empty.
pub open spec fn reply_error(status: u16, body: Seq<char>) -> Option<ErrorView> {
    if !is_success_status(status) {
        Some(ErrorView::ApiError { code: status, message: body })
    } else if body.len() == 0 {
        Some(ErrorView::ApiError { code: status, message: "Empty response body"@ })
    } else {
        None
    }
}

/// What is owed at the start of a completion, given the address that the join gave: the
/// request as it was given, with the address and the headers of the settings, or the
/// error of the join or of the first setting that is no header value.
pub open spec fn start_matches(
    config: ClientConfigView,
    joined: Result<Seq<char>, Seq<char>>,
    given: ChatCompletionRequest,
    step: ChatStep,
) -> bool {
    match endpoint_address(config.base_url, joined) {
        Err(message) => step matches ChatStep::Failed(e) && e@ == (ErrorView::ApiError {
            code: 400,
            message,
        }),
        Ok(address) => match rejected_header(config) {
            Some(message) => step matches ChatStep::Failed(e) && e@ == (ErrorView::ApiError {
                code: 400,
                message,
            }),
            None => step matches ChatStep::Send { url, headers, request } && url@ == address
                && header_fields(headers) == headers_of(config) && header_count(headers)
                == header_total(config) && request == given,
        },
    }
}

/// What is owed for a reply: its error, or the order to decode its body.
pub open spec fn reply_matches(status: u16, body: String, step: ChatStep) -> bool {
    match reply_error(status, body@) {
        Some(error) => step matches ChatStep::Failed(e) && e@ == error,
        None => step matches ChatStep::Decode { status: s, body: b } && s == status && b == body,
    }
}

/// What is owed for a decoded reply: the reply itself where its tool calls are valid,
/// else the error that names the kind of the first invalid one.
pub open spec fn decoded_matches(response: ChatCompletionResponse, step: ChatStep) -> bool {
    if tool_calls_valid(response) {
        step matches ChatStep::Done(r) && r == response
    } else {
        step matches ChatStep::Failed(e) && violation_reported(response, e)
    }
}

/// The error names the kind of the first invalid tool call of the reply.
pub open spec fn violation_reported(response: ChatCompletionResponse, e: Error) -> bool {
    exists|i: int, j: int| #[trigger]
        is_first_violation(response, i, j) && e@ == ErrorView::SchemaValidationError(
            invalid_kind_message(choice_kinds(response, i)[j]),
        )
}

/// Whether a text ends in the path separator.
pub fn has_trailing_separator(text: &str) -> (b: bool)
    ensures
        b == ends_in_separator(text@),
{
    let n = text.unicode_len();
    n > 0 && text.get_char(n - 1) == '/'
}

/// Whether a status stands for success.
pub fn is_success(status: u16) -> (b: bool)
    ensures
        b == is_success_status(status),
{
    200 <= status && status < 300
}

impl OpenRouterClient<Ready> {
    /// The address of the chat-completion endpoint: the path `chat/completions` joined
    /// to the base address. A base that does not end in the separator is refused, as is
    /// one that the path cannot be joined to, each with code 400.
    pub fn request_url(&self) -> (r: Result<String, Error>)
        ensures
            address_matches(
                endpoint_address(
                    self.config.base_url@,
                    url_join(self.config.base_url@, "chat/completions"@),
                ),
                r,
            ),
    {
        let base = self.config.base_url.as_str();
        Self::joined_url(base, join_url(base, "chat/completions"))
    }

    /// The outcome of [`Self::request_url`] for a base address, given what the join
    /// gave.
    pub fn joined_url(base: &str, joined: Result<String, String>) -> (r: Result<String, Error>)
        ensures
            address_matches(endpoint_address(base@, outcome_text(joined)), r),
    {
        if !has_trailing_separator(base) {
            let message = String::from_str("URL join error: ").concat(
                "base URL does not end in '/'",
            );
            return Err(Error::ApiError { code: 400, message });
        }
        match joined {
            Ok(url) => Ok(url),
            Err(reason) => {
                let message = String::from_str("URL join error: ").concat(reason.as_str());
                Err(Error::ApiError { code: 400, message })
            },
        }
    }

    /// Judges a reply before it is decoded: the body to decode, or the error that the
    /// reply stands for. Only a body of no characters at all is empty; one of white space
    /// is handed on to be decoded.
    pub fn handle_response(&self, status: u16, body: String) -> (r: Result<String, Error>)
        ensures
            match reply_error(status, body@) {
                Some(error) => r matches Err(e) && e@ == error,
                None => r == Ok::<String, Error>(body),
            },
    {
        if !is_success(status) {
            Err(Error::ApiError { code: status, message: body })
        } else if body.as_str().is_empty() {
            Err(Error::ApiError { code: status, message: String::from_str("Empty response body") })
        } else {
            Ok(body)
        }
    }

    /// The error for a body that could not be decoded: the status of the reply, and a
    /// message that holds the decoder's reason and the whole body.
    pub fn decode_failure(status: u16, reason: &str, body: &str) -> (e: Error)
        ensures
            e@ == (ErrorView::ApiError {
                code: status,
                message: decode_error_message(reason@, body@),
            }),
    {
        let message = String::from_str("Failed to decode JSON: ").concat(reason).concat(
            ". Body was: ",
        ).concat(body);
        Error::ApiError { code: status, message }
    }

    /// Checks that every tool call of the reply has the kind `"function"`, going through
    /// the choices and their calls in order and stopping at the first that has not.
    pub fn validate_tool_calls(&self, response: &ChatCompletionResponse) -> (r: Result<(), Error>)
        ensures
            match r {
                Ok(()) => tool_calls_valid(*response),
                Err(e) => !tool_calls_valid(*response) && violation_reported(*response, e),
            },
    {
        let expected = String::from_str("function");
        let mut i: usize = 0;
        while i < response.choices.len()
            invariant
                i <= response.choices@.len(),
                expected@ == "function"@,
                forall|k: int| 0 <= k < i ==> all_function(#[trigger] choice_kinds(*response, k)),
            decreases response.choices@.len() - i,
        {
            if let Some(calls) = &response.choices[i].message.tool_calls {
                let mut j: usize = 0;
                while j < calls.len()
                    invariant
                        i < response.choices@.len(),
                        j <= calls@.len(),
                        expected@ == "function"@,
                        response.choices@[i as int].message.tool_calls == Some(*calls),
                        all_function(choice_kinds(*response, i as int).take(j as int)),
                        forall|k: int|
                            0 <= k < i ==> all_function(#[trigger] choice_kinds(*response, k)),
                    decreases calls@.len() - j,
                {
                    if !(calls[j].kind == expected) {
                        let message = String::from_str("Invalid tool call kind: ").concat(
                            calls[j].kind.as_str(),
                        ).concat(". Expected 'function'");
                        assert(is_first_violation(*response, i as int, j as int));
                        return Err(Error::SchemaValidationError(message));
                    }
                    assert(choice_kinds(*response, i as int).take(j + 1)
                        =~= choice_kinds(*response, i as int).take(j as int).push(calls@[j as int].kind@));
                    j += 1;
                }
                assert(choice_kinds(*response, i as int).take(j as int)
                    =~= choice_kinds(*response, i as int));
            }
            i += 1;
        }
        Ok(())
    }

    /// One step of a chat completion. The caller starts it, posts what it is told to
    /// post, has the body decoded when told so, and reports each outcome; the client
    /// decides what comes next. Its headers are built anew from the settings at the
    /// start of each completion.
    pub fn chat_completion(&self, event: ChatEvent) -> (step: ChatStep)
        ensures
            match event {
                ChatEvent::Start(request) => start_matches(
                    self.config@,
                    url_join(self.config.base_url@, "chat/completions"@),
                    request,
                    step,
                ),
                ChatEvent::TransportFailed(message) => step matches ChatStep::Failed(e) && e@
                    == ErrorView::TransportError(message@),
                ChatEvent::Reply { status, body } => reply_matches(status, body, step),
                ChatEvent::Decoded(response) => decoded_matches(response, step),
                ChatEvent::Undecodable { status, body, reason } => step matches ChatStep::Failed(e)
                    && e@ == (ErrorView::ApiError {
                    code: status,
                    message: decode_error_message(reason@, body@),
                }),
            },
    {
        match event {
            ChatEvent::Start(request) => match self.request_url() {
                Ok(url) => match self.config.build_headers() {
                    Ok(headers) => ChatStep::Send { url, headers, request },
                    Err(e) => ChatStep::Failed(e),
                },
                Err(e) => ChatStep::Failed(e),
            },
            ChatEvent::TransportFailed(message) => ChatStep::Failed(Error::TransportError(message)),
            ChatEvent::Reply { status, body } => match self.handle_response(status, body) {
                Ok(body) => ChatStep::Decode { status, body },
                Err(e) => ChatStep::Failed(e),
            },
            ChatEvent::Decoded(response) => match self.validate_tool_calls(&response) {
                Ok(()) => ChatStep::Done(response),
                Err(e) => ChatStep::Failed(e),
            },
            ChatEvent::Undecodable { status, body, reason } => ChatStep::Failed(
                Self::decode_failure(status, reason.as_str(), body.as_str()),
            ),
        }
    }
}

} // verus!
