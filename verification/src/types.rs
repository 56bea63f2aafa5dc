use vstd::prelude::*;

verus! {

/// A structured action that a reply asks for.
#[derive(Debug, Clone)]
pub struct ToolCall {
    pub id: String,
    /// The discriminator; `"function"` in every valid reply.
    pub kind: String,
    pub name: String,
    pub arguments: String,
}

/// One message of a conversation.
#[derive(Debug, Clone)]
pub struct Message {
    pub role: String,
    pub content: String,
    pub tool_calls: Option<Vec<ToolCall>>,
}

/// One alternative of a reply.
#[derive(Debug, Clone)]
pub struct Choice {
    pub message: Message,
    pub finish_reason: Option<String>,
}

/// A decoded reply to a chat-completion request.
#[derive(Debug, Clone)]
pub struct ChatCompletionResponse {
    pub id: String,
    pub model: String,
    pub choices: Vec<Choice>,
}

/// A chat-completion request: the model asked, the conversation so far, and further
/// named parameters, each with its value written as JSON text.
#[derive(Debug, Clone)]
pub struct ChatCompletionRequest {
    pub model: String,
    pub messages: Vec<Message>,
    pub extra_params: Vec<(String, String)>,
}

/// The start of a request: a model, the messages, and further named parameters, each
/// with its value written as JSON text.
#[derive(Debug, Clone)]
pub struct RequestBuilder {
    pub model: String,
    pub messages: Vec<Message>,
    pub extra_params: Vec<(String, String)>,
}

/// The kinds of the tool calls of a message, in their order; none where the message
/// carries no tool calls.
pub open spec fn message_kinds(message: Message) -> Seq<Seq<char>> {
    match message.tool_calls {
        Some(calls) => Seq::new(calls@.len(), |j: int| calls@[j].kind@),
        None => Seq::empty(),
    }
}

/// The kinds of the tool calls of a reply's choice `i`.
pub open spec fn choice_kinds(response: ChatCompletionResponse, i: int) -> Seq<Seq<char>> {
    message_kinds(response.choices@[i].message)
}

/// Every kind of the sequence is `"function"`.
pub open spec fn all_function(kinds: Seq<Seq<char>>) -> bool {
    forall|j: int| 0 <= j < kinds.len() ==> #[trigger] kinds[j] == "function"@
}

/// Call `j` of choice `i` is the first tool call of the reply, in the order of the
/// choices and then of the calls, whose kind is not `"function"`.
pub open spec fn is_first_violation(response: ChatCompletionResponse, i: int, j: int) -> bool {
    &&& 0 <= i < response.choices@.len()
    &&& 0 <= j < choice_kinds(response, i).len()
    &&& choice_kinds(response, i)[j] != "function"@
    &&& all_function(choice_kinds(response, i).take(j))
    &&& forall|k: int| 0 <= k < i ==> all_function(#[trigger] choice_kinds(response, k))
}

/// No tool call of the reply has a kind other than `"function"`.
pub open spec fn tool_calls_valid(response: ChatCompletionResponse) -> bool {
    forall|k: int|
        0 <= k < response.choices@.len() ==> all_function(#[trigger] choice_kinds(response, k))
}

/// The message for a tool call of the given kind where `"function"` was expected.
pub open spec fn invalid_kind_message(kind: Seq<char>) -> Seq<char> {
    "Invalid tool call kind: "@ + kind + ". Expected 'function'"@
}

} // verus!
